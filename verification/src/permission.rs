//! The ordered permission tiers that guard a route.
use vstd::prelude::*;

verus! {

/// The permission tier of a role.  The tiers are ordered: `User` is the
/// lowest, `Admin` the ceiling.
#[derive(Debug, Clone, Copy, PartialEq, Eq, Structural, PartialOrd, Ord, Hash)]
pub enum PermissionLevel {
    User,
    Supervisor,
    Admin,
}

/// The row that the role join yields for a token: the numeric tier of the
/// owner's role as the store holds it.
#[derive(Debug, Clone, Copy, PartialEq, Eq, Structural)]
pub struct PermissionLevelStruct {
    pub PermissionLevel: i8,
}

impl PermissionLevel {
    /// The numeric value of the tier, by which tiers are compared.
    pub open spec fn rank(self) -> int {
        match self {
            PermissionLevel::User => 0,
            PermissionLevel::Supervisor => 1,
            PermissionLevel::Admin => 2,
        }
    }

    /// The tier that a stored numeric tier stands for.  A number outside the
    /// known tiers stands for the lowest tier, never for a higher one.
    pub open spec fn of(tier: i8) -> PermissionLevel {
        if tier == 1 {
            PermissionLevel::Supervisor
        } else if tier == 2 {
            PermissionLevel::Admin
        } else {
            PermissionLevel::User
        }
    }

    /// Whether a holder of this tier may pass a route that asks for
    /// `required`.
    pub open spec fn covers(self, required: PermissionLevel) -> bool {
        self.rank() >= required.rank()
    }

    pub fn value(&self) -> (n: i8)
        ensures
            n == self.rank(),
    {
        match self {
            PermissionLevel::User => 0,
            PermissionLevel::Supervisor => 1,
            PermissionLevel::Admin => 2,
        }
    }

    pub fn fromTier(tier: i8) -> (level: PermissionLevel)
        ensures
            level == PermissionLevel::of(tier),
    {
        if tier == 1 {
            PermissionLevel::Supervisor
        } else if tier == 2 {
            PermissionLevel::Admin
        } else {
            PermissionLevel::User
        }
    }

    pub fn atLeast(&self, required: PermissionLevel) -> (yes: bool)
        ensures
            yes == self.covers(required),
    {
        self.value() >= required.value()
    }
}

/// A stored tier that names a known tier is read back as that tier.
pub proof fn theorem_tier_reads_back(level: PermissionLevel)
    ensures
        PermissionLevel::of(level.rank() as i8) == level,
{
}

/// The tiers are totally ordered by `covers`: it is reflexive and
/// transitive, any two tiers are comparable, two tiers that cover each other
/// are the same tier, `Admin` covers every tier and every tier covers `User`.
pub proof fn theorem_tiers_are_totally_ordered(a: PermissionLevel, b: PermissionLevel, c: PermissionLevel)
    ensures
        a.covers(a),
        a.covers(b) && b.covers(c) ==> a.covers(c),
        a.covers(b) || b.covers(a),
        a.covers(b) && b.covers(a) ==> a == b,
        PermissionLevel::Admin.covers(a),
        a.covers(PermissionLevel::User),
{
}

/// No stored number reads back as a tier above `Admin`, and every number
/// other than one and two reads back as `User`.
pub proof fn theorem_unknown_tier_is_lowest(tier: i8)
    ensures
        PermissionLevel::Admin.covers(PermissionLevel::of(tier)),
        tier != 1 && tier != 2 ==> PermissionLevel::of(tier) == PermissionLevel::User,
{
}

} // verus!
