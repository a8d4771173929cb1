//! The store as a mathematical value: four tables, what makes them
//! consistent, what each query yields and what each write leaves behind.
//!
//! Everything here is specification.  The executable store implements it,
//! and the laws of the service are proved over it.
use vstd::prelude::*;
use crate::failure::{violation, StoreFailureView, ViolationKind};
use crate::models::{
    TokenView, UserChange, UserRoleView, UserRowView, UserView, ZipCodeChange, ZipCodeView,
    TOKEN_TYPE_ACCESS,
};

verus! {

/// The constraints of the schema that a write can violate.
pub enum Constraint {
    /// The key of a role is unique.
    RoleKey,
    /// The key of an identity is unique.
    UserKey,
    /// The name of an identity is unique.
    UserName,
    /// The role of an identity exists.
    UserRole,
    /// No two tokens of one kind have the same digest.
    TokenDigest,
    /// The owner of a token exists.
    TokenOwner,
    /// An identity that owns tokens stays.
    OwnedTokens,
    /// The key of a zip code is unique.
    ZipCodeKey,
}

impl Constraint {
    pub open spec fn kind(self) -> ViolationKind {
        match self {
            Constraint::UserRole => ViolationKind::ForeignKey,
            Constraint::TokenOwner => ViolationKind::ForeignKey,
            Constraint::OwnedTokens => ViolationKind::ForeignKey,
            _ => ViolationKind::Unique,
        }
    }

    /// The database's message about the violated constraint.
    pub open spec fn message(self) -> Seq<char> {
        match self {
            Constraint::RoleKey => "Duplicate entry for key 'UserRole.PRIMARY'"@,
            Constraint::UserKey => "Duplicate entry for key 'User.PRIMARY'"@,
            Constraint::UserName => "Duplicate entry for key 'User.Username'"@,
            Constraint::UserRole =>
                "Cannot add or update a child row: a foreign key constraint fails (`User`, CONSTRAINT `User_ibfk_1` FOREIGN KEY (`FK_UserRole`) REFERENCES `UserRole` (`Id`))"@,
            Constraint::TokenDigest => "Duplicate entry for key 'Token.Token'"@,
            Constraint::TokenOwner =>
                "Cannot add or update a child row: a foreign key constraint fails (`Token`, CONSTRAINT `Token_ibfk_1` FOREIGN KEY (`FK_User`) REFERENCES `User` (`Id`))"@,
            Constraint::OwnedTokens =>
                "Cannot delete or update a parent row: a foreign key constraint fails (`Token`, CONSTRAINT `Token_ibfk_1` FOREIGN KEY (`FK_User`) REFERENCES `User` (`Id`))"@,
            Constraint::ZipCodeKey => "Duplicate entry for key 'ZipCode.PRIMARY'"@,
        }
    }

    /// The failure that reports the violated constraint.
    pub open spec fn failure(self) -> StoreFailureView {
        violation(self.kind(), self.message())
    }
}

/// The position of the first role among those of the highest tier.
pub open spec fn highest_role(roles: Seq<UserRoleView>) -> int
    decreases roles.len(),
{
    if roles.len() <= 1 {
        0
    } else {
        let before = highest_role(roles.drop_last());
        if roles.last().PermissionLevel > roles[before].PermissionLevel {
            roles.len() - 1
        } else {
            before
        }
    }
}

// ----- rows by their keys -----
pub open spec fn role_at(roles: Seq<UserRoleView>, i: int, id: Seq<char>) -> bool {
    0 <= i < roles.len() && roles[i].UserRoleId == id
}

pub open spec fn user_at(users: Seq<UserRowView>, i: int, id: Seq<char>) -> bool {
    0 <= i < users.len() && users[i].Id == id
}

pub open spec fn name_at(users: Seq<UserRowView>, i: int, name: Seq<char>) -> bool {
    0 <= i < users.len() && users[i].Username == name
}

pub open spec fn token_at(tokens: Seq<TokenView>, i: int, kind: i8, digest: Seq<char>) -> bool {
    0 <= i < tokens.len() && tokens[i].Type == kind && tokens[i].Token == digest
}

pub open spec fn owned_at(tokens: Seq<TokenView>, i: int, owner: Seq<char>) -> bool {
    0 <= i < tokens.len() && tokens[i].FK_User == owner
}

pub open spec fn zip_code_at(zipCodes: Seq<ZipCodeView>, i: int, id: Seq<char>) -> bool {
    0 <= i < zipCodes.len() && zipCodes[i].ZipCodeId == id
}

pub open spec fn has_role(roles: Seq<UserRoleView>, id: Seq<char>) -> bool {
    exists|i: int| role_at(roles, i, id)
}

pub open spec fn has_user(users: Seq<UserRowView>, id: Seq<char>) -> bool {
    exists|i: int| user_at(users, i, id)
}

pub open spec fn has_name(users: Seq<UserRowView>, name: Seq<char>) -> bool {
    exists|i: int| name_at(users, i, name)
}

pub open spec fn has_token(tokens: Seq<TokenView>, kind: i8, digest: Seq<char>) -> bool {
    exists|i: int| token_at(tokens, i, kind, digest)
}

pub open spec fn owns_tokens(tokens: Seq<TokenView>, owner: Seq<char>) -> bool {
    exists|i: int| owned_at(tokens, i, owner)
}

pub open spec fn has_zip_code(zipCodes: Seq<ZipCodeView>, id: Seq<char>) -> bool {
    exists|i: int| zip_code_at(zipCodes, i, id)
}

pub open spec fn role_index(roles: Seq<UserRoleView>, id: Seq<char>) -> int {
    choose|i: int| role_at(roles, i, id)
}

pub open spec fn user_index(users: Seq<UserRowView>, id: Seq<char>) -> int {
    choose|i: int| user_at(users, i, id)
}

pub open spec fn name_index(users: Seq<UserRowView>, name: Seq<char>) -> int {
    choose|i: int| name_at(users, i, name)
}

pub open spec fn token_index(tokens: Seq<TokenView>, kind: i8, digest: Seq<char>) -> int {
    choose|i: int| token_at(tokens, i, kind, digest)
}

pub open spec fn zip_code_index(zipCodes: Seq<ZipCodeView>, id: Seq<char>) -> int {
    choose|i: int| zip_code_at(zipCodes, i, id)
}

// ----- the constraints -----
pub open spec fn unique_roles(roles: Seq<UserRoleView>) -> bool {
    forall|i: int, j: int, id: Seq<char>| role_at(roles, i, id) && role_at(roles, j, id) ==> i == j
}

pub open spec fn unique_users(users: Seq<UserRowView>) -> bool {
    forall|i: int, j: int, id: Seq<char>| user_at(users, i, id) && user_at(users, j, id) ==> i == j
}

pub open spec fn unique_names(users: Seq<UserRowView>) -> bool {
    forall|i: int, j: int, name: Seq<char>|
        name_at(users, i, name) && name_at(users, j, name) ==> i == j
}

pub open spec fn unique_tokens(tokens: Seq<TokenView>) -> bool {
    forall|i: int, j: int, kind: i8, digest: Seq<char>|
        token_at(tokens, i, kind, digest) && token_at(tokens, j, kind, digest) ==> i == j
}

pub open spec fn unique_zip_codes(zipCodes: Seq<ZipCodeView>) -> bool {
    forall|i: int, j: int, id: Seq<char>|
        zip_code_at(zipCodes, i, id) && zip_code_at(zipCodes, j, id) ==> i == j
}

pub open spec fn users_have_roles(users: Seq<UserRowView>, roles: Seq<UserRoleView>) -> bool {
    forall|i: int| 0 <= i < users.len() ==> has_role(roles, #[trigger] users[i].FK_UserRole)
}

pub open spec fn tokens_have_owners(tokens: Seq<TokenView>, users: Seq<UserRowView>) -> bool {
    forall|i: int| 0 <= i < tokens.len() ==> has_user(users, #[trigger] tokens[i].FK_User)
}

/// Whether a token row is valid at `now`: its validity ends strictly after
/// `now`.
pub open spec fn valid_at(row: TokenView, now: u64) -> bool {
    row.DateEnd > now
}

/// The four tables.
#[verifier::ext_equal]
pub struct StoreView {
    pub roles: Seq<UserRoleView>,
    pub users: Seq<UserRowView>,
    pub tokens: Seq<TokenView>,
    pub zipCodes: Seq<ZipCodeView>,
}

impl StoreView {
    pub open spec fn empty() -> StoreView {
        StoreView {
            roles: Seq::empty(),
            users: Seq::empty(),
            tokens: Seq::empty(),
            zipCodes: Seq::empty(),
        }
    }

    /// The tables are consistent: keys and names are unique, no two tokens
    /// of one kind share a digest, every identity has its role and every
    /// token its owner.
    pub open spec fn wf(self) -> bool {
        &&& unique_roles(self.roles)
        &&& unique_users(self.users)
        &&& unique_names(self.users)
        &&& unique_tokens(self.tokens)
        &&& unique_zip_codes(self.zipCodes)
        &&& users_have_roles(self.users, self.roles)
        &&& tokens_have_owners(self.tokens, self.users)
    }

    // ----- queries -----
    /// The role with the given key.
    pub open spec fn role(self, id: Seq<char>) -> UserRoleView {
        self.roles[role_index(self.roles, id)]
    }

    /// The identity with the given key.
    pub open spec fn user(self, id: Seq<char>) -> UserRowView {
        self.users[user_index(self.users, id)]
    }

    /// The credential row of the identity with the given name.
    pub open spec fn credentials(self, name: Seq<char>) -> Option<UserRowView> {
        if has_name(self.users, name) {
            Some(self.users[name_index(self.users, name)])
        } else {
            None
        }
    }

    /// The token of the given kind and digest, valid or not.
    pub open spec fn token(self, kind: i8, digest: Seq<char>) -> TokenView {
        self.tokens[token_index(self.tokens, kind, digest)]
    }

    /// The token of the given kind and digest that is valid at `now`: its
    /// validity ends strictly after `now`.
    pub open spec fn live_token(self, kind: i8, digest: Seq<char>, now: u64) -> Option<TokenView> {
        if has_token(self.tokens, kind, digest) && valid_at(self.token(kind, digest), now) {
            Some(self.token(kind, digest))
        } else {
            None
        }
    }

    /// The numeric tier of the role that the identity owns now.
    pub open spec fn tier_of(self, owner: Seq<char>) -> i8 {
        self.role(self.user(owner).FK_UserRole).PermissionLevel
    }

    /// The numeric tier that an access token resolves to at `now`: the
    /// current tier of the owner of the valid access token with that digest.
    pub open spec fn resolve(self, digest: Seq<char>, now: u64) -> Option<i8> {
        match self.live_token(TOKEN_TYPE_ACCESS, digest, now) {
            Some(token) => Some(self.tier_of(token.FK_User)),
            None => None,
        }
    }

    /// An identity joined with its role.
    pub open spec fn joined(self, row: UserRowView) -> UserView {
        UserView {
            UserId: row.Id,
            Username: row.Username,
            Name: row.Name,
            Surname: row.Surname,
            Password: row.Password,
            DateCreated: row.DateCreated,
            UserRole: self.role(row.FK_UserRole),
        }
    }

    /// Every identity joined with its role, in the order of the table.
    pub open spec fn all_users(self) -> Seq<UserView> {
        Seq::new(self.users.len(), |i: int| self.joined(self.users[i]))
    }

    /// The identities with the given key, joined with their roles: one or
    /// none.
    pub open spec fn users_with(self, id: Seq<char>) -> Seq<UserView> {
        if has_user(self.users, id) {
            seq![self.joined(self.user(id))]
        } else {
            Seq::empty()
        }
    }

    /// The zip codes with the given key: one or none.
    pub open spec fn zip_codes_with(self, id: Seq<char>) -> Seq<ZipCodeView> {
        if has_zip_code(self.zipCodes, id) {
            seq![self.zipCodes[zip_code_index(self.zipCodes, id)]]
        } else {
            Seq::empty()
        }
    }

    // ----- writes -----
    pub open spec fn role_refused(self, row: UserRoleView) -> Option<Constraint> {
        if has_role(self.roles, row.UserRoleId) {
            Some(Constraint::RoleKey)
        } else {
            None
        }
    }

    pub open spec fn with_role(self, row: UserRoleView) -> StoreView {
        StoreView { roles: self.roles.push(row), ..self }
    }

    pub open spec fn user_refused(self, row: UserRowView) -> Option<Constraint> {
        if has_user(self.users, row.Id) {
            Some(Constraint::UserKey)
        } else if has_name(self.users, row.Username) {
            Some(Constraint::UserName)
        } else if !has_role(self.roles, row.FK_UserRole) {
            Some(Constraint::UserRole)
        } else {
            None
        }
    }

    pub open spec fn with_user(self, row: UserRowView) -> StoreView {
        StoreView { users: self.users.push(row), ..self }
    }

    /// The constraint that changing the identity with key `id` would
    /// violate.  A change of no row violates none.
    pub open spec fn change_refused(self, id: Seq<char>, change: UserChange) -> Option<Constraint> {
        if !has_user(self.users, id) {
            None
        } else if change.Username is Some && has_name(self.users, change.Username->0)
            && name_index(self.users, change.Username->0) != user_index(self.users, id) {
            Some(Constraint::UserName)
        } else if change.FK_UserRole is Some && !has_role(self.roles, change.FK_UserRole->0) {
            Some(Constraint::UserRole)
        } else {
            None
        }
    }

    /// The store after the identity with key `id`, if there is one, has
    /// been changed.
    pub open spec fn with_change(self, id: Seq<char>, change: UserChange) -> StoreView {
        if has_user(self.users, id) {
            StoreView {
                users: self.users.update(user_index(self.users, id), change.apply(self.user(id))),
                ..self
            }
        } else {
            self
        }
    }

    /// The constraint that removing the identity with key `id` would
    /// violate: an identity that owns tokens stays.
    pub open spec fn removal_refused(self, id: Seq<char>) -> Option<Constraint> {
        if has_user(self.users, id) && owns_tokens(self.tokens, id) {
            Some(Constraint::OwnedTokens)
        } else {
            None
        }
    }

    /// The store after the identity with key `id`, if there is one, has
    /// been removed.
    pub open spec fn without_user(self, id: Seq<char>) -> StoreView {
        if has_user(self.users, id) {
            StoreView { users: self.users.remove(user_index(self.users, id)), ..self }
        } else {
            self
        }
    }

    pub open spec fn token_refused(self, row: TokenView) -> Option<Constraint> {
        if !has_user(self.users, row.FK_User) {
            Some(Constraint::TokenOwner)
        } else if has_token(self.tokens, row.Type, row.Token) {
            Some(Constraint::TokenDigest)
        } else {
            None
        }
    }

    pub open spec fn with_token(self, row: TokenView) -> StoreView {
        StoreView { tokens: self.tokens.push(row), ..self }
    }

    pub open spec fn zip_code_refused(self, row: ZipCodeView) -> Option<Constraint> {
        if has_zip_code(self.zipCodes, row.ZipCodeId) {
            Some(Constraint::ZipCodeKey)
        } else {
            None
        }
    }

    pub open spec fn with_zip_code(self, row: ZipCodeView) -> StoreView {
        StoreView { zipCodes: self.zipCodes.push(row), ..self }
    }

    pub open spec fn with_zip_code_change(self, id: Seq<char>, change: ZipCodeChange) -> StoreView {
        if has_zip_code(self.zipCodes, id) {
            StoreView {
                zipCodes: self.zipCodes.update(
                    zip_code_index(self.zipCodes, id),
                    change.apply(self.zipCodes[zip_code_index(self.zipCodes, id)]),
                ),
                ..self
            }
        } else {
            self
        }
    }

    pub open spec fn without_zip_code(self, id: Seq<char>) -> StoreView {
        if has_zip_code(self.zipCodes, id) {
            StoreView { zipCodes: self.zipCodes.remove(zip_code_index(self.zipCodes, id)), ..self }
        } else {
            self
        }
    }

    // ----- writes keep the tables consistent -----
    /// A write that no constraint refuses leaves a consistent store
    /// consistent.
    pub proof fn lemma_with_role_wf(self, row: UserRoleView)
        requires
            self.wf(),
            self.role_refused(row) is None,
        ensures
            self.with_role(row).wf(),
    {
        let after = self.roles.push(row);
        assert forall|i: int, j: int, id: Seq<char>|
            role_at(after, i, id) && role_at(after, j, id) implies i == j by {
            if i < self.roles.len() {
                assert(role_at(self.roles, i, id));
            }
            if j < self.roles.len() {
                assert(role_at(self.roles, j, id));
            }
        }
        assert forall|i: int| 0 <= i < self.users.len() implies has_role(
            after,
            #[trigger] self.users[i].FK_UserRole,
        ) by {
            let id = self.users[i].FK_UserRole;
            assert(role_at(after, role_index(self.roles, id), id));
        }
    }

    pub proof fn lemma_with_user_wf(self, row: UserRowView)
        requires
            self.wf(),
            self.user_refused(row) is None,
        ensures
            self.with_user(row).wf(),
    {
        let after = self.users.push(row);
        assert forall|i: int, j: int, id: Seq<char>|
            user_at(after, i, id) && user_at(after, j, id) implies i == j by {
            if i < self.users.len() {
                assert(user_at(self.users, i, id));
            }
            if j < self.users.len() {
                assert(user_at(self.users, j, id));
            }
        }
        assert forall|i: int, j: int, name: Seq<char>|
            name_at(after, i, name) && name_at(after, j, name) implies i == j by {
            if i < self.users.len() {
                assert(name_at(self.users, i, name));
            }
            if j < self.users.len() {
                assert(name_at(self.users, j, name));
            }
        }
        assert forall|i: int| 0 <= i < self.tokens.len() implies has_user(
            after,
            #[trigger] self.tokens[i].FK_User,
        ) by {
            let id = self.tokens[i].FK_User;
            assert(user_at(after, user_index(self.users, id), id));
        }
    }

    pub proof fn lemma_with_token_wf(self, row: TokenView)
        requires
            self.wf(),
            self.token_refused(row) is None,
        ensures
            self.with_token(row).wf(),
    {
        let after = self.tokens.push(row);
        assert forall|i: int, j: int, kind: i8, digest: Seq<char>|
            token_at(after, i, kind, digest) && token_at(after, j, kind, digest) implies i
            == j by {
            if i < self.tokens.len() {
                assert(token_at(self.tokens, i, kind, digest));
            }
            if j < self.tokens.len() {
                assert(token_at(self.tokens, j, kind, digest));
            }
        }
    }

    pub proof fn lemma_with_zip_code_wf(self, row: ZipCodeView)
        requires
            self.wf(),
            self.zip_code_refused(row) is None,
        ensures
            self.with_zip_code(row).wf(),
    {
        let after = self.zipCodes.push(row);
        assert forall|i: int, j: int, id: Seq<char>|
            zip_code_at(after, i, id) && zip_code_at(after, j, id) implies i == j by {
            if i < self.zipCodes.len() {
                assert(zip_code_at(self.zipCodes, i, id));
            }
            if j < self.zipCodes.len() {
                assert(zip_code_at(self.zipCodes, j, id));
            }
        }
    }

    pub proof fn lemma_with_change_wf(self, id: Seq<char>, change: UserChange)
        requires
            self.wf(),
            self.change_refused(id, change) is None,
        ensures
            self.with_change(id, change).wf(),
    {
        if has_user(self.users, id) {
            let at = user_index(self.users, id);
            let after = self.users.update(at, change.apply(self.user(id)));
            assert forall|i: int, j: int, key: Seq<char>|
                user_at(after, i, key) && user_at(after, j, key) implies i == j by {
                assert(user_at(self.users, i, key));
                assert(user_at(self.users, j, key));
            }
            assert forall|i: int, j: int, name: Seq<char>|
                name_at(after, i, name) && name_at(after, j, name) implies i == j by {
                if i != at {
                    assert(name_at(self.users, i, name));
                }
                if j != at {
                    assert(name_at(self.users, j, name));
                }
                if i == at && j != at {
                    if change.Username is Some {
                        assert(has_name(self.users, name));
                    } else {
                        assert(name_at(self.users, i, name));
                    }
                }
                if j == at && i != at {
                    if change.Username is Some {
                        assert(has_name(self.users, name));
                    } else {
                        assert(name_at(self.users, j, name));
                    }
                }
            }
            assert forall|i: int| 0 <= i < after.len() implies has_role(
                self.roles,
                #[trigger] after[i].FK_UserRole,
            ) by {
                if i != at {
                    assert(after[i] == self.users[i]);
                } else if change.FK_UserRole is None {
                    assert(after[i].FK_UserRole == self.users[i].FK_UserRole);
                }
            }
            assert forall|i: int| 0 <= i < self.tokens.len() implies has_user(
                after,
                #[trigger] self.tokens[i].FK_User,
            ) by {
                let owner = self.tokens[i].FK_User;
                assert(user_at(after, user_index(self.users, owner), owner));
            }
        }
    }

    pub proof fn lemma_without_user_wf(self, id: Seq<char>)
        requires
            self.wf(),
            self.removal_refused(id) is None,
        ensures
            self.without_user(id).wf(),
    {
        if has_user(self.users, id) {
            let at = user_index(self.users, id);
            let after = self.users.remove(at);
            assert forall|i: int, j: int, key: Seq<char>|
                user_at(after, i, key) && user_at(after, j, key) implies i == j by {
                let oi = if i < at { i } else { i + 1 };
                let oj = if j < at { j } else { j + 1 };
                assert(user_at(self.users, oi, key));
                assert(user_at(self.users, oj, key));
            }
            assert forall|i: int, j: int, name: Seq<char>|
                name_at(after, i, name) && name_at(after, j, name) implies i == j by {
                let oi = if i < at { i } else { i + 1 };
                let oj = if j < at { j } else { j + 1 };
                assert(name_at(self.users, oi, name));
                assert(name_at(self.users, oj, name));
            }
            assert forall|i: int| 0 <= i < after.len() implies has_role(
                self.roles,
                #[trigger] after[i].FK_UserRole,
            ) by {
                let oi = if i < at { i } else { i + 1 };
                assert(after[i] == self.users[oi]);
            }
            assert forall|i: int| 0 <= i < self.tokens.len() implies has_user(
                after,
                #[trigger] self.tokens[i].FK_User,
            ) by {
                let owner = self.tokens[i].FK_User;
                let k = user_index(self.users, owner);
                assert(user_at(self.users, k, owner));
                assert(owned_at(self.tokens, i, owner));
                assert(k != at);
                let nk = if k < at { k } else { k - 1 };
                assert(user_at(after, nk, owner));
            }
        }
    }

    pub proof fn lemma_with_zip_code_change_wf(self, id: Seq<char>, change: ZipCodeChange)
        requires
            self.wf(),
        ensures
            self.with_zip_code_change(id, change).wf(),
    {
        if has_zip_code(self.zipCodes, id) {
            let at = zip_code_index(self.zipCodes, id);
            let after = self.zipCodes.update(at, change.apply(self.zipCodes[at]));
            assert forall|i: int, j: int, key: Seq<char>|
                zip_code_at(after, i, key) && zip_code_at(after, j, key) implies i == j by {
                assert(zip_code_at(self.zipCodes, i, key));
                assert(zip_code_at(self.zipCodes, j, key));
            }
        }
    }

    pub proof fn lemma_without_zip_code_wf(self, id: Seq<char>)
        requires
            self.wf(),
        ensures
            self.without_zip_code(id).wf(),
    {
        if has_zip_code(self.zipCodes, id) {
            let at = zip_code_index(self.zipCodes, id);
            let after = self.zipCodes.remove(at);
            assert forall|i: int, j: int, key: Seq<char>|
                zip_code_at(after, i, key) && zip_code_at(after, j, key) implies i == j by {
                let oi = if i < at { i } else { i + 1 };
                let oj = if j < at { j } else { j + 1 };
                assert(zip_code_at(self.zipCodes, oi, key));
                assert(zip_code_at(self.zipCodes, oj, key));
            }
        }
    }
}

// ----- what uniqueness gives -----
/// Where keys are unique, a key is found where its row stands.
pub proof fn lemma_role_found(roles: Seq<UserRoleView>, i: int)
    requires
        unique_roles(roles),
        0 <= i < roles.len(),
    ensures
        has_role(roles, roles[i].UserRoleId),
        role_index(roles, roles[i].UserRoleId) == i,
{
    assert(role_at(roles, i, roles[i].UserRoleId));
}

pub proof fn lemma_user_found(users: Seq<UserRowView>, i: int)
    requires
        unique_users(users),
        0 <= i < users.len(),
    ensures
        has_user(users, users[i].Id),
        user_index(users, users[i].Id) == i,
{
    assert(user_at(users, i, users[i].Id));
}

pub proof fn lemma_name_found(users: Seq<UserRowView>, i: int)
    requires
        unique_names(users),
        0 <= i < users.len(),
    ensures
        has_name(users, users[i].Username),
        name_index(users, users[i].Username) == i,
{
    assert(name_at(users, i, users[i].Username));
}

pub proof fn lemma_token_found(tokens: Seq<TokenView>, i: int)
    requires
        unique_tokens(tokens),
        0 <= i < tokens.len(),
    ensures
        has_token(tokens, tokens[i].Type, tokens[i].Token),
        token_index(tokens, tokens[i].Type, tokens[i].Token) == i,
{
    assert(token_at(tokens, i, tokens[i].Type, tokens[i].Token));
}

pub proof fn lemma_zip_code_found(zipCodes: Seq<ZipCodeView>, i: int)
    requires
        unique_zip_codes(zipCodes),
        0 <= i < zipCodes.len(),
    ensures
        has_zip_code(zipCodes, zipCodes[i].ZipCodeId),
        zip_code_index(zipCodes, zipCodes[i].ZipCodeId) == i,
{
    assert(zip_code_at(zipCodes, i, zipCodes[i].ZipCodeId));
}

} // verus!
