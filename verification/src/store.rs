//! The executable store: four tables in memory that are always consistent.
//!
//! Each method is one statement against the tables.  A query that is to
//! yield a row and finds none fails with the failure of no rows; a write
//! that would break a constraint fails with the database's report of it and
//! leaves the tables as they were.
use vstd::prelude::*;
use vstd::string::*;
use crate::failure::{StoreFailure, ViolationKind};
use crate::model::{
    has_name, has_role, has_token, has_user, has_zip_code, highest_role, lemma_name_found,
    lemma_role_found, lemma_token_found, lemma_user_found, lemma_zip_code_found, name_at,
    owned_at, owns_tokens, role_at, token_at, token_index, user_at, zip_code_at, Constraint,
    StoreView,
};
use crate::models::{
    changed, text_of, Token, TokenKind, User, UserCredentials, UserOptional, UserRole, UserRow,
    ZipCode, ZipCodeOptional, TOKEN_TYPE_ACCESS,
};
use crate::permission::PermissionLevelStruct;
use crate::text::sameText;

verus! {

/// The store.  Its tables can only be reached through its methods: `new`
/// makes them consistent and every method keeps them so.
pub struct Store {
    roles: Vec<UserRole>,
    users: Vec<UserRow>,
    tokens: Vec<Token>,
    zipCodes: Vec<ZipCode>,
}

impl View for Store {
    type V = StoreView;

    closed spec fn view(&self) -> StoreView {
        StoreView {
            roles: Seq::new(self.roles@.len(), |i: int| self.roles@[i]@),
            users: Seq::new(self.users@.len(), |i: int| self.users@[i]@),
            tokens: Seq::new(self.tokens@.len(), |i: int| self.tokens@[i]@),
            zipCodes: Seq::new(self.zipCodes@.len(), |i: int| self.zipCodes@[i]@),
        }
    }
}

/// Reports a violated constraint as the database does.
pub fn constraintFailure(constraint: Constraint) -> (failure: StoreFailure)
    ensures
        failure@ == constraint.failure(),
{
    match constraint {
        Constraint::RoleKey => StoreFailure::violated(
            ViolationKind::Unique,
            "Duplicate entry for key 'UserRole.PRIMARY'",
        ),
        Constraint::UserKey => StoreFailure::violated(
            ViolationKind::Unique,
            "Duplicate entry for key 'User.PRIMARY'",
        ),
        Constraint::UserName => StoreFailure::violated(
            ViolationKind::Unique,
            "Duplicate entry for key 'User.Username'",
        ),
        Constraint::UserRole => StoreFailure::violated(
            ViolationKind::ForeignKey,
            "Cannot add or update a child row: a foreign key constraint fails (`User`, CONSTRAINT `User_ibfk_1` FOREIGN KEY (`FK_UserRole`) REFERENCES `UserRole` (`Id`))",
        ),
        Constraint::TokenDigest => StoreFailure::violated(
            ViolationKind::Unique,
            "Duplicate entry for key 'Token.Token'",
        ),
        Constraint::TokenOwner => StoreFailure::violated(
            ViolationKind::ForeignKey,
            "Cannot add or update a child row: a foreign key constraint fails (`Token`, CONSTRAINT `Token_ibfk_1` FOREIGN KEY (`FK_User`) REFERENCES `User` (`Id`))",
        ),
        Constraint::OwnedTokens => StoreFailure::violated(
            ViolationKind::ForeignKey,
            "Cannot delete or update a parent row: a foreign key constraint fails (`Token`, CONSTRAINT `Token_ibfk_1` FOREIGN KEY (`FK_User`) REFERENCES `User` (`Id`))",
        ),
        Constraint::ZipCodeKey => StoreFailure::violated(
            ViolationKind::Unique,
            "Duplicate entry for key 'ZipCode.PRIMARY'",
        ),
    }
}

/// The text that takes the place of `old` where `new` holds one.
fn changedText(old: &String, new: &Option<String>) -> (text: String)
    ensures
        text@ == changed(old@, text_of(*new)),
{
    match new {
        Some(value) => value.clone(),
        None => old.clone(),
    }
}

impl Store {
    /// A store without rows.
    pub fn new() -> (store: Store)
        ensures
            store@ == StoreView::empty(),
            store@.wf(),
    {
        let store = Store {
            roles: Vec::new(),
            users: Vec::new(),
            tokens: Vec::new(),
            zipCodes: Vec::new(),
        };
        assert(store@ =~= StoreView::empty());
        store
    }

    // ----- searches -----
    fn findRole(&self, id: &str) -> (found: Option<usize>)
        ensures
            match found {
                Some(i) => role_at(self@.roles, i as int, id@),
                None => !has_role(self@.roles, id@),
            },
    {
        let mut i: usize = 0;
        while i < self.roles.len()
            invariant
                i <= self.roles.len(),
                forall|j: int| 0 <= j < i ==> !role_at(self@.roles, j, id@),
            decreases self.roles.len() - i,
        {
            if sameText(self.roles[i].UserRoleId.as_str(), id) {
                return Some(i);
            }
            i = i + 1;
        }
        None
    }

    fn findUser(&self, id: &str) -> (found: Option<usize>)
        ensures
            match found {
                Some(i) => user_at(self@.users, i as int, id@),
                None => !has_user(self@.users, id@),
            },
    {
        let mut i: usize = 0;
        while i < self.users.len()
            invariant
                i <= self.users.len(),
                forall|j: int| 0 <= j < i ==> !user_at(self@.users, j, id@),
            decreases self.users.len() - i,
        {
            if sameText(self.users[i].Id.as_str(), id) {
                return Some(i);
            }
            i = i + 1;
        }
        None
    }

    fn findName(&self, name: &str) -> (found: Option<usize>)
        ensures
            match found {
                Some(i) => name_at(self@.users, i as int, name@),
                None => !has_name(self@.users, name@),
            },
    {
        let mut i: usize = 0;
        while i < self.users.len()
            invariant
                i <= self.users.len(),
                forall|j: int| 0 <= j < i ==> !name_at(self@.users, j, name@),
            decreases self.users.len() - i,
        {
            if sameText(self.users[i].Username.as_str(), name) {
                return Some(i);
            }
            i = i + 1;
        }
        None
    }

    fn findToken(&self, kind: i8, digest: &str) -> (found: Option<usize>)
        ensures
            match found {
                Some(i) => token_at(self@.tokens, i as int, kind, digest@),
                None => !has_token(self@.tokens, kind, digest@),
            },
    {
        let mut i: usize = 0;
        while i < self.tokens.len()
            invariant
                i <= self.tokens.len(),
                forall|j: int| 0 <= j < i ==> !token_at(self@.tokens, j, kind, digest@),
            decreases self.tokens.len() - i,
        {
            if self.tokens[i].Type == kind && sameText(self.tokens[i].Token.as_str(), digest) {
                return Some(i);
            }
            i = i + 1;
        }
        None
    }

    fn ownsTokens(&self, owner: &str) -> (yes: bool)
        ensures
            yes == owns_tokens(self@.tokens, owner@),
    {
        let mut i: usize = 0;
        while i < self.tokens.len()
            invariant
                i <= self.tokens.len(),
                forall|j: int| 0 <= j < i ==> !owned_at(self@.tokens, j, owner@),
            decreases self.tokens.len() - i,
        {
            if sameText(self.tokens[i].FK_User.as_str(), owner) {
                assert(owned_at(self@.tokens, i as int, owner@));
                return true;
            }
            i = i + 1;
        }
        false
    }

    fn findZipCode(&self, id: &str) -> (found: Option<usize>)
        ensures
            match found {
                Some(i) => zip_code_at(self@.zipCodes, i as int, id@),
                None => !has_zip_code(self@.zipCodes, id@),
            },
    {
        let mut i: usize = 0;
        while i < self.zipCodes.len()
            invariant
                i <= self.zipCodes.len(),
                forall|j: int| 0 <= j < i ==> !zip_code_at(self@.zipCodes, j, id@),
            decreases self.zipCodes.len() - i,
        {
            if sameText(self.zipCodes[i].ZipCodeId.as_str(), id) {
                return Some(i);
            }
            i = i + 1;
        }
        None
    }

    /// The identity at a position, joined with its role.
    fn joinedAt(&self, i: usize) -> (user: User)
        requires
            self@.wf(),
            i < self@.users.len(),
        ensures
            user@ == self@.joined(self@.users[i as int]),
    {
        let row = &self.users[i];
        let found = self.findRole(row.FK_UserRole.as_str());
        assert(has_role(self@.roles, self@.users[i as int].FK_UserRole));
        let at = found.unwrap();
        User {
            UserId: row.Id.clone(),
            Username: row.Username.clone(),
            Name: row.Name.clone(),
            Surname: row.Surname.clone(),
            Password: row.Password.clone(),
            DateCreated: row.DateCreated,
            UserRole: self.roles[at].copy(),
        }
    }

    // ----- roles -----
    /// Adds a role.
    pub fn insertRole(&mut self, role: UserRole) -> (done: Result<(), StoreFailure>)
        requires
            old(self)@.wf(),
        ensures
            final(self)@.wf(),
            match old(self)@.role_refused(role@) {
                None => done is Ok && final(self)@ == old(self)@.with_role(role@),
                Some(constraint) => {
                    &&& done matches Err(failure)
                    &&& failure@ == constraint.failure()
                    &&& final(self)@ == old(self)@
                },
            },
    {
        if self.findRole(role.UserRoleId.as_str()).is_some() {
            return Err(constraintFailure(Constraint::RoleKey));
        }
        proof {
            self@.lemma_with_role_wf(role@);
        }
        let ghost before = self@;
        self.roles.push(role);
        assert(self@ =~= before.with_role(role@));
        Ok(())
    }

    /// The first role among those of the highest tier; none where there is
    /// no role.
    pub fn selectHighestRole(&self) -> (found: Option<UserRole>)
        requires
            self@.wf(),
        ensures
            match found {
                Some(role) => self@.roles.len() > 0 && role@ == self@.roles[highest_role(
                    self@.roles,
                )],
                None => self@.roles.len() == 0,
            },
    {
        if self.roles.len() == 0 {
            return None;
        }
        let mut best: usize = 0;
        let mut i: usize = 1;
        assert(self@.roles.subrange(0, 1).len() == 1);
        while i < self.roles.len()
            invariant
                1 <= i <= self.roles.len(),
                best < i,
                best == highest_role(self@.roles.subrange(0, i as int)),
            decreases self.roles.len() - i,
        {
            proof {
                let next = self@.roles.subrange(0, i + 1);
                assert(next.drop_last() =~= self@.roles.subrange(0, i as int));
                assert(next.last() == self@.roles[i as int]);
                assert(next[best as int] == self@.roles[best as int]);
            }
            if self.roles[i].PermissionLevel > self.roles[best].PermissionLevel {
                best = i;
            }
            i = i + 1;
        }
        assert(self@.roles.subrange(0, i as int) =~= self@.roles);
        Some(self.roles[best].copy())
    }

    // ----- identities -----
    /// Adds an identity.
    pub fn insertUser(&mut self, row: UserRow) -> (done: Result<(), StoreFailure>)
        requires
            old(self)@.wf(),
        ensures
            final(self)@.wf(),
            match old(self)@.user_refused(row@) {
                None => done is Ok && final(self)@ == old(self)@.with_user(row@),
                Some(constraint) => {
                    &&& done matches Err(failure)
                    &&& failure@ == constraint.failure()
                    &&& final(self)@ == old(self)@
                },
            },
    {
        if self.findUser(row.Id.as_str()).is_some() {
            return Err(constraintFailure(Constraint::UserKey));
        }
        if self.findName(row.Username.as_str()).is_some() {
            return Err(constraintFailure(Constraint::UserName));
        }
        if self.findRole(row.FK_UserRole.as_str()).is_none() {
            return Err(constraintFailure(Constraint::UserRole));
        }
        proof {
            self@.lemma_with_user_wf(row@);
        }
        let ghost before = self@;
        self.users.push(row);
        assert(self@ =~= before.with_user(row@));
        Ok(())
    }

    /// Changes the identity with the given key: the fields that `change`
    /// holds take its values; `Password` is stored as it is given.  A
    /// change of no row succeeds and changes nothing.
    pub fn updateUser(&mut self, id: &str, change: &UserOptional) -> (done: Result<
        (),
        StoreFailure,
    >)
        requires
            old(self)@.wf(),
        ensures
            final(self)@.wf(),
            match old(self)@.change_refused(id@, change@) {
                None => done is Ok && final(self)@ == old(self)@.with_change(id@, change@),
                Some(constraint) => {
                    &&& done matches Err(failure)
                    &&& failure@ == constraint.failure()
                    &&& final(self)@ == old(self)@
                },
            },
    {
        let at = match self.findUser(id) {
            Some(at) => at,
            None => {
                return Ok(());
            },
        };
        proof {
            lemma_user_found(self@.users, at as int);
        }
        if let Some(name) = &change.Username {
            if let Some(taken) = self.findName(name.as_str()) {
                proof {
                    lemma_name_found(self@.users, taken as int);
                }
                if taken != at {
                    return Err(constraintFailure(Constraint::UserName));
                }
            }
        }
        if let Some(role) = &change.FK_UserRole {
            if self.findRole(role.as_str()).is_none() {
                return Err(constraintFailure(Constraint::UserRole));
            }
        }
        let row = &self.users[at];
        let after = UserRow {
            Id: row.Id.clone(),
            Username: changedText(&row.Username, &change.Username),
            Name: changedText(&row.Name, &change.Name),
            Surname: changedText(&row.Surname, &change.Surname),
            Password: changedText(&row.Password, &change.Password),
            DateCreated: row.DateCreated,
            FK_UserRole: changedText(&row.FK_UserRole, &change.FK_UserRole),
        };
        proof {
            self@.lemma_with_change_wf(id@, change@);
        }
        let ghost before = self@;
        self.users.set(at, after);
        assert(self@ =~= before.with_change(id@, change@));
        Ok(())
    }

    /// Removes the identity with the given key, unless it owns tokens.  A
    /// removal of no row succeeds and changes nothing.
    pub fn deleteUser(&mut self, id: &str) -> (done: Result<(), StoreFailure>)
        requires
            old(self)@.wf(),
        ensures
            final(self)@.wf(),
            match old(self)@.removal_refused(id@) {
                None => done is Ok && final(self)@ == old(self)@.without_user(id@),
                Some(constraint) => {
                    &&& done matches Err(failure)
                    &&& failure@ == constraint.failure()
                    &&& final(self)@ == old(self)@
                },
            },
    {
        let at = match self.findUser(id) {
            Some(at) => at,
            None => {
                return Ok(());
            },
        };
        proof {
            lemma_user_found(self@.users, at as int);
        }
        if self.ownsTokens(id) {
            return Err(constraintFailure(Constraint::OwnedTokens));
        }
        proof {
            self@.lemma_without_user_wf(id@);
        }
        let ghost before = self@;
        self.users.remove(at);
        assert(self@ =~= before.without_user(id@));
        Ok(())
    }

    /// Every identity joined with its role, in the order of the table.
    pub fn selectUsers(&self) -> (users: Vec<User>)
        requires
            self@.wf(),
        ensures
            Seq::new(users@.len(), |i: int| users@[i]@) == self@.all_users(),
    {
        let mut users: Vec<User> = Vec::new();
        let mut i: usize = 0;
        while i < self.users.len()
            invariant
                self@.wf(),
                i <= self.users.len(),
                users@.len() == i,
                forall|j: int| 0 <= j < i ==> (#[trigger] users@[j])@ == self@.joined(self@.users[j]),
            decreases self.users.len() - i,
        {
            let user = self.joinedAt(i);
            users.push(user);
            i = i + 1;
        }
        assert(Seq::new(users@.len(), |i: int| users@[i]@) =~= self@.all_users());
        users
    }

    /// The identities with the given key, joined with their roles: one or
    /// none.
    pub fn selectUserById(&self, id: &str) -> (users: Vec<User>)
        requires
            self@.wf(),
        ensures
            Seq::new(users@.len(), |i: int| users@[i]@) == self@.users_with(id@),
    {
        let mut users: Vec<User> = Vec::new();
        if let Some(at) = self.findUser(id) {
            proof {
                lemma_user_found(self@.users, at as int);
            }
            let user = self.joinedAt(at);
            users.push(user);
        }
        assert(Seq::new(users@.len(), |i: int| users@[i]@) =~= self@.users_with(id@));
        users
    }

    /// The stored credential of the identity with the given name.
    pub fn selectCredentials(&self, username: &str) -> (found: Result<
        UserCredentials,
        StoreFailure,
    >)
        requires
            self@.wf(),
        ensures
            match self@.credentials(username@) {
                Some(row) => {
                    &&& found matches Ok(credentials)
                    &&& credentials.Id@ == row.Id
                    &&& credentials.Username@ == row.Username
                    &&& credentials.Password@ == row.Password
                },
                None => found matches Err(failure) && failure@ == crate::failure::no_rows(),
            },
    {
        match self.findName(username) {
            Some(at) => {
                proof {
                    lemma_name_found(self@.users, at as int);
                }
                let row = &self.users[at];
                Ok(
                    UserCredentials {
                        Id: row.Id.clone(),
                        Username: row.Username.clone(),
                        Password: row.Password.clone(),
                    },
                )
            },
            None => Err(StoreFailure::noRows()),
        }
    }

    // ----- tokens -----
    /// Adds a token row.
    pub fn insertToken(&mut self, row: Token) -> (done: Result<(), StoreFailure>)
        requires
            old(self)@.wf(),
        ensures
            final(self)@.wf(),
            match old(self)@.token_refused(row@) {
                None => done is Ok && final(self)@ == old(self)@.with_token(row@),
                Some(constraint) => {
                    &&& done matches Err(failure)
                    &&& failure@ == constraint.failure()
                    &&& final(self)@ == old(self)@
                },
            },
    {
        if self.findUser(row.FK_User.as_str()).is_none() {
            return Err(constraintFailure(Constraint::TokenOwner));
        }
        if self.findToken(row.Type, row.Token.as_str()).is_some() {
            return Err(constraintFailure(Constraint::TokenDigest));
        }
        proof {
            self@.lemma_with_token_wf(row@);
        }
        let ghost before = self@;
        self.tokens.push(row);
        assert(self@ =~= before.with_token(row@));
        Ok(())
    }

    /// The token of the given kind and digest that is valid at `now`.
    pub fn selectToken(&self, kind: TokenKind, digest: &str, now: u64) -> (found: Result<
        Token,
        StoreFailure,
    >)
        requires
            self@.wf(),
        ensures
            match self@.live_token(kind.number(), digest@, now) {
                Some(row) => found matches Ok(token) && token@ == row,
                None => found matches Err(failure) && failure@ == crate::failure::no_rows(),
            },
    {
        match self.findToken(kind.typeNumber(), digest) {
            Some(at) => {
                proof {
                    lemma_token_found(self@.tokens, at as int);
                }
                if self.tokens[at].validAt(now) {
                    Ok(self.tokens[at].copy())
                } else {
                    Err(StoreFailure::noRows())
                }
            },
            None => Err(StoreFailure::noRows()),
        }
    }

    /// The access token with the given digest that is valid at `now`,
    /// joined with the numeric tier that the role of its owner has at this
    /// moment.
    pub fn selectTokenWithTier(&self, digest: &str, now: u64) -> (found: Result<
        (Token, PermissionLevelStruct),
        StoreFailure,
    >)
        requires
            self@.wf(),
        ensures
            match self@.live_token(TOKEN_TYPE_ACCESS, digest@, now) {
                Some(row) => {
                    &&& found matches Ok((token, tier))
                    &&& token@ == row
                    &&& tier.PermissionLevel == self@.tier_of(row.FK_User)
                },
                None => found matches Err(failure) && failure@ == crate::failure::no_rows(),
            },
    {
        match self.selectToken(TokenKind::Access, digest, now) {
            Ok(token) => {
                let owner = self.findUser(token.FK_User.as_str());
                proof {
                    let at = token_index(self@.tokens, TOKEN_TYPE_ACCESS, digest@);
                    assert(token_at(self@.tokens, at, TOKEN_TYPE_ACCESS, digest@));
                    assert(has_user(self@.users, self@.tokens[at].FK_User));
                }
                let user = owner.unwrap();
                proof {
                    lemma_user_found(self@.users, user as int);
                    assert(has_role(self@.roles, self@.users[user as int].FK_UserRole));
                }
                let role = self.findRole(self.users[user].FK_UserRole.as_str()).unwrap();
                proof {
                    lemma_role_found(self@.roles, role as int);
                }
                let tier = PermissionLevelStruct {
                    PermissionLevel: self.roles[role].PermissionLevel,
                };
                Ok((token, tier))
            },
            Err(failure) => Err(failure),
        }
    }

    /// The numeric tier of the role that the owner of the access token with
    /// the given digest, valid at `now`, owns at this moment.
    pub fn selectPermissionLevel(&self, digest: &str, now: u64) -> (found: Result<
        PermissionLevelStruct,
        StoreFailure,
    >)
        requires
            self@.wf(),
        ensures
            match self@.resolve(digest@, now) {
                Some(tier) => found matches Ok(row) && row.PermissionLevel == tier,
                None => found matches Err(failure) && failure@ == crate::failure::no_rows(),
            },
    {
        match self.selectTokenWithTier(digest, now) {
            Ok((_, tier)) => Ok(tier),
            Err(failure) => Err(failure),
        }
    }

    // ----- zip codes -----
    /// Adds a zip code.
    pub fn insertZipCode(&mut self, row: ZipCode) -> (done: Result<(), StoreFailure>)
        requires
            old(self)@.wf(),
        ensures
            final(self)@.wf(),
            match old(self)@.zip_code_refused(row@) {
                None => done is Ok && final(self)@ == old(self)@.with_zip_code(row@),
                Some(constraint) => {
                    &&& done matches Err(failure)
                    &&& failure@ == constraint.failure()
                    &&& final(self)@ == old(self)@
                },
            },
    {
        if self.findZipCode(row.ZipCodeId.as_str()).is_some() {
            return Err(constraintFailure(Constraint::ZipCodeKey));
        }
        proof {
            self@.lemma_with_zip_code_wf(row@);
        }
        let ghost before = self@;
        self.zipCodes.push(row);
        assert(self@ =~= before.with_zip_code(row@));
        Ok(())
    }

    /// Changes the zip code with the given key.  A change of no row changes
    /// nothing.
    pub fn updateZipCode(&mut self, id: &str, change: &ZipCodeOptional)
        requires
            old(self)@.wf(),
        ensures
            final(self)@.wf(),
            final(self)@ == old(self)@.with_zip_code_change(id@, change@),
    {
        if let Some(at) = self.findZipCode(id) {
            proof {
                lemma_zip_code_found(self@.zipCodes, at as int);
                self@.lemma_with_zip_code_change_wf(id@, change@);
            }
            let row = &self.zipCodes[at];
            let after = ZipCode {
                ZipCodeId: row.ZipCodeId.clone(),
                Number: match change.Number {
                    Some(number) => number,
                    None => row.Number,
                },
                City: changedText(&row.City, &change.City),
            };
            let ghost before = self@;
            self.zipCodes.set(at, after);
            assert(self@ =~= before.with_zip_code_change(id@, change@));
        }
    }

    /// Removes the zip code with the given key.  A removal of no row changes
    /// nothing.
    pub fn deleteZipCode(&mut self, id: &str)
        requires
            old(self)@.wf(),
        ensures
            final(self)@.wf(),
            final(self)@ == old(self)@.without_zip_code(id@),
    {
        if let Some(at) = self.findZipCode(id) {
            proof {
                lemma_zip_code_found(self@.zipCodes, at as int);
                self@.lemma_without_zip_code_wf(id@);
            }
            let ghost before = self@;
            self.zipCodes.remove(at);
            assert(self@ =~= before.without_zip_code(id@));
        }
    }

    /// Every zip code, in the order of the table.
    pub fn selectZipCodes(&self) -> (zipCodes: Vec<ZipCode>)
        requires
            self@.wf(),
        ensures
            Seq::new(zipCodes@.len(), |i: int| zipCodes@[i]@) == self@.zipCodes,
    {
        let mut zipCodes: Vec<ZipCode> = Vec::new();
        let mut i: usize = 0;
        while i < self.zipCodes.len()
            invariant
                i <= self.zipCodes.len(),
                zipCodes@.len() == i,
                forall|j: int| 0 <= j < i ==> (#[trigger] zipCodes@[j])@ == self@.zipCodes[j],
            decreases self.zipCodes.len() - i,
        {
            zipCodes.push(self.zipCodes[i].copy());
            i = i + 1;
        }
        assert(Seq::new(zipCodes@.len(), |i: int| zipCodes@[i]@) =~= self@.zipCodes);
        zipCodes
    }

    /// The zip codes with the given key: one or none.
    pub fn selectZipCodeById(&self, id: &str) -> (zipCodes: Vec<ZipCode>)
        requires
            self@.wf(),
        ensures
            Seq::new(zipCodes@.len(), |i: int| zipCodes@[i]@) == self@.zip_codes_with(id@),
    {
        let mut zipCodes: Vec<ZipCode> = Vec::new();
        if let Some(at) = self.findZipCode(id) {
            proof {
                lemma_zip_code_found(self@.zipCodes, at as int);
            }
            zipCodes.push(self.zipCodes[at].copy());
        }
        assert(Seq::new(zipCodes@.len(), |i: int| zipCodes@[i]@) =~= self@.zip_codes_with(id@));
        zipCodes
    }
}

} // verus!
