//! The rows of the store and the bodies of requests and replies.
//!
//! Instants are whole seconds on the store's clock.  Every row type has a
//! view that holds its texts as sequences of characters; the contracts of
//! the store speak of the views.
use vstd::prelude::*;

verus! {

/// The `Type` of an access token row.
pub const TOKEN_TYPE_ACCESS: i8 = 0;

/// The `Type` of a refresh token row.
pub const TOKEN_TYPE_REFRESH: i8 = 1;

/// The number of seconds an access token stays valid.
pub const ACCESS_TOKEN_SECONDS: u32 = 3600;

/// The number of characters of a bearer secret.
pub const TOKEN_LENGTH: usize = 64;

/// The number of characters of the salt drawn for a password digest.
pub const SALT_LENGTH: usize = 64;

/// The two kinds of token.
#[derive(Debug, Clone, Copy, PartialEq, Eq, Structural)]
pub enum TokenKind {
    Access,
    Refresh,
}

impl TokenKind {
    /// The `Type` under which rows of this kind are stored.
    pub open spec fn number(self) -> i8 {
        match self {
            TokenKind::Access => TOKEN_TYPE_ACCESS,
            TokenKind::Refresh => TOKEN_TYPE_REFRESH,
        }
    }

    pub fn typeNumber(&self) -> (n: i8)
        ensures
            n == self.number(),
    {
        match self {
            TokenKind::Access => TOKEN_TYPE_ACCESS,
            TokenKind::Refresh => TOKEN_TYPE_REFRESH,
        }
    }
}

/// A token row.  `Token` holds the digest of the bearer secret, never the
/// secret; the row is valid at an instant `now` while `DateEnd > now`.
#[derive(Debug, Clone, PartialEq, Eq)]
pub struct Token {
    pub Id: String,
    pub Token: String,
    pub Type: i8,
    pub DeviceInfo: String,
    pub DateStart: u64,
    pub DateEnd: u64,
    pub DateCreated: u64,
    pub FK_User: String,
}

pub struct TokenView {
    pub Id: Seq<char>,
    pub Token: Seq<char>,
    pub Type: i8,
    pub DeviceInfo: Seq<char>,
    pub DateStart: u64,
    pub DateEnd: u64,
    pub DateCreated: u64,
    pub FK_User: Seq<char>,
}

impl View for Token {
    type V = TokenView;

    open spec fn view(&self) -> TokenView {
        TokenView {
            Id: self.Id@,
            Token: self.Token@,
            Type: self.Type,
            DeviceInfo: self.DeviceInfo@,
            DateStart: self.DateStart,
            DateEnd: self.DateEnd,
            DateCreated: self.DateCreated,
            FK_User: self.FK_User@,
        }
    }
}

impl Token {
    /// Whether the token is valid at `now`: its validity ends strictly
    /// after `now`.
    pub fn validAt(&self, now: u64) -> (valid: bool)
        ensures
            valid == (self.DateEnd > now),
    {
        self.DateEnd > now
    }

    pub fn copy(&self) -> (row: Token)
        ensures
            row@ == self@,
    {
        Token {
            Id: self.Id.clone(),
            Token: self.Token.clone(),
            Type: self.Type,
            DeviceInfo: self.DeviceInfo.clone(),
            DateStart: self.DateStart,
            DateEnd: self.DateEnd,
            DateCreated: self.DateCreated,
            FK_User: self.FK_User.clone(),
        }
    }
}

/// What the caller settles of a token row before it is stored.
#[derive(Debug, Clone, PartialEq, Eq)]
pub struct TokenCreate {
    pub Token: String,
    pub DateStart: u64,
    pub DateEnd: u64,
    pub FK_User: String,
}

/// The body that hands a fresh bearer secret to the client.
#[derive(Debug, Clone, PartialEq, Eq)]
pub struct TokenOnly {
    pub Token: String,
}

/// A bearer secret with its digest.
#[derive(Debug, Clone, PartialEq, Eq)]
pub struct GeneratedToken {
    pub Token: String,
    pub SHA256ofToken: String,
}

/// A role row.
#[derive(Debug, Clone, PartialEq, Eq)]
pub struct UserRole {
    pub UserRoleId: String,
    pub PermissionLevel: i8,
    pub Role: String,
    pub Description: Option<String>,
}

pub struct UserRoleView {
    pub UserRoleId: Seq<char>,
    pub PermissionLevel: i8,
    pub Role: Seq<char>,
    pub Description: Option<Seq<char>>,
}

impl View for UserRole {
    type V = UserRoleView;

    open spec fn view(&self) -> UserRoleView {
        UserRoleView {
            UserRoleId: self.UserRoleId@,
            PermissionLevel: self.PermissionLevel,
            Role: self.Role@,
            Description: text_of(self.Description),
        }
    }
}

impl UserRole {
    pub fn copy(&self) -> (row: UserRole)
        ensures
            row@ == self@,
    {
        UserRole {
            UserRoleId: self.UserRoleId.clone(),
            PermissionLevel: self.PermissionLevel,
            Role: self.Role.clone(),
            Description: match &self.Description {
                Some(text) => Some(text.clone()),
                None => None,
            },
        }
    }
}

/// An identity row as the store keeps it: the password digest and the key
/// of the one role that the identity owns.
#[derive(Debug, Clone, PartialEq, Eq)]
pub struct UserRow {
    pub Id: String,
    pub Username: String,
    pub Name: String,
    pub Surname: String,
    pub Password: String,
    pub DateCreated: u64,
    pub FK_UserRole: String,
}

pub struct UserRowView {
    pub Id: Seq<char>,
    pub Username: Seq<char>,
    pub Name: Seq<char>,
    pub Surname: Seq<char>,
    pub Password: Seq<char>,
    pub DateCreated: u64,
    pub FK_UserRole: Seq<char>,
}

impl View for UserRow {
    type V = UserRowView;

    open spec fn view(&self) -> UserRowView {
        UserRowView {
            Id: self.Id@,
            Username: self.Username@,
            Name: self.Name@,
            Surname: self.Surname@,
            Password: self.Password@,
            DateCreated: self.DateCreated,
            FK_UserRole: self.FK_UserRole@,
        }
    }
}

/// An identity joined with its role, as it is listed to an administrator.
#[derive(Debug, Clone, PartialEq, Eq)]
pub struct User {
    pub UserId: String,
    pub Username: String,
    pub Name: String,
    pub Surname: String,
    pub Password: String,
    pub DateCreated: u64,
    pub UserRole: UserRole,
}

pub struct UserView {
    pub UserId: Seq<char>,
    pub Username: Seq<char>,
    pub Name: Seq<char>,
    pub Surname: Seq<char>,
    pub Password: Seq<char>,
    pub DateCreated: u64,
    pub UserRole: UserRoleView,
}

impl View for User {
    type V = UserView;

    open spec fn view(&self) -> UserView {
        UserView {
            UserId: self.UserId@,
            Username: self.Username@,
            Name: self.Name@,
            Surname: self.Surname@,
            Password: self.Password@,
            DateCreated: self.DateCreated,
            UserRole: self.UserRole@,
        }
    }
}

/// The body of a request that creates an identity; `Password` is the
/// plaintext, which is hashed before anything is stored.
#[derive(Debug, Clone, PartialEq, Eq)]
pub struct UserCreate {
    pub Username: String,
    pub Name: String,
    pub Surname: String,
    pub Password: String,
    pub FK_UserRole: String,
}

/// The body of a request that changes an identity: the fields to change.
#[derive(Debug, Clone, PartialEq, Eq)]
pub struct UserOptional {
    pub Username: Option<String>,
    pub Name: Option<String>,
    pub Surname: Option<String>,
    pub Password: Option<String>,
    pub FK_UserRole: Option<String>,
}

/// The body of a login request.  `Active` is the number of seconds the
/// refresh token is to stay valid.
#[derive(Debug, Clone, PartialEq, Eq)]
pub struct UserLogin {
    pub Username: String,
    pub Password: String,
    pub Active: u32,
    pub DeviceInfo: String,
}

/// The stored credential of an identity: its key, its name and its password
/// digest.
#[derive(Debug, Clone, PartialEq, Eq)]
pub struct UserCredentials {
    pub Id: String,
    pub Username: String,
    pub Password: String,
}

/// A zip code row.
#[derive(Debug, Clone, PartialEq, Eq)]
pub struct ZipCode {
    pub ZipCodeId: String,
    pub Number: i32,
    pub City: String,
}

pub struct ZipCodeView {
    pub ZipCodeId: Seq<char>,
    pub Number: i32,
    pub City: Seq<char>,
}

impl View for ZipCode {
    type V = ZipCodeView;

    open spec fn view(&self) -> ZipCodeView {
        ZipCodeView { ZipCodeId: self.ZipCodeId@, Number: self.Number, City: self.City@ }
    }
}

impl ZipCode {
    pub fn copy(&self) -> (row: ZipCode)
        ensures
            row@ == self@,
    {
        ZipCode {
            ZipCodeId: self.ZipCodeId.clone(),
            Number: self.Number,
            City: self.City.clone(),
        }
    }
}

/// The body of a request that creates a zip code.
#[derive(Debug, Clone, PartialEq, Eq)]
pub struct ZipCodeCreate {
    pub Number: i32,
    pub City: String,
}

/// The body of a request that changes a zip code: the fields to change.
#[derive(Debug, Clone, PartialEq, Eq)]
pub struct ZipCodeOptional {
    pub Number: Option<i32>,
    pub City: Option<String>,
}

/// The fields of an identity that a change sets; `Password` is a digest.
pub struct UserChange {
    pub Username: Option<Seq<char>>,
    pub Name: Option<Seq<char>>,
    pub Surname: Option<Seq<char>>,
    pub Password: Option<Seq<char>>,
    pub FK_UserRole: Option<Seq<char>>,
}

/// The fields of a zip code that a change sets.
pub struct ZipCodeChange {
    pub Number: Option<i32>,
    pub City: Option<Seq<char>>,
}

/// `old` where `new` is `None`, else what `new` holds.
pub open spec fn changed<T>(old: T, new: Option<T>) -> T {
    match new {
        Some(value) => value,
        None => old,
    }
}

impl UserChange {
    pub open spec fn is_empty(self) -> bool {
        &&& self.Username is None
        &&& self.Name is None
        &&& self.Surname is None
        &&& self.Password is None
        &&& self.FK_UserRole is None
    }

    /// The row after the change.
    pub open spec fn apply(self, row: UserRowView) -> UserRowView {
        UserRowView {
            Id: row.Id,
            Username: changed(row.Username, self.Username),
            Name: changed(row.Name, self.Name),
            Surname: changed(row.Surname, self.Surname),
            Password: changed(row.Password, self.Password),
            DateCreated: row.DateCreated,
            FK_UserRole: changed(row.FK_UserRole, self.FK_UserRole),
        }
    }
}

impl ZipCodeChange {
    pub open spec fn is_empty(self) -> bool {
        self.Number is None && self.City is None
    }

    /// The row after the change.
    pub open spec fn apply(self, row: ZipCodeView) -> ZipCodeView {
        ZipCodeView {
            ZipCodeId: row.ZipCodeId,
            Number: changed(row.Number, self.Number),
            City: changed(row.City, self.City),
        }
    }
}

impl View for UserOptional {
    type V = UserChange;

    open spec fn view(&self) -> UserChange {
        UserChange {
            Username: text_of(self.Username),
            Name: text_of(self.Name),
            Surname: text_of(self.Surname),
            Password: text_of(self.Password),
            FK_UserRole: text_of(self.FK_UserRole),
        }
    }
}

impl View for ZipCodeOptional {
    type V = ZipCodeChange;

    open spec fn view(&self) -> ZipCodeChange {
        ZipCodeChange { Number: self.Number, City: text_of(self.City) }
    }
}

/// The characters of an optional text.
pub open spec fn text_of(text: Option<String>) -> Option<Seq<char>> {
    match text {
        Some(held) => Some(held@),
        None => None,
    }
}

/// The cost parameters of the password hash.  They are fixed when the
/// process starts; a digest carries the parameters it was made with, so a
/// change does not invalidate stored digests.
#[derive(Debug, Clone, Copy, PartialEq, Eq, Structural)]
pub struct HashingParameters {
    pub mem_cost: u32,
    pub time_cost: u32,
    pub lanes: u32,
}

} // verus!
