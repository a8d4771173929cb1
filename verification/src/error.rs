//! The error kinds of the service and the error value that travels to the
//! client.
use vstd::prelude::*;
use vstd::string::*;
use crate::failure::{DatabaseFailure, StoreFailure, ViolationKind};
use crate::pattern::{regexFirstGroup, regex_first_group};
use crate::text::{withoutChar, without_char};

verus! {

/// The enumerated kind of an error, as it appears in an error body.
#[derive(Debug, Clone, Copy, PartialEq, Eq, Structural)]
pub enum PickUpErrorCode {
    Other,
    Check,
    ForeignKey,
    Unique,
    Hashing,
    IncorectCredentials,
    Unauthorized,
    InternalServerError,
    BadRequest,
    Timeout,
}

impl PickUpErrorCode {
    /// The position of the kind in the enumeration, starting at zero.
    pub open spec fn number(self) -> nat {
        match self {
            PickUpErrorCode::Other => 0,
            PickUpErrorCode::Check => 1,
            PickUpErrorCode::ForeignKey => 2,
            PickUpErrorCode::Unique => 3,
            PickUpErrorCode::Hashing => 4,
            PickUpErrorCode::IncorectCredentials => 5,
            PickUpErrorCode::Unauthorized => 6,
            PickUpErrorCode::InternalServerError => 7,
            PickUpErrorCode::BadRequest => 8,
            PickUpErrorCode::Timeout => 9,
        }
    }

    /// The default human text of the kind.
    pub open spec fn text(self) -> Seq<char> {
        match self {
            PickUpErrorCode::Other => "Other type of error"@,
            PickUpErrorCode::Check => "Check constraint has failed"@,
            PickUpErrorCode::ForeignKey => "Foreign key constraint has failed"@,
            PickUpErrorCode::Unique => "Unique constraint has failed"@,
            PickUpErrorCode::Hashing => "Hashing has failed"@,
            PickUpErrorCode::IncorectCredentials => "Password or username is incorrect"@,
            PickUpErrorCode::Unauthorized => "Token is insufficient"@,
            PickUpErrorCode::InternalServerError => "Internal server error"@,
            PickUpErrorCode::BadRequest => "Bad request error"@,
            PickUpErrorCode::Timeout => "Timeout error"@,
        }
    }

    /// The name of the kind, as it is written in an error body.
    pub open spec fn label(self) -> Seq<char> {
        match self {
            PickUpErrorCode::Other => "Other"@,
            PickUpErrorCode::Check => "Check"@,
            PickUpErrorCode::ForeignKey => "ForeignKey"@,
            PickUpErrorCode::Unique => "Unique"@,
            PickUpErrorCode::Hashing => "Hashing"@,
            PickUpErrorCode::IncorectCredentials => "IncorectCredentials"@,
            PickUpErrorCode::Unauthorized => "Unauthorized"@,
            PickUpErrorCode::InternalServerError => "InternalServerError"@,
            PickUpErrorCode::BadRequest => "BadRequest"@,
            PickUpErrorCode::Timeout => "Timeout"@,
        }
    }

    /// The kind that a bare error of this kind is reported under: only
    /// credential and token failures keep their kind, every other kind is
    /// reported as `Other`.
    pub open spec fn reported(self) -> PickUpErrorCode {
        match self {
            PickUpErrorCode::IncorectCredentials => PickUpErrorCode::IncorectCredentials,
            PickUpErrorCode::Unauthorized => PickUpErrorCode::Unauthorized,
            _ => PickUpErrorCode::Other,
        }
    }

    pub fn code(&self) -> (n: u32)
        ensures
            n == self.number(),
    {
        match self {
            PickUpErrorCode::Other => 0,
            PickUpErrorCode::Check => 1,
            PickUpErrorCode::ForeignKey => 2,
            PickUpErrorCode::Unique => 3,
            PickUpErrorCode::Hashing => 4,
            PickUpErrorCode::IncorectCredentials => 5,
            PickUpErrorCode::Unauthorized => 6,
            PickUpErrorCode::InternalServerError => 7,
            PickUpErrorCode::BadRequest => 8,
            PickUpErrorCode::Timeout => 9,
        }
    }

    pub fn to_string(&self) -> (s: String)
        ensures
            s@ == self.text(),
    {
        match self {
            PickUpErrorCode::Other => String::from_str("Other type of error"),
            PickUpErrorCode::Check => String::from_str("Check constraint has failed"),
            PickUpErrorCode::ForeignKey => String::from_str("Foreign key constraint has failed"),
            PickUpErrorCode::Unique => String::from_str("Unique constraint has failed"),
            PickUpErrorCode::Hashing => String::from_str("Hashing has failed"),
            PickUpErrorCode::IncorectCredentials => String::from_str(
                "Password or username is incorrect",
            ),
            PickUpErrorCode::Unauthorized => String::from_str("Token is insufficient"),
            PickUpErrorCode::InternalServerError => String::from_str("Internal server error"),
            PickUpErrorCode::BadRequest => String::from_str("Bad request error"),
            PickUpErrorCode::Timeout => String::from_str("Timeout error"),
        }
    }

    pub fn name(&self) -> (s: String)
        ensures
            s@ == self.label(),
    {
        match self {
            PickUpErrorCode::Other => String::from_str("Other"),
            PickUpErrorCode::Check => String::from_str("Check"),
            PickUpErrorCode::ForeignKey => String::from_str("ForeignKey"),
            PickUpErrorCode::Unique => String::from_str("Unique"),
            PickUpErrorCode::Hashing => String::from_str("Hashing"),
            PickUpErrorCode::IncorectCredentials => String::from_str("IncorectCredentials"),
            PickUpErrorCode::Unauthorized => String::from_str("Unauthorized"),
            PickUpErrorCode::InternalServerError => String::from_str("InternalServerError"),
            PickUpErrorCode::BadRequest => String::from_str("BadRequest"),
            PickUpErrorCode::Timeout => String::from_str("Timeout"),
        }
    }
}

/// An error as it is handed to the client: its kind and a human text.
#[derive(Debug, Clone, PartialEq, Eq)]
pub struct PickUpError {
    pub Code: PickUpErrorCode,
    pub Message: String,
}

/// An error with its message as a sequence of characters.
pub struct PickUpErrorView {
    pub Code: PickUpErrorCode,
    pub Message: Seq<char>,
}

impl View for PickUpError {
    type V = PickUpErrorView;

    open spec fn view(&self) -> PickUpErrorView {
        PickUpErrorView { Code: self.Code, Message: self.Message@ }
    }
}

/// The bare error of a kind: see `PickUpError::new`.
pub open spec fn bare_error(code: PickUpErrorCode) -> PickUpErrorView {
    PickUpErrorView { Code: code.reported(), Message: code.reported().text() }
}

/// The regular expression that finds the offending column in the
/// database's message about a foreign key.
pub open spec fn foreign_key_pattern() -> Seq<char> {
    "FOREIGN KEY \\((.*)\\) REFERENCES"@
}

/// The message of a foreign key error, given what the search for the
/// offending column found: the column without its back quotes, or "unknown".
pub open spec fn foreign_key_text(column: Option<Seq<char>>) -> Seq<char> {
    match column {
        None => "Foreign key constraint fails at unknown column"@,
        Some(name) => "Foreign key constraint fails at "@ + without_char(name, '`') + " column"@,
    }
}

/// The kind under which a violated constraint is reported.
pub open spec fn violation_code(kind: ViolationKind) -> PickUpErrorCode {
    match kind {
        ViolationKind::Check => PickUpErrorCode::Check,
        ViolationKind::ForeignKey => PickUpErrorCode::ForeignKey,
        ViolationKind::Unique => PickUpErrorCode::Unique,
        ViolationKind::Other => PickUpErrorCode::Other,
    }
}

/// The error that a failure reported by the database is classified as.  A
/// foreign key violation names the offending column, which is searched for
/// in the database's message; every other failure keeps that message.
pub open spec fn database_error(kind: ViolationKind, message: Seq<char>) -> PickUpErrorView {
    PickUpErrorView {
        Code: violation_code(kind),
        Message: match kind {
            ViolationKind::ForeignKey => foreign_key_text(
                regex_first_group(foreign_key_pattern(), message),
            ),
            _ => message,
        },
    }
}

/// The error that a failure without a database report is classified as.
pub open spec fn internal_error(description: Seq<char>) -> PickUpErrorView {
    PickUpErrorView { Code: PickUpErrorCode::InternalServerError, Message: description }
}

/// The message of a foreign key error, given the offending column as the
/// search of the database's message found it.
pub fn foreignKeyMessage(column: Option<&str>) -> (message: String)
    ensures
        message@ == foreign_key_text(
            match column {
                Some(name) => Some(name@),
                None => None,
            },
        ),
{
    match column {
        None => String::from_str("Foreign key constraint fails at unknown column"),
        Some(name) => {
            let mut message = String::from_str("Foreign key constraint fails at ");
            let stripped = withoutChar(name, '`');
            message.append(stripped.as_str());
            message.append(" column");
            message
        },
    }
}

impl PickUpError {
    /// Classifies a failure that the database reported.
    pub fn fromDatabaseError(e: &DatabaseFailure) -> (error: PickUpError)
        ensures
            error@ == database_error(e@.kind, e@.message),
    {
        match e.kind {
            ViolationKind::Check => PickUpError {
                Code: PickUpErrorCode::Check,
                Message: e.message.clone(),
            },
            ViolationKind::ForeignKey => {
                let column = regexFirstGroup(
                    "FOREIGN KEY \\((.*)\\) REFERENCES",
                    e.message.as_str(),
                );
                let message = match &column {
                    Some(name) => foreignKeyMessage(Some(name.as_str())),
                    None => foreignKeyMessage(None),
                };
                PickUpError { Code: PickUpErrorCode::ForeignKey, Message: message }
            },
            ViolationKind::Unique => PickUpError {
                Code: PickUpErrorCode::Unique,
                Message: e.message.clone(),
            },
            ViolationKind::Other => PickUpError {
                Code: PickUpErrorCode::Other,
                Message: e.message.clone(),
            },
        }
    }

    /// Classifies a failure that is not a report of the database: an
    /// internal error that carries the failure's description.
    pub fn fromStoreFailure(e: &StoreFailure) -> (error: PickUpError)
        ensures
            error@ == internal_error(e@.description),
    {
        PickUpError { Code: PickUpErrorCode::InternalServerError, Message: e.description.clone() }
    }

    /// A bare error: the kind it is reported under and that kind's default
    /// text.
    pub fn new(pickupErrorCode: PickUpErrorCode) -> (e: PickUpError)
        ensures
            e@ == bare_error(pickupErrorCode),
    {
        match pickupErrorCode {
            PickUpErrorCode::IncorectCredentials => PickUpError {
                Code: PickUpErrorCode::IncorectCredentials,
                Message: PickUpErrorCode::IncorectCredentials.to_string(),
            },
            PickUpErrorCode::Unauthorized => PickUpError {
                Code: PickUpErrorCode::Unauthorized,
                Message: PickUpErrorCode::Unauthorized.to_string(),
            },
            _ => PickUpError {
                Code: PickUpErrorCode::Other,
                Message: PickUpErrorCode::Other.to_string(),
            },
        }
    }

    /// The error on one line: its kind by name, then its message.
    pub fn to_string(&self) -> (line: String)
        ensures
            line@ == "Code: "@ + self.Code.label() + " Message: "@ + self.Message@,
    {
        let mut line = String::from_str("Code: ");
        let name = self.Code.name();
        line.append(name.as_str());
        line.append(" Message: ");
        line.append(self.Message.as_str());
        line
    }

    /// An error of the given kind with a text of the caller's.
    pub fn newMessage(pickupErrorCode: PickUpErrorCode, message: &str) -> (e: PickUpError)
        ensures
            e@ == (PickUpErrorView { Code: pickupErrorCode, Message: message@ }),
    {
        PickUpError { Code: pickupErrorCode, Message: String::from_str(message) }
    }
}

} // verus!
