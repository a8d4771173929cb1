//! What a failed store operation reports.
use vstd::prelude::*;
use vstd::string::*;
use crate::text::sameText;

verus! {

/// The constraint that a refused write violated.
#[derive(Debug, Clone, Copy, PartialEq, Eq, Structural)]
pub enum ViolationKind {
    Check,
    ForeignKey,
    Unique,
    Other,
}

/// A failure that the database itself reported: the violated constraint and
/// the database's message.
#[derive(Debug, Clone, PartialEq, Eq)]
pub struct DatabaseFailure {
    pub kind: ViolationKind,
    pub message: String,
}

/// A failed store operation: its description as text, and, where the
/// database reported the failure, what it reported.  A failure without a
/// database report is a failure to reach the database or to run the
/// statement at all, or a query that found no row.
#[derive(Debug, Clone, PartialEq, Eq)]
pub struct StoreFailure {
    pub description: String,
    pub database: Option<DatabaseFailure>,
}

pub struct DatabaseFailureView {
    pub kind: ViolationKind,
    pub message: Seq<char>,
}

pub struct StoreFailureView {
    pub description: Seq<char>,
    pub database: Option<DatabaseFailureView>,
}

impl View for DatabaseFailure {
    type V = DatabaseFailureView;

    open spec fn view(&self) -> DatabaseFailureView {
        DatabaseFailureView { kind: self.kind, message: self.message@ }
    }
}

impl View for StoreFailure {
    type V = StoreFailureView;

    open spec fn view(&self) -> StoreFailureView {
        StoreFailureView {
            description: self.description@,
            database: match self.database {
                Some(report) => Some(report@),
                None => None,
            },
        }
    }
}

/// The failure of a query that was to yield a row and found none.
pub open spec fn no_rows() -> StoreFailureView {
    StoreFailureView { description: no_rows_text(), database: None }
}

/// The failure that reports a violated constraint with the database's
/// message.
pub open spec fn violation(kind: ViolationKind, message: Seq<char>) -> StoreFailureView {
    StoreFailureView {
        description: "error returned from database: "@ + message,
        database: Some(DatabaseFailureView { kind, message }),
    }
}

/// The description of a query that was to yield a row and found none.
pub open spec fn no_rows_text() -> Seq<char> {
    "no rows returned by a query that expected to return at least one row"@
}

impl StoreFailure {
    /// Whether the failure is that of a query that found no row.
    pub open spec fn is_no_rows(&self) -> bool {
        self.description@ == no_rows_text()
    }

    /// The failure of a query that was to yield a row and found none.
    pub fn noRows() -> (failure: StoreFailure)
        ensures
            failure@ == no_rows(),
    {
        StoreFailure {
            description: String::from_str(
                "no rows returned by a query that expected to return at least one row",
            ),
            database: None,
        }
    }

    /// The failure that reports a violated constraint with the database's
    /// message.
    pub fn violated(kind: ViolationKind, message: &str) -> (failure: StoreFailure)
        ensures
            failure@ == violation(kind, message@),
    {
        let mut description = String::from_str("error returned from database: ");
        description.append(message);
        StoreFailure {
            description,
            database: Some(DatabaseFailure { kind, message: String::from_str(message) }),
        }
    }

    pub fn isNoRows(&self) -> (yes: bool)
        ensures
            yes == self.is_no_rows(),
    {
        sameText(
            self.description.as_str(),
            "no rows returned by a query that expected to return at least one row",
        )
    }
}

} // verus!
