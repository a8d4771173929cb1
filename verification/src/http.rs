//! Replies, and the one mapping from an error's kind to its status.
use vstd::prelude::*;
use crate::error::{
    bare_error, database_error, internal_error, PickUpError, PickUpErrorCode, PickUpErrorView,
};
use crate::failure::{no_rows_text, StoreFailure, StoreFailureView};
use crate::models::{TokenOnly, User, UserView, ZipCode, ZipCodeView};

verus! {

pub const STATUS_OK: u16 = 200;

pub const STATUS_CREATED: u16 = 201;

pub const STATUS_BAD_REQUEST: u16 = 400;

pub const STATUS_UNAUTHORIZED: u16 = 401;

pub const STATUS_INTERNAL_SERVER_ERROR: u16 = 500;

/// What a reply carries.
#[derive(Debug, Clone, PartialEq, Eq)]
pub enum ReplyBody {
    Empty,
    Text(String),
    Error(PickUpError),
    Token(TokenOnly),
    Users(Vec<User>),
    ZipCodes(Vec<ZipCode>),
}

/// A reply to a request: the status and the body.
#[derive(Debug, Clone, PartialEq, Eq)]
pub struct HttpReply {
    pub status: u16,
    pub body: ReplyBody,
}

#[verifier::ext_equal]
pub enum ReplyBodyView {
    Empty,
    Text(Seq<char>),
    Error(PickUpErrorView),
    Token(Seq<char>),
    Users(Seq<UserView>),
    ZipCodes(Seq<ZipCodeView>),
}

#[verifier::ext_equal]
pub struct HttpReplyView {
    pub status: u16,
    pub body: ReplyBodyView,
}

impl View for ReplyBody {
    type V = ReplyBodyView;

    open spec fn view(&self) -> ReplyBodyView {
        match self {
            ReplyBody::Empty => ReplyBodyView::Empty,
            ReplyBody::Text(text) => ReplyBodyView::Text(text@),
            ReplyBody::Error(error) => ReplyBodyView::Error(error@),
            ReplyBody::Token(token) => ReplyBodyView::Token(token.Token@),
            ReplyBody::Users(users) => ReplyBodyView::Users(
                Seq::new(users@.len(), |i: int| users@[i]@),
            ),
            ReplyBody::ZipCodes(zipCodes) => ReplyBodyView::ZipCodes(
                Seq::new(zipCodes@.len(), |i: int| zipCodes@[i]@),
            ),
        }
    }
}

impl View for HttpReply {
    type V = HttpReplyView;

    open spec fn view(&self) -> HttpReplyView {
        HttpReplyView { status: self.status, body: self.body@ }
    }
}

/// The status under which an error of a kind is sent.  Violated constraints
/// and malformed or mistaken requests are the client's (400), a token that
/// does not authorize is 401, and what failed inside the service is 500.
pub open spec fn status_of(code: PickUpErrorCode) -> u16 {
    match code {
        PickUpErrorCode::Other => STATUS_BAD_REQUEST,
        PickUpErrorCode::Check => STATUS_BAD_REQUEST,
        PickUpErrorCode::ForeignKey => STATUS_BAD_REQUEST,
        PickUpErrorCode::Unique => STATUS_BAD_REQUEST,
        PickUpErrorCode::Hashing => STATUS_INTERNAL_SERVER_ERROR,
        PickUpErrorCode::IncorectCredentials => STATUS_BAD_REQUEST,
        PickUpErrorCode::Unauthorized => STATUS_UNAUTHORIZED,
        PickUpErrorCode::InternalServerError => STATUS_INTERNAL_SERVER_ERROR,
        PickUpErrorCode::BadRequest => STATUS_BAD_REQUEST,
        PickUpErrorCode::Timeout => STATUS_INTERNAL_SERVER_ERROR,
    }
}

/// The reply that sends an error: the status of its kind, and the error as
/// the body.
pub open spec fn error_reply(error: PickUpErrorView) -> HttpReplyView {
    HttpReplyView { status: status_of(error.Code), body: ReplyBodyView::Error(error) }
}

/// The reply to a request that was served and has nothing to hand back.
pub open spec fn empty_reply(status: u16) -> HttpReplyView {
    HttpReplyView { status, body: ReplyBodyView::Empty }
}

/// The reply that hands a fresh bearer secret to the client.
pub open spec fn token_reply(secret: Seq<char>) -> HttpReplyView {
    HttpReplyView { status: STATUS_CREATED, body: ReplyBodyView::Token(secret) }
}

/// The error that a failed write, or a failed read of many rows, is
/// reported as: what the database reported, classified; or else an
/// internal error.
pub open spec fn write_error(failure: StoreFailureView) -> PickUpErrorView {
    match failure.database {
        Some(report) => database_error(report.kind, report.message),
        None => internal_error(failure.description),
    }
}

/// The error that a failed search for an identity's credential is reported
/// as: what the database reported, classified; a search that found no row,
/// as incorrect credentials; any other failure, as an internal error.
pub open spec fn credentials_error(failure: StoreFailureView) -> PickUpErrorView {
    match failure.database {
        Some(report) => database_error(report.kind, report.message),
        None => if failure.description == no_rows_text() {
            bare_error(PickUpErrorCode::IncorectCredentials)
        } else {
            internal_error(failure.description)
        },
    }
}

pub fn statusOf(code: PickUpErrorCode) -> (status: u16)
    ensures
        status == status_of(code),
{
    match code {
        PickUpErrorCode::Other => STATUS_BAD_REQUEST,
        PickUpErrorCode::Check => STATUS_BAD_REQUEST,
        PickUpErrorCode::ForeignKey => STATUS_BAD_REQUEST,
        PickUpErrorCode::Unique => STATUS_BAD_REQUEST,
        PickUpErrorCode::Hashing => STATUS_INTERNAL_SERVER_ERROR,
        PickUpErrorCode::IncorectCredentials => STATUS_BAD_REQUEST,
        PickUpErrorCode::Unauthorized => STATUS_UNAUTHORIZED,
        PickUpErrorCode::InternalServerError => STATUS_INTERNAL_SERVER_ERROR,
        PickUpErrorCode::BadRequest => STATUS_BAD_REQUEST,
        PickUpErrorCode::Timeout => STATUS_INTERNAL_SERVER_ERROR,
    }
}

/// Sends an error under the status of its kind.
pub fn errorReply(error: PickUpError) -> (reply: HttpReply)
    ensures
        reply@ == error_reply(error@),
{
    HttpReply { status: statusOf(error.Code), body: ReplyBody::Error(error) }
}

/// A reply without a body.
pub fn emptyReply(status: u16) -> (reply: HttpReply)
    ensures
        reply@ == empty_reply(status),
{
    HttpReply { status, body: ReplyBody::Empty }
}

/// The reply that hands a fresh bearer secret to the client.
pub fn tokenReply(secret: String) -> (reply: HttpReply)
    ensures
        reply@ == token_reply(secret@),
{
    HttpReply { status: STATUS_CREATED, body: ReplyBody::Token(TokenOnly { Token: secret }) }
}

/// The reply to a failed write: a database report is the client's to mend
/// (400, classified), anything else is an internal error (500).
pub fn getHRFromErrorDatabase(error: StoreFailure) -> (reply: HttpReply)
    ensures
        reply@ == error_reply(write_error(error@)),
        error.database is Some ==> reply.status == STATUS_BAD_REQUEST,
        error.database is None ==> reply.status == STATUS_INTERNAL_SERVER_ERROR,
{
    match &error.database {
        None => errorReply(PickUpError::fromStoreFailure(&error)),
        Some(report) => errorReply(PickUpError::fromDatabaseError(report)),
    }
}

/// The reply to a failure that can only be internal.
pub fn getHRFromErrorInternal(error: StoreFailure) -> (reply: HttpReply)
    ensures
        reply@ == error_reply(internal_error(error.description@)),
        reply.status == STATUS_INTERNAL_SERVER_ERROR,
{
    errorReply(PickUpError::fromStoreFailure(&error))
}

/// The reply to a failed search for an identity's credential.  An unknown
/// name is answered as a wrong password is: incorrect credentials.  A
/// search that could not be made is not mistaken for either: it is an
/// internal error.
pub fn getHRFromErrorIncorectCredentials(error: StoreFailure) -> (reply: HttpReply)
    ensures
        reply@ == error_reply(credentials_error(error@)),
        error.database is Some || error.is_no_rows() ==> reply.status == STATUS_BAD_REQUEST,
        error.database is None && !error.is_no_rows() ==> reply.status
            == STATUS_INTERNAL_SERVER_ERROR,
{
    match &error.database {
        None => {
            if error.isNoRows() {
                errorReply(PickUpError::new(PickUpErrorCode::IncorectCredentials))
            } else {
                errorReply(PickUpError::fromStoreFailure(&error))
            }
        },
        Some(report) => errorReply(PickUpError::fromDatabaseError(report)),
    }
}

} // verus!
