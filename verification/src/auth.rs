//! The guard that every protected request passes.
//!
//! A route asks for a minimum permission tier, or for no more than a valid
//! token.  The guard rejects a request without a bearer credential before it
//! touches the store; with one, it resolves the presented access secret to
//! the current tier of its owner and compares tiers in one place.  A secret
//! that was never issued, one that has expired and one whose owner's tier is
//! too low are all rejected alike.
use vstd::prelude::*;
use crate::digest::{sha256Digest, sha256_hex};
use crate::error::{bare_error, internal_error, PickUpError, PickUpErrorCode, PickUpErrorView};
use crate::failure::{StoreFailure, StoreFailureView};
use crate::http::{error_reply, errorReply, HttpReply, HttpReplyView};
use crate::model::StoreView;
use crate::models::{Token, TokenKind, TOKEN_TYPE_ACCESS};
use crate::permission::{PermissionLevel, PermissionLevelStruct};
use crate::state::AppState;
use crate::store::Store;

verus! {

/// What a route requires of a request: no more than a valid token, or a
/// minimum tier.
#[derive(Debug, Clone, Copy, PartialEq, Eq, Structural)]
pub enum RequiredTier {
    Authenticated,
    Supervisor,
    Admin,
}

impl RequiredTier {
    /// The tier that the owner's role has to cover; none where a valid
    /// token is enough.
    pub open spec fn minimum(self) -> Option<PermissionLevel> {
        match self {
            RequiredTier::Authenticated => None,
            RequiredTier::Supervisor => Some(PermissionLevel::Supervisor),
            RequiredTier::Admin => Some(PermissionLevel::Admin),
        }
    }

    pub fn tier(&self) -> (level: Option<PermissionLevel>)
        ensures
            level == self.minimum(),
    {
        match self {
            RequiredTier::Authenticated => None,
            RequiredTier::Supervisor => Some(PermissionLevel::Supervisor),
            RequiredTier::Admin => Some(PermissionLevel::Admin),
        }
    }
}

/// What the guard resolved for a request that proceeds: the identity that
/// owns the presented token and, where the route asked for a tier, the tier
/// that the identity's role has at this moment.
#[derive(Debug, Clone, PartialEq, Eq)]
pub struct Admission {
    pub owner: String,
    pub tier: Option<PermissionLevel>,
}

pub struct AdmissionView {
    pub owner: Seq<char>,
    pub tier: Option<PermissionLevel>,
}

impl View for Admission {
    type V = AdmissionView;

    open spec fn view(&self) -> AdmissionView {
        AdmissionView { owner: self.owner@, tier: self.tier }
    }
}

/// What the guard decides for a request.
#[derive(Debug, Clone, PartialEq, Eq)]
pub enum GuardDecision {
    /// The request proceeds to its handler, with what was resolved for it.
    Authorized(Admission),
    /// The request ends here with this reply.
    Rejected(HttpReply),
}

#[verifier::ext_equal]
pub enum GuardDecisionView {
    Authorized(AdmissionView),
    Rejected(HttpReplyView),
}

impl View for GuardDecision {
    type V = GuardDecisionView;

    open spec fn view(&self) -> GuardDecisionView {
        match self {
            GuardDecision::Authorized(admission) => GuardDecisionView::Authorized(admission@),
            GuardDecision::Rejected(reply) => GuardDecisionView::Rejected(reply@),
        }
    }
}

impl GuardDecision {
    /// The kind of the error that a rejection carries: `Unauthorized` for a
    /// credential that does not authorize, `InternalServerError` where the
    /// store failed.  The two are told apart here, though both end the
    /// request.
    pub open spec fn rejected_as(self) -> Option<PickUpErrorCode> {
        match self {
            GuardDecision::Rejected(reply) => match reply.body {
                crate::http::ReplyBody::Error(error) => Some(error.Code),
                _ => None,
            },
            GuardDecision::Authorized(_) => None,
        }
    }

    pub fn rejectedAs(&self) -> (kind: Option<PickUpErrorCode>)
        ensures
            kind == self.rejected_as(),
    {
        match self {
            GuardDecision::Rejected(reply) => match &reply.body {
                crate::http::ReplyBody::Error(error) => Some(error.Code),
                _ => None,
            },
            GuardDecision::Authorized(_) => None,
        }
    }
}

/// The error that a failed search for a token is reported as.  A search
/// that found no row is unauthorized, whether the secret was never issued,
/// has expired or is of another kind; any other failure is internal and
/// carries its description.
pub open spec fn lookup_error(failure: StoreFailureView) -> PickUpErrorView {
    if failure.description == crate::failure::no_rows_text() {
        bare_error(PickUpErrorCode::Unauthorized)
    } else {
        internal_error(failure.description)
    }
}

/// The reply to a request that is not authorized.
pub open spec fn unauthorized_reply() -> HttpReplyView {
    error_reply(bare_error(PickUpErrorCode::Unauthorized))
}

/// Whether the access secret is that of a token valid at `now`.
pub open spec fn authenticated(store: StoreView, secret: Seq<char>, now: u64) -> bool {
    store.live_token(TOKEN_TYPE_ACCESS, sha256_hex(secret), now) is Some
}

/// The tier that the access secret resolves to at `now`.
pub open spec fn permission_level(store: StoreView, secret: Seq<char>, now: u64) -> Option<
    PermissionLevel,
> {
    match store.resolve(sha256_hex(secret), now) {
        Some(tier) => Some(PermissionLevel::of(tier)),
        None => None,
    }
}

/// What the guard decides for the owner of a valid access token, from the
/// numeric tier of the owner's role and the tier that the route requires:
/// the owner's tier has to cover the required.
pub open spec fn permission_verdict(
    required: PermissionLevel,
    owner: Seq<char>,
    tier: i8,
) -> GuardDecisionView {
    if PermissionLevel::of(tier).covers(required) {
        GuardDecisionView::Authorized(
            AdmissionView { owner, tier: Some(PermissionLevel::of(tier)) },
        )
    } else {
        GuardDecisionView::Rejected(unauthorized_reply())
    }
}

/// What the guard decides for a route that requires the tier `required`.
pub open spec fn permission_guard(
    store: StoreView,
    required: PermissionLevel,
    credentials: Option<Seq<char>>,
    now: u64,
) -> GuardDecisionView {
    match credentials {
        None => GuardDecisionView::Rejected(unauthorized_reply()),
        Some(secret) => match store.live_token(TOKEN_TYPE_ACCESS, sha256_hex(secret), now) {
            Some(row) => permission_verdict(required, row.FK_User, store.tier_of(row.FK_User)),
            None => GuardDecisionView::Rejected(unauthorized_reply()),
        },
    }
}

/// What the guard decides for a route that requires no more than a valid
/// token.
pub open spec fn authentication_guard(
    store: StoreView,
    credentials: Option<Seq<char>>,
    now: u64,
) -> GuardDecisionView {
    match credentials {
        None => GuardDecisionView::Rejected(unauthorized_reply()),
        Some(secret) => match store.live_token(TOKEN_TYPE_ACCESS, sha256_hex(secret), now) {
            Some(row) => GuardDecisionView::Authorized(
                AdmissionView { owner: row.FK_User, tier: None },
            ),
            None => GuardDecisionView::Rejected(unauthorized_reply()),
        },
    }
}

/// What the guard decides for a route, whatever it requires.
pub open spec fn guard_decision(
    store: StoreView,
    required: RequiredTier,
    credentials: Option<Seq<char>>,
    now: u64,
) -> GuardDecisionView {
    match required.minimum() {
        None => authentication_guard(store, credentials, now),
        Some(level) => permission_guard(store, level, credentials, now),
    }
}

/// Classifies a failed search for a token.
pub fn lookupError(failure: &StoreFailure) -> (error: PickUpError)
    ensures
        error@ == lookup_error(failure@),
{
    if failure.isNoRows() {
        PickUpError::new(PickUpErrorCode::Unauthorized)
    } else {
        PickUpError::newMessage(PickUpErrorCode::InternalServerError, failure.description.as_str())
    }
}

/// What a search for a valid token means for the request: a row
/// authenticates it, a failure is classified.
pub fn authenticationOf(found: Result<Token, StoreFailure>) -> (outcome: Result<bool, PickUpError>)
    ensures
        match found {
            Ok(_) => outcome == Ok::<bool, PickUpError>(true),
            Err(failure) => outcome matches Err(error) && error@ == lookup_error(failure@),
        },
{
    match found {
        Ok(_) => Ok(true),
        Err(failure) => Err(lookupError(&failure)),
    }
}

/// What the role join for a token means for the request: the tier of the
/// row, or the classified failure.
pub fn permissionOf(found: Result<PermissionLevelStruct, StoreFailure>) -> (outcome: Result<
    PermissionLevel,
    PickUpError,
>)
    ensures
        match found {
            Ok(row) => outcome == Ok::<PermissionLevel, PickUpError>(
                PermissionLevel::of(row.PermissionLevel),
            ),
            Err(failure) => outcome matches Err(error) && error@ == lookup_error(failure@),
        },
{
    match found {
        Ok(row) => Ok(PermissionLevel::fromTier(row.PermissionLevel)),
        Err(failure) => Err(lookupError(&failure)),
    }
}

/// The reply that ends a request whose authentication failed; none where
/// it succeeded.
pub fn authenticationReply(outcome: Result<bool, PickUpError>) -> (reply: Option<HttpReply>)
    ensures
        match outcome {
            Ok(_) => reply is None,
            Err(error) => reply matches Some(sent) && sent@ == error_reply(error@),
        },
{
    match outcome {
        Ok(_) => None,
        Err(error) => Some(errorReply(error)),
    }
}

/// The resolved tier, or the reply that ends the request.
pub fn permissionReply(outcome: Result<PermissionLevel, PickUpError>) -> (resolved: Result<
    PermissionLevel,
    HttpReply,
>)
    ensures
        match outcome {
            Ok(level) => resolved == Ok::<PermissionLevel, HttpReply>(level),
            Err(error) => resolved matches Err(sent) && sent@ == error_reply(error@),
        },
{
    match outcome {
        Ok(level) => Ok(level),
        Err(error) => Err(errorReply(error)),
    }
}

/// The reply to a request that carries no bearer credential, or whose
/// credential does not authorize it.
pub fn unauthorizedReply() -> (reply: HttpReply)
    ensures
        reply@ == unauthorized_reply(),
{
    errorReply(PickUpError::new(PickUpErrorCode::Unauthorized))
}

/// The first step of the guard: a request without a bearer credential
/// ends as unauthorized before anything is searched; with one, the digest
/// to search by is that of the presented secret.
pub fn credentialDigest(credentials: Option<&str>) -> (digest: Result<String, HttpReply>)
    ensures
        match credentials {
            None => digest matches Err(reply) && reply@ == unauthorized_reply(),
            Some(secret) => digest matches Ok(hex) && hex@ == sha256_hex(secret@),
        },
{
    match credentials {
        None => Err(unauthorizedReply()),
        Some(secret) => Ok(sha256Digest(secret)),
    }
}

/// Decides a request to a route that requires a tier, from the valid
/// access token that was searched for and the tier of its owner's role.  A
/// search that found no row is unauthorized; any other failure is internal.
pub fn permissionVerdict(
    required: PermissionLevel,
    found: Result<(Token, PermissionLevelStruct), StoreFailure>,
) -> (decision: GuardDecision)
    ensures
        match found {
            Err(failure) => decision@ == GuardDecisionView::Rejected(
                error_reply(lookup_error(failure@)),
            ),
            Ok((row, tier)) => decision@ == permission_verdict(
                required,
                row.FK_User@,
                tier.PermissionLevel,
            ),
        },
{
    match found {
        Err(failure) => GuardDecision::Rejected(errorReply(lookupError(&failure))),
        Ok((row, tier)) => {
            let level = PermissionLevel::fromTier(tier.PermissionLevel);
            if level.atLeast(required) {
                GuardDecision::Authorized(Admission { owner: row.FK_User, tier: Some(level) })
            } else {
                GuardDecision::Rejected(unauthorizedReply())
            }
        },
    }
}

/// Decides a request to a route that requires no more than a valid token,
/// from the valid access token that was searched for.
pub fn authenticationVerdict(found: Result<Token, StoreFailure>) -> (decision: GuardDecision)
    ensures
        match found {
            Err(failure) => decision@ == GuardDecisionView::Rejected(
                error_reply(lookup_error(failure@)),
            ),
            Ok(row) => decision@ == GuardDecisionView::Authorized(
                AdmissionView { owner: row.FK_User@, tier: None },
            ),
        },
{
    match found {
        Err(failure) => GuardDecision::Rejected(errorReply(lookupError(&failure))),
        Ok(row) => GuardDecision::Authorized(Admission { owner: row.FK_User, tier: None }),
    }
}

/// Whether the access secret is that of a token valid at `now`.  A secret
/// without such a token is unauthorized.
pub fn authenticate(token: &str, store: &Store, now: u64) -> (outcome: Result<bool, PickUpError>)
    requires
        store@.wf(),
    ensures
        authenticated(store@, token@, now) ==> outcome == Ok::<bool, PickUpError>(true),
        !authenticated(store@, token@, now) ==> (outcome matches Err(error) && error@
            == bare_error(PickUpErrorCode::Unauthorized)),
{
    let tokenHashed = sha256Digest(token);
    authenticationOf(store.selectToken(TokenKind::Access, tokenHashed.as_str(), now))
}

/// The reply that ends a request whose access secret does not
/// authenticate it; none where it does.
pub fn authenticateHttp(token: &str, store: &Store, now: u64) -> (reply: Option<HttpReply>)
    requires
        store@.wf(),
    ensures
        authenticated(store@, token@, now) ==> reply is None,
        !authenticated(store@, token@, now) ==> (reply matches Some(sent) && sent@
            == unauthorized_reply()),
{
    authenticationReply(authenticate(token, store, now))
}

/// The tier that the access secret resolves to at `now`: the tier that the
/// role of the token's owner has at this moment.  A secret without a valid
/// token is unauthorized.
pub fn getPermissionLevel(token: &str, store: &Store, now: u64) -> (outcome: Result<
    PermissionLevel,
    PickUpError,
>)
    requires
        store@.wf(),
    ensures
        match permission_level(store@, token@, now) {
            Some(level) => outcome == Ok::<PermissionLevel, PickUpError>(level),
            None => outcome matches Err(error) && error@ == bare_error(
                PickUpErrorCode::Unauthorized,
            ),
        },
{
    let tokenHashed = sha256Digest(token);
    permissionOf(store.selectPermissionLevel(tokenHashed.as_str(), now))
}

/// The tier that the access secret resolves to, or the reply that ends the
/// request.
pub fn getPermissionLevelHttp(token: &str, store: &Store, now: u64) -> (resolved: Result<
    PermissionLevel,
    HttpReply,
>)
    requires
        store@.wf(),
    ensures
        match permission_level(store@, token@, now) {
            Some(level) => resolved == Ok::<PermissionLevel, HttpReply>(level),
            None => resolved matches Err(sent) && sent@ == unauthorized_reply(),
        },
{
    permissionReply(getPermissionLevel(token, store, now))
}

/// The guard of a route that requires a tier.
pub fn permissionLevelMiddleware(
    permissionLevel: PermissionLevel,
    data: &AppState,
    credentials: Option<&str>,
    now: u64,
) -> (decision: GuardDecision)
    requires
        data.store@.wf(),
    ensures
        decision@ == permission_guard(
            data.store@,
            permissionLevel,
            match credentials {
                Some(secret) => Some(secret@),
                None => None,
            },
            now,
        ),
{
    match credentialDigest(credentials) {
        Err(reply) => GuardDecision::Rejected(reply),
        Ok(tokenHashed) => permissionVerdict(
            permissionLevel,
            data.store.selectTokenWithTier(tokenHashed.as_str(), now),
        ),
    }
}

/// The guard of a route that requires no more than a valid token.  It does
/// not read the owner's role.
pub fn authenticateMiddleware(data: &AppState, credentials: Option<&str>, now: u64) -> (decision:
    GuardDecision)
    requires
        data.store@.wf(),
    ensures
        decision@ == authentication_guard(
            data.store@,
            match credentials {
                Some(secret) => Some(secret@),
                None => None,
            },
            now,
        ),
{
    match credentialDigest(credentials) {
        Err(reply) => GuardDecision::Rejected(reply),
        Ok(tokenHashed) => authenticationVerdict(
            data.store.selectToken(TokenKind::Access, tokenHashed.as_str(), now),
        ),
    }
}

/// The one guard of every protected route, with what the route requires as
/// its setting.
pub fn guard(required: RequiredTier, data: &AppState, credentials: Option<&str>, now: u64) -> (decision:
    GuardDecision)
    requires
        data.store@.wf(),
    ensures
        decision@ == guard_decision(
            data.store@,
            required,
            match credentials {
                Some(secret) => Some(secret@),
                None => None,
            },
            now,
        ),
{
    match required.tier() {
        None => authenticateMiddleware(data, credentials, now),
        Some(level) => permissionLevelMiddleware(level, data, credentials, now),
    }
}

/// The guard of a route for administrators.
pub fn permissionLevelAdminMiddleware(data: &AppState, credentials: Option<&str>, now: u64) -> (decision:
    GuardDecision)
    requires
        data.store@.wf(),
    ensures
        decision@ == permission_guard(
            data.store@,
            PermissionLevel::Admin,
            match credentials {
                Some(secret) => Some(secret@),
                None => None,
            },
            now,
        ),
{
    guard(RequiredTier::Admin, data, credentials, now)
}

/// The guard of a route for supervisors and administrators.
pub fn permissionLevelSupervisorMiddleware(
    data: &AppState,
    credentials: Option<&str>,
    now: u64,
) -> (decision: GuardDecision)
    requires
        data.store@.wf(),
    ensures
        decision@ == permission_guard(
            data.store@,
            PermissionLevel::Supervisor,
            match credentials {
                Some(secret) => Some(secret@),
                None => None,
            },
            now,
        ),
{
    guard(RequiredTier::Supervisor, data, credentials, now)
}

/// The guard of a route for every identity: a valid token is enough, so the
/// owner's role is not read.
pub fn permissionLevelUserMiddleware(data: &AppState, credentials: Option<&str>, now: u64) -> (decision:
    GuardDecision)
    requires
        data.store@.wf(),
    ensures
        decision@ == authentication_guard(
            data.store@,
            match credentials {
                Some(secret) => Some(secret@),
                None => None,
            },
            now,
        ),
{
    guard(RequiredTier::Authenticated, data, credentials, now)
}

} // verus!
