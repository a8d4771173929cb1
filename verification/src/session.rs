//! The two-token protocol: a login mints a refresh token, a refresh token
//! is exchanged for short-lived access tokens.
//!
//! A login verifies the password against the stored digest and, on success,
//! stores a refresh token that is valid for as long as the client asked.
//! The exchange looks the presented refresh secret up and stores an access
//! token for the same owner and device that expires after an hour.  The
//! refresh token is not consumed: it can be exchanged again until it expires.
//! Only the digest of a secret is stored; the secret is handed out once.
use vstd::prelude::*;
use crate::auth::{lookup_error, lookupError, unauthorized_reply};
use crate::digest::{sha256Digest, sha256_hex};
use crate::error::{bare_error, PickUpError, PickUpErrorCode, PickUpErrorView};
use crate::failure::StoreFailure;
use crate::http::{
    credentials_error, error_reply, errorReply, getHRFromErrorDatabase,
    getHRFromErrorIncorectCredentials, token_reply, tokenReply, write_error, HttpReply,
    HttpReplyView, ReplyBodyView, STATUS_INTERNAL_SERVER_ERROR,
};
use crate::model::StoreView;
use crate::models::{
    GeneratedToken, Token, TokenKind, TokenView, UserCredentials, UserLogin,
    ACCESS_TOKEN_SECONDS, TOKEN_LENGTH, TOKEN_TYPE_REFRESH,
};
use crate::password::{argon2_verdict, hashingError, is_hashing_error, isPasswordCorrect};
use crate::random::{generateToken, getRandomStr, is_random_text};
use crate::state::AppState;
use crate::tokens::{insertAccessWith, insertRefreshWith, token_row, ROW_KEY_LENGTH};

verus! {

/// Storing a token row and handing its secret out: where no constraint
/// refuses the row, the store holds it and the reply carries the secret;
/// else the store is as before and the reply reports the refusal.
pub open spec fn issue(store: StoreView, row: TokenView, secret: Seq<char>) -> (
    StoreView,
    HttpReplyView,
) {
    match store.token_refused(row) {
        None => (store.with_token(row), token_reply(secret)),
        Some(constraint) => (store, error_reply(write_error(constraint.failure()))),
    }
}

/// Whether the reply reports a failed password hash: an internal error of
/// kind `Hashing` whose message opens with `hashing_error_prefix`.
pub open spec fn is_hashing_failure(reply: HttpReplyView) -> bool {
    &&& reply.status == STATUS_INTERNAL_SERVER_ERROR
    &&& reply.body matches ReplyBodyView::Error(error)
    &&& is_hashing_error(error)
}

/// The reply to a login with an unknown name or a wrong password.  The two
/// are answered alike.
pub open spec fn incorrect_credentials_reply() -> HttpReplyView {
    error_reply(bare_error(PickUpErrorCode::IncorectCredentials))
}

/// The reply to an exchange without a bearer credential.
pub open spec fn bad_request_reply() -> HttpReplyView {
    error_reply(
        PickUpErrorView {
            Code: PickUpErrorCode::BadRequest,
            Message: PickUpErrorCode::BadRequest.text(),
        },
    )
}

/// Whether the name is that of an identity and the password verifies
/// against its stored digest.
pub open spec fn login_passes(
    store: StoreView,
    pepper: Seq<char>,
    username: Seq<char>,
    password: Seq<char>,
) -> bool {
    store.credentials(username) matches Some(row) && argon2_verdict(row.Password, password, pepper)
        == Some(true)
}

/// Whether the name is that of an identity whose stored digest cannot be
/// verified against at all.
pub open spec fn login_hash_fails(
    store: StoreView,
    pepper: Seq<char>,
    username: Seq<char>,
    password: Seq<char>,
) -> bool {
    store.credentials(username) matches Some(row) && argon2_verdict(row.Password, password, pepper)
        is None
}

/// What a login leaves in the store and replies, given the secret, the
/// digest and the row key that were drawn for it, where the stored digest
/// can be verified against.
pub open spec fn login_with(
    store: StoreView,
    pepper: Seq<char>,
    username: Seq<char>,
    password: Seq<char>,
    active: u32,
    device: Seq<char>,
    now: u64,
    secret: Seq<char>,
    digest: Seq<char>,
    id: Seq<char>,
) -> (StoreView, HttpReplyView) {
    if login_passes(store, pepper, username, password) {
        issue(
            store,
            token_row(
                id,
                digest,
                TokenKind::Refresh,
                device,
                store.credentials(username)->0.Id,
                now,
                active,
            ),
            secret,
        )
    } else {
        (store, incorrect_credentials_reply())
    }
}

/// What an exchange leaves in the store and replies, given the secret, the
/// digest and the row key that were drawn for it.
pub open spec fn access_with(
    store: StoreView,
    auth: Option<Seq<char>>,
    now: u64,
    secret: Seq<char>,
    digest: Seq<char>,
    id: Seq<char>,
) -> (StoreView, HttpReplyView) {
    match auth {
        None => (store, bad_request_reply()),
        Some(presented) => match store.live_token(
            TOKEN_TYPE_REFRESH,
            sha256_hex(presented),
            now,
        ) {
            None => (store, unauthorized_reply()),
            Some(refresh) => issue(
                store,
                token_row(
                    id,
                    digest,
                    TokenKind::Access,
                    refresh.DeviceInfo,
                    refresh.FK_User,
                    now,
                    ACCESS_TOKEN_SECONDS,
                ),
                secret,
            ),
        },
    }
}

/// The characters of an optional bearer credential.
pub open spec fn presented(auth: Option<&str>) -> Option<Seq<char>> {
    match auth {
        Some(secret) => Some(secret@),
        None => None,
    }
}

// ----- the steps of the protocol -----
/// Checks a login against the stored credential that was searched for.
/// The credential is handed on where the password verifies; else the reply
/// that ends the request is.
pub fn loginCheck(found: Result<UserCredentials, StoreFailure>, password: &str, pepper: &str) -> (checked:
    Result<UserCredentials, HttpReply>)
    ensures
        match found {
            Err(failure) => checked matches Err(reply) && reply@ == error_reply(
                credentials_error(failure@),
            ),
            Ok(credentials) => match argon2_verdict(credentials.Password@, password@, pepper@) {
                Some(true) => {
                    &&& checked matches Ok(passed)
                    &&& passed.Id@ == credentials.Id@
                    &&& passed.Username@ == credentials.Username@
                    &&& passed.Password@ == credentials.Password@
                },
                Some(false) => checked matches Err(reply) && reply@
                    == incorrect_credentials_reply(),
                None => checked matches Err(reply) && is_hashing_failure(reply@),
            },
        },
{
    match found {
        Err(failure) => Err(getHRFromErrorIncorectCredentials(failure)),
        Ok(credentials) => {
            match isPasswordCorrect(password, credentials.Password.as_str(), pepper) {
                Err(e) => Err(errorReply(hashingError(&e))),
                Ok(matches) => {
                    if !matches {
                        Err(errorReply(PickUpError::new(PickUpErrorCode::IncorectCredentials)))
                    } else {
                        Ok(credentials)
                    }
                },
            }
        },
    }
}

/// The digest to search a refresh token by, or the reply to an exchange
/// without a bearer credential.
pub fn refreshDigest(auth: Option<&str>) -> (digest: Result<String, HttpReply>)
    ensures
        match auth {
            None => digest matches Err(reply) && reply@ == bad_request_reply(),
            Some(secret) => digest matches Ok(hex) && hex@ == sha256_hex(secret@),
        },
{
    match auth {
        None => {
            let text = PickUpErrorCode::BadRequest.to_string();
            Err(errorReply(PickUpError::newMessage(PickUpErrorCode::BadRequest, text.as_str())))
        },
        Some(secret) => Ok(sha256Digest(secret)),
    }
}

/// The refresh token that was searched for, or the reply that ends the
/// exchange: unauthorized where no valid token was found.
pub fn refreshFound(found: Result<Token, StoreFailure>) -> (refresh: Result<Token, HttpReply>)
    ensures
        match found {
            Ok(row) => refresh matches Ok(same) && same@ == row@,
            Err(failure) => refresh matches Err(reply) && reply@ == error_reply(
                lookup_error(failure@),
            ),
        },
{
    match found {
        Ok(row) => Ok(row),
        Err(failure) => Err(errorReply(lookupError(&failure))),
    }
}

/// The reply after the token row was written: the secret where the write
/// succeeded, the classified failure else.
pub fn issued(written: Result<String, StoreFailure>) -> (reply: HttpReply)
    ensures
        match written {
            Ok(secret) => reply@ == token_reply(secret@),
            Err(failure) => reply@ == error_reply(write_error(failure@)),
        },
{
    match written {
        Ok(secret) => tokenReply(secret),
        Err(failure) => getHRFromErrorDatabase(failure),
    }
}

// ----- login -----
/// A login with the secret and the row key already drawn.
pub fn loginWith(
    data: &mut AppState,
    info: &UserLogin,
    now: u64,
    generated: GeneratedToken,
    id: String,
) -> (reply: HttpReply)
    requires
        old(data).store@.wf(),
        now + info.Active <= u64::MAX,
    ensures
        final(data).store@.wf(),
        final(data).same_settings(old(data)),
        login_hash_fails(old(data).store@, old(data).pepper@, info.Username@, info.Password@) ==> {
            &&& final(data).store@ == old(data).store@
            &&& is_hashing_failure(reply@)
        },
        !login_hash_fails(old(data).store@, old(data).pepper@, info.Username@, info.Password@)
            ==> (final(data).store@, reply@) == login_with(
            old(data).store@,
            old(data).pepper@,
            info.Username@,
            info.Password@,
            info.Active,
            info.DeviceInfo@,
            now,
            generated.Token@,
            generated.SHA256ofToken@,
            id@,
        ),
{
    let found = data.store.selectCredentials(info.Username.as_str());
    match loginCheck(found, info.Password.as_str(), data.pepper.as_str()) {
        Err(reply) => reply,
        Ok(credentials) => issued(
            insertRefreshWith(
                &mut data.store,
                credentials.Id.as_str(),
                info.Active,
                info.DeviceInfo.as_str(),
                now,
                generated,
                id,
            ),
        ),
    }
}

/// What holds of a login, whatever secret and row key were drawn for it.
pub open spec fn login_outcome(
    before: StoreView,
    pepper: Seq<char>,
    info: UserLogin,
    now: u64,
    after: StoreView,
    reply: HttpReplyView,
) -> bool {
    if login_hash_fails(before, pepper, info.Username@, info.Password@) {
        after == before && is_hashing_failure(reply)
    } else {
        exists|secret: Seq<char>, id: Seq<char>|
            {
                &&& is_random_text(secret, TOKEN_LENGTH as nat)
                &&& is_random_text(id, ROW_KEY_LENGTH as nat)
                &&& (after, reply) == #[trigger] login_with(
                    before,
                    pepper,
                    info.Username@,
                    info.Password@,
                    info.Active,
                    info.DeviceInfo@,
                    now,
                    secret,
                    sha256_hex(secret),
                    id,
                )
            }
    }
}

/// Logs an identity in.  An unknown name and a wrong password are answered
/// alike with incorrect credentials, and nothing is stored.  Where the
/// password verifies, a fresh secret of sixty-four letters and digits is
/// drawn, a refresh token with its digest is stored for the identity and
/// the device, valid from `now` for `info.Active` seconds, and the secret
/// is handed out.
pub fn login(data: &mut AppState, info: &UserLogin, now: u64) -> (reply: HttpReply)
    requires
        old(data).store@.wf(),
        now + info.Active <= u64::MAX,
    ensures
        final(data).store@.wf(),
        final(data).same_settings(old(data)),
        login_outcome(
            old(data).store@,
            old(data).pepper@,
            *info,
            now,
            final(data).store@,
            reply@,
        ),
{
    let generated = generateToken();
    let id = getRandomStr(ROW_KEY_LENGTH);
    let ghost secret = generated.Token@;
    let ghost key = id@;
    let reply = loginWith(data, info, now, generated, id);
    proof {
        if !login_hash_fails(old(data).store@, old(data).pepper@, info.Username@, info.Password@) {
            assert((data.store@, reply@) == login_with(
                old(data).store@,
                old(data).pepper@,
                info.Username@,
                info.Password@,
                info.Active,
                info.DeviceInfo@,
                now,
                secret,
                sha256_hex(secret),
                key,
            ));
        }
    }
    reply
}

// ----- exchange -----
/// An exchange with the secret and the row key already drawn.
pub fn accessWith(
    data: &mut AppState,
    auth: Option<&str>,
    now: u64,
    generated: GeneratedToken,
    id: String,
) -> (reply: HttpReply)
    requires
        old(data).store@.wf(),
        now + ACCESS_TOKEN_SECONDS <= u64::MAX,
    ensures
        final(data).store@.wf(),
        final(data).same_settings(old(data)),
        (final(data).store@, reply@) == access_with(
            old(data).store@,
            presented(auth),
            now,
            generated.Token@,
            generated.SHA256ofToken@,
            id@,
        ),
{
    let tokenHashed = match refreshDigest(auth) {
        Err(reply) => {
            return reply;
        },
        Ok(tokenHashed) => tokenHashed,
    };
    let found = data.store.selectToken(TokenKind::Refresh, tokenHashed.as_str(), now);
    match refreshFound(found) {
        Err(reply) => reply,
        Ok(gottenToken) => issued(
            insertAccessWith(
                &mut data.store,
                gottenToken.FK_User.as_str(),
                gottenToken.DeviceInfo.as_str(),
                now,
                generated,
                id,
            ),
        ),
    }
}

/// What holds of an exchange, whatever secret and row key were drawn for
/// it.
pub open spec fn access_outcome(
    before: StoreView,
    auth: Option<Seq<char>>,
    now: u64,
    after: StoreView,
    reply: HttpReplyView,
) -> bool {
    exists|secret: Seq<char>, id: Seq<char>|
        {
            &&& is_random_text(secret, TOKEN_LENGTH as nat)
            &&& is_random_text(id, ROW_KEY_LENGTH as nat)
            &&& (after, reply) == #[trigger] access_with(
                before,
                auth,
                now,
                secret,
                sha256_hex(secret),
                id,
            )
        }
}

/// Exchanges a refresh secret for an access token.  Without a bearer
/// credential the request is a bad request; a secret without a refresh
/// token valid at `now` is unauthorized; in both cases nothing is stored.
/// Else a fresh secret is drawn, an access token with its digest is stored
/// for the owner and device of the refresh token, valid from `now` for an
/// hour, and the secret is handed out.  The refresh token stays as it is.
pub fn access(data: &mut AppState, auth: Option<&str>, now: u64) -> (reply: HttpReply)
    requires
        old(data).store@.wf(),
        now + ACCESS_TOKEN_SECONDS <= u64::MAX,
    ensures
        final(data).store@.wf(),
        final(data).same_settings(old(data)),
        access_outcome(old(data).store@, presented(auth), now, final(data).store@, reply@),
{
    let generated = generateToken();
    let id = getRandomStr(ROW_KEY_LENGTH);
    let ghost secret = generated.Token@;
    let ghost key = id@;
    let reply = accessWith(data, auth, now, generated, id);
    proof {
        assert((data.store@, reply@) == access_with(
            old(data).store@,
            presented(auth),
            now,
            secret,
            sha256_hex(secret),
            key,
        ));
    }
    reply
}

} // verus!
