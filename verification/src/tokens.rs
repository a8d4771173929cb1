//! The token table as the protocol uses it: storing a fresh token for an
//! owner, and looking a presented secret up.
//!
//! A token is stored under the digest of its secret.  A search for a
//! presented secret hashes it and looks for a row of the asked kind with
//! that digest whose validity ends after `now`.  Whether the secret was never
//! issued, has expired or belongs to a token of the other kind is not told:
//! each is unauthorized.
use vstd::prelude::*;
use vstd::string::*;
use crate::auth::lookupError;
use crate::digest::{sha256Digest, sha256_hex};
use crate::error::{bare_error, PickUpError, PickUpErrorCode};
use crate::failure::{no_rows, StoreFailure};
use crate::model::{valid_at, StoreView};
use crate::models::{
    GeneratedToken, Token, TokenCreate, TokenKind, TokenView, ACCESS_TOKEN_SECONDS,
    TOKEN_LENGTH,
};
use crate::permission::PermissionLevelStruct;
use crate::random::{generateToken, getRandomStr, is_random_text};
use crate::store::Store;

verus! {

/// The number of characters of the key that is drawn for a new row.
pub const ROW_KEY_LENGTH: usize = 36;

/// The row of a token that is issued at `now` for `seconds` seconds.
pub open spec fn token_row(
    id: Seq<char>,
    digest: Seq<char>,
    kind: TokenKind,
    device: Seq<char>,
    owner: Seq<char>,
    now: u64,
    seconds: u32,
) -> TokenView
    recommends
        now + seconds <= u64::MAX,
{
    TokenView {
        Id: id,
        Token: digest,
        Type: kind.number(),
        DeviceInfo: device,
        DateStart: now,
        DateEnd: (now + seconds) as u64,
        DateCreated: now,
        FK_User: owner,
    }
}

/// What storing a token row gives: where no constraint refuses the row,
/// the store holds it and the secret is handed on; else the store is as
/// before and the refusal is reported.
pub open spec fn token_stored(
    before: StoreView,
    row: TokenView,
    secret: Seq<char>,
    after: StoreView,
    done: Result<String, StoreFailure>,
) -> bool {
    match before.token_refused(row) {
        None => {
            &&& after == before.with_token(row)
            &&& done matches Ok(handed)
            &&& handed@ == secret
        },
        Some(constraint) => {
            &&& after == before
            &&& done matches Err(failure)
            &&& failure@ == constraint.failure()
        },
    }
}

/// Settles what is stored of a token that is issued at `now` for `seconds`
/// seconds: its digest, its owner, and its validity from `now` to the end
/// of the last of those seconds.
pub fn tokenCreate(digest: String, owner: String, now: u64, seconds: u32) -> (create: TokenCreate)
    requires
        now + seconds <= u64::MAX,
    ensures
        create.Token@ == digest@,
        create.FK_User@ == owner@,
        create.DateStart == now,
        create.DateEnd == now + seconds,
{
    TokenCreate { Token: digest, DateStart: now, DateEnd: now + seconds as u64, FK_User: owner }
}

/// Builds the row of a token from what was settled of it, its key, its
/// kind and the device it is for.
pub fn tokenRow(id: String, create: TokenCreate, kind: TokenKind, deviceInfo: String) -> (row: Token)
    ensures
        row@ == (TokenView {
            Id: id@,
            Token: create.Token@,
            Type: kind.number(),
            DeviceInfo: deviceInfo@,
            DateStart: create.DateStart,
            DateEnd: create.DateEnd,
            DateCreated: create.DateStart,
            FK_User: create.FK_User@,
        }),
{
    Token {
        Id: id,
        Token: create.Token,
        Type: kind.typeNumber(),
        DeviceInfo: deviceInfo,
        DateStart: create.DateStart,
        DateEnd: create.DateEnd,
        DateCreated: create.DateStart,
        FK_User: create.FK_User,
    }
}

/// Applies expiry to the row that a search by kind and digest found: a row
/// whose validity has ended counts as no row at all.
pub fn liveToken(found: Result<Token, StoreFailure>, now: u64) -> (live: Result<Token, StoreFailure>)
    ensures
        match found {
            Ok(row) => if valid_at(row@, now) {
                live matches Ok(same) && same@ == row@
            } else {
                live matches Err(failure) && failure@ == no_rows()
            },
            Err(reported) => live matches Err(failure) && failure@ == reported@,
        },
{
    match found {
        Ok(row) => {
            if row.validAt(now) {
                Ok(row)
            } else {
                Err(StoreFailure::noRows())
            }
        },
        Err(reported) => Err(reported),
    }
}

/// Applies expiry to the token that the role join found for a digest: the
/// tier that was joined to it counts only while the token is valid.
pub fn liveTier(found: Result<(Token, PermissionLevelStruct), StoreFailure>, now: u64) -> (live:
    Result<(Token, PermissionLevelStruct), StoreFailure>)
    ensures
        match found {
            Ok((row, tier)) => if valid_at(row@, now) {
                live matches Ok((same, joined)) && same@ == row@ && joined == tier
            } else {
                live matches Err(failure) && failure@ == no_rows()
            },
            Err(reported) => live matches Err(failure) && failure@ == reported@,
        },
{
    match found {
        Ok((row, tier)) => {
            if row.validAt(now) {
                Ok((row, tier))
            } else {
                Err(StoreFailure::noRows())
            }
        },
        Err(reported) => Err(reported),
    }
}

/// Looks a presented secret up: the row of the given kind whose digest is
/// that of the secret and whose validity ends after `now`.  Without such a
/// row the secret is unauthorized.
pub fn lookup(store: &Store, kind: TokenKind, presentedSecret: &str, now: u64) -> (found: Result<
    Token,
    PickUpError,
>)
    requires
        store@.wf(),
    ensures
        match store@.live_token(kind.number(), sha256_hex(presentedSecret@), now) {
            Some(row) => found matches Ok(token) && token@ == row,
            None => found matches Err(error) && error@ == bare_error(PickUpErrorCode::Unauthorized),
        },
{
    let tokenHashed = sha256Digest(presentedSecret);
    match store.selectToken(kind, tokenHashed.as_str(), now) {
        Ok(row) => Ok(row),
        Err(failure) => Err(lookupError(&failure)),
    }
}

/// Stores a token of the given kind whose secret, digest and row key are
/// given.
fn insertWith(
    store: &mut Store,
    kind: TokenKind,
    ownerId: &str,
    ttlSeconds: u32,
    deviceInfo: &str,
    now: u64,
    generated: GeneratedToken,
    id: String,
) -> (done: Result<String, StoreFailure>)
    requires
        old(store)@.wf(),
        now + ttlSeconds <= u64::MAX,
    ensures
        final(store)@.wf(),
        token_stored(
            old(store)@,
            token_row(
                id@,
                generated.SHA256ofToken@,
                kind,
                deviceInfo@,
                ownerId@,
                now,
                ttlSeconds,
            ),
            generated.Token@,
            final(store)@,
            done,
        ),
{
    let create = tokenCreate(generated.SHA256ofToken, String::from_str(ownerId), now, ttlSeconds);
    let row = tokenRow(id, create, kind, String::from_str(deviceInfo));
    match store.insertToken(row) {
        Ok(_) => Ok(generated.Token),
        Err(failure) => Err(failure),
    }
}

/// Stores a refresh token whose secret, digest and row key are given.  It
/// is valid from `now` for `ttlSeconds` seconds.  The write fails only
/// where the owner does not exist or the digest is already stored for a
/// refresh token.
pub fn insertRefreshWith(
    store: &mut Store,
    ownerId: &str,
    ttlSeconds: u32,
    deviceInfo: &str,
    now: u64,
    generated: GeneratedToken,
    id: String,
) -> (done: Result<String, StoreFailure>)
    requires
        old(store)@.wf(),
        now + ttlSeconds <= u64::MAX,
    ensures
        final(store)@.wf(),
        token_stored(
            old(store)@,
            token_row(
                id@,
                generated.SHA256ofToken@,
                TokenKind::Refresh,
                deviceInfo@,
                ownerId@,
                now,
                ttlSeconds,
            ),
            generated.Token@,
            final(store)@,
            done,
        ),
{
    insertWith(store, TokenKind::Refresh, ownerId, ttlSeconds, deviceInfo, now, generated, id)
}

/// Stores an access token whose secret, digest and row key are given.  It
/// is valid from `now` for an hour.
pub fn insertAccessWith(
    store: &mut Store,
    ownerId: &str,
    deviceInfo: &str,
    now: u64,
    generated: GeneratedToken,
    id: String,
) -> (done: Result<String, StoreFailure>)
    requires
        old(store)@.wf(),
        now + ACCESS_TOKEN_SECONDS <= u64::MAX,
    ensures
        final(store)@.wf(),
        token_stored(
            old(store)@,
            token_row(
                id@,
                generated.SHA256ofToken@,
                TokenKind::Access,
                deviceInfo@,
                ownerId@,
                now,
                ACCESS_TOKEN_SECONDS,
            ),
            generated.Token@,
            final(store)@,
            done,
        ),
{
    insertWith(store, TokenKind::Access, ownerId, ACCESS_TOKEN_SECONDS, deviceInfo, now, generated, id)
}

/// What holds of a token that was stored under a secret drawn for it.
pub open spec fn fresh_token_stored(
    before: StoreView,
    kind: TokenKind,
    device: Seq<char>,
    owner: Seq<char>,
    now: u64,
    seconds: u32,
    after: StoreView,
    done: Result<String, StoreFailure>,
) -> bool {
    exists|secret: Seq<char>, id: Seq<char>|
        {
            &&& is_random_text(secret, TOKEN_LENGTH as nat)
            &&& is_random_text(id, ROW_KEY_LENGTH as nat)
            &&& token_stored(
                before,
                #[trigger] token_row(id, sha256_hex(secret), kind, device, owner, now, seconds),
                secret,
                after,
                done,
            )
        }
}

/// Mints a refresh token for an owner: draws a secret of sixty-four letters
/// and digits, stores its digest, valid from `now` for `ttlSeconds`
/// seconds, and hands the secret back.
pub fn insertRefresh(
    store: &mut Store,
    ownerId: &str,
    ttlSeconds: u32,
    deviceInfo: &str,
    now: u64,
) -> (done: Result<String, StoreFailure>)
    requires
        old(store)@.wf(),
        now + ttlSeconds <= u64::MAX,
    ensures
        final(store)@.wf(),
        fresh_token_stored(
            old(store)@,
            TokenKind::Refresh,
            deviceInfo@,
            ownerId@,
            now,
            ttlSeconds,
            final(store)@,
            done,
        ),
{
    let generated = generateToken();
    let id = getRandomStr(ROW_KEY_LENGTH);
    let ghost secret = generated.Token@;
    let ghost key = id@;
    let done = insertRefreshWith(store, ownerId, ttlSeconds, deviceInfo, now, generated, id);
    proof {
        assert(token_stored(
            old(store)@,
            token_row(
                key,
                sha256_hex(secret),
                TokenKind::Refresh,
                deviceInfo@,
                ownerId@,
                now,
                ttlSeconds,
            ),
            secret,
            store@,
            done,
        ));
    }
    done
}

/// Mints an access token for an owner: as `insertRefresh`, valid for an
/// hour.
pub fn insertAccess(store: &mut Store, ownerId: &str, deviceInfo: &str, now: u64) -> (done: Result<
    String,
    StoreFailure,
>)
    requires
        old(store)@.wf(),
        now + ACCESS_TOKEN_SECONDS <= u64::MAX,
    ensures
        final(store)@.wf(),
        fresh_token_stored(
            old(store)@,
            TokenKind::Access,
            deviceInfo@,
            ownerId@,
            now,
            ACCESS_TOKEN_SECONDS,
            final(store)@,
            done,
        ),
{
    let generated = generateToken();
    let id = getRandomStr(ROW_KEY_LENGTH);
    let ghost secret = generated.Token@;
    let ghost key = id@;
    let done = insertAccessWith(store, ownerId, deviceInfo, now, generated, id);
    proof {
        assert(token_stored(
            old(store)@,
            token_row(
                key,
                sha256_hex(secret),
                TokenKind::Access,
                deviceInfo@,
                ownerId@,
                now,
                ACCESS_TOKEN_SECONDS,
            ),
            secret,
            store@,
            done,
        ));
    }
    done
}

} // verus!
