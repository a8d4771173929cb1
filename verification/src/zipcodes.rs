//! The management of zip codes.  Every identity with a valid token may list
//! them; everything else is for administrators.
use vstd::prelude::*;
use crate::auth::{
    authentication_guard, permission_guard, permissionLevelAdminMiddleware,
    permissionLevelUserMiddleware, GuardDecision,
};
use crate::http::{empty_reply, HttpReply, HttpReplyView, ReplyBody, ReplyBodyView, STATUS_CREATED, STATUS_OK};
use crate::model::StoreView;
use crate::models::{ZipCode, ZipCodeCreate, ZipCodeOptional, ZipCodeView};
use crate::permission::PermissionLevel;
use crate::random::{getRandomStr, is_random_text};
use crate::state::AppState;
use crate::session::presented;
use crate::tokens::ROW_KEY_LENGTH;
use crate::users::{no_fields_reply, noFieldsReply, rejection, write_done, written};

verus! {

/// The reply that lists zip codes.
pub open spec fn zip_codes_reply(zipCodes: Seq<ZipCodeView>) -> HttpReplyView {
    HttpReplyView { status: STATUS_OK, body: ReplyBodyView::ZipCodes(zipCodes) }
}

/// The row of a new zip code.
pub open spec fn zip_code_row(id: Seq<char>, info: ZipCodeCreate) -> ZipCodeView {
    ZipCodeView { ZipCodeId: id, Number: info.Number, City: info.City@ }
}

pub open spec fn zip_code_created(store: StoreView, row: ZipCodeView) -> (StoreView, HttpReplyView) {
    write_done(store, store.zip_code_refused(row), store.with_zip_code(row), STATUS_CREATED)
}

/// What holds of a request to create a zip code that passed the guard.
pub open spec fn post_zip_code_outcome(
    before: StoreView,
    info: ZipCodeCreate,
    after: StoreView,
    reply: HttpReplyView,
) -> bool {
    exists|id: Seq<char>|
        {
            &&& is_random_text(id, ROW_KEY_LENGTH as nat)
            &&& (after, reply) == zip_code_created(before, #[trigger] zip_code_row(id, info))
        }
}

/// The reply that lists zip codes.
pub fn zipCodesReply(zipCodes: Vec<ZipCode>) -> (reply: HttpReply)
    ensures
        reply@ == zip_codes_reply(Seq::new(zipCodes@.len(), |i: int| zipCodes@[i]@)),
{
    HttpReply { status: STATUS_OK, body: ReplyBody::ZipCodes(zipCodes) }
}

/// Lists every zip code, for every identity with a valid token.
pub fn getAllZipCodes(data: &AppState, credentials: Option<&str>, now: u64) -> (reply: HttpReply)
    requires
        data.store@.wf(),
    ensures
        reply@ == match rejection(authentication_guard(data.store@, presented(credentials), now)) {
            Some(rejected) => rejected,
            None => zip_codes_reply(data.store@.zipCodes),
        },
{
    match permissionLevelUserMiddleware(data, credentials, now) {
        GuardDecision::Rejected(reply) => reply,
        GuardDecision::Authorized(_) => zipCodesReply(data.store.selectZipCodes()),
    }
}

/// Lists the zip code with the given key: a list of one, or of none.
pub fn getZipCodeById(data: &AppState, credentials: Option<&str>, id: &str, now: u64) -> (reply:
    HttpReply)
    requires
        data.store@.wf(),
    ensures
        reply@ == match rejection(
            permission_guard(data.store@, PermissionLevel::Admin, presented(credentials), now),
        ) {
            Some(rejected) => rejected,
            None => zip_codes_reply(data.store@.zip_codes_with(id@)),
        },
{
    match permissionLevelAdminMiddleware(data, credentials, now) {
        GuardDecision::Rejected(reply) => reply,
        GuardDecision::Authorized(_) => zipCodesReply(data.store.selectZipCodeById(id)),
    }
}

/// Stores a new zip code whose row key is given.
pub fn createZipCode(data: &mut AppState, info: &ZipCodeCreate, id: String) -> (reply: HttpReply)
    requires
        old(data).store@.wf(),
    ensures
        final(data).store@.wf(),
        final(data).same_settings(old(data)),
        (final(data).store@, reply@) == zip_code_created(
            old(data).store@,
            zip_code_row(id@, *info),
        ),
{
    let row = ZipCode { ZipCodeId: id, Number: info.Number, City: info.City.clone() };
    written(data.store.insertZipCode(row), STATUS_CREATED)
}

/// Creates a zip code.
pub fn postZipCode(data: &mut AppState, credentials: Option<&str>, info: &ZipCodeCreate, now: u64) -> (reply:
    HttpReply)
    requires
        old(data).store@.wf(),
    ensures
        final(data).store@.wf(),
        final(data).same_settings(old(data)),
        match rejection(
            permission_guard(old(data).store@, PermissionLevel::Admin, presented(credentials), now),
        ) {
            Some(rejected) => reply@ == rejected && final(data).store@ == old(data).store@,
            None => post_zip_code_outcome(old(data).store@, *info, final(data).store@, reply@),
        },
{
    match permissionLevelAdminMiddleware(data, credentials, now) {
        GuardDecision::Rejected(reply) => reply,
        GuardDecision::Authorized(_) => {
            let id = getRandomStr(ROW_KEY_LENGTH);
            let ghost key = id@;
            let reply = createZipCode(data, info, id);
            proof {
                assert((data.store@, reply@) == zip_code_created(
                    old(data).store@,
                    zip_code_row(key, *info),
                ));
            }
            reply
        },
    }
}

/// Changes the fields of a zip code that the request names.  A request
/// that names no field is a bad request.
pub fn patchZipCode(
    data: &mut AppState,
    credentials: Option<&str>,
    info: &ZipCodeOptional,
    id: &str,
    now: u64,
) -> (reply: HttpReply)
    requires
        old(data).store@.wf(),
    ensures
        final(data).store@.wf(),
        final(data).same_settings(old(data)),
        match rejection(
            permission_guard(old(data).store@, PermissionLevel::Admin, presented(credentials), now),
        ) {
            Some(rejected) => reply@ == rejected && final(data).store@ == old(data).store@,
            None => if info@.is_empty() {
                reply@ == no_fields_reply() && final(data).store@ == old(data).store@
            } else {
                &&& reply@ == empty_reply(STATUS_OK)
                &&& final(data).store@ == old(data).store@.with_zip_code_change(id@, info@)
            },
        },
{
    match permissionLevelAdminMiddleware(data, credentials, now) {
        GuardDecision::Rejected(reply) => reply,
        GuardDecision::Authorized(_) => {
            if info.Number.is_none() && info.City.is_none() {
                return noFieldsReply();
            }
            data.store.updateZipCode(id, info);
            written(Ok(()), STATUS_OK)
        },
    }
}

/// Removes a zip code.
pub fn deleteZipCode(data: &mut AppState, credentials: Option<&str>, id: &str, now: u64) -> (reply:
    HttpReply)
    requires
        old(data).store@.wf(),
    ensures
        final(data).store@.wf(),
        final(data).same_settings(old(data)),
        match rejection(
            permission_guard(old(data).store@, PermissionLevel::Admin, presented(credentials), now),
        ) {
            Some(rejected) => reply@ == rejected && final(data).store@ == old(data).store@,
            None => {
                &&& reply@ == empty_reply(STATUS_OK)
                &&& final(data).store@ == old(data).store@.without_zip_code(id@)
            },
        },
{
    match permissionLevelAdminMiddleware(data, credentials, now) {
        GuardDecision::Rejected(reply) => reply,
        GuardDecision::Authorized(_) => {
            data.store.deleteZipCode(id);
            written(Ok(()), STATUS_OK)
        },
    }
}

} // verus!
