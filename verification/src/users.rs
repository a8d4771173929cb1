//! The management of identities.  Every handler here is for
//! administrators only and passes the guard before it reads or writes.
use vstd::prelude::*;
use vstd::string::*;
use crate::auth::{
    permission_guard, permissionLevelAdminMiddleware, GuardDecision, GuardDecisionView,
};
use crate::error::{PickUpError, PickUpErrorCode, PickUpErrorView};
use crate::failure::StoreFailure;
use crate::http::{
    empty_reply, emptyReply, error_reply, errorReply, getHRFromErrorDatabase, write_error,
    HttpReply, HttpReplyView, ReplyBody, ReplyBodyView, STATUS_CREATED, STATUS_OK,
};
use crate::model::{highest_role, Constraint, StoreView};
use crate::models::{
    HashingParameters, User, UserChange, UserCreate, UserOptional, UserRow, UserRowView,
    UserView,
};
use crate::password::{
    argon2_verdict, hashWithFreshSalt, hashing_possible, is_fresh_digest, is_hashing_error,
};
use crate::permission::PermissionLevel;
use crate::random::{getRandomStr, is_random_text};
use crate::session::{is_hashing_failure, presented};
use crate::tokens::ROW_KEY_LENGTH;
use crate::state::AppState;
use crate::store::Store;

verus! {

/// The reply with which the guard ends a request; none where the request
/// proceeds.
pub open spec fn rejection(decision: GuardDecisionView) -> Option<HttpReplyView> {
    match decision {
        GuardDecisionView::Rejected(reply) => Some(reply),
        GuardDecisionView::Authorized(_) => None,
    }
}

/// What a write leaves in the store and replies: where no constraint
/// refuses it, the store after the write and an empty reply with the given
/// status; else the store as before and the report of the refusal.
pub open spec fn write_done(
    before: StoreView,
    refused: Option<Constraint>,
    after: StoreView,
    status: u16,
) -> (StoreView, HttpReplyView) {
    match refused {
        None => (after, empty_reply(status)),
        Some(constraint) => (before, error_reply(write_error(constraint.failure()))),
    }
}

/// The row of a new identity.
pub open spec fn user_row(id: Seq<char>, info: UserCreate, digest: Seq<char>, now: u64) -> UserRowView {
    UserRowView {
        Id: id,
        Username: info.Username@,
        Name: info.Name@,
        Surname: info.Surname@,
        Password: digest,
        DateCreated: now,
        FK_UserRole: info.FK_UserRole@,
    }
}

/// The row of the root identity.
pub open spec fn root_row(id: Seq<char>, digest: Seq<char>, role: Seq<char>, now: u64) -> UserRowView {
    UserRowView {
        Id: id,
        Username: "root"@,
        Name: ""@,
        Surname: ""@,
        Password: digest,
        DateCreated: now,
        FK_UserRole: role,
    }
}

pub open spec fn user_created(store: StoreView, row: UserRowView) -> (StoreView, HttpReplyView) {
    write_done(store, store.user_refused(row), store.with_user(row), STATUS_CREATED)
}

pub open spec fn user_changed(store: StoreView, id: Seq<char>, change: UserChange) -> (
    StoreView,
    HttpReplyView,
) {
    write_done(store, store.change_refused(id, change), store.with_change(id, change), STATUS_OK)
}

pub open spec fn user_deleted(store: StoreView, id: Seq<char>) -> (StoreView, HttpReplyView) {
    write_done(store, store.removal_refused(id), store.without_user(id), STATUS_OK)
}

/// The reply to a change that names no field.
pub open spec fn no_fields_reply() -> HttpReplyView {
    error_reply(PickUpErrorView { Code: PickUpErrorCode::BadRequest, Message: "No fields provided"@ })
}

/// The reply that lists identities.
pub open spec fn users_reply(users: Seq<UserView>) -> HttpReplyView {
    HttpReplyView { status: STATUS_OK, body: ReplyBodyView::Users(users) }
}

/// The change that is stored for a request: the fields of the request, with
/// the digest in the place of the password.
pub open spec fn stored_change(info: UserChange, digest: Option<Seq<char>>) -> UserChange {
    UserChange { Password: digest, ..info }
}

/// What holds of a request to create an identity that passed the guard.
pub open spec fn post_user_outcome(
    before: StoreView,
    pepper: Seq<char>,
    parameters: HashingParameters,
    info: UserCreate,
    now: u64,
    after: StoreView,
    reply: HttpReplyView,
) -> bool {
    if hashing_possible(info.Password@, pepper, parameters) {
        exists|digest: Seq<char>, id: Seq<char>|
            {
                &&& is_fresh_digest(digest, info.Password@, pepper, parameters)
                &&& argon2_verdict(digest, info.Password@, pepper) == Some(true)
                &&& is_random_text(id, ROW_KEY_LENGTH as nat)
                &&& (after, reply) == user_created(before, #[trigger] user_row(id, info, digest, now))
            }
    } else {
        after == before && is_hashing_failure(reply)
    }
}

/// What holds of a request to change an identity that passed the guard.
pub open spec fn patch_user_outcome(
    before: StoreView,
    pepper: Seq<char>,
    parameters: HashingParameters,
    id: Seq<char>,
    info: UserChange,
    after: StoreView,
    reply: HttpReplyView,
) -> bool {
    if info.is_empty() {
        after == before && reply == no_fields_reply()
    } else {
        match info.Password {
            None => (after, reply) == user_changed(before, id, info),
            Some(password) => if hashing_possible(password, pepper, parameters) {
                exists|digest: Seq<char>|
                    {
                        &&& is_fresh_digest(digest, password, pepper, parameters)
                        &&& argon2_verdict(digest, password, pepper) == Some(true)
                        &&& (after, reply) == user_changed(
                            before,
                            id,
                            #[trigger] stored_change(info, Some(digest)),
                        )
                    }
            } else {
                after == before && is_hashing_failure(reply)
            },
        }
    }
}

/// What holds of the creation of the root identity.
pub open spec fn create_root_outcome(
    before: StoreView,
    pepper: Seq<char>,
    parameters: HashingParameters,
    now: u64,
    after: StoreView,
    done: Result<(), PickUpErrorView>,
) -> bool {
    if before.roles.len() == 0 {
        &&& after == before
        &&& done == Err::<(), PickUpErrorView>(write_error(Constraint::UserRole.failure()))
    } else if !hashing_possible("admin"@, pepper, parameters) {
        &&& after == before
        &&& done matches Err(error)
        &&& is_hashing_error(error)
    } else {
        exists|digest: Seq<char>, id: Seq<char>|
            {
                &&& is_fresh_digest(digest, "admin"@, pepper, parameters)
                &&& argon2_verdict(digest, "admin"@, pepper) == Some(true)
                &&& is_random_text(id, ROW_KEY_LENGTH as nat)
                &&& root_created(
                    before,
                    #[trigger] root_row(
                        id,
                        digest,
                        before.roles[highest_role(before.roles)].UserRoleId,
                        now,
                    ),
                    after,
                    done,
                )
            }
    }
}

/// Storing the root row: where no constraint refuses it the store holds it,
/// else the store is as before and the refusal is reported.
pub open spec fn root_created(
    before: StoreView,
    row: UserRowView,
    after: StoreView,
    done: Result<(), PickUpErrorView>,
) -> bool {
    match before.user_refused(row) {
        None => after == before.with_user(row) && done is Ok,
        Some(constraint) => after == before && done == Err::<(), PickUpErrorView>(
            write_error(constraint.failure()),
        ),
    }
}

// ----- replies -----
/// The reply after a write.
pub fn written(done: Result<(), StoreFailure>, status: u16) -> (reply: HttpReply)
    ensures
        match done {
            Ok(_) => reply@ == empty_reply(status),
            Err(failure) => reply@ == error_reply(write_error(failure@)),
        },
{
    match done {
        Ok(_) => emptyReply(status),
        Err(failure) => getHRFromErrorDatabase(failure),
    }
}

/// The reply that lists identities.
pub fn usersReply(users: Vec<User>) -> (reply: HttpReply)
    ensures
        reply@ == users_reply(Seq::new(users@.len(), |i: int| users@[i]@)),
{
    HttpReply { status: STATUS_OK, body: ReplyBody::Users(users) }
}

/// The reply to a change that names no field.
pub fn noFieldsReply() -> (reply: HttpReply)
    ensures
        reply@ == no_fields_reply(),
{
    errorReply(PickUpError::newMessage(PickUpErrorCode::BadRequest, "No fields provided"))
}

// ----- handlers -----
/// Lists every identity with its role.
pub fn getAllUsers(data: &AppState, credentials: Option<&str>, now: u64) -> (reply: HttpReply)
    requires
        data.store@.wf(),
    ensures
        reply@ == match rejection(
            permission_guard(data.store@, PermissionLevel::Admin, presented(credentials), now),
        ) {
            Some(rejected) => rejected,
            None => users_reply(data.store@.all_users()),
        },
{
    match permissionLevelAdminMiddleware(data, credentials, now) {
        GuardDecision::Rejected(reply) => reply,
        GuardDecision::Authorized(_) => usersReply(data.store.selectUsers()),
    }
}

/// Lists the identity with the given key: a list of one, or of none.
pub fn getUserById(data: &AppState, credentials: Option<&str>, id: &str, now: u64) -> (reply:
    HttpReply)
    requires
        data.store@.wf(),
    ensures
        reply@ == match rejection(
            permission_guard(data.store@, PermissionLevel::Admin, presented(credentials), now),
        ) {
            Some(rejected) => rejected,
            None => users_reply(data.store@.users_with(id@)),
        },
{
    match permissionLevelAdminMiddleware(data, credentials, now) {
        GuardDecision::Rejected(reply) => reply,
        GuardDecision::Authorized(_) => usersReply(data.store.selectUserById(id)),
    }
}

/// Stores a new identity whose password digest and row key are given.
pub fn createUser(data: &mut AppState, info: &UserCreate, digest: String, id: String, now: u64) -> (reply:
    HttpReply)
    requires
        old(data).store@.wf(),
    ensures
        final(data).store@.wf(),
        final(data).same_settings(old(data)),
        (final(data).store@, reply@) == user_created(
            old(data).store@,
            user_row(id@, *info, digest@, now),
        ),
{
    let row = UserRow {
        Id: id,
        Username: info.Username.clone(),
        Name: info.Name.clone(),
        Surname: info.Surname.clone(),
        Password: digest,
        DateCreated: now,
        FK_UserRole: info.FK_UserRole.clone(),
    };
    written(data.store.insertUser(row), STATUS_CREATED)
}

/// Creates an identity.  The password is hashed under a salt drawn for it
/// and only the digest is stored; a password that cannot be hashed is an
/// internal error and nothing is stored.
pub fn postUser(data: &mut AppState, credentials: Option<&str>, info: &UserCreate, now: u64) -> (reply:
    HttpReply)
    requires
        old(data).store@.wf(),
    ensures
        final(data).store@.wf(),
        final(data).same_settings(old(data)),
        match rejection(
            permission_guard(old(data).store@, PermissionLevel::Admin, presented(credentials), now),
        ) {
            Some(rejected) => reply@ == rejected && final(data).store@ == old(data).store@,
            None => post_user_outcome(
                old(data).store@,
                old(data).pepper@,
                old(data).hashingParameters,
                *info,
                now,
                final(data).store@,
                reply@,
            ),
        },
{
    match permissionLevelAdminMiddleware(data, credentials, now) {
        GuardDecision::Rejected(reply) => reply,
        GuardDecision::Authorized(_) => {
            match hashWithFreshSalt(
                info.Password.as_str(),
                data.pepper.as_str(),
                &data.hashingParameters,
            ) {
                Err(error) => errorReply(error),
                Ok(hashedPassword) => {
                    let id = getRandomStr(ROW_KEY_LENGTH);
                    let ghost digest = hashedPassword@;
                    let ghost key = id@;
                    let reply = createUser(data, info, hashedPassword, id, now);
                    proof {
                        assert((data.store@, reply@) == user_created(
                            old(data).store@,
                            user_row(key, *info, digest, now),
                        ));
                    }
                    reply
                },
            }
        },
    }
}

/// The change as it is stored: the fields of the request, with the digest
/// in the place of the password.
fn storedChange(info: &UserOptional, digest: Option<String>) -> (change: UserOptional)
    ensures
        change@ == stored_change(info@, crate::models::text_of(digest)),
{
    UserOptional {
        Username: copyText(&info.Username),
        Name: copyText(&info.Name),
        Surname: copyText(&info.Surname),
        Password: digest,
        FK_UserRole: copyText(&info.FK_UserRole),
    }
}

fn copyText(text: &Option<String>) -> (copy: Option<String>)
    ensures
        crate::models::text_of(copy) == crate::models::text_of(*text),
{
    match text {
        Some(held) => Some(held.clone()),
        None => None,
    }
}

/// Whether a change names no field.
pub fn isEmptyChange(info: &UserOptional) -> (empty: bool)
    ensures
        empty == info@.is_empty(),
{
    info.Username.is_none() && info.Name.is_none() && info.Surname.is_none()
        && info.Password.is_none() && info.FK_UserRole.is_none()
}

/// Changes the fields of an identity that the request names.  A new
/// password is hashed under a salt drawn for it.  A request that names no
/// field is a bad request.
pub fn patchUser(
    data: &mut AppState,
    credentials: Option<&str>,
    info: &UserOptional,
    id: &str,
    now: u64,
) -> (reply: HttpReply)
    requires
        old(data).store@.wf(),
    ensures
        final(data).store@.wf(),
        final(data).same_settings(old(data)),
        match rejection(
            permission_guard(old(data).store@, PermissionLevel::Admin, presented(credentials), now),
        ) {
            Some(rejected) => reply@ == rejected && final(data).store@ == old(data).store@,
            None => patch_user_outcome(
                old(data).store@,
                old(data).pepper@,
                old(data).hashingParameters,
                id@,
                info@,
                final(data).store@,
                reply@,
            ),
        },
{
    match permissionLevelAdminMiddleware(data, credentials, now) {
        GuardDecision::Rejected(reply) => reply,
        GuardDecision::Authorized(_) => {
            if isEmptyChange(info) {
                return noFieldsReply();
            }
            let digest = match &info.Password {
                None => None,
                Some(password) => {
                    match hashWithFreshSalt(
                        password.as_str(),
                        data.pepper.as_str(),
                        &data.hashingParameters,
                    ) {
                        Err(error) => {
                            return errorReply(error);
                        },
                        Ok(hashedPassword) => Some(hashedPassword),
                    }
                },
            };
            let ghost hashed = crate::models::text_of(digest);
            let change = storedChange(info, digest);
            let reply = written(data.store.updateUser(id, &change), STATUS_OK);
            proof {
                if info@.Password is Some {
                    assert((data.store@, reply@) == user_changed(
                        old(data).store@,
                        id@,
                        stored_change(info@, Some(hashed->0)),
                    ));
                } else {
                    assert(stored_change(info@, None) == info@);
                }
            }
            reply
        },
    }
}

/// Removes an identity.  An identity that owns tokens stays.
pub fn deleteUser(data: &mut AppState, credentials: Option<&str>, id: &str, now: u64) -> (reply:
    HttpReply)
    requires
        old(data).store@.wf(),
    ensures
        final(data).store@.wf(),
        final(data).same_settings(old(data)),
        match rejection(
            permission_guard(old(data).store@, PermissionLevel::Admin, presented(credentials), now),
        ) {
            Some(rejected) => reply@ == rejected && final(data).store@ == old(data).store@,
            None => (final(data).store@, reply@) == user_deleted(old(data).store@, id@),
        },
{
    match permissionLevelAdminMiddleware(data, credentials, now) {
        GuardDecision::Rejected(reply) => reply,
        GuardDecision::Authorized(_) => written(data.store.deleteUser(id), STATUS_OK),
    }
}

/// Creates the root identity: the name `root`, the password `admin`, and
/// the first role among those of the highest tier.  Without any role there
/// is none to give it, and the creation fails as a write that violates the
/// role constraint does.
pub fn createRoot(
    store: &mut Store,
    papper: &str,
    hashingParameters: &HashingParameters,
    now: u64,
) -> (done: Result<(), PickUpError>)
    requires
        old(store)@.wf(),
    ensures
        final(store)@.wf(),
        create_root_outcome(
            old(store)@,
            papper@,
            *hashingParameters,
            now,
            final(store)@,
            match done {
                Ok(_) => Ok(()),
                Err(error) => Err(error@),
            },
        ),
{
    let role = match store.selectHighestRole() {
        Some(role) => role,
        None => {
            let failure = crate::store::constraintFailure(Constraint::UserRole);
            return Err(PickUpError::fromDatabaseError(&failure.database.unwrap()));
        },
    };
    proof {
        reveal_strlit("admin");
    }
    let hashedPassword = match hashWithFreshSalt("admin", papper, hashingParameters) {
        Ok(hashedPassword) => hashedPassword,
        Err(error) => {
            return Err(error);
        },
    };
    let id = getRandomStr(ROW_KEY_LENGTH);
    let row = UserRow {
        Id: id,
        Username: String::from_str("root"),
        Name: String::from_str(""),
        Surname: String::from_str(""),
        Password: hashedPassword,
        DateCreated: now,
        FK_UserRole: role.UserRoleId,
    };
    let ghost stored = row@;
    assert(stored == root_row(
        stored.Id,
        stored.Password,
        old(store)@.roles[highest_role(old(store)@.roles)].UserRoleId,
        now,
    ));
    match store.insertUser(row) {
        Ok(_) => Ok(()),
        Err(failure) => {
            let errorPickUp = PickUpError::fromDatabaseError(&failure.database.unwrap());
            Err(errorPickUp)
        },
    }
}

} // verus!
