//! What the service guarantees, proved over the model of the store.
use vstd::prelude::*;
use crate::auth::{
    authenticated, authentication_guard, guard_decision, permission_guard, permission_level,
    permission_verdict, unauthorized_reply, AdmissionView, GuardDecisionView, RequiredTier,
};
use crate::digest::sha256_hex;
use crate::http::token_reply;
use crate::model::{
    has_role, has_token, has_user, highest_role, lemma_name_found, lemma_token_found,
    lemma_user_found, name_at, name_index, token_at, token_index, user_at, user_index,
    StoreView,
};
use crate::models::{
    TokenKind, TokenView, UserChange, UserRoleView, UserRowView, ZipCodeChange, ZipCodeView,
    ACCESS_TOKEN_SECONDS, TOKEN_TYPE_ACCESS, TOKEN_TYPE_REFRESH,
};
use crate::password::argon2_verdict;
use crate::permission::PermissionLevel;
use crate::session::{access_with, login_passes, login_with};
use crate::tokens::token_row;

verus! {

/// A token that was stored is found under its kind and digest.
pub proof fn lemma_token_stored(store: StoreView, row: TokenView)
    requires
        store.wf(),
        store.token_refused(row) is None,
    ensures
        store.with_token(row).wf(),
        has_token(store.with_token(row).tokens, row.Type, row.Token),
        store.with_token(row).token(row.Type, row.Token) == row,
{
    let after = store.with_token(row);
    store.lemma_with_token_wf(row);
    let last = store.tokens.len() as int;
    assert(token_at(after.tokens, last, row.Type, row.Token));
    lemma_token_found(after.tokens, last);
}

/// After a token was stored, a search by another kind or digest finds what
/// it found before.
pub proof fn lemma_other_tokens_kept(
    store: StoreView,
    row: TokenView,
    kind: i8,
    digest: Seq<char>,
)
    requires
        store.wf(),
        store.token_refused(row) is None,
        kind != row.Type || digest != row.Token,
    ensures
        has_token(store.with_token(row).tokens, kind, digest) == has_token(
            store.tokens,
            kind,
            digest,
        ),
        has_token(store.tokens, kind, digest) ==> store.with_token(row).token(kind, digest)
            == store.token(kind, digest),
{
    let after = store.with_token(row);
    store.lemma_with_token_wf(row);
    if has_token(store.tokens, kind, digest) {
        let at = token_index(store.tokens, kind, digest);
        assert(token_at(after.tokens, at, kind, digest));
        lemma_token_found(after.tokens, at);
    }
    if has_token(after.tokens, kind, digest) {
        let at = token_index(after.tokens, kind, digest);
        assert(token_at(store.tokens, at, kind, digest));
    }
}

/// Expiry is enforced at the boundary.  A stored token is found by its kind
/// and digest exactly while its validity ends after `now`: at the instant
/// its validity ends, and at every later one, the search finds nothing,
/// although the digest matches.  An access secret with that digest is then
/// rejected by both guards as unauthorized.
pub proof fn theorem_expiry_is_enforced(
    store: StoreView,
    i: int,
    now: u64,
    required: PermissionLevel,
    secret: Seq<char>,
)
    requires
        store.wf(),
        0 <= i < store.tokens.len(),
    ensures
        store.tokens[i].DateEnd > now ==> store.live_token(
            store.tokens[i].Type,
            store.tokens[i].Token,
            now,
        ) == Some(store.tokens[i]),
        store.tokens[i].DateEnd <= now ==> store.live_token(
            store.tokens[i].Type,
            store.tokens[i].Token,
            now,
        ) is None,
        store.tokens[i].DateEnd <= now && store.tokens[i].Type == TOKEN_TYPE_ACCESS && sha256_hex(
            secret,
        ) == store.tokens[i].Token ==> {
            &&& !authenticated(store, secret, now)
            &&& permission_level(store, secret, now) is None
            &&& permission_guard(store, required, Some(secret), now) == GuardDecisionView::Rejected(
                unauthorized_reply(),
            )
            &&& authentication_guard(store, Some(secret), now) == GuardDecisionView::Rejected(
                unauthorized_reply(),
            )
        },
{
    lemma_token_found(store.tokens, i);
}

/// A secret that was never issued is answered exactly as an expired one
/// is: both guards reject it as unauthorized, and so do they a request
/// without any credential.  The exchange answers a refresh secret that was
/// never issued as unauthorized and stores nothing.
pub proof fn theorem_unknown_secret_is_unauthorized(
    store: StoreView,
    now: u64,
    required: PermissionLevel,
    unknown: Seq<char>,
    expired: Seq<char>,
    i: int,
    secret: Seq<char>,
    digest: Seq<char>,
    id: Seq<char>,
)
    requires
        store.wf(),
        !has_token(store.tokens, TOKEN_TYPE_ACCESS, sha256_hex(unknown)),
        0 <= i < store.tokens.len(),
        store.tokens[i].Type == TOKEN_TYPE_ACCESS,
        store.tokens[i].Token == sha256_hex(expired),
        store.tokens[i].DateEnd <= now,
    ensures
        permission_guard(store, required, Some(unknown), now) == GuardDecisionView::Rejected(
            unauthorized_reply(),
        ),
        permission_guard(store, required, Some(unknown), now) == permission_guard(
            store,
            required,
            Some(expired),
            now,
        ),
        permission_guard(store, required, Some(unknown), now) == permission_guard(
            store,
            required,
            None,
            now,
        ),
        authentication_guard(store, Some(unknown), now) == authentication_guard(
            store,
            Some(expired),
            now,
        ),
        authentication_guard(store, Some(unknown), now) == GuardDecisionView::Rejected(
            unauthorized_reply(),
        ),
        !has_token(store.tokens, TOKEN_TYPE_REFRESH, sha256_hex(unknown)) ==> access_with(
            store,
            Some(unknown),
            now,
            secret,
            digest,
            id,
        ) == (store, unauthorized_reply()),
{
    lemma_token_found(store.tokens, i);
}

/// The guard lets a valid access token pass exactly where the tier that its
/// owner's role has now covers the tier that the route requires.
pub proof fn theorem_guard_compares_current_tier(
    store: StoreView,
    i: int,
    now: u64,
    required: PermissionLevel,
    secret: Seq<char>,
)
    requires
        store.wf(),
        0 <= i < store.tokens.len(),
        store.tokens[i].Type == TOKEN_TYPE_ACCESS,
        store.tokens[i].Token == sha256_hex(secret),
        store.tokens[i].DateEnd > now,
    ensures
        permission_level(store, secret, now) == Some(
            PermissionLevel::of(store.tier_of(store.tokens[i].FK_User)),
        ),
        permission_guard(store, required, Some(secret), now) == permission_verdict(
            required,
            store.tokens[i].FK_User,
            store.tier_of(store.tokens[i].FK_User),
        ),
        permission_guard(store, required, Some(secret), now) is Authorized <==> PermissionLevel::of(
            store.tier_of(store.tokens[i].FK_User),
        ).covers(required),
        authentication_guard(store, Some(secret), now) == GuardDecisionView::Authorized(
            AdmissionView { owner: store.tokens[i].FK_User, tier: None },
        ),
{
    lemma_token_found(store.tokens, i);
}

/// A route that requires no more than a valid token lets exactly those
/// requests pass that a route for the lowest tier lets pass, and for the
/// same identity.  Reading the role adds nothing there, so it is skipped.
pub proof fn theorem_authentication_is_the_lowest_tier(
    store: StoreView,
    credentials: Option<Seq<char>>,
    now: u64,
)
    requires
        store.wf(),
    ensures
        authentication_guard(store, credentials, now) is Authorized <==> permission_guard(
            store,
            PermissionLevel::User,
            credentials,
            now,
        ) is Authorized,
        authentication_guard(store, credentials, now) is Authorized ==> authentication_guard(
            store,
            credentials,
            now,
        )->Authorized_0.owner == permission_guard(
            store,
            PermissionLevel::User,
            credentials,
            now,
        )->Authorized_0.owner,
        authentication_guard(store, credentials, now) is Rejected ==> authentication_guard(
            store,
            credentials,
            now,
        ) == permission_guard(store, PermissionLevel::User, credentials, now),
{
}

/// Every decision of the guard is one of three: the request proceeds, it is
/// unauthorized, or, where the search itself failed, it ends with an
/// internal error.  Over a store that answers every search, a request never
/// ends with an internal error.
pub proof fn theorem_guard_ends_in_one_state(
    store: StoreView,
    required: RequiredTier,
    credentials: Option<Seq<char>>,
    now: u64,
)
    requires
        store.wf(),
    ensures
        guard_decision(store, required, credentials, now) is Authorized || guard_decision(
            store,
            required,
            credentials,
            now,
        ) == GuardDecisionView::Rejected(unauthorized_reply()),
        credentials is None ==> guard_decision(store, required, credentials, now)
            == GuardDecisionView::Rejected(unauthorized_reply()),
{
}

/// A token row is never changed and never removed: whatever is written,
/// the rows that were stored stay as they were, in their places.
pub proof fn theorem_tokens_are_never_changed(
    store: StoreView,
    token: TokenView,
    user: UserRowView,
    role: UserRoleView,
    zipCode: ZipCodeView,
    id: Seq<char>,
    change: UserChange,
    zipCodeChange: ZipCodeChange,
    i: int,
)
    requires
        0 <= i < store.tokens.len(),
    ensures
        store.with_token(token).tokens[i] == store.tokens[i],
        store.with_user(user).tokens == store.tokens,
        store.with_change(id, change).tokens == store.tokens,
        store.without_user(id).tokens == store.tokens,
        store.with_role(role).tokens == store.tokens,
        store.with_zip_code(zipCode).tokens == store.tokens,
        store.with_zip_code_change(id, zipCodeChange).tokens == store.tokens,
        store.without_zip_code(id).tokens == store.tokens,
{
}

/// The tier is resolved when the token is used, not when it was issued.
/// After the owner of a valid access token is given another role, the guard
/// decides by the tier of the new role: a token that passed a route is
/// rejected where the new tier no longer covers what the route requires, and
/// one that was rejected passes where the new tier does.
pub proof fn theorem_role_change_takes_effect(
    store: StoreView,
    i: int,
    now: u64,
    required: PermissionLevel,
    secret: Seq<char>,
    role: Seq<char>,
)
    requires
        store.wf(),
        0 <= i < store.tokens.len(),
        store.tokens[i].Type == TOKEN_TYPE_ACCESS,
        store.tokens[i].Token == sha256_hex(secret),
        store.tokens[i].DateEnd > now,
        has_role(store.roles, role),
    ensures
        ({
            let owner = store.tokens[i].FK_User;
            let change = UserChange {
                Username: None,
                Name: None,
                Surname: None,
                Password: None,
                FK_UserRole: Some(role),
            };
            let after = store.with_change(owner, change);
            let tier = PermissionLevel::of(store.role(role).PermissionLevel);
            &&& store.change_refused(owner, change) is None
            &&& after.wf()
            &&& after.tokens == store.tokens
            &&& permission_level(after, secret, now) == Some(tier)
            &&& permission_guard(after, required, Some(secret), now) == permission_verdict(
                required,
                owner,
                store.role(role).PermissionLevel,
            )
            &&& permission_guard(after, required, Some(secret), now) is Authorized <==> tier.covers(
                required,
            )
        }),
{
    let owner = store.tokens[i].FK_User;
    let change = UserChange {
        Username: None,
        Name: None,
        Surname: None,
        Password: None,
        FK_UserRole: Some(role),
    };
    let after = store.with_change(owner, change);
    lemma_token_found(store.tokens, i);
    assert(has_user(store.users, owner));
    store.lemma_with_change_wf(owner, change);
    let at = user_index(store.users, owner);
    assert(user_at(after.users, at, owner));
    lemma_user_found(after.users, at);
    assert(after.user(owner).FK_UserRole == role);
}

/// The role that the root identity is given is of the highest tier, and it
/// is the first such role: no role has a higher tier and every role before
/// it has a lower one.
pub proof fn theorem_highest_role_is_highest(roles: Seq<UserRoleView>)
    requires
        roles.len() > 0,
    ensures
        0 <= highest_role(roles) < roles.len(),
        forall|j: int|
            0 <= j < roles.len() ==> (#[trigger] roles[j]).PermissionLevel
                <= roles[highest_role(roles)].PermissionLevel,
        forall|j: int|
            0 <= j < highest_role(roles) ==> (#[trigger] roles[j]).PermissionLevel
                < roles[highest_role(roles)].PermissionLevel,
    decreases roles.len(),
{
    if roles.len() > 1 {
        let before = roles.drop_last();
        theorem_highest_role_is_highest(before);
        assert forall|j: int| 0 <= j < roles.len() implies (#[trigger] roles[j]).PermissionLevel
            <= roles[highest_role(roles)].PermissionLevel by {
            if j < before.len() {
                assert(roles[j] == before[j]);
            }
        }
        assert forall|j: int| 0 <= j < highest_role(roles) implies (#[trigger] roles[j]).PermissionLevel
            < roles[highest_role(roles)].PermissionLevel by {
            assert(roles[j] == before[j]);
        }
    }
}

/// An identity that was stored with a digest of its password can log in
/// with that password: the name is found and the password verifies.
pub proof fn theorem_stored_identity_can_log_in(
    store: StoreView,
    row: UserRowView,
    pepper: Seq<char>,
    password: Seq<char>,
)
    requires
        store.wf(),
        store.user_refused(row) is None,
        argon2_verdict(row.Password, password, pepper) == Some(true),
    ensures
        store.with_user(row).wf(),
        store.with_user(row).credentials(row.Username) == Some(row),
        login_passes(store.with_user(row), pepper, row.Username, password),
{
    let after = store.with_user(row);
    store.lemma_with_user_wf(row);
    let last = store.users.len() as int;
    assert(name_at(after.users, last, row.Username));
    lemma_name_found(after.users, last);
}

/// A valid login, then the exchange of the refresh secret, then the access
/// secret at the guard: all three succeed.  For an identity whose password
/// verifies, a login at `loginAt` hands out the refresh secret; while the
/// refresh token is valid, its exchange at `exchangeAt` hands out the
/// access secret; and while the access token is valid, both guards let the
/// access secret pass a route that requires the identity's own tier.  The
/// secrets are fresh: their digests were not stored before.
pub proof fn theorem_login_then_exchange_then_guard(
    store: StoreView,
    pepper: Seq<char>,
    username: Seq<char>,
    password: Seq<char>,
    active: u32,
    device: Seq<char>,
    loginAt: u64,
    refreshSecret: Seq<char>,
    refreshKey: Seq<char>,
    exchangeAt: u64,
    accessSecret: Seq<char>,
    accessKey: Seq<char>,
    requestAt: u64,
)
    requires
        store.wf(),
        login_passes(store, pepper, username, password),
        loginAt + active <= u64::MAX,
        exchangeAt + ACCESS_TOKEN_SECONDS <= u64::MAX,
        loginAt <= exchangeAt < loginAt + active,
        exchangeAt <= requestAt < exchangeAt + ACCESS_TOKEN_SECONDS,
        !has_token(store.tokens, TOKEN_TYPE_REFRESH, sha256_hex(refreshSecret)),
        !has_token(store.tokens, TOKEN_TYPE_ACCESS, sha256_hex(accessSecret)),
    ensures
        ({
            let owner = store.credentials(username)->0.Id;
            let tier = PermissionLevel::of(store.tier_of(owner));
            let (loggedIn, first) = login_with(
                store,
                pepper,
                username,
                password,
                active,
                device,
                loginAt,
                refreshSecret,
                sha256_hex(refreshSecret),
                refreshKey,
            );
            let (exchanged, second) = access_with(
                loggedIn,
                Some(refreshSecret),
                exchangeAt,
                accessSecret,
                sha256_hex(accessSecret),
                accessKey,
            );
            &&& first == token_reply(refreshSecret)
            &&& second == token_reply(accessSecret)
            &&& exchanged.wf()
            &&& exchanged.tier_of(owner) == store.tier_of(owner)
            &&& permission_guard(exchanged, tier, Some(accessSecret), requestAt)
                == GuardDecisionView::Authorized(AdmissionView { owner, tier: Some(tier) })
            &&& authentication_guard(exchanged, Some(accessSecret), requestAt)
                == GuardDecisionView::Authorized(AdmissionView { owner, tier: None })
        }),
{
    let at = name_index(store.users, username);
    assert(name_at(store.users, at, username));
    let owner = store.users[at].Id;
    assert(user_at(store.users, at, owner));
    let refresh = token_row(
        refreshKey,
        sha256_hex(refreshSecret),
        TokenKind::Refresh,
        device,
        owner,
        loginAt,
        active,
    );
    lemma_token_stored(store, refresh);
    let loggedIn = store.with_token(refresh);
    let access = token_row(
        accessKey,
        sha256_hex(accessSecret),
        TokenKind::Access,
        refresh.DeviceInfo,
        refresh.FK_User,
        exchangeAt,
        ACCESS_TOKEN_SECONDS,
    );
    assert(loggedIn.live_token(TOKEN_TYPE_REFRESH, sha256_hex(refreshSecret), exchangeAt) == Some(
        refresh,
    ));
    lemma_other_tokens_kept(store, refresh, TOKEN_TYPE_ACCESS, sha256_hex(accessSecret));
    lemma_token_stored(loggedIn, access);
    let exchanged = loggedIn.with_token(access);
    assert(exchanged.live_token(TOKEN_TYPE_ACCESS, sha256_hex(accessSecret), requestAt) == Some(
        access,
    ));
}

} // verus!
