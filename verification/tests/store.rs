use pickup_auth::auth::{
    authenticationOf, authenticationReply, authenticationVerdict, credentialDigest,
    permissionOf, permissionReply, permissionVerdict, unauthorizedReply, Admission,
    GuardDecision,
};
use pickup_auth::error::{PickUpError, PickUpErrorCode};
use pickup_auth::failure::{StoreFailure, ViolationKind};
use pickup_auth::http::{HttpReply, ReplyBody};
use pickup_auth::model::Constraint;
use pickup_auth::models::{
    Token, TokenCreate, TokenKind, UserOptional, UserRole, UserRow, ZipCode, ZipCodeOptional,
};
use pickup_auth::permission::{PermissionLevel, PermissionLevelStruct};
use pickup_auth::random::tokenOf;
use pickup_auth::store::{constraintFailure, Store};
use pickup_auth::tokens::{
    insertAccess, insertAccessWith, insertRefresh, insertRefreshWith, liveTier, liveToken,
    lookup, tokenCreate, tokenRow,
};

fn role(id: &str, level: i8) -> UserRole {
    UserRole {
        UserRoleId: id.to_string(),
        PermissionLevel: level,
        Role: format!("role {}", level),
        Description: Some("described".to_string()),
    }
}

fn user(id: &str, name: &str, role: &str) -> UserRow {
    UserRow {
        Id: id.to_string(),
        Username: name.to_string(),
        Name: "Name".to_string(),
        Surname: "Surname".to_string(),
        Password: "digest".to_string(),
        DateCreated: 5,
        FK_UserRole: role.to_string(),
    }
}

fn token(id: &str, digest: &str, kind: TokenKind, owner: &str, end: u64) -> Token {
    Token {
        Id: id.to_string(),
        Token: digest.to_string(),
        Type: kind.typeNumber(),
        DeviceInfo: "phone".to_string(),
        DateStart: 10,
        DateEnd: end,
        DateCreated: 10,
        FK_User: owner.to_string(),
    }
}

fn seeded() -> Store {
    let mut store = Store::new();
    store.insertRole(role("r0", 0)).unwrap();
    store.insertRole(role("r2", 2)).unwrap();
    store.insertRole(role("r1", 1)).unwrap();
    store.insertUser(user("u1", "ann", "r2")).unwrap();
    store.insertUser(user("u2", "bob", "r0")).unwrap();
    store
}

fn violation(kind: ViolationKind, message: &str) -> StoreFailure {
    StoreFailure::violated(kind, message)
}

fn no_change() -> UserOptional {
    UserOptional { Username: None, Name: None, Surname: None, Password: None, FK_UserRole: None }
}

#[test]
fn a_new_store_is_empty() {
    let store = Store::new();
    assert!(store.selectUsers().is_empty());
    assert!(store.selectZipCodes().is_empty());
    assert_eq!(store.selectHighestRole(), None);
    assert_eq!(store.selectCredentials("root"), Err(StoreFailure::noRows()));
    assert_eq!(store.selectToken(TokenKind::Access, "digest", 0), Err(StoreFailure::noRows()));
    assert_eq!(store.selectPermissionLevel("digest", 0), Err(StoreFailure::noRows()));
}

#[test]
fn kinds_of_token_have_their_numbers() {
    assert_eq!(TokenKind::Access.typeNumber(), 0);
    assert_eq!(TokenKind::Refresh.typeNumber(), 1);
}

#[test]
fn constraints_are_reported_as_the_database_reports_them() {
    let cases = [
        (Constraint::RoleKey, ViolationKind::Unique, "Duplicate entry for key 'UserRole.PRIMARY'"),
        (Constraint::UserKey, ViolationKind::Unique, "Duplicate entry for key 'User.PRIMARY'"),
        (Constraint::UserName, ViolationKind::Unique, "Duplicate entry for key 'User.Username'"),
        (Constraint::TokenDigest, ViolationKind::Unique, "Duplicate entry for key 'Token.Token'"),
        (Constraint::ZipCodeKey, ViolationKind::Unique, "Duplicate entry for key 'ZipCode.PRIMARY'"),
        (
            Constraint::UserRole,
            ViolationKind::ForeignKey,
            "Cannot add or update a child row: a foreign key constraint fails (`User`, CONSTRAINT `User_ibfk_1` FOREIGN KEY (`FK_UserRole`) REFERENCES `UserRole` (`Id`))",
        ),
        (
            Constraint::TokenOwner,
            ViolationKind::ForeignKey,
            "Cannot add or update a child row: a foreign key constraint fails (`Token`, CONSTRAINT `Token_ibfk_1` FOREIGN KEY (`FK_User`) REFERENCES `User` (`Id`))",
        ),
        (
            Constraint::OwnedTokens,
            ViolationKind::ForeignKey,
            "Cannot delete or update a parent row: a foreign key constraint fails (`Token`, CONSTRAINT `Token_ibfk_1` FOREIGN KEY (`FK_User`) REFERENCES `User` (`Id`))",
        ),
    ];
    for (constraint, kind, message) in cases {
        let failure = constraintFailure(constraint);
        assert_eq!(failure, violation(kind, message));
        assert_eq!(failure.description, format!("error returned from database: {}", message));
        assert!(!failure.isNoRows());
    }
}

#[test]
fn a_foreign_key_report_names_its_column() {
    let owner = constraintFailure(Constraint::TokenOwner).database.unwrap();
    assert_eq!(
        PickUpError::fromDatabaseError(&owner).Message,
        "Foreign key constraint fails at FK_User column"
    );
    let role = constraintFailure(Constraint::UserRole).database.unwrap();
    assert_eq!(
        PickUpError::fromDatabaseError(&role),
        PickUpError {
            Code: PickUpErrorCode::ForeignKey,
            Message: "Foreign key constraint fails at FK_UserRole column".to_string(),
        }
    );
}

#[test]
fn role_keys_are_unique() {
    let mut store = seeded();
    assert_eq!(store.insertRole(role("r1", 7)), Err(constraintFailure(Constraint::RoleKey)));
    assert_eq!(store.insertRole(role("r7", 1)), Ok(()));
}

#[test]
fn the_highest_role_is_the_first_of_the_highest_tier() {
    let mut store = Store::new();
    store.insertRole(role("a", -3)).unwrap();
    assert_eq!(store.selectHighestRole(), Some(role("a", -3)));
    store.insertRole(role("b", 2)).unwrap();
    store.insertRole(role("c", 1)).unwrap();
    store.insertRole(role("d", 2)).unwrap();
    assert_eq!(store.selectHighestRole(), Some(role("b", 2)));
    store.insertRole(role("e", 127)).unwrap();
    assert_eq!(store.selectHighestRole(), Some(role("e", 127)));
}

#[test]
fn an_identity_needs_a_fresh_key_a_fresh_name_and_a_role() {
    let mut store = seeded();
    assert_eq!(store.insertUser(user("u1", "carl", "r0")), Err(constraintFailure(Constraint::UserKey)));
    assert_eq!(store.insertUser(user("u3", "ann", "r0")), Err(constraintFailure(Constraint::UserName)));
    assert_eq!(store.insertUser(user("u3", "carl", "r9")), Err(constraintFailure(Constraint::UserRole)));
    assert_eq!(store.insertUser(user("u1", "ann", "r9")), Err(constraintFailure(Constraint::UserKey)));
    assert_eq!(store.selectUsers().len(), 2);
    assert_eq!(store.insertUser(user("u3", "carl", "r1")), Ok(()));
    assert_eq!(store.selectUsers().len(), 3);
}

#[test]
fn identities_are_listed_with_their_roles_in_order() {
    let store = seeded();
    let users = store.selectUsers();
    assert_eq!(users.len(), 2);
    assert_eq!(users[0].UserId, "u1");
    assert_eq!(users[0].Username, "ann");
    assert_eq!(users[0].Name, "Name");
    assert_eq!(users[0].Surname, "Surname");
    assert_eq!(users[0].Password, "digest");
    assert_eq!(users[0].DateCreated, 5);
    assert_eq!(users[0].UserRole, role("r2", 2));
    assert_eq!(users[1].UserId, "u2");
    assert_eq!(users[1].UserRole, role("r0", 0));
    assert_eq!(store.selectUserById("u2"), vec![users[1].clone()]);
    assert_eq!(store.selectUserById("u9"), vec![]);
    assert_eq!(store.selectUserById("ann"), vec![]);
}

#[test]
fn credentials_are_found_by_name() {
    let store = seeded();
    let found = store.selectCredentials("bob").unwrap();
    assert_eq!((found.Id.as_str(), found.Username.as_str(), found.Password.as_str()), ("u2", "bob", "digest"));
    assert_eq!(store.selectCredentials("Bob"), Err(StoreFailure::noRows()));
    assert_eq!(store.selectCredentials("u2"), Err(StoreFailure::noRows()));
}

#[test]
fn a_change_sets_only_the_named_fields() {
    let mut store = seeded();
    let change = UserOptional {
        Name: Some("Anna".to_string()),
        Password: Some("other digest".to_string()),
        ..no_change()
    };
    assert_eq!(store.updateUser("u1", &change), Ok(()));
    let users = store.selectUsers();
    assert_eq!(users[0].UserId, "u1");
    assert_eq!(users[0].Username, "ann");
    assert_eq!(users[0].Name, "Anna");
    assert_eq!(users[0].Surname, "Surname");
    assert_eq!(users[0].Password, "other digest");
    assert_eq!(users[0].DateCreated, 5);
    assert_eq!(users[0].UserRole, role("r2", 2));
    assert_eq!(users[1], seeded().selectUsers()[1]);

    let all = UserOptional {
        Username: Some("ann2".to_string()),
        Name: Some("N".to_string()),
        Surname: Some("S".to_string()),
        Password: Some("P".to_string()),
        FK_UserRole: Some("r1".to_string()),
    };
    assert_eq!(store.updateUser("u1", &all), Ok(()));
    let changed = &store.selectUsers()[0];
    assert_eq!(
        (changed.Username.as_str(), changed.Name.as_str(), changed.Surname.as_str(), changed.Password.as_str()),
        ("ann2", "N", "S", "P")
    );
    assert_eq!(changed.UserRole, role("r1", 1));
    assert!(store.selectCredentials("ann").is_err());
    assert!(store.selectCredentials("ann2").is_ok());
}

#[test]
fn a_change_keeps_names_unique_and_roles_known() {
    let mut store = seeded();
    let taken = UserOptional { Username: Some("bob".to_string()), ..no_change() };
    assert_eq!(store.updateUser("u1", &taken), Err(constraintFailure(Constraint::UserName)));
    assert_eq!(store.updateUser("u2", &taken), Ok(()));
    let unknown = UserOptional { FK_UserRole: Some("r9".to_string()), ..no_change() };
    assert_eq!(store.updateUser("u1", &unknown), Err(constraintFailure(Constraint::UserRole)));
    let both = UserOptional { Username: Some("bob".to_string()), FK_UserRole: Some("r9".to_string()), ..no_change() };
    assert_eq!(store.updateUser("u1", &both), Err(constraintFailure(Constraint::UserName)));
    assert_eq!(store.selectUsers(), seeded().selectUsers());
}

#[test]
fn a_change_of_no_row_changes_nothing() {
    let mut store = seeded();
    let change = UserOptional { Username: Some("bob".to_string()), FK_UserRole: Some("r9".to_string()), ..no_change() };
    assert_eq!(store.updateUser("u9", &change), Ok(()));
    assert_eq!(store.updateUser("u1", &no_change()), Ok(()));
    assert_eq!(store.selectUsers(), seeded().selectUsers());
}

#[test]
fn an_identity_that_owns_tokens_stays() {
    let mut store = seeded();
    store.insertToken(token("t1", "d1", TokenKind::Refresh, "u1", 20)).unwrap();
    assert_eq!(store.deleteUser("u1"), Err(constraintFailure(Constraint::OwnedTokens)));
    assert_eq!(store.selectUsers().len(), 2);
    assert_eq!(store.deleteUser("u2"), Ok(()));
    assert_eq!(store.deleteUser("u2"), Ok(()));
    assert_eq!(store.deleteUser("u9"), Ok(()));
    let left = store.selectUsers();
    assert_eq!(left.len(), 1);
    assert_eq!(left[0].UserId, "u1");
    assert_eq!(store.insertUser(user("u2", "bob", "r0")), Ok(()));
}

#[test]
fn a_token_needs_an_owner_and_a_digest_of_its_own() {
    let mut store = seeded();
    assert_eq!(
        store.insertToken(token("t1", "d1", TokenKind::Access, "u9", 20)),
        Err(constraintFailure(Constraint::TokenOwner))
    );
    assert_eq!(store.insertToken(token("t1", "d1", TokenKind::Access, "u1", 20)), Ok(()));
    assert_eq!(
        store.insertToken(token("t2", "d1", TokenKind::Access, "u2", 30)),
        Err(constraintFailure(Constraint::TokenDigest))
    );
    assert_eq!(
        store.insertToken(token("t2", "d1", TokenKind::Access, "u9", 30)),
        Err(constraintFailure(Constraint::TokenOwner))
    );
    assert_eq!(store.insertToken(token("t2", "d1", TokenKind::Refresh, "u2", 30)), Ok(()));
    assert_eq!(store.insertToken(token("t1", "d2", TokenKind::Access, "u1", 20)), Ok(()));
    assert_eq!(store.selectToken(TokenKind::Access, "d1", 10).unwrap().FK_User, "u1");
    assert_eq!(store.selectToken(TokenKind::Refresh, "d1", 10).unwrap().FK_User, "u2");
}

#[test]
fn an_expired_digest_stays_taken() {
    let mut store = seeded();
    store.insertToken(token("t1", "d1", TokenKind::Access, "u1", 20)).unwrap();
    assert!(store.selectToken(TokenKind::Access, "d1", 25).is_err());
    assert_eq!(
        store.insertToken(token("t2", "d1", TokenKind::Access, "u1", 40)),
        Err(constraintFailure(Constraint::TokenDigest))
    );
}

#[test]
fn a_token_is_valid_until_its_end_and_not_at_it() {
    let mut store = seeded();
    let row = token("t1", "d1", TokenKind::Access, "u1", 20);
    store.insertToken(row.clone()).unwrap();
    assert!(row.validAt(0));
    assert!(row.validAt(19));
    assert!(!row.validAt(20));
    assert!(!row.validAt(21));
    assert_eq!(store.selectToken(TokenKind::Access, "d1", 0), Ok(row.clone()));
    assert_eq!(store.selectToken(TokenKind::Access, "d1", 19), Ok(row.clone()));
    assert_eq!(store.selectToken(TokenKind::Access, "d1", 20), Err(StoreFailure::noRows()));
    assert_eq!(store.selectToken(TokenKind::Access, "d1", 21), Err(StoreFailure::noRows()));
    assert_eq!(store.selectToken(TokenKind::Access, "d1", u64::MAX), Err(StoreFailure::noRows()));
    assert_eq!(store.selectToken(TokenKind::Refresh, "d1", 0), Err(StoreFailure::noRows()));
    assert_eq!(store.selectToken(TokenKind::Access, "D1", 0), Err(StoreFailure::noRows()));
    assert_eq!(store.selectPermissionLevel("d1", 19), Ok(PermissionLevelStruct { PermissionLevel: 2 }));
    assert_eq!(store.selectPermissionLevel("d1", 20), Err(StoreFailure::noRows()));
}

#[test]
fn a_token_that_never_ends_is_valid_at_every_instant_before_the_last() {
    let mut store = seeded();
    store.insertToken(token("t1", "d1", TokenKind::Access, "u1", u64::MAX)).unwrap();
    assert!(store.selectToken(TokenKind::Access, "d1", u64::MAX - 1).is_ok());
    assert!(store.selectToken(TokenKind::Access, "d1", u64::MAX).is_err());
    store.insertToken(token("t0", "d0", TokenKind::Access, "u1", 0)).unwrap();
    assert!(store.selectToken(TokenKind::Access, "d0", 0).is_err());
}

#[test]
fn the_tier_is_that_of_the_owners_role_now() {
    let mut store = seeded();
    store.insertToken(token("t1", "d1", TokenKind::Access, "u2", 20)).unwrap();
    store.insertToken(token("t2", "d2", TokenKind::Refresh, "u1", 20)).unwrap();
    assert_eq!(store.selectPermissionLevel("d1", 10), Ok(PermissionLevelStruct { PermissionLevel: 0 }));
    assert_eq!(store.selectPermissionLevel("d2", 10), Err(StoreFailure::noRows()));
    let promote = UserOptional { FK_UserRole: Some("r1".to_string()), ..no_change() };
    store.updateUser("u2", &promote).unwrap();
    assert_eq!(store.selectPermissionLevel("d1", 10), Ok(PermissionLevelStruct { PermissionLevel: 1 }));
}

#[test]
fn expiry_is_applied_to_a_row_that_was_found() {
    let row = token("t1", "d1", TokenKind::Access, "u1", 20);
    assert_eq!(liveToken(Ok(row.clone()), 19), Ok(row.clone()));
    assert_eq!(liveToken(Ok(row.clone()), 20), Err(StoreFailure::noRows()));
    let down = StoreFailure { description: "connection refused".to_string(), database: None };
    assert_eq!(liveToken(Err(down.clone()), 0), Err(down.clone()));
    let tier = PermissionLevelStruct { PermissionLevel: 2 };
    assert_eq!(liveTier(Ok((row.clone(), tier)), 19), Ok((row.clone(), tier)));
    assert_eq!(liveTier(Ok((row, tier)), 20), Err(StoreFailure::noRows()));
    assert_eq!(liveTier(Err(down.clone()), 0), Err(down));
}

#[test]
fn a_token_row_ends_after_its_seconds() {
    let create = tokenCreate("digest".to_string(), "u1".to_string(), 1000, 86_400);
    assert_eq!(
        create,
        TokenCreate {
            Token: "digest".to_string(),
            DateStart: 1000,
            DateEnd: 87_400,
            FK_User: "u1".to_string(),
        }
    );
    let row = tokenRow("key".to_string(), create, TokenKind::Refresh, "phone".to_string());
    assert_eq!(
        row,
        Token {
            Id: "key".to_string(),
            Token: "digest".to_string(),
            Type: 1,
            DeviceInfo: "phone".to_string(),
            DateStart: 1000,
            DateEnd: 87_400,
            DateCreated: 1000,
            FK_User: "u1".to_string(),
        }
    );
    let last = tokenCreate(String::new(), String::new(), u64::MAX - 4_294_967_295, u32::MAX);
    assert_eq!(last.DateEnd, u64::MAX);
    let none = tokenCreate(String::new(), String::new(), u64::MAX, 0);
    assert_eq!((none.DateStart, none.DateEnd), (u64::MAX, u64::MAX));
    let row = tokenRow(String::new(), last, TokenKind::Access, String::new());
    assert_eq!((row.Type, row.DateEnd), (0, u64::MAX));
}

#[test]
fn a_presented_secret_is_looked_up_by_its_digest() {
    let mut store = seeded();
    let digest = tokenOf("secret".to_string()).SHA256ofToken;
    store.insertToken(token("t1", &digest, TokenKind::Refresh, "u1", 20)).unwrap();
    store.insertToken(token("t2", "secret", TokenKind::Access, "u1", 20)).unwrap();
    let unauthorized = Err(PickUpError::new(PickUpErrorCode::Unauthorized));
    assert_eq!(lookup(&store, TokenKind::Refresh, "secret", 19).unwrap().Id, "t1");
    assert_eq!(lookup(&store, TokenKind::Refresh, "secret", 20), unauthorized);
    assert_eq!(lookup(&store, TokenKind::Access, "secret", 19), unauthorized);
    assert_eq!(lookup(&store, TokenKind::Refresh, &digest, 19), unauthorized);
    assert_eq!(lookup(&store, TokenKind::Refresh, "Secret", 19), unauthorized);
}

#[test]
fn a_minted_token_is_stored_under_its_digest() {
    let mut store = seeded();
    let refresh = insertRefresh(&mut store, "u1", 100, "phone", 1000).unwrap();
    let secret = insertAccess(&mut store, "u2", "tablet", 1000).unwrap();
    assert_eq!(refresh.len(), 64);
    assert_eq!(secret.len(), 64);
    let stored = lookup(&store, TokenKind::Refresh, &refresh, 1099).unwrap();
    assert_eq!((stored.FK_User.as_str(), stored.DeviceInfo.as_str(), stored.DateEnd), ("u1", "phone", 1100));
    assert_eq!(stored.Token, tokenOf(refresh.clone()).SHA256ofToken);
    assert!(lookup(&store, TokenKind::Refresh, &refresh, 1100).is_err());
    let issued = lookup(&store, TokenKind::Access, &secret, 4599).unwrap();
    assert_eq!((issued.FK_User.as_str(), issued.DeviceInfo.as_str(), issued.DateEnd), ("u2", "tablet", 4600));
    assert!(lookup(&store, TokenKind::Access, &secret, 4600).is_err());
}

#[test]
fn minting_for_an_unknown_owner_violates_the_foreign_key() {
    let mut store = seeded();
    assert_eq!(insertRefresh(&mut store, "u9", 100, "phone", 1000), Err(constraintFailure(Constraint::TokenOwner)));
    assert_eq!(insertAccess(&mut store, "u9", "phone", 1000), Err(constraintFailure(Constraint::TokenOwner)));
    let given = tokenOf("secret".to_string());
    assert_eq!(
        insertRefreshWith(&mut store, "u1", 1, "phone", 1000, given.clone(), "k1".to_string()),
        Ok("secret".to_string())
    );
    assert_eq!(
        insertRefreshWith(&mut store, "u1", 1, "phone", 1000, given.clone(), "k2".to_string()),
        Err(constraintFailure(Constraint::TokenDigest))
    );
    assert_eq!(
        insertAccessWith(&mut store, "u1", "phone", 1000, given, "k3".to_string()),
        Ok("secret".to_string())
    );
}

#[test]
fn zip_codes_are_kept_by_key() {
    let mut store = Store::new();
    let first = ZipCode { ZipCodeId: "z1".to_string(), Number: 1000, City: "Ljubljana".to_string() };
    let second = ZipCode { ZipCodeId: "z2".to_string(), Number: -2000, City: "Maribor".to_string() };
    assert_eq!(store.insertZipCode(first.clone()), Ok(()));
    assert_eq!(store.insertZipCode(second.clone()), Ok(()));
    assert_eq!(
        store.insertZipCode(ZipCode { ZipCodeId: "z1".to_string(), Number: 3, City: "x".to_string() }),
        Err(constraintFailure(Constraint::ZipCodeKey))
    );
    assert_eq!(store.selectZipCodes(), vec![first.clone(), second.clone()]);
    assert_eq!(store.selectZipCodeById("z2"), vec![second.clone()]);
    assert_eq!(store.selectZipCodeById("z3"), vec![]);

    store.updateZipCode("z1", &ZipCodeOptional { Number: Some(1001), City: None });
    store.updateZipCode("z2", &ZipCodeOptional { Number: None, City: Some("Celje".to_string()) });
    store.updateZipCode("z3", &ZipCodeOptional { Number: Some(1), City: Some("x".to_string()) });
    assert_eq!(
        store.selectZipCodes(),
        vec![
            ZipCode { ZipCodeId: "z1".to_string(), Number: 1001, City: "Ljubljana".to_string() },
            ZipCode { ZipCodeId: "z2".to_string(), Number: -2000, City: "Celje".to_string() },
        ]
    );
    store.deleteZipCode("z1");
    store.deleteZipCode("z3");
    assert_eq!(store.selectZipCodes().len(), 1);
    assert_eq!(store.selectZipCodes()[0].ZipCodeId, "z2");
}

#[test]
fn the_guard_begins_with_the_credential() {
    assert_eq!(credentialDigest(None), Err(unauthorizedReply()));
    assert_eq!(
        credentialDigest(Some("hello")),
        Ok("2cf24dba5fb0a30e26e83b2ac5b9e29e1b161e5c1fa7425e73043362938b9824".to_string())
    );
}

#[test]
fn the_guard_tells_unauthorized_from_internal() {
    let down = StoreFailure { description: "connection refused".to_string(), database: None };
    let row = token("t1", "d1", TokenKind::Access, "u1", 20);
    let tier = |level: i8| PermissionLevelStruct { PermissionLevel: level };

    let internal = permissionVerdict(PermissionLevel::User, Err(down.clone()));
    assert_eq!(
        internal,
        GuardDecision::Rejected(HttpReply {
            status: 500,
            body: ReplyBody::Error(PickUpError {
                Code: PickUpErrorCode::InternalServerError,
                Message: "connection refused".to_string(),
            }),
        })
    );
    assert_eq!(internal.rejectedAs(), Some(PickUpErrorCode::InternalServerError));

    let missing = permissionVerdict(PermissionLevel::User, Err(StoreFailure::noRows()));
    assert_eq!(missing, GuardDecision::Rejected(unauthorizedReply()));
    assert_eq!(missing.rejectedAs(), Some(PickUpErrorCode::Unauthorized));

    let low = permissionVerdict(PermissionLevel::Admin, Ok((row.clone(), tier(1))));
    assert_eq!(low, missing);

    let enough = permissionVerdict(PermissionLevel::Supervisor, Ok((row.clone(), tier(1))));
    assert_eq!(
        enough,
        GuardDecision::Authorized(Admission { owner: "u1".to_string(), tier: Some(PermissionLevel::Supervisor) })
    );
    assert_eq!(enough.rejectedAs(), None);
    let odd = permissionVerdict(PermissionLevel::User, Ok((row.clone(), tier(9))));
    assert_eq!(
        odd,
        GuardDecision::Authorized(Admission { owner: "u1".to_string(), tier: Some(PermissionLevel::User) })
    );
    assert_eq!(permissionVerdict(PermissionLevel::Supervisor, Ok((row.clone(), tier(9)))), missing);
    assert_eq!(permissionVerdict(PermissionLevel::Admin, liveTier(Ok((row.clone(), tier(2))), 20)), missing);

    assert_eq!(
        authenticationVerdict(Ok(row.clone())),
        GuardDecision::Authorized(Admission { owner: "u1".to_string(), tier: None })
    );
    assert_eq!(authenticationVerdict(liveToken(Ok(row.clone()), 20)), missing);
    assert_eq!(authenticationVerdict(Err(StoreFailure::noRows())), missing);
    assert_eq!(authenticationVerdict(Err(down.clone())).rejectedAs(), Some(PickUpErrorCode::InternalServerError));
}

#[test]
fn a_search_is_classified_for_the_caller() {
    let down = StoreFailure { description: "connection refused".to_string(), database: None };
    let internal = PickUpError {
        Code: PickUpErrorCode::InternalServerError,
        Message: "connection refused".to_string(),
    };
    let row = token("t1", "d1", TokenKind::Access, "u1", 20);
    assert_eq!(authenticationOf(Ok(row)), Ok(true));
    assert_eq!(authenticationOf(Err(StoreFailure::noRows())), Err(PickUpError::new(PickUpErrorCode::Unauthorized)));
    assert_eq!(authenticationOf(Err(down.clone())), Err(internal.clone()));
    assert_eq!(authenticationReply(Ok(true)), None);
    assert_eq!(
        authenticationReply(Err(internal.clone())),
        Some(HttpReply { status: 500, body: ReplyBody::Error(internal.clone()) })
    );
    assert_eq!(
        authenticationReply(Err(PickUpError::new(PickUpErrorCode::Unauthorized))),
        Some(unauthorizedReply())
    );
    assert_eq!(permissionOf(Ok(PermissionLevelStruct { PermissionLevel: 2 })), Ok(PermissionLevel::Admin));
    assert_eq!(permissionOf(Ok(PermissionLevelStruct { PermissionLevel: 5 })), Ok(PermissionLevel::User));
    assert_eq!(permissionOf(Err(down)), Err(internal.clone()));
    assert_eq!(permissionReply(Ok(PermissionLevel::Supervisor)), Ok(PermissionLevel::Supervisor));
    assert_eq!(
        permissionReply(Err(internal.clone())),
        Err(HttpReply { status: 500, body: ReplyBody::Error(internal) })
    );
}

#[test]
fn a_token_is_joined_with_the_tier_of_its_owner() {
    let mut store = seeded();
    let row = token("t1", "d1", TokenKind::Access, "u1", 20);
    store.insertToken(row.clone()).unwrap();
    store.insertToken(token("t2", "d2", TokenKind::Refresh, "u1", 20)).unwrap();
    assert_eq!(store.selectTokenWithTier("d1", 19), Ok((row, PermissionLevelStruct { PermissionLevel: 2 })));
    assert_eq!(store.selectTokenWithTier("d1", 20), Err(StoreFailure::noRows()));
    assert_eq!(store.selectTokenWithTier("d2", 19), Err(StoreFailure::noRows()));
    assert_eq!(store.selectTokenWithTier("d3", 19), Err(StoreFailure::noRows()));
}

#[test]
fn tiers_are_ordered() {
    let tiers = [PermissionLevel::User, PermissionLevel::Supervisor, PermissionLevel::Admin];
    for (i, held) in tiers.iter().enumerate() {
        assert_eq!(held.value() as usize, i);
        assert_eq!(PermissionLevel::fromTier(i as i8), *held);
        for (j, required) in tiers.iter().enumerate() {
            assert_eq!(held.atLeast(*required), i >= j);
        }
    }
    for unknown in [-128i8, -1, 3, 4, 127] {
        assert_eq!(PermissionLevel::fromTier(unknown), PermissionLevel::User);
    }
    assert!(PermissionLevel::User < PermissionLevel::Supervisor);
    assert!(PermissionLevel::Supervisor < PermissionLevel::Admin);
    assert_eq!(tiers.iter().max(), Some(&PermissionLevel::Admin));
}
