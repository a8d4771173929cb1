use pickup_auth::auth::lookupError;
use pickup_auth::error::{foreignKeyMessage, PickUpError, PickUpErrorCode};
use pickup_auth::failure::{DatabaseFailure, StoreFailure, ViolationKind};
use pickup_auth::http::{
    emptyReply, errorReply, getHRFromErrorDatabase, getHRFromErrorIncorectCredentials,
    getHRFromErrorInternal, statusOf, tokenReply, HttpReply, ReplyBody,
};
use pickup_auth::models::TokenOnly;

const ALL_CODES: [PickUpErrorCode; 10] = [
    PickUpErrorCode::Other,
    PickUpErrorCode::Check,
    PickUpErrorCode::ForeignKey,
    PickUpErrorCode::Unique,
    PickUpErrorCode::Hashing,
    PickUpErrorCode::IncorectCredentials,
    PickUpErrorCode::Unauthorized,
    PickUpErrorCode::InternalServerError,
    PickUpErrorCode::BadRequest,
    PickUpErrorCode::Timeout,
];

fn database(kind: ViolationKind, message: &str) -> DatabaseFailure {
    DatabaseFailure { kind, message: message.to_string() }
}

fn unreachable_store() -> StoreFailure {
    StoreFailure { description: "pool timed out while waiting for an open connection".to_string(), database: None }
}

#[test]
fn codes_are_numbered_in_order() {
    for (position, code) in ALL_CODES.iter().enumerate() {
        assert_eq!(code.code() as usize, position);
    }
}

#[test]
fn every_code_has_its_default_text() {
    assert_eq!(PickUpErrorCode::Other.to_string(), "Other type of error");
    assert_eq!(PickUpErrorCode::Check.to_string(), "Check constraint has failed");
    assert_eq!(PickUpErrorCode::ForeignKey.to_string(), "Foreign key constraint has failed");
    assert_eq!(PickUpErrorCode::Unique.to_string(), "Unique constraint has failed");
    assert_eq!(PickUpErrorCode::Hashing.to_string(), "Hashing has failed");
    assert_eq!(PickUpErrorCode::IncorectCredentials.to_string(), "Password or username is incorrect");
    assert_eq!(PickUpErrorCode::Unauthorized.to_string(), "Token is insufficient");
    assert_eq!(PickUpErrorCode::InternalServerError.to_string(), "Internal server error");
    assert_eq!(PickUpErrorCode::BadRequest.to_string(), "Bad request error");
    assert_eq!(PickUpErrorCode::Timeout.to_string(), "Timeout error");
}

#[test]
fn every_code_has_its_name() {
    let names = [
        "Other",
        "Check",
        "ForeignKey",
        "Unique",
        "Hashing",
        "IncorectCredentials",
        "Unauthorized",
        "InternalServerError",
        "BadRequest",
        "Timeout",
    ];
    for (code, name) in ALL_CODES.iter().zip(names.iter()) {
        assert_eq!(code.name(), *name);
    }
}

#[test]
fn a_bare_error_keeps_only_credential_and_token_kinds() {
    assert_eq!(
        PickUpError::new(PickUpErrorCode::IncorectCredentials),
        PickUpError {
            Code: PickUpErrorCode::IncorectCredentials,
            Message: "Password or username is incorrect".to_string(),
        }
    );
    assert_eq!(
        PickUpError::new(PickUpErrorCode::Unauthorized),
        PickUpError { Code: PickUpErrorCode::Unauthorized, Message: "Token is insufficient".to_string() }
    );
    for code in ALL_CODES {
        if code != PickUpErrorCode::IncorectCredentials && code != PickUpErrorCode::Unauthorized {
            assert_eq!(
                PickUpError::new(code),
                PickUpError { Code: PickUpErrorCode::Other, Message: "Other type of error".to_string() }
            );
        }
    }
}

#[test]
fn an_error_with_a_message_keeps_kind_and_message() {
    for code in ALL_CODES {
        let error = PickUpError::newMessage(code, "No fields provided");
        assert_eq!(error.Code, code);
        assert_eq!(error.Message, "No fields provided");
    }
    assert_eq!(PickUpError::newMessage(PickUpErrorCode::Timeout, "").Message, "");
}

#[test]
fn an_error_is_written_on_one_line() {
    let error = PickUpError::newMessage(PickUpErrorCode::BadRequest, "No fields provided");
    assert_eq!(error.to_string(), "Code: BadRequest Message: No fields provided");
    assert_eq!(
        PickUpError::new(PickUpErrorCode::Unauthorized).to_string(),
        "Code: Unauthorized Message: Token is insufficient"
    );
}

#[test]
fn foreign_key_message_names_the_column_without_back_quotes() {
    assert_eq!(foreignKeyMessage(Some("`FK_User`")), "Foreign key constraint fails at FK_User column");
    assert_eq!(foreignKeyMessage(Some("a`b``c")), "Foreign key constraint fails at abc column");
    assert_eq!(foreignKeyMessage(Some("")), "Foreign key constraint fails at  column");
    assert_eq!(foreignKeyMessage(None), "Foreign key constraint fails at unknown column");
}

#[test]
fn a_foreign_key_violation_is_searched_for_its_column() {
    let report = database(
        ViolationKind::ForeignKey,
        "Cannot add or update a child row: a foreign key constraint fails (`pickup`.`User`, CONSTRAINT `User_ibfk_1` FOREIGN KEY (`FK_UserRole`) REFERENCES `UserRole` (`Id`))",
    );
    let error = PickUpError::fromDatabaseError(&report);
    assert_eq!(error.Code, PickUpErrorCode::ForeignKey);
    assert_eq!(error.Message, "Foreign key constraint fails at FK_UserRole column");
}

#[test]
fn a_foreign_key_violation_takes_the_longest_column_text() {
    let report = database(
        ViolationKind::ForeignKey,
        "FOREIGN KEY (`a`) REFERENCES x FOREIGN KEY (`b`) REFERENCES y",
    );
    let error = PickUpError::fromDatabaseError(&report);
    assert_eq!(error.Message, "Foreign key constraint fails at a) REFERENCES x FOREIGN KEY (b column");
}

#[test]
fn a_foreign_key_violation_without_a_column_is_unknown() {
    let error = PickUpError::fromDatabaseError(&database(ViolationKind::ForeignKey, "constraint failed"));
    assert_eq!(
        error,
        PickUpError {
            Code: PickUpErrorCode::ForeignKey,
            Message: "Foreign key constraint fails at unknown column".to_string(),
        }
    );
}

#[test]
fn other_violations_keep_the_message_of_the_database() {
    let cases = [
        (ViolationKind::Check, PickUpErrorCode::Check),
        (ViolationKind::Unique, PickUpErrorCode::Unique),
        (ViolationKind::Other, PickUpErrorCode::Other),
    ];
    for (kind, code) in cases {
        let error = PickUpError::fromDatabaseError(&database(kind, "FOREIGN KEY (`x`) REFERENCES y"));
        assert_eq!(error, PickUpError { Code: code, Message: "FOREIGN KEY (`x`) REFERENCES y".to_string() });
    }
}

#[test]
fn a_failure_without_a_report_is_internal() {
    let error = PickUpError::fromStoreFailure(&unreachable_store());
    assert_eq!(error.Code, PickUpErrorCode::InternalServerError);
    assert_eq!(error.Message, "pool timed out while waiting for an open connection");
}

#[test]
fn the_status_follows_the_kind() {
    let statuses = [400, 400, 400, 400, 500, 400, 401, 500, 400, 500];
    for (code, status) in ALL_CODES.iter().zip(statuses.iter()) {
        assert_eq!(statusOf(*code), *status);
        assert_eq!(errorReply(PickUpError::newMessage(*code, "m")).status, *status);
    }
}

#[test]
fn replies_carry_what_they_are_given() {
    assert_eq!(emptyReply(200), HttpReply { status: 200, body: ReplyBody::Empty });
    assert_eq!(
        tokenReply("secret".to_string()),
        HttpReply { status: 201, body: ReplyBody::Token(TokenOnly { Token: "secret".to_string() }) }
    );
    let error = PickUpError::newMessage(PickUpErrorCode::Unique, "twice");
    assert_eq!(errorReply(error.clone()), HttpReply { status: 400, body: ReplyBody::Error(error) });
}

#[test]
fn a_failed_write_is_the_clients_or_internal() {
    let reported = StoreFailure::violated(ViolationKind::Unique, "Duplicate entry for key 'User.Username'");
    assert_eq!(reported.description, "error returned from database: Duplicate entry for key 'User.Username'");
    assert_eq!(
        getHRFromErrorDatabase(reported),
        HttpReply {
            status: 400,
            body: ReplyBody::Error(PickUpError {
                Code: PickUpErrorCode::Unique,
                Message: "Duplicate entry for key 'User.Username'".to_string(),
            }),
        }
    );
    assert_eq!(
        getHRFromErrorDatabase(unreachable_store()),
        HttpReply {
            status: 500,
            body: ReplyBody::Error(PickUpError {
                Code: PickUpErrorCode::InternalServerError,
                Message: "pool timed out while waiting for an open connection".to_string(),
            }),
        }
    );
}

#[test]
fn an_internal_failure_is_always_internal() {
    let reported = StoreFailure::violated(ViolationKind::Check, "check failed");
    let reply = getHRFromErrorInternal(reported);
    assert_eq!(reply.status, 500);
    assert_eq!(
        reply.body,
        ReplyBody::Error(PickUpError {
            Code: PickUpErrorCode::InternalServerError,
            Message: "error returned from database: check failed".to_string(),
        })
    );
}

#[test]
fn a_failed_search_for_credentials_is_incorrect_credentials() {
    assert_eq!(
        getHRFromErrorIncorectCredentials(StoreFailure::noRows()),
        HttpReply {
            status: 400,
            body: ReplyBody::Error(PickUpError {
                Code: PickUpErrorCode::IncorectCredentials,
                Message: "Password or username is incorrect".to_string(),
            }),
        }
    );
    assert_eq!(
        getHRFromErrorIncorectCredentials(unreachable_store()),
        HttpReply {
            status: 500,
            body: ReplyBody::Error(PickUpError {
                Code: PickUpErrorCode::InternalServerError,
                Message: "pool timed out while waiting for an open connection".to_string(),
            }),
        }
    );
    let reported = StoreFailure::violated(ViolationKind::Other, "syntax");
    assert_eq!(
        getHRFromErrorIncorectCredentials(reported),
        HttpReply {
            status: 400,
            body: ReplyBody::Error(PickUpError { Code: PickUpErrorCode::Other, Message: "syntax".to_string() }),
        }
    );
}

#[test]
fn no_rows_is_unauthorized_and_anything_else_internal() {
    let missing = StoreFailure::noRows();
    assert!(missing.isNoRows());
    assert_eq!(missing.description, "no rows returned by a query that expected to return at least one row");
    assert_eq!(lookupError(&missing), PickUpError::new(PickUpErrorCode::Unauthorized));
    let down = unreachable_store();
    assert!(!down.isNoRows());
    assert_eq!(
        lookupError(&down),
        PickUpError {
            Code: PickUpErrorCode::InternalServerError,
            Message: "pool timed out while waiting for an open connection".to_string(),
        }
    );
}
