use pickup_auth::error::{PickUpError, PickUpErrorCode};
use pickup_auth::failure::{StoreFailure, ViolationKind};
use pickup_auth::http::{HttpReply, ReplyBody};
use pickup_auth::models::{HashingParameters, Token, TokenOnly, UserCredentials};
use pickup_auth::password::getHashedPassword;
use pickup_auth::session::{issued, loginCheck, refreshDigest, refreshFound};

fn error(status: u16, code: PickUpErrorCode, message: &str) -> HttpReply {
    HttpReply { status, body: ReplyBody::Error(PickUpError { Code: code, Message: message.to_string() }) }
}

fn down() -> StoreFailure {
    StoreFailure { description: "connection refused".to_string(), database: None }
}

fn stored(password: &str) -> UserCredentials {
    let parameters = HashingParameters { mem_cost: 16, time_cost: 1, lanes: 1 };
    UserCredentials {
        Id: "u1".to_string(),
        Username: "ann".to_string(),
        Password: getHashedPassword(password, "pepper", "somesalt", &parameters).unwrap(),
    }
}

fn refresh_row() -> Token {
    Token {
        Id: "t1".to_string(),
        Token: "digest".to_string(),
        Type: 1,
        DeviceInfo: "phone".to_string(),
        DateStart: 1,
        DateEnd: 2,
        DateCreated: 1,
        FK_User: "u1".to_string(),
    }
}

#[test]
fn a_login_is_checked_against_the_stored_credential() {
    let credentials = stored("secret");
    assert_eq!(loginCheck(Ok(credentials.clone()), "secret", "pepper"), Ok(credentials.clone()));
    let incorrect = error(400, PickUpErrorCode::IncorectCredentials, "Password or username is incorrect");
    assert_eq!(loginCheck(Ok(credentials.clone()), "Secret", "pepper"), Err(incorrect.clone()));
    assert_eq!(loginCheck(Ok(credentials.clone()), "secret", "salt"), Err(incorrect.clone()));
    assert_eq!(loginCheck(Ok(credentials), "", "pepper"), Err(incorrect.clone()));
    assert_eq!(loginCheck(Err(StoreFailure::noRows()), "secret", "pepper"), Err(incorrect));
}

#[test]
fn a_login_that_cannot_be_checked_is_an_internal_error() {
    assert_eq!(
        loginCheck(Err(down()), "secret", "pepper"),
        Err(error(500, PickUpErrorCode::InternalServerError, "connection refused"))
    );
    let broken = UserCredentials {
        Id: "u1".to_string(),
        Username: "ann".to_string(),
        Password: "secret".to_string(),
    };
    assert_eq!(
        loginCheck(Ok(broken), "secret", "pepper"),
        Err(error(500, PickUpErrorCode::Hashing, "Error while hashing password Decoding failed"))
    );
    let reported = StoreFailure::violated(ViolationKind::Other, "Unknown column");
    assert_eq!(
        loginCheck(Err(reported), "secret", "pepper"),
        Err(error(400, PickUpErrorCode::Other, "Unknown column"))
    );
}

#[test]
fn an_exchange_begins_with_the_digest_of_the_credential() {
    assert_eq!(refreshDigest(None), Err(error(400, PickUpErrorCode::BadRequest, "Bad request error")));
    assert_eq!(
        refreshDigest(Some("hello")),
        Ok("2cf24dba5fb0a30e26e83b2ac5b9e29e1b161e5c1fa7425e73043362938b9824".to_string())
    );
    assert_eq!(
        refreshDigest(Some("")),
        Ok("e3b0c44298fc1c149afbf4c8996fb92427ae41e4649b934ca495991b7852b855".to_string())
    );
}

#[test]
fn an_exchange_needs_a_refresh_token_that_was_found() {
    assert_eq!(refreshFound(Ok(refresh_row())), Ok(refresh_row()));
    assert_eq!(
        refreshFound(Err(StoreFailure::noRows())),
        Err(error(401, PickUpErrorCode::Unauthorized, "Token is insufficient"))
    );
    assert_eq!(
        refreshFound(Err(down())),
        Err(error(500, PickUpErrorCode::InternalServerError, "connection refused"))
    );
}

#[test]
fn a_written_token_is_handed_out() {
    assert_eq!(
        issued(Ok("secret".to_string())),
        HttpReply { status: 201, body: ReplyBody::Token(TokenOnly { Token: "secret".to_string() }) }
    );
    assert_eq!(issued(Err(down())), error(500, PickUpErrorCode::InternalServerError, "connection refused"));
    let twice = StoreFailure::violated(ViolationKind::Unique, "Duplicate entry for key 'Token.Token'");
    assert_eq!(issued(Err(twice)), error(400, PickUpErrorCode::Unique, "Duplicate entry for key 'Token.Token'"));
    let orphan = StoreFailure::violated(
        ViolationKind::ForeignKey,
        "a foreign key constraint fails (`Token`, CONSTRAINT `c` FOREIGN KEY (`FK_User`) REFERENCES `User` (`Id`))",
    );
    assert_eq!(
        issued(Err(orphan)),
        error(400, PickUpErrorCode::ForeignKey, "Foreign key constraint fails at FK_User column")
    );
}
