use checkup::auth::init;
use checkup::features::users::user_handlers::{create_user, user_created, CreateUserStep};
use checkup::features::users::{CreateUserRequest, CreateUserResponse};
use checkup::helpers::{is_unique_err, DbError};

const NOW: i128 = 1_704_067_200 * 1_000_000_000;

#[test]
fn test_create_user() {
    let key = init("test-secret".to_string());
    let step = create_user(CreateUserRequest {
        username: "john doe".to_string(),
        password: "password".to_string(),
    });
    let CreateUserStep::Insert { username, passhash } = step else {
        panic!("hashing failed");
    };
    assert_eq!(username, "john doe");
    assert!(bcrypt::verify("password", &passhash).unwrap());
    let resp = user_created(&key, NOW, Ok(1));
    assert_eq!(resp.status(), 201);
    let CreateUserResponse::Created(tokens) = resp else {
        panic!("expected tokens");
    };
    assert_ne!(tokens.refresh_token, tokens.access_token);
}

#[test]
fn taken_username_is_a_conflict() {
    let key = init("k".to_string());
    let err = DbError { code: Some("2067".to_string()), message: "UNIQUE constraint failed".to_string() };
    assert!(is_unique_err(&err));
    let resp = user_created(&key, NOW, Err(err));
    assert_eq!(resp, CreateUserResponse::Conflict("User already exists".to_string()));
    assert_eq!(resp.status(), 409);
}

#[test]
fn other_database_errors_are_internal() {
    let key = init("k".to_string());
    for code in [None, Some("1555".to_string()), Some("20670".to_string())] {
        let err = DbError { code, message: "disk I/O error".to_string() };
        assert!(!is_unique_err(&err));
        let resp = user_created(&key, NOW, Err(err));
        assert_eq!(resp, CreateUserResponse::InternalError("disk I/O error".to_string()));
        assert_eq!(resp.status(), 500);
    }
}

#[test]
fn bad_request_status() {
    assert_eq!(CreateUserResponse::BadRequest("x".to_string()).status(), 400);
}

#[test]
fn hashing_outcomes() {
    let req = || CreateUserRequest { username: "ann".to_string(), password: "pw".to_string() };
    assert_eq!(
        checkup::features::users::user_handlers::after_hashing(req(), Ok("$2b$12$abc".to_string())),
        CreateUserStep::Insert { username: "ann".to_string(), passhash: "$2b$12$abc".to_string() }
    );
    assert_eq!(
        checkup::features::users::user_handlers::after_hashing(req(), Err("no randomness".to_string())),
        CreateUserStep::Respond(CreateUserResponse::BadRequest("no randomness".to_string()))
    );
}

#[test]
fn stored_hash_verifies_against_the_password_not_the_username() {
    let step = create_user(CreateUserRequest {
        username: "mary".to_string(),
        password: "hunter2".to_string(),
    });
    let CreateUserStep::Insert { passhash, .. } = step else {
        panic!("hashing failed");
    };
    assert!(bcrypt::verify("hunter2", &passhash).unwrap());
    assert!(!bcrypt::verify("mary", &passhash).unwrap());
}

#[test]
fn stored_hash_has_the_2b_cost12_form() {
    let CreateUserStep::Insert { passhash, .. } = create_user(CreateUserRequest {
        username: "u".to_string(),
        password: "p".to_string(),
    }) else {
        panic!("hashing failed");
    };
    assert!(passhash.starts_with("$2b$12$"));
    assert_eq!(passhash.len(), 60);
}

#[test]
fn insert_errors_need_no_token_time() {
    let key = init("k".to_string());
    // No token is made on an insert error, so any time will do.
    let err = DbError { code: None, message: "boom".to_string() };
    assert_eq!(user_created(&key, i128::MAX, Err(err)), CreateUserResponse::InternalError("boom".to_string()));
}
