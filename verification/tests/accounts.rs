use storefront::auth::handlers::{
    create_user, log_in, log_in_denied, log_in_granted, sign_up, sign_up_salted,
};
use storefront::auth::hash::{hash_pwd_salted, HashError};
use storefront::auth::jwt::{validate_jwt, TokenError};
use storefront::auth::models::{LogInResponse, SignUp, User};
use storefront::db::{DbReply, DbRequest};
use storefront::flow::{Action, Event, Stage, Step};
use storefront::routes::models::{ApiResponse, Body, HttpReply, Payload};

const SALT: &str = "c2FsdHNhbHRzYWx0c2FsdA";
const SECRET: &str = "an example signing secret";

fn alice() -> SignUp {
    SignUp { username: "alice".to_string(), password: "pw123".to_string() }
}

fn stored_alice() -> User {
    User {
        id: 0x550e8400_e29b_41d4_a716_446655440000,
        username: "alice".to_string(),
        password: hash_pwd_salted(SALT, "pw123").expect("a valid salt hashes"),
    }
}

fn now() -> usize {
    let elapsed = std::time::SystemTime::now()
        .duration_since(std::time::UNIX_EPOCH)
        .expect("the clock is past the epoch");
    elapsed.as_secs() as usize
}

fn text(status: u16, body: &str) -> Option<Step> {
    Some(Step {
        stage: Stage::Done,
        action: Action::Respond(HttpReply { status, body: Body::Text(body.to_string()) }),
    })
}

#[test]
fn sign_up_starts_by_looking_the_name_up() {
    assert_eq!(
        sign_up(&alice(), Stage::Start, Event::Begin),
        Some(Step {
            stage: Stage::FindingUser,
            action: Action::Query(DbRequest::FindUser { username: "alice".to_string() }),
        })
    );
}

#[test]
fn sign_up_under_a_taken_name_is_a_conflict() {
    let found = Event::Db(DbReply::User(Some(stored_alice())));
    assert_eq!(
        sign_up(&alice(), Stage::FindingUser, found),
        text(409, "User already exist with the name.")
    );
}

#[test]
fn sign_up_under_a_free_name_inserts_the_hash() {
    let step = sign_up_salted(&alice(), SALT, Stage::FindingUser, Event::Db(DbReply::User(None)));
    assert_eq!(
        step,
        Some(Step {
            stage: Stage::InsertingUser,
            action: Action::Query(DbRequest::InsertUser {
                username: "alice".to_string(),
                password: hash_pwd_salted(SALT, "pw123").expect("a valid salt hashes"),
            }),
        })
    );
}

#[test]
fn sign_up_draws_a_salt_of_its_own() {
    let first = sign_up(&alice(), Stage::FindingUser, Event::Db(DbReply::User(None)));
    let second = sign_up(&alice(), Stage::FindingUser, Event::Db(DbReply::User(None)));
    let hash_of = |step: Option<Step>| match step {
        Some(Step {
            stage: Stage::InsertingUser,
            action: Action::Query(DbRequest::InsertUser { username, password }),
        }) => {
            assert_eq!(username, "alice");
            password
        }
        other => panic!("not an insert: {:?}", other),
    };
    let first = hash_of(first);
    let second = hash_of(second);
    assert!(first.starts_with("$argon2id$"));
    assert_ne!(first, "pw123");
    assert_ne!(first, second);
}

#[test]
fn sign_up_goes_on_when_the_lookup_failed() {
    let failed = Event::Db(DbReply::Failed("connection reset".to_string()));
    let step = sign_up_salted(&alice(), SALT, Stage::FindingUser, failed);
    assert_eq!(
        step,
        Some(Step {
            stage: Stage::InsertingUser,
            action: Action::Query(DbRequest::InsertUser {
                username: "alice".to_string(),
                password: hash_pwd_salted(SALT, "pw123").expect("a valid salt hashes"),
            }),
        })
    );
}

#[test]
fn sign_up_without_a_hash_is_an_internal_error() {
    let step = sign_up_salted(&alice(), "!", Stage::FindingUser, Event::Db(DbReply::User(None)));
    assert_eq!(step, text(500, "Failed to create user"));
    assert_eq!(create_user("alice", Err(HashError::Hashing)), text(500, "Failed to create user"));
}

#[test]
fn sign_up_ends_with_the_insert() {
    assert_eq!(
        sign_up(&alice(), Stage::InsertingUser, Event::Db(DbReply::Done)),
        text(200, "User Created Successfully")
    );
    assert_eq!(
        sign_up(&alice(), Stage::InsertingUser, Event::Db(DbReply::Failed("full".to_string()))),
        text(500, "Failed to create user")
    );
}

#[test]
fn sign_up_takes_no_step_on_what_it_did_not_ask_for() {
    assert_eq!(sign_up(&alice(), Stage::Start, Event::Db(DbReply::Done)), None);
    assert_eq!(sign_up(&alice(), Stage::FindingUser, Event::Begin), None);
    assert_eq!(sign_up(&alice(), Stage::FindingUser, Event::Db(DbReply::Done)), None);
    assert_eq!(sign_up(&alice(), Stage::InsertingUser, Event::Db(DbReply::User(None))), None);
    assert_eq!(sign_up(&alice(), Stage::Done, Event::Begin), None);
    assert_eq!(sign_up(&alice(), Stage::FindingCart { user_id: 1 }, Event::Begin), None);
}

#[test]
fn log_in_starts_by_looking_the_name_up() {
    assert_eq!(
        log_in(&alice(), Some(SECRET), now(), Stage::Start, Event::Begin),
        Some(Step {
            stage: Stage::FindingUser,
            action: Action::Query(DbRequest::FindUser { username: "alice".to_string() }),
        })
    );
}

#[test]
fn log_in_of_a_stranger_is_not_found() {
    assert_eq!(
        log_in(&alice(), Some(SECRET), now(), Stage::FindingUser, Event::Db(DbReply::User(None))),
        text(404, "User does not exist.")
    );
}

#[test]
fn log_in_quotes_a_failed_lookup() {
    let failed = Event::Db(DbReply::Failed("connection reset".to_string()));
    assert_eq!(
        log_in(&alice(), Some(SECRET), now(), Stage::FindingUser, failed),
        text(500, "DB error: connection reset")
    );
}

#[test]
fn log_in_with_a_wrong_password_is_unauthorized() {
    let payload = SignUp { username: "alice".to_string(), password: "pw124".to_string() };
    let found = Event::Db(DbReply::User(Some(stored_alice())));
    let expected = HttpReply {
        status: 401,
        body: Body::Json(ApiResponse {
            status: "Failure".to_string(),
            msg: "Incorrect password".to_string(),
            data: Payload::Text("Invalid".to_string()),
        }),
    };
    assert_eq!(
        log_in(&payload, Some(SECRET), now(), Stage::FindingUser, found),
        Some(Step { stage: Stage::Done, action: Action::Respond(expected.clone()) })
    );
    assert_eq!(log_in_denied(), expected);
}

#[test]
fn log_in_against_an_unreadable_hash_is_unauthorized() {
    let user = User { id: 7, username: "alice".to_string(), password: "pw123".to_string() };
    let step = log_in(
        &alice(),
        Some(SECRET),
        now(),
        Stage::FindingUser,
        Event::Db(DbReply::User(Some(user))),
    );
    assert_eq!(step, Some(Step { stage: Stage::Done, action: Action::Respond(log_in_denied()) }));
}

#[test]
fn log_in_issues_a_bearer_token_for_the_user() {
    let issued_at = now();
    let found = Event::Db(DbReply::User(Some(stored_alice())));
    let step = log_in(&alice(), Some(SECRET), issued_at, Stage::FindingUser, found);
    let token = match step {
        Some(Step {
            stage: Stage::Done,
            action:
                Action::Respond(HttpReply {
                    status: 200,
                    body:
                        Body::Json(ApiResponse {
                            status,
                            msg,
                            data: Payload::LogIn(LogInResponse { token_type, access_token }),
                        }),
                }),
        }) => {
            assert_eq!(status, "Success");
            assert_eq!(msg, "User logged in successfully");
            assert_eq!(token_type, "Bearer");
            access_token
        }
        other => panic!("not a granted log-in: {:?}", other),
    };
    let claims = validate_jwt(&token, SECRET, issued_at).expect("a fresh token is accepted");
    assert_eq!(claims.sub, "550e8400-e29b-41d4-a716-446655440000");
    assert_eq!(claims.exp, issued_at + 86400);
}

#[test]
fn log_in_without_a_secret_cannot_issue() {
    let found = Event::Db(DbReply::User(Some(stored_alice())));
    assert_eq!(
        log_in(&alice(), None, now(), Stage::FindingUser, found),
        text(500, "Token generation failed.")
    );
}

#[test]
fn a_granted_log_in_carries_the_token() {
    assert_eq!(
        log_in_granted(Ok("abc.def.ghi".to_string())),
        HttpReply {
            status: 200,
            body: Body::Json(ApiResponse {
                status: "Success".to_string(),
                msg: "User logged in successfully".to_string(),
                data: Payload::LogIn(LogInResponse {
                    token_type: "Bearer".to_string(),
                    access_token: "abc.def.ghi".to_string(),
                }),
            }),
        }
    );
    for error in [TokenError::Config, TokenError::Encode, TokenError::Invalid] {
        assert_eq!(
            log_in_granted(Err(error)),
            HttpReply { status: 500, body: Body::Text("Token generation failed.".to_string()) }
        );
    }
}

#[test]
fn log_in_takes_no_step_on_what_it_did_not_ask_for() {
    assert_eq!(log_in(&alice(), Some(SECRET), now(), Stage::Start, Event::Db(DbReply::Done)), None);
    assert_eq!(log_in(&alice(), Some(SECRET), now(), Stage::FindingUser, Event::Begin), None);
    assert_eq!(
        log_in(&alice(), Some(SECRET), now(), Stage::FindingUser, Event::Db(DbReply::Done)),
        None
    );
    assert_eq!(log_in(&alice(), Some(SECRET), now(), Stage::InsertingUser, Event::Begin), None);
}
