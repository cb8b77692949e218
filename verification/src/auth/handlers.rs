//! The account flows: sign up under a new name, log in for a bearer token.

use crate::auth::hash::{
    fresh_salt, hash_pwd_salted, password_hash_of, password_matches, verify_pwd_salted,
    HashError,
};
use crate::auth::jwt::{
    carries, generate_jwt, issued_token, token_view, TokenError, TOKEN_LIFETIME,
};
use crate::auth::models::{LogInResponse, LogInResponseView, SignUp, SignUpView};
use crate::db::{DbReply, DbReplyView, DbRequest, DbRequestView};
use crate::flow::{
    ask, asking, reply_with, replying, step_view, ActionView, Event, EventView, Stage,
    StageView, Step, StepView,
};
use crate::ident::{format_uuid, hyphenated, reads_as};
use crate::routes::models::{
    json_reply, text_reply, ApiResponseView, BodyView, HttpReply, HttpReplyView, Payload,
    PayloadView, CONFLICT, INTERNAL_SERVER_ERROR, NOT_FOUND, OK, UNAUTHORIZED,
};
use vstd::prelude::*;

verus! {

/// The step that records a new user, given what hashing the password came
/// to: the user is inserted with the hash in place of the password, or,
/// where there is no hash, the flow ends with a 500.
pub open spec fn creation_step(username: Seq<char>, hashed: Option<Seq<char>>) -> Option<
    StepView,
> {
    match hashed {
        Some(password) => asking(
            StageView::InsertingUser,
            DbRequestView::InsertUser { username, password },
        ),
        None => replying(text_reply(INTERNAL_SERVER_ERROR, "Failed to create user"@)),
    }
}

/// One step of sign-up, with the salt that the password is hashed under.
///
/// The name is looked up. Where a user of that name is found, the reply is
/// a 409 and nothing is written. Where none is found, and also where the
/// lookup itself failed, the password is hashed and the user is inserted;
/// the reply is then a 200, or a 500 where the insert failed.
pub open spec fn sign_up_step(
    payload: SignUpView,
    salt: Seq<char>,
    stage: StageView,
    event: EventView,
) -> Option<StepView> {
    match (stage, event) {
        (StageView::Start, EventView::Begin) => asking(
            StageView::FindingUser,
            DbRequestView::FindUser { username: payload.username },
        ),
        (StageView::FindingUser, EventView::Db(DbReplyView::User(Some(_)))) => replying(
            text_reply(CONFLICT, "User already exist with the name."@),
        ),
        (StageView::FindingUser, EventView::Db(DbReplyView::User(None))) => creation_step(
            payload.username,
            password_hash_of(salt, payload.password),
        ),
        (StageView::FindingUser, EventView::Db(DbReplyView::Failed(_))) => creation_step(
            payload.username,
            password_hash_of(salt, payload.password),
        ),
        (StageView::InsertingUser, EventView::Db(DbReplyView::Done)) => replying(
            text_reply(OK, "User Created Successfully"@),
        ),
        (StageView::InsertingUser, EventView::Db(DbReplyView::Failed(_))) => replying(
            text_reply(INTERNAL_SERVER_ERROR, "Failed to create user"@),
        ),
        _ => None,
    }
}

/// The password that a step stores, where it inserts a user.
pub open spec fn stored_password(step: Option<StepView>) -> Option<Seq<char>> {
    match step {
        Some(
            StepView {
                action: ActionView::Query(DbRequestView::InsertUser { password, .. }),
                ..
            },
        ) => Some(password),
        _ => None,
    }
}

/// The token that a step hands to the caller, where it grants a log-in.
pub open spec fn granted_token(step: Option<StepView>) -> Option<Seq<char>> {
    match step {
        Some(
            StepView {
                action: ActionView::Respond(
                    HttpReplyView {
                        body: BodyView::Json(
                            ApiResponseView { data: PayloadView::LogIn(granted), .. },
                        ),
                        ..
                    },
                ),
                ..
            },
        ) => Some(granted.access_token),
        _ => None,
    }
}

/// The reply to a log-in whose password was right, given what issuing the
/// token came to: the token as a bearer token in a 200, or a 500.
pub open spec fn granted(token: Result<Seq<char>, TokenError>) -> HttpReplyView {
    match token {
        Ok(access_token) => json_reply(
            OK,
            "Success"@,
            "User logged in successfully"@,
            PayloadView::LogIn(LogInResponseView { token_type: "Bearer"@, access_token }),
        ),
        Err(_) => text_reply(INTERNAL_SERVER_ERROR, "Token generation failed."@),
    }
}

/// The reply to a log-in whose password was wrong: a 401 with an envelope.
pub open spec fn denied() -> HttpReplyView {
    json_reply(UNAUTHORIZED, "Failure"@, "Incorrect password"@, PayloadView::Text("Invalid"@))
}

/// One step of log-in, at the instant `now` and under a signing secret that
/// may be missing.
///
/// The name is looked up: no such user is a 404, a failed lookup a 500 that
/// quotes the database. The password is then held against the stored hash:
/// a mismatch is a 401. On a match a token is issued whose subject is the
/// user's identifier in hyphenated form.
pub open spec fn log_in_step(
    payload: SignUpView,
    secret: Option<Seq<char>>,
    now: nat,
    stage: StageView,
    event: EventView,
) -> Option<StepView> {
    match (stage, event) {
        (StageView::Start, EventView::Begin) => asking(
            StageView::FindingUser,
            DbRequestView::FindUser { username: payload.username },
        ),
        (StageView::FindingUser, EventView::Db(DbReplyView::User(None))) => replying(
            text_reply(NOT_FOUND, "User does not exist."@),
        ),
        (StageView::FindingUser, EventView::Db(DbReplyView::Failed(message))) => replying(
            text_reply(INTERNAL_SERVER_ERROR, "DB error: "@ + message),
        ),
        (StageView::FindingUser, EventView::Db(DbReplyView::User(Some(user)))) => {
            if password_matches(payload.password, user.password) {
                replying(granted(issued_token(hyphenated(user.id), secret, now)))
            } else {
                replying(denied())
            }
        },
        _ => None,
    }
}

/// The step that records a new user, given what hashing the password came
/// to.
pub fn create_user(username: &str, hashed: Result<String, HashError>) -> (step: Option<Step>)
    ensures
        step_view(step) == creation_step(
            username@,
            match hashed {
                Ok(password) => Some(password@),
                Err(_) => None,
            },
        ),
{
    match hashed {
        Ok(password) => ask(
            Stage::InsertingUser,
            DbRequest::InsertUser { username: username.to_owned(), password },
        ),
        Err(_) => reply_with(
            HttpReply::text(INTERNAL_SERVER_ERROR, "Failed to create user".to_owned()),
        ),
    }
}

/// One step of sign-up, hashing under the given salt. Where the step
/// inserts the user, the password of the request matches what is stored.
pub fn sign_up_salted(payload: &SignUp, salt: &str, stage: Stage, event: Event) -> (step: Option<
    Step,
>)
    ensures
        step_view(step) == sign_up_step(payload@, salt@, stage@, event@),
        match stored_password(step_view(step)) {
            Some(stored) => password_matches(payload@.password, stored),
            None => true,
        },
{
    match stage {
        Stage::Start => match event {
            Event::Begin => ask(
                Stage::FindingUser,
                DbRequest::FindUser { username: payload.username.clone() },
            ),
            _ => None,
        },
        Stage::FindingUser => match event {
            Event::Db(DbReply::User(Some(_))) => reply_with(
                HttpReply::text(CONFLICT, "User already exist with the name.".to_owned()),
            ),
            Event::Db(DbReply::User(None)) => create_user(
                payload.username.as_str(),
                hash_pwd_salted(salt, payload.password.as_str()),
            ),
            Event::Db(DbReply::Failed(_)) => create_user(
                payload.username.as_str(),
                hash_pwd_salted(salt, payload.password.as_str()),
            ),
            _ => None,
        },
        Stage::InsertingUser => match event {
            Event::Db(DbReply::Done) => reply_with(
                HttpReply::text(OK, "User Created Successfully".to_owned()),
            ),
            Event::Db(DbReply::Failed(_)) => reply_with(
                HttpReply::text(INTERNAL_SERVER_ERROR, "Failed to create user".to_owned()),
            ),
            _ => None,
        },
        _ => None,
    }
}

/// One step of sign-up. Where the step hashes the password, the salt is
/// drawn afresh; whichever it is, the step is the one that `sign_up_step`
/// gives for it. Where the step inserts the user, the password of the
/// request matches what is stored.
pub fn sign_up(payload: &SignUp, stage: Stage, event: Event) -> (step: Option<Step>)
    ensures
        exists|salt: Seq<char>| step_view(step) == sign_up_step(payload@, salt, stage@, event@),
        match stored_password(step_view(step)) {
            Some(stored) => password_matches(payload@.password, stored),
            None => true,
        },
{
    let salt = match (&stage, &event) {
        (Stage::FindingUser, Event::Db(DbReply::User(None))) => fresh_salt(),
        (Stage::FindingUser, Event::Db(DbReply::Failed(_))) => fresh_salt(),
        _ => String::new(),
    };
    sign_up_salted(payload, salt.as_str(), stage, event)
}

/// The reply to a log-in whose password was right.
pub fn log_in_granted(token: Result<String, TokenError>) -> (reply: HttpReply)
    ensures
        reply@ == granted(token_view(token)),
{
    match token {
        Ok(access_token) => HttpReply::json(
            OK,
            "Success",
            "User logged in successfully",
            Payload::LogIn(LogInResponse { token_type: "Bearer".to_owned(), access_token }),
        ),
        Err(_) => HttpReply::text(INTERNAL_SERVER_ERROR, "Token generation failed.".to_owned()),
    }
}

/// The reply to a log-in whose password was wrong.
pub fn log_in_denied() -> (reply: HttpReply)
    ensures
        reply@ == denied(),
{
    HttpReply::json(
        UNAUTHORIZED,
        "Failure",
        "Incorrect password",
        Payload::Text("Invalid".to_owned()),
    )
}

/// One step of log-in at the instant `now` (seconds since the epoch), under
/// a signing secret that may be missing. Where the step grants the log-in,
/// the token it hands out carries, under the secret, the user's identifier
/// in hyphenated form as its subject and the instant one day after `now`
/// as its expiry, and that subject reads back as the user's identifier.
pub fn log_in(
    payload: &SignUp,
    secret: Option<&str>,
    now: usize,
    stage: Stage,
    event: Event,
) -> (step: Option<Step>)
    ensures
        step_view(step) == log_in_step(
            payload@,
            match secret {
                Some(key) => Some(key@),
                None => None,
            },
            now as nat,
            stage@,
            event@,
        ),
        match (event@, secret, granted_token(step_view(step))) {
            (EventView::Db(DbReplyView::User(Some(user))), Some(key), Some(token)) => carries(
                token,
                key@,
                hyphenated(user.id),
                (now + TOKEN_LIFETIME) as nat,
            ) && reads_as(hyphenated(user.id), user.id),
            _ => true,
        },
{
    match stage {
        Stage::Start => match event {
            Event::Begin => ask(
                Stage::FindingUser,
                DbRequest::FindUser { username: payload.username.clone() },
            ),
            _ => None,
        },
        Stage::FindingUser => match event {
            Event::Db(DbReply::User(None)) => reply_with(
                HttpReply::text(NOT_FOUND, "User does not exist.".to_owned()),
            ),
            Event::Db(DbReply::Failed(message)) => reply_with(
                HttpReply::failure(INTERNAL_SERVER_ERROR, "DB error: ", message.as_str()),
            ),
            Event::Db(DbReply::User(Some(user))) => {
                let verified = match verify_pwd_salted(
                    payload.password.as_str(),
                    user.password.as_str(),
                ) {
                    Ok(verified) => verified,
                    Err(_) => false,
                };
                if verified {
                    let subject = format_uuid(user.id);
                    reply_with(log_in_granted(generate_jwt(subject.as_str(), secret, now)))
                } else {
                    reply_with(log_in_denied())
                }
            },
            _ => None,
        },
        _ => None,
    }
}

} // verus!
