//! The values that sign-up, log-in and the bearer guard exchange.

use vstd::prelude::*;

verus! {

/// A row of the users table.
#[derive(Debug, Clone, PartialEq, Eq)]
pub struct User {
    pub id: u128,
    pub username: String,
    /// The password as stored: a PHC string, never the clear text.
    pub password: String,
}

pub struct UserView {
    pub id: u128,
    pub username: Seq<char>,
    pub password: Seq<char>,
}

impl View for User {
    type V = UserView;

    open spec fn view(&self) -> UserView {
        UserView { id: self.id, username: self.username@, password: self.password@ }
    }
}

/// The body of a sign-up or log-in request.
#[derive(Debug, Clone, PartialEq, Eq)]
pub struct SignUp {
    pub username: String,
    pub password: String,
}

pub struct SignUpView {
    pub username: Seq<char>,
    pub password: Seq<char>,
}

impl View for SignUp {
    type V = SignUpView;

    open spec fn view(&self) -> SignUpView {
        SignUpView { username: self.username@, password: self.password@ }
    }
}

/// What a bearer token carries: whom it was issued for and until when
/// (seconds since the epoch) it is good.
#[derive(Debug, Clone, PartialEq, Eq)]
pub struct Claims {
    pub sub: String,
    pub exp: usize,
}

pub struct ClaimsView {
    pub sub: Seq<char>,
    pub exp: nat,
}

impl View for Claims {
    type V = ClaimsView;

    open spec fn view(&self) -> ClaimsView {
        ClaimsView { sub: self.sub@, exp: self.exp as nat }
    }
}

/// The payload of a successful log-in.
#[derive(Debug, Clone, PartialEq, Eq)]
pub struct LogInResponse {
    pub token_type: String,
    pub access_token: String,
}

pub struct LogInResponseView {
    pub token_type: Seq<char>,
    pub access_token: Seq<char>,
}

impl View for LogInResponse {
    type V = LogInResponseView;

    open spec fn view(&self) -> LogInResponseView {
        LogInResponseView { token_type: self.token_type@, access_token: self.access_token@ }
    }
}

/// A caller whose bearer token was accepted.
#[derive(Debug, Clone, PartialEq, Eq)]
pub struct AuthenticatedUser {
    pub claims: Claims,
}

impl View for AuthenticatedUser {
    type V = ClaimsView;

    open spec fn view(&self) -> ClaimsView {
        self.claims@
    }
}

} // verus!
