//! Bearer tokens: issuing one for a subject, checking one that a caller
//! presents, and the guard that admits a request by its `Authorization`
//! header.

use crate::auth::models::{AuthenticatedUser, Claims, ClaimsView};
use crate::routes::models::{text_reply, HttpReply, UNAUTHORIZED};
use vstd::prelude::*;

verus! {

/// The error type of the `jsonwebtoken` crate. Nothing is known of its
/// values.
#[verifier::external_type_specification]
#[verifier::external_body]
pub struct ExTokenLibraryError(jsonwebtoken::errors::Error);

/// Why a token was not issued or not accepted.
#[derive(Debug, Clone, Copy, PartialEq, Eq, Structural)]
pub enum TokenError {
    /// There is no signing secret.
    Config,
    /// The token could not be written.
    Encode,
    /// The token is malformed, not signed with the secret, or expired.
    Invalid,
}

/// How long an issued token is good for, in seconds: one day.
pub const TOKEN_LIFETIME: usize = 86400;

/// The compact token that `jsonwebtoken::encode` writes under the default
/// header for the claims `sub` and `exp`, in that order, signed with the
/// secret's bytes; `None` where it reports an error.
pub uninterp spec fn jwt_encoding(sub: Seq<char>, exp: nat, secret: Seq<char>) -> Option<
    Seq<char>,
>;

/// Calls `jsonwebtoken::encode` with `Header::default()`, a JSON object
/// whose members are `sub` and `exp`, in that order, and
/// `EncodingKey::from_secret` of the secret's bytes.
/// Trusted: the outcome is the one that `jwt_encoding` names, and a token
/// that comes out carries the claims that went in: they are what
/// `jsonwebtoken::decode` reads off it whenever it accepts it under the
/// same secret.
#[verifier::external_body]
fn encode_claims(sub: &str, exp: usize, secret: &str) -> (token: Result<
    String,
    jsonwebtoken::errors::Error,
>)
    ensures
        match token {
            Ok(text) => jwt_encoding(sub@, exp as nat, secret@) == Some(text@) && carries(
                text@,
                secret@,
                sub@,
                exp as nat,
            ),
            Err(_) => jwt_encoding(sub@, exp as nat, secret@) is None,
        },
{
    let mut claims = serde_json::Map::new();
    claims.insert("sub".to_string(), serde_json::Value::from(sub));
    claims.insert("exp".to_string(), serde_json::Value::from(exp));
    let key = jsonwebtoken::EncodingKey::from_secret(secret.as_bytes());
    jsonwebtoken::encode(&jsonwebtoken::Header::default(), &claims, &key)
}

/// What `jsonwebtoken::decode` hands out for a token under a secret
/// whenever it accepts the token: of the claims in the token's payload the
/// member `sub` where it is a string and the member `exp` where it is an
/// unsigned number. Whether the token is accepted at a given instant is no
/// part of it.
pub uninterp spec fn jwt_claims(token: Seq<char>, secret: Seq<char>) -> (
    Option<Seq<char>>,
    Option<u64>,
);

/// Whether a token carries these claims under a secret: they are what an
/// accepting check of the token under the secret hands out.
pub open spec fn carries(token: Seq<char>, secret: Seq<char>, sub: Seq<char>, exp: nat) -> bool {
    exp <= u64::MAX && jwt_claims(token, secret) == (Some(sub), Some(exp as u64))
}

/// The view of what was picked from the claims of a token.
pub open spec fn picked_view(picked: (Option<String>, Option<u64>)) -> (
    Option<Seq<char>>,
    Option<u64>,
) {
    (
        match picked.0 {
            Some(sub) => Some(sub@),
            None => None,
        },
        picked.1,
    )
}

/// Calls `jsonwebtoken::decode` with `DecodingKey::from_secret` of the
/// secret's bytes and `Validation::default()`, and picks from the claims
/// the member `sub` where it is a string and the member `exp` where it is
/// an unsigned number.
/// Trusted: where the call accepts the token, what is picked is what
/// `jwt_claims` names for this token and secret, since the claims are read
/// off the token. Of whether it accepts, nothing: the call reads the clock,
/// so the same token may be accepted now and refused later.
#[verifier::external_body]
fn decode_claims(token: &str, secret: &str) -> (decoded: Result<
    (Option<String>, Option<u64>),
    jsonwebtoken::errors::Error,
>)
    ensures
        decoded matches Ok(picked) ==> picked_view(picked) == jwt_claims(token@, secret@),
{
    let key = jsonwebtoken::DecodingKey::from_secret(secret.as_bytes());
    let validation = jsonwebtoken::Validation::default();
    let claims = jsonwebtoken::decode::<serde_json::Value>(token, &key, &validation)?.claims;
    let sub = claims.get("sub").and_then(serde_json::Value::as_str).map(str::to_string);
    let exp = claims.get("exp").and_then(serde_json::Value::as_u64);
    Ok((sub, exp))
}

/// The instant at which a token issued at `now` expires, where it can be
/// written in a machine word.
pub open spec fn expiry(now: nat) -> Option<nat> {
    if now + TOKEN_LIFETIME <= usize::MAX {
        Some(now + TOKEN_LIFETIME as nat)
    } else {
        None
    }
}

/// The token for a subject, issued at `now` under a secret that may be
/// missing: its claims are the subject and the instant one day after `now`.
pub open spec fn issued_token(sub: Seq<char>, secret: Option<Seq<char>>, now: nat) -> Result<
    Seq<char>,
    TokenError,
> {
    match secret {
        None => Err(TokenError::Config),
        Some(key) => match expiry(now) {
            None => Err(TokenError::Encode),
            Some(exp) => match jwt_encoding(sub, exp, key) {
                Some(token) => Ok(token),
                None => Err(TokenError::Encode),
            },
        },
    }
}

/// The view of what issuing a token gave.
pub open spec fn token_view(token: Result<String, TokenError>) -> Result<Seq<char>, TokenError> {
    match token {
        Ok(text) => Ok(text@),
        Err(error) => Err(error),
    }
}

/// Issues a token for `user_id` at the instant `now` (seconds since the
/// epoch), good for one day. The token carries, under the secret, the
/// subject `user_id` and the expiry one day after `now`.
pub fn generate_jwt(user_id: &str, secret: Option<&str>, now: usize) -> (token: Result<
    String,
    TokenError,
>)
    ensures
        token_view(token) == issued_token(
            user_id@,
            match secret {
                Some(key) => Some(key@),
                None => None,
            },
            now as nat,
        ),
        match (token, secret) {
            (Ok(text), Some(key)) => carries(
                text@,
                key@,
                user_id@,
                (now + TOKEN_LIFETIME) as nat,
            ),
            _ => true,
        },
{
    let key = match secret {
        Some(key) => key,
        None => {
            return Err(TokenError::Config);
        },
    };
    let exp = match now.checked_add(TOKEN_LIFETIME) {
        Some(exp) => exp,
        None => {
            return Err(TokenError::Encode);
        },
    };
    match encode_claims(user_id, exp, key) {
        Ok(token) => Ok(token),
        Err(_) => Err(TokenError::Encode),
    }
}

/// The claims that a decoded token stands for: it must carry a subject and
/// an expiry that fits a machine word.
pub open spec fn decoded_claims(decoded: Option<(Option<Seq<char>>, Option<u64>)>) -> Result<
    ClaimsView,
    TokenError,
> {
    match decoded {
        Some((Some(sub), Some(exp))) => if exp <= usize::MAX {
            Ok(ClaimsView { sub, exp: exp as nat })
        } else {
            Err(TokenError::Invalid)
        },
        _ => Err(TokenError::Invalid),
    }
}

/// The view of claims that may have been refused.
pub open spec fn claims_view(claims: Result<Claims, TokenError>) -> Result<
    ClaimsView,
    TokenError,
> {
    match claims {
        Ok(accepted) => Ok(accepted@),
        Err(error) => Err(error),
    }
}

/// Reads the claims off a token that was decoded, or not.
pub fn accept_claims(decoded: Option<(Option<String>, Option<u64>)>) -> (claims: Result<
    Claims,
    TokenError,
>)
    ensures
        claims_view(claims) == decoded_claims(
            match decoded {
                Some((sub, exp)) => Some(
                    (
                        match sub {
                            Some(text) => Some(text@),
                            None => None,
                        },
                        exp,
                    ),
                ),
                None => None,
            },
        ),
{
    match decoded {
        Some((Some(sub), Some(exp))) => {
            if exp <= usize::MAX as u64 {
                Ok(Claims { sub, exp: exp as usize })
            } else {
                Err(TokenError::Invalid)
            }
        },
        _ => Err(TokenError::Invalid),
    }
}

/// What checked claims are good for at the instant `now`: claims whose
/// expiry lies before `now` are refused, all others stand.
pub open spec fn current_claims(claims: Result<ClaimsView, TokenError>, now: nat) -> Result<
    ClaimsView,
    TokenError,
> {
    match claims {
        Ok(accepted) => if accepted.exp >= now {
            Ok(accepted)
        } else {
            Err(TokenError::Invalid)
        },
        Err(error) => Err(error),
    }
}

/// Refuses claims that have expired by the instant `now` (seconds since the
/// epoch).
pub fn unexpired(claims: Result<Claims, TokenError>, now: usize) -> (current: Result<
    Claims,
    TokenError,
>)
    ensures
        claims_view(current) == current_claims(claims_view(claims), now as nat),
{
    match claims {
        Ok(accepted) => {
            if accepted.exp >= now {
                Ok(accepted)
            } else {
                Err(TokenError::Invalid)
            }
        },
        Err(error) => Err(error),
    }
}

/// Checks a token against the secret at the instant `now` (seconds since
/// the epoch). An accepted token gives the claims that it carries under the
/// secret, its subject and its expiry, and has not expired: its expiry is
/// not before `now`. Whatever is wrong with a token (its shape, its
/// signature, its expiry, a claim that is missing), the error is `Invalid`.
pub fn validate_jwt(token: &str, secret: &str, now: usize) -> (claims: Result<
    Claims,
    TokenError,
>)
    ensures
        match claims {
            Ok(accepted) => current_claims(
                decoded_claims(Some(jwt_claims(token@, secret@))),
                now as nat,
            ) == Ok::<ClaimsView, TokenError>(accepted@),
            Err(error) => error == TokenError::Invalid,
        },
{
    match decode_claims(token, secret) {
        Ok(decoded) => unexpired(accept_claims(Some(decoded)), now),
        Err(_) => Err(TokenError::Invalid),
    }
}

/// The token that an `Authorization` header carries: what follows the
/// word `Bearer` and one space.
pub open spec fn bearer_token(header: Seq<char>) -> Option<Seq<char>> {
    if header.len() >= 7 && header.subrange(0, 7) == "Bearer "@ {
        Some(header.subrange(7, header.len() as int))
    } else {
        None
    }
}

/// The token that a request carries, if it carries one.
pub open spec fn presented_token(authorization: Option<Seq<char>>) -> Option<Seq<char>> {
    match authorization {
        Some(header) => bearer_token(header),
        None => None,
    }
}

/// Why a request was not admitted.
#[derive(Debug, Clone, Copy, PartialEq, Eq, Structural)]
pub enum AuthRejection {
    /// There is a bearer token and it was refused.
    InvalidToken,
    /// There is no `Authorization` header, or it carries no bearer token.
    MissingOrInvalidHeader,
}

/// What a caller is told on being turned away.
pub open spec fn rejection_message(rejection: AuthRejection) -> Seq<char> {
    match rejection {
        AuthRejection::InvalidToken => "Invalid JWT"@,
        AuthRejection::MissingOrInvalidHeader => "Authorization header missing or invalid"@,
    }
}

impl AuthRejection {
    pub fn message(&self) -> (text: String)
        ensures
            text@ == rejection_message(*self),
    {
        match self {
            AuthRejection::InvalidToken => "Invalid JWT".to_owned(),
            AuthRejection::MissingOrInvalidHeader => "Authorization header missing or invalid"
                .to_owned(),
        }
    }

    /// The reply that turns the caller away: a 401 with the message.
    pub fn reply(&self) -> (reply: HttpReply)
        ensures
            reply@ == text_reply(UNAUTHORIZED, rejection_message(*self)),
    {
        HttpReply::text(UNAUTHORIZED, self.message())
    }
}

/// Splits the token off an `Authorization` header.
pub fn token_of_header(header: &str) -> (token: Option<&str>)
    ensures
        match token {
            Some(text) => bearer_token(header@) == Some(text@),
            None => bearer_token(header@) is None,
        },
{
    let n = header.unicode_len();
    if n < 7 {
        return None;
    }
    let lead = header.substring_char(0, 7);
    let expected = "Bearer ";
    proof {
        reveal_strlit("Bearer ");
    }
    let mut i: usize = 0;
    while i < 7
        invariant
            i <= 7,
            header@.len() >= 7,
            lead@ == header@.subrange(0, 7),
            expected@ == "Bearer "@,
            expected@.len() == 7,
            forall|j: int| 0 <= j < i ==> lead@[j] == expected@[j],
        decreases 7 - i,
    {
        if lead.get_char(i) != expected.get_char(i) {
            return None;
        }
        i += 1;
    }
    assert(lead@ =~= expected@);
    Some(header.substring_char(7, n))
}

/// Whom a checked token admits.
pub open spec fn admitted(claims: Result<ClaimsView, TokenError>) -> Result<
    ClaimsView,
    AuthRejection,
> {
    match claims {
        Ok(accepted) => Ok(accepted),
        Err(_) => Err(AuthRejection::InvalidToken),
    }
}

/// The view of a caller who may have been turned away.
pub open spec fn admission_view(admission: Result<AuthenticatedUser, AuthRejection>) -> Result<
    ClaimsView,
    AuthRejection,
> {
    match admission {
        Ok(user) => Ok(user@),
        Err(rejection) => Err(rejection),
    }
}

impl AuthenticatedUser {
    /// Admits the bearer of accepted claims and turns away the bearer of a
    /// refused token.
    pub fn with_claims(claims: Result<Claims, TokenError>) -> (admission: Result<
        AuthenticatedUser,
        AuthRejection,
    >)
        ensures
            admission_view(admission) == admitted(claims_view(claims)),
    {
        match claims {
            Ok(accepted) => Ok(AuthenticatedUser { claims: accepted }),
            Err(_) => Err(AuthRejection::InvalidToken),
        }
    }

    /// The guard in front of every flow that needs a caller: reads the
    /// `Authorization` header, if the request has one, and checks the token
    /// it carries at the instant `now` (seconds since the epoch). A request
    /// without a header, or with one that carries no bearer token, is
    /// turned away. One with a bearer token is admitted with the claims
    /// that this token carries under the secret, which have not expired, or
    /// turned away because the token was refused.
    pub fn from_request(
        authorization: Option<&str>,
        secret: &str,
        now: usize,
    ) -> (admission: Result<AuthenticatedUser, AuthRejection>)
        ensures
            match presented_token(
                match authorization {
                    Some(header) => Some(header@),
                    None => None,
                },
            ) {
                None => admission_view(admission) == Err::<ClaimsView, AuthRejection>(
                    AuthRejection::MissingOrInvalidHeader,
                ),
                Some(token) => match admission {
                    Ok(user) => current_claims(
                        decoded_claims(Some(jwt_claims(token, secret@))),
                        now as nat,
                    ) == Ok::<ClaimsView, TokenError>(user@),
                    Err(rejection) => rejection == AuthRejection::InvalidToken,
                },
            },
    {
        let header = match authorization {
            Some(header) => header,
            None => {
                return Err(AuthRejection::MissingOrInvalidHeader);
            },
        };
        match token_of_header(header) {
            Some(token) => AuthenticatedUser::with_claims(validate_jwt(token, secret, now)),
            None => Err(AuthRejection::MissingOrInvalidHeader),
        }
    }
}

} // verus!
