//! Password hashing with Argon2, in the PHC string format.

use argon2::PasswordHasher;
use argon2::PasswordVerifier;
use vstd::prelude::*;

verus! {

/// The error type of the `password-hash` crate, as `argon2` hands it on.
/// Nothing is known of its values.
#[verifier::external_type_specification]
#[verifier::external_body]
pub struct ExPasswordHashError(argon2::password_hash::Error);

/// Why a password could not be hashed.
#[derive(Debug, Clone, Copy, PartialEq, Eq, Structural)]
pub enum HashError {
    /// The salt was refused or the algorithm failed.
    Hashing,
}

/// The PHC string that Argon2 with its default parameters computes for a
/// password under a salt given in B64, or `None` where it reports an error.
pub uninterp spec fn password_hash_of(salt: Seq<char>, pwd: Seq<char>) -> Option<Seq<char>>;

/// What Argon2 makes of a password held against a stored string: `None`
/// where the string does not parse as a PHC string, else whether it accepts
/// the password for it.
pub uninterp spec fn password_check(pwd: Seq<char>, hashed: Seq<char>) -> Option<bool>;

/// Whether a password matches a stored string. A string that cannot be read
/// matches no password.
pub open spec fn password_matches(pwd: Seq<char>, hashed: Seq<char>) -> bool {
    password_check(pwd, hashed) == Some(true)
}

/// Calls `argon2::password_hash::Salt::from_b64` on the salt and
/// `PasswordHasher::hash_password` of `Argon2::default()` on the password's
/// bytes, and writes the resulting hash as a PHC string.
/// Trusted: the outcome is the one that `password_hash_of` names, and a
/// PHC string that comes out is one that Argon2 accepts the same password
/// for, since it records the salt and the parameters it was made with.
#[verifier::external_body]
fn argon2_hash(salt: &str, pwd: &str) -> (hashed: Result<String, argon2::password_hash::Error>)
    ensures
        match hashed {
            Ok(text) => password_hash_of(salt@, pwd@) == Some(text@) && password_matches(
                pwd@,
                text@,
            ),
            Err(_) => password_hash_of(salt@, pwd@) is None,
        },
{
    let salt = argon2::password_hash::Salt::from_b64(salt)?;
    Ok(argon2::Argon2::default().hash_password(pwd.as_bytes(), salt)?.to_string())
}

/// Calls `argon2::password_hash::PasswordHash::new` on the stored string,
/// whose error it hands on, and `PasswordVerifier::verify_password` of
/// `Argon2::default()` on the password's bytes, of which it says whether it
/// accepted.
/// Trusted: the outcome is the one that `password_check` names.
#[verifier::external_body]
fn argon2_verify(pwd: &str, hashed: &str) -> (checked: Result<
    bool,
    argon2::password_hash::Error,
>)
    ensures
        match checked {
            Ok(accepted) => password_check(pwd@, hashed@) == Some(accepted),
            Err(_) => password_check(pwd@, hashed@) is None,
        },
{
    let parsed = argon2::password_hash::PasswordHash::new(hashed)?;
    Ok(argon2::Argon2::default().verify_password(pwd.as_bytes(), &parsed).is_ok())
}

/// Calls `argon2::password_hash::SaltString::generate` on the operating
/// system's random source and hands the salt out as text.
/// Trusted: the salt has 22 characters, the B64 form of the 16 bytes drawn.
/// Of which characters they are, nothing; no two salts need be alike.
#[verifier::external_body]
pub(crate) fn fresh_salt() -> (salt: String)
    ensures
        salt@.len() == 22,
{
    argon2::password_hash::SaltString::generate(&mut argon2::password_hash::rand_core::OsRng)
        .as_str()
        .to_string()
}

/// Hashes a password under a salt given in B64. The same salt and password
/// always give the same PHC string, and the password matches it.
pub fn hash_pwd_salted(salt: &str, pwd: &str) -> (hashed: Result<String, HashError>)
    ensures
        match hashed {
            Ok(text) => password_hash_of(salt@, pwd@) == Some(text@) && password_matches(
                pwd@,
                text@,
            ),
            Err(e) => password_hash_of(salt@, pwd@) is None && e == HashError::Hashing,
        },
{
    match argon2_hash(salt, pwd) {
        Ok(text) => Ok(text),
        Err(_) => Err(HashError::Hashing),
    }
}

/// Whether a password is the one that a stored PHC string was made from. A
/// stored string that cannot be read is a mismatch, not an error.
pub fn verify_pwd_salted(raw_pwd: &str, hashed_pwd: &str) -> (verified: Result<bool, HashError>)
    ensures
        verified == Ok::<bool, HashError>(password_matches(raw_pwd@, hashed_pwd@)),
{
    match argon2_verify(raw_pwd, hashed_pwd) {
        Ok(accepted) => Ok(accepted),
        Err(_) => Ok(false),
    }
}

} // verus!
