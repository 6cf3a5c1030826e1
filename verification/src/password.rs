//! The password hasher: a salted, memory-hard, one-way hash whose output
//! carries its own parameters and salt, and the check of a password
//! against such a hash.

use vstd::prelude::*;
use vstd::utf8::*;
use argon2::password_hash::rand_core::OsRng;
use argon2::password_hash::{PasswordHash, PasswordHasher, PasswordVerifier, SaltString};
use argon2::Argon2;
use crate::error::AuthError;

verus! {

/// Whether Argon2 accepts `password` for the hash string `hash`. False
/// where `hash` is no hash string.
pub uninterp spec fn argon2_accepts(password: Seq<u8>, hash: Seq<char>) -> bool;

/// The hash string that Argon2, with its default parameters, gives for
/// `password` under the base64 salt `salt`; `None` where it fails.
pub uninterp spec fn argon2_hash_text(password: Seq<u8>, salt: Seq<char>) -> Option<Seq<char>>;

/// Calls `SaltString::generate` on the operating system's random source.
/// Nothing is claimed of the salt: it differs from call to call.
#[verifier::external_body]
fn fresh_salt() -> (salt: String) {
    SaltString::generate(&mut OsRng).as_str().to_string()
}

/// Calls `SaltString::from_b64` and `Argon2::default().hash_password`, and
/// writes the hash out as a string. The string is a function of password
/// and salt, and `verify_password` accepts it for the same password: it
/// recomputes the hash with the parameters and salt that the string
/// carries.
#[verifier::external_body]
fn argon2_hash(password: &[u8], salt: &str) -> (r: Option<String>)
    ensures
        r.deep_view() == argon2_hash_text(password@, salt@),
        r matches Some(hash) ==> argon2_accepts(password@, hash@),
{
    let salt = SaltString::from_b64(salt).ok()?;
    Some(Argon2::default().hash_password(password, &salt).ok()?.to_string())
}

/// Calls `PasswordHash::new` and `Argon2::default().verify_password`. The
/// answer is a function of password and hash string; a string that cannot
/// be parsed is not accepted.
#[verifier::external_body]
fn argon2_verify(password: &[u8], hash: &str) -> (accepted: bool)
    ensures
        accepted == argon2_accepts(password@, hash@),
{
    match PasswordHash::new(hash) {
        Ok(parsed) => Argon2::default().verify_password(password, &parsed).is_ok(),
        Err(_) => false,
    }
}

/// Whether `hash` is a hash of `password`.
pub open spec fn password_matches(password: Seq<char>, hash: Seq<char>) -> bool {
    argon2_accepts(encode_utf8(password), hash)
}

/// What hashing `password` under `salt` gives: the hash string, which is
/// one of the password, or `Internal` where hashing fails.
pub open spec fn hashed(
    r: Result<String, AuthError>,
    password: Seq<char>,
    salt: Seq<char>,
) -> bool {
    match r {
        Ok(hash) => Some(hash@) == argon2_hash_text(encode_utf8(password), salt)
            && password_matches(password, hash@),
        Err(e) => e == AuthError::Internal && argon2_hash_text(encode_utf8(password), salt) is None,
    }
}

/// Hashes `password` under the given salt.
pub fn hash_password_with_salt(password: &str, salt: &str) -> (r: Result<String, AuthError>)
    ensures
        hashed(r, password@, salt@),
{
    match argon2_hash(password.as_bytes(), salt) {
        Some(hash) => Ok(hash),
        None => Err(AuthError::Internal),
    }
}

/// Hashes `password` under a fresh random salt. The hash verifies against
/// the same password.
pub fn hash_password(password: &str) -> (r: Result<String, AuthError>)
    ensures
        exists|salt: Seq<char>| #[trigger] hashed(r, password@, salt),
        r matches Ok(hash) ==> password_matches(password@, hash@),
{
    let salt = fresh_salt();
    hash_password_with_salt(password, salt.as_str())
}

/// Whether `hash` is a hash of `password`. A hash string that cannot be
/// read is answered like a wrong password.
pub fn verify_password(password: &str, hash: &str) -> (r: bool)
    ensures
        r == password_matches(password@, hash@),
{
    argon2_verify(password.as_bytes(), hash)
}

} // verus!
