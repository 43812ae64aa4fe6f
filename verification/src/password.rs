//! The password hasher: a salted, computationally expensive one-way hash
//! with a verify that recomputes and compares.
//!
//! Whether a plaintext matches a hash string is a pure function of the two
//! strings; `bcrypt_matches` names it, and both wrappers speak of it.

use vstd::prelude::*;
use crate::errors::AuthError;

verus! {

/// Whether a plaintext password matches a bcrypt hash string: the result of
/// recomputing the hash with the cost and salt carried by the hash string
/// and comparing. False on a malformed hash string.
pub uninterp spec fn bcrypt_matches(password: Seq<char>, hash: Seq<char>) -> bool;

/// Relies on `bcrypt::hash` with `bcrypt::DEFAULT_COST`: on success the
/// produced hash string matches exactly the password it was computed from,
/// per `bcrypt::verify`'s documented recompute-and-compare.
#[verifier::external_body]
fn bcrypt_hash_call(password: &str) -> (r: Option<String>)
    ensures
        r matches Some(h) ==> bcrypt_matches(password@, h@),
{
    bcrypt::hash(password, bcrypt::DEFAULT_COST).ok()
}

/// Relies on `bcrypt::verify`: recomputes the hash from the plaintext and
/// the cost and salt of the hash string and compares; a malformed hash
/// string is reported as an error, treated here as "does not match".
#[verifier::external_body]
pub fn verify_password(password: &str, hash: &str) -> (r: bool)
    ensures
        r == bcrypt_matches(password@, hash@),
{
    bcrypt::verify(password, hash).unwrap_or(false)
}

/// Hashes a plaintext password for storage. Fails only when the underlying
/// hashing primitive does, surfaced as an internal error.
pub fn hash_password(password: &str) -> (r: Result<String, AuthError>)
    ensures
        r matches Ok(h) ==> bcrypt_matches(password@, h@),
        r matches Err(e) ==> e == AuthError::Internal,
{
    match bcrypt_hash_call(password) {
        Some(h) => Ok(h),
        None => Err(AuthError::Internal),
    }
}

} // verus!
