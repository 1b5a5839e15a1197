//! Credential hashing: one-way, salted password hashing and verification.

use vstd::prelude::*;
use argon2::password_hash::PasswordHasher;
use argon2::password_hash::PasswordVerifier;

verus! {

use crate::errors::AuthError;

/// The hasher rejects an input longer than 0xFFFFFFFF bytes. A password of at
/// most this many characters stays under that limit in UTF-8 (at most four
/// bytes per character), so hashing it cannot be turned away.
pub const MAX_PASSWORD_CHARS: usize = 0x3FFFFFFF;

/// Whether `password` re-derives to the digest embedded in the encoded hash
/// string `hash`. This is the (deterministic) outcome of argon2 verification;
/// no contract states its value on concrete strings.
pub uninterp spec fn hash_matches(hash: Seq<char>, password: Seq<char>) -> bool;

/// Whether `hash` parses as a well-formed PHC-encoded hash string. This is the
/// (deterministic) outcome of parsing; no contract states its value on
/// concrete strings.
pub uninterp spec fn is_phc_hash(hash: Seq<char>) -> bool;

/// Relies on argon2's `SaltString::generate` and `Argon2::hash_password`: the
/// encoded PHC string that comes back parses again, and verifies against the
/// password it was derived from, whatever salt was drawn. With a freshly
/// generated salt of the recommended length and the default parameters, the
/// one remaining failure path is the hasher's explicit rejection of an input
/// longer than 0xFFFFFFFF bytes, which the character bound keeps out of
/// reach, so hashing succeeds.
#[verifier::external_body]
fn argon2_hash(password: &str) -> (r: Result<String, ()>)
    requires
        password@.len() <= MAX_PASSWORD_CHARS,
    ensures
        r is Ok,
        r matches Ok(h) ==> is_phc_hash(h@) && hash_matches(h@, password@),
{
    let salt = argon2::password_hash::SaltString::generate(&mut argon2::password_hash::rand_core::OsRng);
    match argon2::Argon2::default().hash_password(password.as_bytes(), &salt) {
        Ok(h) => Ok(h.to_string()),
        Err(_) => Err(()),
    }
}

/// Relies on argon2's `PasswordHash::new` and `Argon2::verify_password`:
/// parsing succeeds or fails on the hash string alone, and verification is a
/// function of the hash string and the password alone.
#[verifier::external_body]
fn argon2_verify(hash: &str, password: &str) -> (r: Result<bool, ()>)
    ensures
        r is Ok <==> is_phc_hash(hash@),
        r matches Ok(b) ==> b == hash_matches(hash@, password@),
{
    match argon2::password_hash::PasswordHash::new(hash) {
        Ok(parsed) => Ok(argon2::Argon2::default().verify_password(password.as_bytes(), &parsed).is_ok()),
        Err(_) => Err(()),
    }
}

/// What verifying `password` against a stored `hash` returns: a malformed
/// stored hash is an internal failure, anything else reports whether the
/// password re-derives to the stored digest.
pub open spec fn verify_outcome(hash: Seq<char>, password: Seq<char>) -> Result<bool, AuthError> {
    if is_phc_hash(hash) {
        Ok(hash_matches(hash, password))
    } else {
        Err(AuthError::InternalError)
    }
}

/// Hashes a password under a fresh random salt. For a password within the
/// hasher's input bound this never fails, and in particular never fails
/// because of the password value.
pub fn hash_password(password: &str) -> (r: Result<String, AuthError>)
    requires
        password@.len() <= MAX_PASSWORD_CHARS,
    ensures
        r is Ok,
        r matches Ok(h) ==> is_phc_hash(h@) && hash_matches(h@, password@),
{
    match argon2_hash(password) {
        Ok(h) => Ok(h),
        Err(_) => Err(AuthError::InternalError),
    }
}

/// Verifies a password against a stored encoded hash.
pub fn verify_password(hash: &str, password: &str) -> (r: Result<bool, AuthError>)
    ensures
        r == verify_outcome(hash@, password@),
{
    match argon2_verify(hash, password) {
        Ok(b) => Ok(b),
        Err(_) => Err(AuthError::InternalError),
    }
}

/// Law: a hash freshly produced from a password (which is well-formed and
/// re-derives from that password) verifies as a match against that password.
pub proof fn lemma_fresh_hash_verifies(hash: Seq<char>, password: Seq<char>)
    ensures
        is_phc_hash(hash) && hash_matches(hash, password)
            ==> verify_outcome(hash, password) == Ok::<bool, AuthError>(true),
{
}

} // verus!
