//! The password hasher: Argon2id with a per-call random salt.
//!
//! `password_matches` names the verifier's decision; it is a function of the
//! password and the hash string alone, so the name is well defined. Hashing
//! itself draws a fresh random salt on every call, so nothing relates two
//! hashes of the same password: all that is promised of a produced hash is
//! that the same password verifies against it.

use vstd::prelude::*;

use argon2::password_hash::rand_core::OsRng;
use argon2::password_hash::{PasswordHash, PasswordHasher, PasswordVerifier, SaltString};

verus! {

/// Whether Argon2 accepts `password` against the PHC hash string `hash`.
/// A malformed hash string matches no password.
pub uninterp spec fn password_matches(password: Seq<char>, hash: Seq<char>) -> bool;

/// Relies on argon2's `PasswordVerifier::verify_password`: it recomputes the
/// hash from the password and the parameters and salt embedded in the hash
/// string, and compares — a deterministic function of the two arguments. A
/// hash string that does not parse verifies nothing and is reported as a
/// mismatch, never as a panic.
#[verifier::external_body]
fn verify_password_raw(password: &str, hash: &str) -> (r: bool)
    ensures
        r == password_matches(password@, hash@),
{
    match PasswordHash::new(hash) {
        Ok(parsed) => argon2::Argon2::default()
            .verify_password(password.as_bytes(), &parsed)
            .is_ok(),
        Err(_) => false,
    }
}

/// Relies on argon2's `PasswordHasher::hash_password` with a fresh random
/// salt from the operating system: on success the PHC string it returns
/// embeds that salt and the parameters, and `verify_password` accepts the
/// same password against it. The salt is random, so nothing else is promised
/// of the string.
#[verifier::external_body]
fn hash_password_raw(password: &str) -> (r: Option<String>)
    ensures
        r matches Some(h) ==> password_matches(password@, h@),
{
    let salt = SaltString::generate(&mut OsRng);
    match argon2::Argon2::default().hash_password(password.as_bytes(), &salt) {
        Ok(h) => Some(h.to_string()),
        Err(_) => None,
    }
}

/// Hashes a password for storage. Returns `None` only when the hasher itself
/// fails (an allocation-level failure); the result embeds a salt unique to
/// this call.
pub fn hash(password: &str) -> (r: Option<String>)
    ensures
        r matches Some(h) ==> password_matches(password@, h@),
{
    hash_password_raw(password)
}

/// Checks a password against a stored hash string. Malformed stored hashes
/// are a mismatch, not an error: the caller cannot tell "wrong password"
/// from "corrupt hash".
pub fn verify(password: &str, hash: &str) -> (r: bool)
    ensures
        r == password_matches(password@, hash@),
{
    verify_password_raw(password, hash)
}

} // verus!
