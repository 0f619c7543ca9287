//! One-way salted password hashing, built on the argon2 crate.
//!
//! A stored hash is an opaque PHC string with the salt embedded, so
//! verification needs no side storage. Whether a password matches a stored
//! hash is a deterministic fact of the pair; `password_verifies` names it.

use argon2::password_hash::{PasswordHasher, PasswordVerifier};
use vstd::prelude::*;

verus! {

/// Whether `verify_password` accepts `password` against the stored PHC
/// string `hash`: the hash parses and the recomputed digest matches.
pub uninterp spec fn password_verifies(password: Seq<char>, hash: Seq<char>) -> bool;

/// Relies on argon2's `PasswordHasher::hash_password` (with a fresh random
/// salt) and on its round trip with `verify_password`: a hash freshly
/// computed from a password verifies against that same password.
#[verifier::external_body]
pub(crate) fn hash_password(password: &String) -> (r: Result<String, ()>)
    ensures
        r is Ok ==> password_verifies(password@, r->Ok_0@),
{
    match argon2::Argon2::default().hash_password(password.as_bytes()) {
        Ok(h) => Ok(h.to_string()),
        Err(_) => Err(()),
    }
}

/// Relies on argon2's `PasswordVerifier::verify_password` for `str` hashes:
/// it accepts exactly when the stored PHC string parses and the password
/// matches; a malformed stored hash is reported as a mismatch, never a
/// panic. The outcome depends on the two arguments alone.
#[verifier::external_body]
pub(crate) fn verify_password(password: &String, hash: &String) -> (r: bool)
    ensures
        r == password_verifies(password@, hash@),
{
    PasswordVerifier::<str>::verify_password(
        &argon2::Argon2::default(),
        password.as_bytes(),
        hash.as_str(),
    ).is_ok()
}

} // verus!
