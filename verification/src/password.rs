//! Password hashing and verification, through the memory-hard hash of the
//! argon2 crate. The derivation itself stays outside the proofs: only the
//! agreement between hashing and verification is stated, under the name
//! `argon2_verifies`.

use argon2::password_hash::rand_core::OsRng;
use argon2::password_hash::{PasswordHash, PasswordHasher, SaltString};
use argon2::{Argon2, PasswordVerifier};
use vstd::prelude::*;

verus! {

/// Whether argon2 verification accepts `password` against the PHC hash
/// string `phc`. Verification recomputes the hash with the salt and
/// parameters carried inside `phc` and compares, so the outcome is a
/// function of these two values alone.
pub uninterp spec fn argon2_verifies(password: Seq<char>, phc: Seq<char>) -> bool;

/// The shape of a hash rendered under the default algorithm: a PHC string
/// beginning `$argon2id$`, carrying algorithm, version, parameters and
/// salt in front of the digest.
pub open spec fn is_phc_string(s: Seq<char>) -> bool {
    s.len() > 10 && s.subrange(0, 10) == "$argon2id$"@
}

/// Relies on argon2's `PasswordHasher::hash_password`: with a freshly
/// generated (hence valid) salt and the default parameters the call cannot
/// fail, and the PHC string it renders begins `$argon2id$` and is accepted
/// by `verify_password` for the same password. The salt is random, so
/// nothing is assumed about which string comes out beyond that agreement
/// and shape.
#[verifier::external_body]
pub fn hash_password(password: &str) -> (h: String)
    ensures
        argon2_verifies(password@, h@),
        is_phc_string(h@),
{
    let salt = SaltString::generate(&mut OsRng);
    Argon2::default()
        .hash_password(password.as_bytes(), &salt)
        .expect("argon2 with a generated salt and default parameters cannot fail")
        .to_string()
}

/// Relies on argon2's `PasswordVerifier::verify_password`: it recomputes
/// the hash from the PHC string's own salt and parameters and compares. A
/// string that does not parse as a PHC hash verifies nothing.
#[verifier::external_body]
pub fn verify_password(password: &str, phc: &str) -> (r: bool)
    ensures
        r == argon2_verifies(password@, phc@),
{
    match PasswordHash::new(phc) {
        Ok(parsed) => Argon2::default().verify_password(password.as_bytes(), &parsed).is_ok(),
        Err(_) => false,
    }
}

} // verus!
