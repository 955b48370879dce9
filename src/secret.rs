use argon2::password_hash::SaltString;
use argon2::{Argon2, PasswordHash, PasswordHasher, PasswordVerifier};
use crate::text::MAX_PASSWORD_CHARS;
use vstd::prelude::*;

verus! {

/// Whether argon2 accepts `password` against the PHC string `phc`: the string
/// parses, and hashing the password with its algorithm, parameters and salt
/// gives its output.
pub uninterp spec fn argon2_accepts(password: Seq<char>, phc: Seq<char>) -> bool;

/// Relies on `SaltString::generate` and `Argon2::hash_password` (argon2 0.5):
/// a fresh random salt, the default Argon2id parameters, and a PHC string that
/// `PasswordHash::new` parses back and `verify_password` accepts for the same
/// password. Nothing is promised of the salt. With a valid generated salt and
/// the default parameters, hashing fails only on a password over `u32::MAX`
/// bytes, which the bound here rules out (a character is at most four bytes).
#[verifier::external_body]
pub(crate) fn hash_password(password: &str) -> (r: String)
    requires
        password@.len() <= MAX_PASSWORD_CHARS,
    ensures
        argon2_accepts(password@, r@),
{
    let salt = SaltString::generate(&mut rand::rngs::OsRng);
    Argon2::default().hash_password(password.as_bytes(), &salt).expect("bounded password").to_string()
}

/// Relies on `PasswordHash::new` and `Argon2::verify_password` (argon2 0.5):
/// a malformed PHC string gives `false`, never a panic.
#[verifier::external_body]
pub(crate) fn verify_password(password: &str, phc: &str) -> (r: bool)
    ensures
        r == argon2_accepts(password@, phc@),
{
    match PasswordHash::new(phc) {
        Ok(parsed) => Argon2::default().verify_password(password.as_bytes(), &parsed).is_ok(),
        Err(_) => false,
    }
}

} // verus!
