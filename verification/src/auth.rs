use vstd::prelude::*;

use argon2::password_hash::{PasswordHash, PasswordHasher, PasswordVerifier, SaltString};
use argon2::Argon2;
use rand::rngs::OsRng;

verus! {

/// Why hashing or checking an administrator password did not succeed.
#[derive(Debug, Clone, Copy, PartialEq, Eq)]
pub enum PasswordError {
    HashingFailed,
    VerificationFailed,
}

impl PasswordError {
    /// The message shown to the operator.
    pub fn message(&self) -> (r: &'static str)
        ensures
            r@ == match self {
                PasswordError::HashingFailed => "password hashing failed"@,
                PasswordError::VerificationFailed => "password verification failed"@,
            },
    {
        match self {
            PasswordError::HashingFailed => "password hashing failed",
            PasswordError::VerificationFailed => "password verification failed",
        }
    }
}

/// Whether `password_hash` parses as a PHC string and default Argon2, run with the
/// algorithm, version, parameters and salt that the string records, reproduces the
/// output that it records for `password`.
pub uninterp spec fn argon2_accepts(password: Seq<char>, password_hash: Seq<char>) -> bool;

/// Hashes `password` with `Argon2::default()` over a fresh random 16-byte salt
/// (`SaltString::generate` with `OsRng`, then `PasswordHasher::hash_password`) and
/// renders the PHC string; `None` where argon2 reports an error.
/// Claimed: with the default parameters and a 16-byte salt, argon2's only error
/// is a password of more than `0xFFFF_FFFF` bytes (`verify_inputs`), so a hash
/// comes back exactly for the other passwords; and a string that comes back is
/// accepted for the same password by the check of [`argon2_check`], since that
/// check recomputes the hash with the salt and parameters written into the
/// string. Which string comes back depends on the salt and is left unsaid.
#[verifier::external_body]
fn argon2_hash(password: &str) -> (r: Option<String>)
    ensures
        r is Some <==> vstd::utf8::encode_utf8(password@).len() <= MAX_PASSWORD_BYTES,
        r matches Some(h) ==> argon2_accepts(password@, h@),
{
    let salt = SaltString::generate(&mut OsRng);
    match Argon2::default().hash_password(password.as_bytes(), &salt) {
        Ok(hash) => Some(hash.to_string()),
        Err(_) => None,
    }
}

/// Parses `password_hash` with `PasswordHash::new` and checks `password` against it
/// with `PasswordVerifier::verify_password` of `Argon2::default()`.
/// Claimed: the answer is the named predicate of the two arguments; argon2 has no
/// state and no randomness in this check.
#[verifier::external_body]
fn argon2_check(password: &str, password_hash: &str) -> (r: bool)
    ensures
        r == argon2_accepts(password@, password_hash@),
{
    match PasswordHash::new(password_hash) {
        Ok(parsed) => Argon2::default().verify_password(password.as_bytes(), &parsed).is_ok(),
        Err(_) => false,
    }
}

/// The longest password argon2 hashes, in UTF-8 bytes.
pub const MAX_PASSWORD_BYTES: usize = 0xFFFF_FFFF;

/// Hashes a password for storage; it fails only for a password longer than
/// argon2 takes.
pub fn hash_password(password: &str) -> (r: Result<String, PasswordError>)
    ensures
        r is Ok <==> vstd::utf8::encode_utf8(password@).len() <= MAX_PASSWORD_BYTES,
        match r {
            Ok(h) => argon2_accepts(password@, h@),
            Err(e) => e == PasswordError::HashingFailed,
        },
{
    match argon2_hash(password) {
        Some(h) => Ok(h),
        None => Err(PasswordError::HashingFailed),
    }
}

/// What checking `password` against a stored hash answers.
pub open spec fn password_verdict(password: Seq<char>, password_hash: Seq<char>) -> Result<(), PasswordError> {
    if argon2_accepts(password, password_hash) {
        Ok(())
    } else {
        Err(PasswordError::VerificationFailed)
    }
}

/// Checks a password against a stored hash.
pub fn verify_password(password: &str, password_hash: &str) -> (r: Result<(), PasswordError>)
    ensures
        r == password_verdict(password@, password_hash@),
{
    if argon2_check(password, password_hash) {
        Ok(())
    } else {
        Err(PasswordError::VerificationFailed)
    }
}

/// A stored hash that hashing produced for a password is accepted when that same
/// password is checked against it.
pub proof fn lemma_hashed_password_verifies(password: Seq<char>, stored: Seq<char>)
    requires
        argon2_accepts(password, stored),
    ensures
        password_verdict(password, stored) == Ok::<(), PasswordError>(()),
{
}

} // verus!
