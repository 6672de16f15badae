//! Password hashing: Argon2 with per-password random salts, behind exact
//! contracts over two named facts about the encoded PHC string.

use vstd::prelude::*;
use vstd::string::StringExecFns;

use crate::application::PasswordHasher;
use crate::domain::DomainError;

verus! {

/// What argon2's `verify_password` decides for a password and a parseable
/// PHC-encoded hash string: a function of the two strings alone.
pub uninterp spec fn password_matches(password: Seq<char>, hash: Seq<char>) -> bool;

/// Whether PHC parsing (`PasswordHash::new`) accepts a string as an encoded
/// hash: a function of the string alone.
pub uninterp spec fn hash_parses(hash: Seq<char>) -> bool;

/// Relies on argon2's `Argon2::hash_password` (default Argon2id parameters,
/// fresh random salt): on success the returned PHC string parses back with
/// `PasswordHash::new` and verifies against the hashed password. The string
/// itself depends on the random salt, so nothing more is stated of it.
#[verifier::external_body]
fn argon2_hash(password: &str) -> (r: Result<String, String>)
    ensures
        r matches Ok(h) ==> hash_parses(h@) && password_matches(password@, h@),
{
    match argon2::PasswordHasher::hash_password(&argon2::Argon2::default(), password.as_bytes()) {
        Ok(h) => Ok(h.to_string()),
        Err(e) => Err(e.to_string()),
    }
}

/// Relies on `PasswordHash::new`, whose acceptance `hash_parses` names, and
/// on argon2's `verify_password`, whose decision `password_matches` names:
/// both are functions of the password and hash strings alone.
#[verifier::external_body]
fn argon2_verify(password: &str, hash: &str) -> (r: Result<bool, String>)
    ensures
        r is Ok <==> hash_parses(hash@),
        r matches Ok(b) ==> b == password_matches(password@, hash@),
{
    match argon2::PasswordHash::new(hash) {
        Ok(parsed) => Ok(
            argon2::PasswordVerifier::verify_password(
                &argon2::Argon2::default(),
                password.as_bytes(),
                &parsed,
            ).is_ok(),
        ),
        Err(e) => Err(e.to_string()),
    }
}

/// Stateless Argon2 password hasher using the algorithm's default
/// parameters (Argon2id, version 19).
#[derive(Debug)]
pub struct ArgonPasswordHasher;

impl ArgonPasswordHasher {
    pub fn new() -> (r: Self) {
        ArgonPasswordHasher
    }
}

impl Default for ArgonPasswordHasher {
    fn default() -> (r: Self)
        ensures
            r == ArgonPasswordHasher,
    {
        ArgonPasswordHasher::new()
    }
}

impl PasswordHasher for ArgonPasswordHasher {
    open spec fn spec_matches(&self, password: Seq<char>, hash: Seq<char>) -> bool {
        password_matches(password, hash)
    }

    /// Hash a password; the result is a PHC string that parses and verifies
    /// against the same password.
    fn hash(&self, password: &str) -> (r: Result<String, DomainError>)
        ensures
            r matches Ok(h) ==> hash_parses(h@) && password_matches(password@, h@),
    {
        match argon2_hash(password) {
            Ok(h) => Ok(h),
            Err(e) => Err(
                DomainError::internal(
                    String::from_str("Password hashing failed: ").concat(e.as_str()),
                ),
            ),
        }
    }

    /// Verify a password against a stored hash; `Err` exactly when the
    /// stored hash string is not a parseable encoded hash.
    fn verify(&self, password: &str, hash: &str) -> (r: Result<bool, DomainError>)
        ensures
            r is Ok <==> hash_parses(hash@),
    {
        match argon2_verify(password, hash) {
            Ok(b) => Ok(b),
            Err(e) => Err(
                DomainError::internal(
                    String::from_str("Invalid password hash format: ").concat(e.as_str()),
                ),
            ),
        }
    }
}

}
