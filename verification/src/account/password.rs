//! Passwords, hashed and checked by `bcrypt`.

use crate::error::SandboxError;
use vstd::prelude::*;
use vstd::string::*;

verus! {

/// The cost at which passwords are hashed.
pub const HASH_COST: u32 = 4;

/// The length of a bcrypt hash, in chars.
pub const HASH_LENGTH: usize = 60;

/// The error of `bcrypt`.
#[verifier::external_type_specification]
#[verifier::external_body]
pub struct ExBcryptError(bcrypt::BcryptError);

/// What `bcrypt::verify` answers for a password and a hash: whether they
/// match, or nothing where it fails.
pub uninterp spec fn bcrypt_verdict(password: Seq<char>, hash: Seq<char>) -> Option<bool>;

/// Whether a password is accepted for a stored hash: only where `bcrypt`
/// says that they match.
pub open spec fn password_matches(password: Seq<char>, hash: Seq<char>) -> bool {
    bcrypt_verdict(password, hash) == Some(true)
}

/// Calls `bcrypt::hash`. The salt is random, so the hash is not named. The
/// contract claims what the crate's source shows of every hash: it has 60
/// chars.
#[verifier::external_body]
fn bcrypt_hash(password: &str, cost: u32) -> (hashed: Result<String, bcrypt::BcryptError>)
    ensures
        hashed matches Ok(hash) ==> hash@.len() == 60,
{
    bcrypt::hash(password, cost)
}

/// Calls `bcrypt::verify`. The contract names the answer, and claims of it
/// what the crate's source shows: a hash that has not 60 chars is refused.
#[verifier::external_body]
fn bcrypt_verify(password: &str, hash: &str) -> (verdict: Result<bool, bcrypt::BcryptError>)
    ensures
        match verdict {
            Ok(matches) => bcrypt_verdict(password@, hash@) == Some(matches),
            Err(_) => bcrypt_verdict(password@, hash@) is None,
        },
        hash@.len() != 60 ==> verdict is Err,
{
    bcrypt::verify(password, hash)
}

/// Writes a `bcrypt::BcryptError` out with its `Display`. Nothing is
/// claimed of the words.
#[verifier::external_body]
fn bcrypt_error_text(error: &bcrypt::BcryptError) -> (text: String) {
    format!("{}", error)
}

/// Hashes a password. The hash differs from call to call; it has 60 chars.
/// A failure of the hashing is reported as an upstream error.
pub fn hash_password(password: &str) -> (hashed: Result<String, SandboxError>)
    ensures
        match hashed {
            Ok(hash) => hash@.len() == HASH_LENGTH,
            Err(error) => error@ is Upstream,
        },
{
    match bcrypt_hash(password, HASH_COST) {
        Ok(hash) => Ok(hash),
        Err(error) => Err(SandboxError::Upstream(bcrypt_error_text(&error))),
    }
}

/// Reads the answer of a verification: accepted only if it succeeded and
/// says that password and hash match.
pub fn verdict_accepts(verdict: &Result<bool, bcrypt::BcryptError>) -> (accepted: bool)
    ensures
        accepted == (verdict matches Ok(same) && *same),
{
    match verdict {
        Ok(matches) => *matches,
        Err(_) => false,
    }
}

/// Tests a password against a stored hash. A hash that `bcrypt` cannot read
/// accepts no password; one that has not 60 chars is such a hash.
pub fn verify_password(password: &str, hashed_password: &str) -> (accepted: bool)
    ensures
        accepted == password_matches(password@, hashed_password@),
        hashed_password@.len() != HASH_LENGTH ==> !accepted,
{
    let verdict = bcrypt_verify(password, hashed_password);
    verdict_accepts(&verdict)
}

} // verus!
