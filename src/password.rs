//! Salted, adaptive password hashing (bcrypt at cost 12).
use vstd::prelude::*;
use crate::text::digit_char;

verus! {

/// `bcrypt::BcryptError`, carried opaque and mapped to `PasswordError`.
#[verifier::external_type_specification]
#[verifier::external_body]
pub struct ExBcryptError(bcrypt::BcryptError);

/// The work factor of new hashes.
pub const HASH_COST: u32 = 12;

/// Why hashing or checking a password could not be done. Never a "wrong
/// password": that is `Ok(false)` of `verify_password`.
#[derive(Debug, Clone, Copy, PartialEq, Eq)]
pub enum PasswordError {
    /// The digest is not a bcrypt hash this library can read.
    MalformedHash,
    /// Hashing failed inside the hash function.
    HashFailed,
}

/// What `bcrypt::verify` decides of a password and a digest: `Some(matches)`,
/// or `None` where the digest cannot be read.
pub uninterp spec fn bcrypt_verdict(password: Seq<char>, hash: Seq<char>) -> Option<bool>;

/// The start of a digest at `cost` (two digits): `$2b$`, the cost, `$`.
pub open spec fn digest_prefix(cost: nat) -> Seq<char> {
    "$2b$"@ + seq![digit_char((cost / 10) as int), digit_char((cost % 10) as int), '$']
}

/// Relies on `bcrypt::hash`: a new digest of `password` under a fresh random
/// salt, written as `$2b$<cost>$<salt><hash>` with the cost in two digits,
/// 22 characters of salt and 31 of hash (60 in all). Which salt is drawn is not
/// known beforehand; `bcrypt::verify` reads that salt and cost back from the
/// digest and recomputes, so it accepts `password` against it.
#[verifier::external_body]
fn bcrypt_hash(password: &str, cost: u32) -> (r: Result<String, bcrypt::BcryptError>)
    ensures
        r matches Ok(h) ==> bcrypt_verdict(password@, h@) == Some(true),
        r matches Ok(h) ==> h@.len() == 60 && h@.subrange(0, 7) == digest_prefix(cost as nat),
{
    bcrypt::hash(password, cost)
}

/// Relies on `bcrypt::verify`: recomputes the digest under the salt and cost
/// that `hash` embeds and compares; an error where `hash` cannot be read.
#[verifier::external_body]
fn bcrypt_verify(password: &str, hash: &str) -> (r: Result<bool, bcrypt::BcryptError>)
    ensures
        match r {
            Ok(b) => bcrypt_verdict(password@, hash@) == Some(b),
            Err(_) => bcrypt_verdict(password@, hash@) is None,
        },
{
    bcrypt::verify(password, hash)
}

/// Hashes a password with a fresh salt at cost 12: a 60-character digest
/// starting `$2b$12$`, which verifies against the password it was made from.
pub fn hash_password(password: &str) -> (r: Result<String, PasswordError>)
    ensures
        r is Err ==> r == Err::<String, PasswordError>(PasswordError::HashFailed),
        r matches Ok(h) ==> bcrypt_verdict(password@, h@) == Some(true),
        r matches Ok(h) ==> h@.len() == 60 && h@.subrange(0, 7) == digest_prefix(12),
{
    match bcrypt_hash(password, HASH_COST) {
        Ok(h) => Ok(h),
        Err(_) => Err(PasswordError::HashFailed),
    }
}

/// Checks a password against a digest: `Ok(true)` on a match, `Ok(false)` on
/// a mismatch, an error where the digest is malformed.
pub fn verify_password(password: &str, hash: &str) -> (r: Result<bool, PasswordError>)
    ensures
        match bcrypt_verdict(password@, hash@) {
            Some(b) => r == Ok::<bool, PasswordError>(b),
            None => r == Err::<bool, PasswordError>(PasswordError::MalformedHash),
        },
{
    match bcrypt_verify(password, hash) {
        Ok(b) => Ok(b),
        Err(_) => Err(PasswordError::MalformedHash),
    }
}

} // verus!
