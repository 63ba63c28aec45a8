//! Password hashing for stored credentials.

use vstd::prelude::*;
use crate::error::CustomError;

verus! {

/// What `bcrypt::verify` decides for a password and a stored hash:
/// `Some(matches)`, or `None` when the hash cannot be read.
pub uninterp spec fn bcrypt_verdict(input: (Seq<char>, Seq<char>)) -> Option<bool>;

/// Relies on `bcrypt::hash` at `bcrypt::DEFAULT_COST` (12): a hash under a
/// fresh random salt, written `$2b$12$` then 22 salt and 31 hash characters,
/// which `bcrypt::verify` accepts for the same password; or the crate's error
/// as text.
#[verifier::external_body]
fn bcrypt_hash(password: &str) -> (r: Result<String, String>)
    ensures
        r matches Ok(h) ==> is_fresh_hash(password@, h@),
{
    match bcrypt::hash(password, bcrypt::DEFAULT_COST) {
        Ok(h) => Ok(h),
        Err(e) => Err(e.to_string()),
    }
}

/// Whether `h` is a cost-12 bcrypt hash, version `2b`, of `password`.
pub open spec fn is_fresh_hash(password: Seq<char>, h: Seq<char>) -> bool {
    &&& h.len() == 60
    &&& h.subrange(0, 7) == "$2b$12$"@
    &&& bcrypt_verdict((password, h)) == Some(true)
}

/// Relies on `bcrypt::verify`: whether `password` hashes to `hash` under the
/// cost and salt that `hash` records, an error when `hash` cannot be read.
#[verifier::external_body]
fn bcrypt_verify(password: &str, hash: &str) -> (r: Result<bool, String>)
    ensures
        match r {
            Ok(b) => bcrypt_verdict((password@, hash@)) == Some(b),
            Err(_) => bcrypt_verdict((password@, hash@)) is None,
        },
{
    match bcrypt::verify(password, hash) {
        Ok(b) => Ok(b),
        Err(e) => Err(e.to_string()),
    }
}

/// A salted hash of `s` that `verify_hash` accepts for `s`; fails when the
/// hashing library does (it cannot draw a salt).
pub fn generate_hash(s: &str) -> (r: Result<String, CustomError>)
    ensures
        r matches Ok(h) ==> is_fresh_hash(s@, h@),
{
    match bcrypt_hash(s) {
        Ok(h) => Ok(h),
        Err(e) => Err(CustomError::from_str(e.as_str())),
    }
}

/// Succeeds exactly when the verdict is a match.
pub fn accept_verdict(verdict: Option<bool>) -> (r: Result<(), CustomError>)
    ensures
        r is Ok <==> verdict == Some(true),
{
    match verdict {
        Some(true) => Ok(()),
        Some(false) => Err(CustomError::from_str("invalid password")),
        None => Err(CustomError::from_str("unreadable password hash")),
    }
}

/// Succeeds exactly when `s` is the password that `hash` was made from.
pub fn verify_hash(s: &str, hash: &str) -> (r: Result<(), CustomError>)
    ensures
        r is Ok <==> bcrypt_verdict((s@, hash@)) == Some(true),
{
    let verdict = match bcrypt_verify(s, hash) {
        Ok(b) => Some(b),
        Err(_) => None,
    };
    accept_verdict(verdict)
}

} // verus!
