//! Password hashing, delegated to the `bcrypt` crate.
//!
//! The two private functions of this module call `bcrypt::hash` and
//! `bcrypt::verify`; their contracts are taken for granted, not proved. The
//! public functions hand their answers on as plain values.

use vstd::prelude::*;

verus! {

#[verifier::external_type_specification]
#[verifier::external_body]
pub struct ExBcryptError(bcrypt::BcryptError);

/// What `bcrypt::verify` answers for a password and a stored hash: whether
/// they match, or `None` where it reports an error (a hash that is not in
/// bcrypt's format).
pub uninterp spec fn bcrypt_verdict(password: Seq<char>, hash: Seq<char>) -> Option<bool>;

/// Calls `bcrypt::hash` at the crate's default cost. The salt is drawn at
/// random, so two calls differ; what is claimed is only that a hash it
/// returns is one that `bcrypt::verify` accepts for the same password.
#[verifier::external_body]
fn hash_password(password: &str) -> (hashed: Result<String, bcrypt::BcryptError>)
    ensures
        hashed matches Ok(h) ==> bcrypt_verdict(password@, h@) == Some(true),
{
    bcrypt::hash(password, bcrypt::DEFAULT_COST)
}

/// Calls `bcrypt::verify`, which recomputes the hash of `password` under the
/// salt and cost recorded in `hash` and compares in constant time. Its
/// answer depends on the two arguments alone and is named `bcrypt_verdict`.
#[verifier::external_body]
fn check_password(password: &str, hash: &str) -> (checked: Result<
    bool,
    bcrypt::BcryptError,
>)
    ensures
        checked matches Ok(matched) ==> bcrypt_verdict(password@, hash@) == Some(matched),
        checked is Err ==> bcrypt_verdict(password@, hash@) is None,
{
    bcrypt::verify(password, hash)
}

/// Hashes `password` under a fresh random salt: the hash, or `None` where
/// hashing failed. A hash that comes back is one that verifies for the same
/// password.
pub fn hashed(password: &str) -> (hash: Option<String>)
    ensures
        hash matches Some(h) ==> bcrypt_verdict(password@, h@) == Some(true),
{
    match hash_password(password) {
        Ok(h) => Some(h),
        Err(_) => None,
    }
}

/// Checks `password` against a stored hash: whether they match, or `None`
/// where the check itself failed.
pub fn verdict(password: &str, hash: &str) -> (answer: Option<bool>)
    ensures
        answer == bcrypt_verdict(password@, hash@),
{
    match check_password(password, hash) {
        Ok(matched) => Some(matched),
        Err(_) => None,
    }
}

} // verus!
