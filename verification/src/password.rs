//! Password hashing and checking with bcrypt.

use vstd::prelude::*;

use crate::error::AppError;

verus! {

/// `bcrypt::BcryptError`, the error of hashing or checking a password.
#[verifier::external_type_specification]
#[verifier::external_body]
pub struct ExBcryptError(bcrypt::BcryptError);

/// What `bcrypt::verify(password, hash)` answers: `Some(matches)`, or `None`
/// where it fails (a stored hash that is not a well-formed bcrypt hash).
pub uninterp spec fn bcrypt_verify_result(password: Seq<char>, hash: Seq<char>) -> Option<bool>;

/// How every hash made with the default cost starts: version `2b`, cost `12`.
pub const DEFAULT_HASH_PREFIX: &'static str = "$2b$12$";

/// The length of a bcrypt hash: the prefix, 22 characters of salt and 31 of digest.
pub const HASH_LEN: usize = 60;

/// `h` has the form of a hash made with the default cost: 60 characters
/// starting with `$2b$12$`.
pub open spec fn is_default_cost_hash(h: Seq<char>) -> bool {
    h.len() == HASH_LEN && h.subrange(0, 7) == DEFAULT_HASH_PREFIX@
}

/// How the text of a failure of the random source starts.
pub const RAND_ERROR_PREFIX: &'static str = "Rand error: ";

/// `m` describes a failure of the random source that salts are drawn from.
pub open spec fn is_random_source_failure(m: Seq<char>) -> bool {
    RAND_ERROR_PREFIX@.len() <= m.len() && m.subrange(0, RAND_ERROR_PREFIX@.len() as int)
        == RAND_ERROR_PREFIX@
}

/// `bcrypt::hash(password, bcrypt::DEFAULT_COST)`: a fresh hash of
/// `password` with a random salt; a failure is given as its `Display` text.
/// Trusted: a hash it returns is one that `bcrypt::verify` accepts for the
/// same password (the source formats cost, salt and digest so that `verify`
/// recomputes the same digest), and it is `$2b$12$` (version, `DEFAULT_COST`
/// of 12 with two digits) followed by 22 characters of salt and 31 of digest,
/// 60 in all. It fails only when drawing the salt from the random source
/// fails (the cost 12 is allowed, and `hash` truncates long passwords rather
/// than refusing them), and that error is `BcryptError::Rand`, whose text
/// starts with `Rand error: `. Whether the random source fails, and which
/// salt it gives, is not stated.
#[verifier::external_body]
fn bcrypt_hash(password: &str) -> (r: Result<String, String>)
    ensures
        match r {
            Ok(h) => bcrypt_verify_result(password@, h@) == Some(true) && is_default_cost_hash(h@),
            Err(t) => is_random_source_failure(t@),
        },
{
    match bcrypt::hash(password, bcrypt::DEFAULT_COST) {
        Ok(h) => Ok(h),
        Err(e) => Err(e.to_string()),
    }
}

/// `bcrypt::verify(password, hash)`.
/// Trusted: its answer is `bcrypt_verify_result` of the two arguments, with
/// the error case as `None`.
#[verifier::external_body]
fn bcrypt_verify(password: &str, hash: &str) -> (r: Result<bool, bcrypt::BcryptError>)
    ensures
        match r {
            Ok(b) => bcrypt_verify_result(password@, hash@) == Some(b),
            Err(_) => bcrypt_verify_result(password@, hash@) is None,
        },
{
    bcrypt::verify(password, hash)
}

/// The text of a `bcrypt::BcryptError` (its `Display`).
/// Trusted: the text is not empty (every arm of the source's `Display` writes
/// a fixed non-empty description first). Which text it is depends on the
/// error, which is opaque here, and is not stated.
#[verifier::external_body]
fn bcrypt_error_text(err: &bcrypt::BcryptError) -> (t: String)
    ensures
        t@.len() > 0,
{
    err.to_string()
}

impl AppError {
    /// A hashing failure is an internal error that carries its description,
    /// the error's `Display` text.
    pub fn from_bcrypt(err: bcrypt::BcryptError) -> (e: AppError)
        ensures
            e matches AppError::Internal(m) && m@.len() > 0,
    {
        AppError::Internal(bcrypt_error_text(&err))
    }
}

/// A fresh bcrypt hash of `password` with the default cost. Every password
/// is hashed; the only failure is one of the random source, an internal
/// error that carries its description.
pub fn hash_password(password: &str) -> (r: Result<String, AppError>)
    ensures
        match r {
            Ok(h) => bcrypt_verify_result(password@, h@) == Some(true) && is_default_cost_hash(h@),
            Err(e) => e matches AppError::Internal(m) && is_random_source_failure(m@),
        },
{
    match bcrypt_hash(password) {
        Ok(h) => Ok(h),
        Err(t) => Err(AppError::Internal(t)),
    }
}

/// Whether `password` matches the stored `hash`; a hash that bcrypt cannot
/// read is an internal error.
pub fn verify_password(password: &str, hash: &str) -> (r: Result<bool, AppError>)
    ensures
        match bcrypt_verify_result(password@, hash@) {
            Some(b) => r == Ok::<bool, AppError>(b),
            None => r matches Err(e) && e is Internal,
        },
{
    match bcrypt_verify(password, hash) {
        Ok(b) => Ok(b),
        Err(e) => Err(AppError::from_bcrypt(e)),
    }
}

} // verus!
