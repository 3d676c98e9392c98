//! What the user table's answers mean for a request.

use vstd::prelude::*;

use crate::error::AppError;
use crate::text::{contains, contains_seq};

verus! {

/// The part of the database's message that marks a violated uniqueness
/// constraint, here: a user name that is already registered.
pub const UNIQUE_VIOLATION: &'static str = "UNIQUE constraint";

/// The outcome of inserting a user, given the database error's message if
/// the insert failed: a uniqueness violation means the name is taken, any
/// other failure is internal.
pub fn create_user_outcome(db_error: Option<String>) -> (r: Result<(), AppError>)
    ensures
        match db_error {
            None => r is Ok,
            Some(msg) => if contains_seq(msg@, UNIQUE_VIOLATION@) {
                r matches Err(e) && e is DuplicateUser
            } else {
                r matches Err(AppError::Internal(m)) && m@ == msg@
            },
        },
{
    match db_error {
        None => Ok(()),
        Some(msg) => {
            if contains(msg.as_str(), UNIQUE_VIOLATION) {
                Err(AppError::DuplicateUser)
            } else {
                Err(AppError::Internal(msg))
            }
        },
    }
}

} // verus!
