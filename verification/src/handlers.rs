//! Which status answers which result of a store.
//!
//! A handler takes the result of one store operation and makes the answer of
//! it: a status, and with it what the operation handed out, where it
//! succeeded. Of a failure the answer holds the status alone, and nothing of
//! the failure's detail.

use vstd::prelude::*;

pub mod blog;
pub mod tag;

use crate::repositories::ErrorView;
use crate::repositories::RepositoryError;

verus! {

/// The status of a read that succeeded.
pub const OK: u16 = 200;

/// The status of a creation that succeeded.
pub const CREATED: u16 = 201;

/// The status of a deletion that succeeded.
pub const NO_CONTENT: u16 = 204;

/// The status of an operation on a record that is not there.
pub const NOT_FOUND: u16 = 404;

/// The status of any other failure.
pub const INTERNAL_SERVER_ERROR: u16 = 500;

/// The status that answers a failure: `NOT_FOUND` for `NotFound`, and
/// `INTERNAL_SERVER_ERROR` for every other.
pub open spec fn failure_status(error: ErrorView) -> u16 {
    match error {
        ErrorView::NotFound(_) => NOT_FOUND,
        _ => INTERNAL_SERVER_ERROR,
    }
}

/// The status that answers a failure.
pub fn status_of(error: &RepositoryError) -> (status: u16)
    ensures
        status == failure_status(error@),
{
    match error {
        RepositoryError::NotFound(_) => NOT_FOUND,
        _ => INTERNAL_SERVER_ERROR,
    }
}

/// The answer to a result: what succeeded goes out under the status `success`,
/// and a failure under its own status.
pub fn respond<T>(outcome: Result<T, RepositoryError>, success: u16) -> (response: Result<
    (u16, T),
    u16,
>)
    ensures
        response == match outcome {
            Ok(value) => Ok::<(u16, T), u16>((success, value)),
            Err(error) => Err::<(u16, T), u16>(failure_status(error@)),
        },
{
    match outcome {
        Ok(value) => Ok((success, value)),
        Err(error) => Err(status_of(&error)),
    }
}

} // verus!
