//! The two ways a failure leaves a function: passed on from a nested call, or
//! raised on the spot.
//!
//! Each function here returns the result that the caller's function is to
//! return on failure; `?` on it does the early return.

use vstd::prelude::*;
use crate::error::{FromError, StandardError, StandardResult};

verus! {

/// Passes a nested result on. Success keeps its payload; a failure is
/// converted by the rule for its type.
pub fn propagate<T, E>(result: Result<T, E>) -> (outcome: StandardResult<T>)
    where
        StandardError: FromError<E>,
    ensures
        outcome == match result {
            Ok(value) => Ok::<T, StandardError>(value),
            Err(err) => Err::<T, StandardError>(StandardError::converted(err)),
        },
{
    match result {
        Ok(value) => Ok(value),
        Err(err) => Err(StandardError::from_error(err)),
    }
}

/// Passes a nested result on, with `replacement` in place of the failure.
/// Success keeps its payload; on failure the error of the nested call is
/// dropped, and the error returned is the conversion of `replacement`.
pub fn propagate_with<T, E, R>(result: Result<T, E>, replacement: R) -> (outcome: StandardResult<T>)
    where
        StandardError: FromError<R>,
    ensures
        outcome == match result {
            Ok(value) => Ok::<T, StandardError>(value),
            Err(_) => Err::<T, StandardError>(StandardError::converted(replacement)),
        },
{
    match result {
        Ok(value) => Ok(value),
        Err(_) => Err(StandardError::from_error(replacement)),
    }
}

/// Fails on the spot: the result is always a failure, and its error is the
/// conversion of `value`.
pub fn fail<T, V>(value: V) -> (outcome: StandardResult<T>)
    where
        StandardError: FromError<V>,
    ensures
        outcome == Err::<T, StandardError>(StandardError::converted(value)),
{
    Err(StandardError::from_error(value))
}

} // verus!
