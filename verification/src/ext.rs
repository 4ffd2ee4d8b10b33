//! Interop with the standard library's lock results.
//!
//! A failed `try_lock` distinguishes a lock that is merely busy from one
//! whose holder panicked: the former is retryable and the latter is fatal,
//! which is exactly the split an [`Outcome`](crate::outcome::Outcome)
//! keeps. The conversions here move between the two shapes.

use crate::aberration::Aberration;
use crate::outcome::Outcome;
use vstd::prelude::*;

verus! {

#[verifier::external_type_specification]
#[verifier::external_body]
#[verifier::reject_recursive_types(T)]
pub struct ExTryLockError<T>(std::sync::TryLockError<T>);

#[verifier::external_type_specification]
#[verifier::external_body]
#[verifier::reject_recursive_types(T)]
pub struct ExPoisonError<T>(std::sync::PoisonError<T>);

/// The outcome shape of a `try_lock` attempt: the guard on success, the
/// busy-lock error on a retryable miss, the poison error on a fatal one.
pub type TryLockOutcome<T> = Outcome<T, std::sync::TryLockError<T>, std::sync::PoisonError<T>>;

/// Relies on std::sync::TryLockError having exactly the two variants its
/// documentation lists: `WouldBlock`, which is retryable, and `Poisoned`,
/// which carries the poison error and is fatal. A locked result becomes a
/// `Success`, a busy lock a `Mistake`, and a poisoned lock a `Failure`.
#[verifier::external_body]
pub fn outcome_from_try_lock<T>(result: std::sync::TryLockResult<T>) -> (r: TryLockOutcome<T>)
    ensures
        result is Ok ==> r is Success,
        result is Err ==> !(r is Success),
        r matches Outcome::Success(g) ==> (result matches Ok(g2) && g2 == g),
        r matches Outcome::Mistake(e) ==> (result matches Err(e2) && e == e2),
{
    match result {
        Ok(guard) => Outcome::Success(guard),
        Err(m @ std::sync::TryLockError::WouldBlock) => Outcome::Mistake(m),
        Err(std::sync::TryLockError::Poisoned(f)) => Outcome::Failure(f),
    }
}

/// Relies on std::sync::TryLockError's `Poisoned` variant wrapping a poison
/// error. A `Success` becomes the locked result; either error state becomes
/// a failed one.
#[verifier::external_body]
pub fn try_lock_from_outcome<T>(outcome: TryLockOutcome<T>) -> (r: std::sync::TryLockResult<T>)
    ensures
        outcome is Success ==> r is Ok,
        !(outcome is Success) ==> r is Err,
        r matches Ok(g) ==> (outcome matches Outcome::Success(s) && s == g),
{
    match outcome {
        Outcome::Success(s) => Ok(s),
        Outcome::Mistake(m @ std::sync::TryLockError::WouldBlock) => Err(m),
        Outcome::Mistake(std::sync::TryLockError::Poisoned(f)) => Err(
            std::sync::TryLockError::Poisoned(f),
        ),
        Outcome::Failure(f) => Err(std::sync::TryLockError::Poisoned(f)),
    }
}

/// Relies on std::sync::TryLockError having exactly the two variants its
/// documentation lists. A busy lock becomes a `Mistake` carrying the error
/// unchanged; a poisoned one becomes a `Failure` carrying the unwrapped
/// poison error.
#[verifier::external_body]
pub fn aberration_from_try_lock<T>(error: std::sync::TryLockError<T>) -> (r: Aberration<std::sync::TryLockError<T>, std::sync::PoisonError<T>>)
    ensures
        r matches Aberration::Mistake(e) ==> e == error,
{
    match error {
        x @ std::sync::TryLockError::WouldBlock => Aberration::Mistake(x),
        std::sync::TryLockError::Poisoned(p) => Aberration::Failure(p),
    }
}

} // verus!
