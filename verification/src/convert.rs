//! Traits for retryable conversions between types.
//!
//! Much like the standard library's fallible conversion pair, the traits in
//! this module provide a way to convert from one type to another, albeit
//! with three-way error granularity: a conversion may succeed, fail in a
//! retryable way (a `Mistake`, which gives consuming conversions the chance
//! to hand the input back), or fail for good (a `Failure`).
//!
//! Library authors should prefer implementing [`AttemptFrom`] over
//! [`AttemptInto`]: a blanket implementation derives the latter from the
//! former, so implementing one yields both.
//!
//! Any ordinary total conversion satisfies the retryable contract for free:
//! a second blanket implementation treats both error channels of an
//! [`Into`] conversion as uninhabited.

use crate::outcome::Outcome;
use vstd::prelude::*;

verus! {

/// The retryable analogue of the standard library's fallible
/// "convert-from" trait, and the reciprocal of [`AttemptInto`].
///
/// Implement this to define how values of another type convert into
/// `Self`, with the possibility of a retryable or a fatal outcome.
pub trait AttemptFrom<T>: Sized {
    /// The *retryable* error type
    type Mistake;

    /// The *failure* error type
    type Failure;

    /// Performs the conversion
    fn attempt_from(value: T) -> Outcome<Self, Self::Mistake, Self::Failure>;
}

/// An attempted conversion that consumes `self`. The retryable analogue of
/// the standard library's fallible "convert-into" trait.
///
/// Do not implement this directly: implementing [`AttemptFrom`] on the
/// target type yields an equivalent `AttemptInto` implementation for free.
pub trait AttemptInto<T>: Sized {
    /// The type returned in the event of a conversion error where the
    /// caller *may* retry the conversion.
    type Mistake;

    /// The type returned in the event of a conversion error where the
    /// caller *may not* retry the conversion.
    type Failure;

    /// Performs the conversion.
    fn attempt_into(self) -> Outcome<T, Self::Mistake, Self::Failure>;
}

impl<T, U> AttemptInto<U> for T where U: AttemptFrom<T> {
    type Mistake = <U as AttemptFrom<T>>::Mistake;

    type Failure = <U as AttemptFrom<T>>::Failure;

    fn attempt_into(self) -> Outcome<U, Self::Mistake, Self::Failure> {
        U::attempt_from(self)
    }
}

impl<T, U> AttemptFrom<U> for T where U: Into<T> {
    type Mistake = core::convert::Infallible;

    type Failure = core::convert::Infallible;

    fn attempt_from(value: U) -> Outcome<Self, Self::Mistake, Self::Failure> {
        Outcome::Success(value.into())
    }
}

} // verus!
