//! The error half of an [`Outcome`](crate::outcome::Outcome): a two-state sum
//! of a retryable `Mistake` and a fatal `Failure`.

use crate::outcome::Outcome;
use vstd::prelude::*;

verus! {

/// `Aberration` is a type that can represent a [`Mistake`] or a [`Failure`].
///
/// It is the projection of an [`Outcome`](crate::outcome::Outcome) that
/// remains once the success dimension has been discarded.
///
/// [`Mistake`]: Aberration::Mistake
/// [`Failure`]: Aberration::Failure
#[must_use]
#[derive(Copy, Clone, PartialEq, PartialOrd, Eq, Ord, Debug, Hash)]
pub enum Aberration<M, F> {
    /// Contains the mistake value. Analogous to
    /// [`Outcome::Mistake`](crate::outcome::Outcome::Mistake)
    Mistake(M),
    /// Contains the failure value. Analogous to
    /// [`Outcome::Failure`](crate::outcome::Outcome::Failure)
    Failure(F),
}

impl<M, F> Aberration<M, F> {
    /// Returns `true` if the aberration is a [`Mistake`](Aberration::Mistake).
    #[must_use]
    #[inline]
    pub fn is_mistake(&self) -> (b: bool)
        ensures
            b == (self is Mistake),
    {
        matches!(self, Aberration::Mistake(_))
    }

    /// Returns `true` if the aberration is a [`Failure`](Aberration::Failure).
    #[must_use]
    #[inline]
    pub fn is_failure(&self) -> (b: bool)
        ensures
            b == (self is Failure),
    {
        matches!(self, Aberration::Failure(_))
    }

    /// The mistake payload, if the aberration is a
    /// [`Mistake`](Aberration::Mistake).
    pub open spec fn spec_mistake(self) -> Option<M> {
        match self {
            Aberration::Mistake(m) => Some(m),
            _ => None,
        }
    }

    /// The failure payload, if the aberration is a
    /// [`Failure`](Aberration::Failure).
    pub open spec fn spec_failure(self) -> Option<F> {
        match self {
            Aberration::Failure(f) => Some(f),
            _ => None,
        }
    }

    /// Converts from `&Aberration<M, F>` to `Aberration<&M, &F>`.
    ///
    /// Produces a new `Aberration`, containing a reference into the
    /// original, leaving it in place.
    #[inline]
    pub fn as_ref(&self) -> (r: Aberration<&M, &F>)
        ensures
            match *self {
                Aberration::Mistake(m) => r matches Aberration::Mistake(p) && *p == m,
                Aberration::Failure(f) => r matches Aberration::Failure(p) && *p == f,
            },
    {
        match self {
            Aberration::Mistake(value) => Aberration::Mistake(value),
            Aberration::Failure(value) => Aberration::Failure(value),
        }
    }

    /// Converts from `&mut Aberration<M, F>` to
    /// `Aberration<&mut M, &mut F>`.
    ///
    /// Writes through the returned reference land in the original
    /// aberration; the tag cannot change through it.
    #[inline]
    pub fn as_mut(&mut self) -> (r: Aberration<&mut M, &mut F>)
        ensures
            match *old(self) {
                Aberration::Mistake(m) => {
                    &&& r matches Aberration::Mistake(p)
                    &&& *p == m
                    &&& *final(self) matches Aberration::Mistake(q)
                    &&& q == *final(p)
                },
                Aberration::Failure(f) => {
                    &&& r matches Aberration::Failure(p)
                    &&& *p == f
                    &&& *final(self) matches Aberration::Failure(q)
                    &&& q == *final(p)
                },
            },
    {
        match self {
            Aberration::Mistake(value) => Aberration::Mistake(value),
            Aberration::Failure(value) => Aberration::Failure(value),
        }
    }

    /// Converts from `Aberration<M, F>` to [`Option<M>`].
    ///
    /// Converts `self` into an [`Option<M>`], consuming `self`, and
    /// discarding the failure value, if any.
    #[verifier::when_used_as_spec(spec_mistake)]
    #[inline]
    pub fn mistake(self) -> (r: Option<M>)
        ensures
            r == self.spec_mistake(),
    {
        match self {
            Aberration::Mistake(value) => Some(value),
            _ => None,
        }
    }

    /// Converts from `Aberration<M, F>` to [`Option<F>`].
    ///
    /// Converts `self` into an [`Option<F>`], consuming `self`, and
    /// discarding the mistake value, if any.
    #[verifier::when_used_as_spec(spec_failure)]
    #[inline]
    pub fn failure(self) -> (r: Option<F>)
        ensures
            r == self.spec_failure(),
    {
        match self {
            Aberration::Failure(value) => Some(value),
            _ => None,
        }
    }

    /// Maps an `Aberration<M, F>` to `Aberration<N, F>` by applying a
    /// function to a contained [`Mistake`](Aberration::Mistake) value,
    /// leaving any [`Failure`](Aberration::Failure) value untouched.
    #[inline]
    pub fn map_mistake<N, C>(self, callable: C) -> (r: Aberration<N, F>) where
        C: FnOnce(M) -> N,

        requires
            self matches Aberration::Mistake(m) ==> call_requires(callable, (m,)),
        ensures
            match self {
                Aberration::Mistake(m) => {
                    &&& r matches Aberration::Mistake(n)
                    &&& call_ensures(callable, (m,), n)
                },
                Aberration::Failure(f) => r == Aberration::<N, F>::Failure(f),
            },
    {
        match self {
            Aberration::Mistake(value) => Aberration::Mistake(callable(value)),
            Aberration::Failure(value) => Aberration::Failure(value),
        }
    }

    /// Maps an `Aberration<M, F>` to `Aberration<M, G>` by applying a
    /// function to a contained [`Failure`](Aberration::Failure) value,
    /// leaving any [`Mistake`](Aberration::Mistake) value untouched.
    #[inline]
    pub fn map_failure<G, C>(self, callable: C) -> (r: Aberration<M, G>) where
        C: FnOnce(F) -> G,

        requires
            self matches Aberration::Failure(f) ==> call_requires(callable, (f,)),
        ensures
            match self {
                Aberration::Mistake(m) => r == Aberration::<M, G>::Mistake(m),
                Aberration::Failure(f) => {
                    &&& r matches Aberration::Failure(g)
                    &&& call_ensures(callable, (f,), g)
                },
            },
    {
        match self {
            Aberration::Mistake(value) => Aberration::Mistake(value),
            Aberration::Failure(value) => Aberration::Failure(callable(value)),
        }
    }

    /// Returns the contained [`Mistake`](Aberration::Mistake) value,
    /// consuming the `self` value.
    ///
    /// The caller must know the aberration is a `Mistake`.
    #[inline]
    pub fn unwrap_mistake(self) -> (m: M)
        requires
            self is Mistake,
        ensures
            self == Aberration::<M, F>::Mistake(m),
    {
        match self {
            Aberration::Mistake(m) => m,
            _ => vstd::pervasive::unreached(),
        }
    }

    /// Returns the contained [`Failure`](Aberration::Failure) value,
    /// consuming the `self` value.
    ///
    /// The caller must know the aberration is a `Failure`.
    #[inline]
    pub fn unwrap_failure(self) -> (f: F)
        requires
            self is Failure,
        ensures
            self == Aberration::<M, F>::Failure(f),
    {
        match self {
            Aberration::Failure(f) => f,
            _ => vstd::pervasive::unreached(),
        }
    }
}

impl<M, F> Aberration<M, F> where M: Into<F> {
    /// The relation `escalate` establishes between its input and its
    /// result: a `Mistake` becomes a `Failure` through the [`Into`]
    /// conversion of its payload, while a `Failure` is terminal and passes
    /// through unchanged.
    pub open spec fn escalate_rel(
        self,
        r: Outcome<core::convert::Infallible, core::convert::Infallible, F>,
    ) -> bool {
        match self {
            Aberration::Mistake(m) => {
                &&& r is Failure
                &&& call_ensures(<M as Into<F>>::into, (m,), r->Failure_0)
            },
            Aberration::Failure(f) => r is Failure && r->Failure_0 == f,
        }
    }

    /// Escalates the remaining rung of the severity ladder: a
    /// [`Mistake`](Aberration::Mistake) becomes a
    /// [`Failure`](Outcome::Failure), and a `Failure` passes through
    /// unchanged.
    ///
    /// The result has uninhabited success and mistake slots: it can only be
    /// a `Failure`.
    pub fn escalate(self) -> (r: Outcome<
        core::convert::Infallible,
        core::convert::Infallible,
        F,
    >)
        ensures
            self.escalate_rel(r),
    {
        match self {
            Aberration::Mistake(m) => Outcome::Failure(m.into()),
            Aberration::Failure(f) => Outcome::Failure(f),
        }
    }
}

} // verus!
