//! The three-state sum type and its combinators.

use crate::aberration::Aberration;
use crate::concern::Concern;
use crate::iter::{IntoIter, Iter, IterMut};
use vstd::prelude::*;
use vstd::std_specs::cmp::PartialEqSpec;

verus! {

/// `Outcome` is a type that represents a [`Success`], a [`Mistake`], or a
/// [`Failure`].
///
/// A `Success` carries the value an operation produced. A `Mistake` records
/// that the operation did not complete but may legitimately be retried, and
/// carries data relevant to that decision. A `Failure` records that retrying
/// under the same contract is not expected to help, and carries the fatal
/// error data.
///
/// [`Success`]: Outcome::Success
/// [`Mistake`]: Outcome::Mistake
/// [`Failure`]: Outcome::Failure
#[must_use]
#[derive(Copy, Clone, PartialEq, PartialOrd, Eq, Ord, Debug, Hash)]
pub enum Outcome<S, M, F> {
    /// Contains the success value
    Success(S),
    /// Contains the mistake value
    Mistake(M),
    /// Contains the failure value
    Failure(F),
}

impl<S, M, F> Outcome<S, M, F> {
    /// Returns `true` if the outcome is [`Success`](Outcome::Success).
    #[must_use]
    #[inline]
    pub fn is_success(&self) -> (b: bool)
        ensures
            b == (self is Success),
    {
        matches!(self, Outcome::Success(_))
    }

    /// Returns `true` if the outcome is [`Mistake`](Outcome::Mistake).
    #[must_use]
    #[inline]
    pub fn is_mistake(&self) -> (b: bool)
        ensures
            b == (self is Mistake),
    {
        matches!(self, Outcome::Mistake(_))
    }

    /// Returns `true` if the outcome is [`Failure`](Outcome::Failure).
    #[must_use]
    #[inline]
    pub fn is_failure(&self) -> (b: bool)
        ensures
            b == (self is Failure),
    {
        matches!(self, Outcome::Failure(_))
    }

    /// Returns `true` if the outcome is *not* [`Success`](Outcome::Success).
    #[must_use]
    #[inline]
    pub fn is_error(&self) -> (b: bool)
        ensures
            b == (self is Mistake || self is Failure),
    {
        !self.is_success()
    }

    /// The success payload, if the outcome is a
    /// [`Success`](Outcome::Success).
    pub open spec fn spec_success(self) -> Option<S> {
        match self {
            Outcome::Success(s) => Some(s),
            _ => None,
        }
    }

    /// The mistake payload, if the outcome is a
    /// [`Mistake`](Outcome::Mistake).
    pub open spec fn spec_mistake(self) -> Option<M> {
        match self {
            Outcome::Mistake(m) => Some(m),
            _ => None,
        }
    }

    /// The failure payload, if the outcome is a
    /// [`Failure`](Outcome::Failure).
    pub open spec fn spec_failure(self) -> Option<F> {
        match self {
            Outcome::Failure(f) => Some(f),
            _ => None,
        }
    }

    /// The outcome with its success payload rewritten by `g`, the tag and
    /// the other payloads untouched: the rewriting that
    /// [`map`](Outcome::map) performs when its callable computes `g`.
    pub open spec fn spec_map<T>(self, g: spec_fn(S) -> T) -> Outcome<T, M, F> {
        match self {
            Outcome::Success(s) => Outcome::Success(g(s)),
            Outcome::Mistake(m) => Outcome::Mistake(m),
            Outcome::Failure(f) => Outcome::Failure(f),
        }
    }

    /// Converts from `Outcome<S, M, F>` to [`Option<S>`].
    ///
    /// Converts `self` into an [`Option<S>`], consuming `self`, and
    /// discarding the mistake or failure, if any.
    #[verifier::when_used_as_spec(spec_success)]
    #[inline]
    pub fn success(self) -> (r: Option<S>)
        ensures
            r == self.spec_success(),
    {
        match self {
            Outcome::Success(value) => Some(value),
            _ => None,
        }
    }

    /// Converts from `Outcome<S, M, F>` to [`Option<M>`].
    ///
    /// Converts `self` into an [`Option<M>`], consuming `self`, and
    /// discarding the success or failure, if any.
    #[verifier::when_used_as_spec(spec_mistake)]
    #[inline]
    pub fn mistake(self) -> (r: Option<M>)
        ensures
            r == self.spec_mistake(),
    {
        match self {
            Outcome::Mistake(value) => Some(value),
            _ => None,
        }
    }

    /// Converts from `Outcome<S, M, F>` to [`Option<F>`].
    ///
    /// Converts `self` into an [`Option<F>`], consuming `self`, and
    /// discarding the success or mistake, if any.
    #[verifier::when_used_as_spec(spec_failure)]
    #[inline]
    pub fn failure(self) -> (r: Option<F>)
        ensures
            r == self.spec_failure(),
    {
        match self {
            Outcome::Failure(value) => Some(value),
            _ => None,
        }
    }

    /// Converts from `&Outcome<S, M, F>` to `Outcome<&S, &M, &F>`.
    ///
    /// Produces a new `Outcome`, containing a reference into the original,
    /// leaving the original in place.
    #[inline]
    pub fn as_ref(&self) -> (r: Outcome<&S, &M, &F>)
        ensures
            match *self {
                Outcome::Success(s) => r matches Outcome::Success(p) && *p == s,
                Outcome::Mistake(m) => r matches Outcome::Mistake(p) && *p == m,
                Outcome::Failure(f) => r matches Outcome::Failure(p) && *p == f,
            },
    {
        match self {
            Outcome::Success(value) => Outcome::Success(value),
            Outcome::Mistake(value) => Outcome::Mistake(value),
            Outcome::Failure(value) => Outcome::Failure(value),
        }
    }

    /// Converts from `&mut Outcome<S, M, F>` to
    /// `Outcome<&mut S, &mut M, &mut F>`.
    ///
    /// Writes through the returned references land in the original outcome;
    /// the tag cannot change through them.
    #[inline]
    pub fn as_mut(&mut self) -> (r: Outcome<&mut S, &mut M, &mut F>)
        ensures
            match *old(self) {
                Outcome::Success(s) => {
                    &&& r matches Outcome::Success(p)
                    &&& *p == s
                    &&& *final(self) matches Outcome::Success(q)
                    &&& q == *final(p)
                },
                Outcome::Mistake(m) => {
                    &&& r matches Outcome::Mistake(p)
                    &&& *p == m
                    &&& *final(self) matches Outcome::Mistake(q)
                    &&& q == *final(p)
                },
                Outcome::Failure(f) => {
                    &&& r matches Outcome::Failure(p)
                    &&& *p == f
                    &&& *final(self) matches Outcome::Failure(q)
                    &&& q == *final(p)
                },
            },
    {
        match self {
            Outcome::Success(value) => Outcome::Success(value),
            Outcome::Mistake(value) => Outcome::Mistake(value),
            Outcome::Failure(value) => Outcome::Failure(value),
        }
    }

    /// Returns an adapter over the possibly contained value.
    ///
    /// The adapter yields one reference if the outcome is a
    /// [`Success`](Outcome::Success), otherwise none.
    #[inline]
    pub fn iter(&self) -> (it: Iter<'_, S>)
        ensures
            match *self {
                Outcome::Success(s) => it.inner matches Some(p) && *p == s,
                _ => it.inner is None,
            },
    {
        Iter { inner: self.as_ref().success() }
    }

    /// Returns a mutable adapter over the possibly contained value.
    ///
    /// The adapter yields one mutable reference if the outcome is a
    /// [`Success`](Outcome::Success), otherwise none; writes through it land
    /// in the original outcome.
    #[inline]
    pub fn iter_mut(&mut self) -> (it: IterMut<'_, S>)
        ensures
            match *old(self) {
                Outcome::Success(s) => {
                    &&& it.inner matches Some(p)
                    &&& *p == s
                    &&& *final(self) matches Outcome::Success(q)
                    &&& q == *final(p)
                },
                _ => it.inner is None && *final(self) == *old(self),
            },
    {
        match self {
            Outcome::Success(value) => IterMut { inner: Some(value) },
            _ => IterMut { inner: None },
        }
    }

    /// Returns a `Result<Concern<S, M>, F>`: the fatal dimension moves to the
    /// outer error slot while success and mistake stay bundled together.
    #[inline]
    pub fn acclimate(self) -> (r: Result<Concern<S, M>, F>)
        ensures
            match self {
                Outcome::Success(s) => r == Ok::<Concern<S, M>, F>(Concern::Success(s)),
                Outcome::Mistake(m) => r == Ok::<Concern<S, M>, F>(Concern::Mistake(m)),
                Outcome::Failure(f) => r == Err::<Concern<S, M>, F>(f),
            },
    {
        match self {
            Outcome::Success(value) => Ok(Concern::Success(value)),
            Outcome::Mistake(value) => Ok(Concern::Mistake(value)),
            Outcome::Failure(value) => Err(value),
        }
    }

    /// Calls `callable` if the outcome is [`Success`](Outcome::Success),
    /// otherwise returns the [`Mistake`](Outcome::Mistake) or
    /// [`Failure`](Outcome::Failure) value of `self`.
    ///
    /// This is the core sequencing primitive: a pipeline of `and_then` calls
    /// processes only while every step is a `Success`, and freezes at the
    /// first `Mistake` or `Failure`, passing that payload through unchanged
    /// without invoking the callable.
    #[inline]
    pub fn and_then<T, C>(self, callable: C) -> (r: Outcome<T, M, F>) where
        C: FnOnce(S) -> Outcome<T, M, F>,

        requires
            self matches Outcome::Success(s) ==> call_requires(callable, (s,)),
        ensures
            match self {
                Outcome::Success(s) => call_ensures(callable, (s,), r),
                Outcome::Mistake(m) => r == Outcome::<T, M, F>::Mistake(m),
                Outcome::Failure(f) => r == Outcome::<T, M, F>::Failure(f),
            },
    {
        match self {
            Outcome::Success(value) => callable(value),
            Outcome::Mistake(value) => Outcome::Mistake(value),
            Outcome::Failure(value) => Outcome::Failure(value),
        }
    }

    /// Maps an `Outcome<S, M, F>` to `Outcome<T, M, F>` by applying a
    /// function to a contained [`Success`](Outcome::Success) value, leaving
    /// any [`Mistake`](Outcome::Mistake) or [`Failure`](Outcome::Failure)
    /// value untouched.
    #[inline]
    pub fn map<T, C>(self, callable: C) -> (r: Outcome<T, M, F>) where
        C: FnOnce(S) -> T,

        requires
            self matches Outcome::Success(s) ==> call_requires(callable, (s,)),
        ensures
            match self {
                Outcome::Success(s) => {
                    &&& r matches Outcome::Success(t)
                    &&& call_ensures(callable, (s,), t)
                },
                Outcome::Mistake(m) => r == Outcome::<T, M, F>::Mistake(m),
                Outcome::Failure(f) => r == Outcome::<T, M, F>::Failure(f),
            },
    {
        match self {
            Outcome::Success(s) => Outcome::Success(callable(s)),
            Outcome::Mistake(m) => Outcome::Mistake(m),
            Outcome::Failure(f) => Outcome::Failure(f),
        }
    }

    /// Returns the provided default (if [`Mistake`](Outcome::Mistake) or
    /// [`Failure`](Outcome::Failure)), or applies a function to the contained
    /// value (if [`Success`](Outcome::Success)).
    ///
    /// The `default` argument is eagerly evaluated; to compute it lazily use
    /// [`map_or_else`](Outcome::map_or_else).
    #[inline]
    pub fn map_or<T, C>(self, default: T, callable: C) -> (r: T) where
        C: FnOnce(S) -> T,

        requires
            self matches Outcome::Success(s) ==> call_requires(callable, (s,)),
        ensures
            match self {
                Outcome::Success(s) => call_ensures(callable, (s,), r),
                _ => r == default,
            },
    {
        match self {
            Outcome::Success(value) => callable(value),
            _ => default,
        }
    }

    /// Maps an `Outcome<S, M, F>` to `T` by applying a fallback function to a
    /// contained [`Mistake`](Outcome::Mistake) or
    /// [`Failure`](Outcome::Failure) value (by way of an [`Aberration`]), or
    /// a default function to a contained [`Success`](Outcome::Success) value.
    #[inline]
    pub fn map_or_else<T, D, C>(self, default: D, callable: C) -> (r: T) where
        D: FnOnce(Aberration<M, F>) -> T,
        C: FnOnce(S) -> T,

        requires
            self matches Outcome::Success(s) ==> call_requires(callable, (s,)),
            self matches Outcome::Mistake(m) ==> call_requires(
                default,
                (Aberration::Mistake(m),),
            ),
            self matches Outcome::Failure(f) ==> call_requires(
                default,
                (Aberration::Failure(f),),
            ),
        ensures
            match self {
                Outcome::Success(s) => call_ensures(callable, (s,), r),
                Outcome::Mistake(m) => call_ensures(default, (Aberration::Mistake(m),), r),
                Outcome::Failure(f) => call_ensures(default, (Aberration::Failure(f),), r),
            },
    {
        match self {
            Outcome::Success(value) => callable(value),
            Outcome::Mistake(value) => default(Aberration::Mistake(value)),
            Outcome::Failure(value) => default(Aberration::Failure(value)),
        }
    }

    /// Maps an `Outcome<S, M, F>` to `Outcome<S, N, F>` by applying a
    /// function to a contained [`Mistake`](Outcome::Mistake) value, leaving a
    /// [`Success`](Outcome::Success) or [`Failure`](Outcome::Failure) value
    /// untouched.
    #[inline]
    pub fn map_mistake<N, C>(self, callable: C) -> (r: Outcome<S, N, F>) where
        C: FnOnce(M) -> N,

        requires
            self matches Outcome::Mistake(m) ==> call_requires(callable, (m,)),
        ensures
            match self {
                Outcome::Success(s) => r == Outcome::<S, N, F>::Success(s),
                Outcome::Mistake(m) => {
                    &&& r matches Outcome::Mistake(n)
                    &&& call_ensures(callable, (m,), n)
                },
                Outcome::Failure(f) => r == Outcome::<S, N, F>::Failure(f),
            },
    {
        match self {
            Outcome::Success(value) => Outcome::Success(value),
            Outcome::Mistake(value) => Outcome::Mistake(callable(value)),
            Outcome::Failure(value) => Outcome::Failure(value),
        }
    }

    /// Maps an `Outcome<S, M, F>` to `Outcome<S, M, G>` by applying a
    /// function to a contained [`Failure`](Outcome::Failure) value, leaving a
    /// [`Success`](Outcome::Success) or [`Mistake`](Outcome::Mistake) value
    /// untouched.
    #[inline]
    pub fn map_failure<G, C>(self, callable: C) -> (r: Outcome<S, M, G>) where
        C: FnOnce(F) -> G,

        requires
            self matches Outcome::Failure(f) ==> call_requires(callable, (f,)),
        ensures
            match self {
                Outcome::Success(s) => r == Outcome::<S, M, G>::Success(s),
                Outcome::Mistake(m) => r == Outcome::<S, M, G>::Mistake(m),
                Outcome::Failure(f) => {
                    &&& r matches Outcome::Failure(g)
                    &&& call_ensures(callable, (f,), g)
                },
            },
    {
        match self {
            Outcome::Success(value) => Outcome::Success(value),
            Outcome::Mistake(value) => Outcome::Mistake(value),
            Outcome::Failure(value) => Outcome::Failure(callable(value)),
        }
    }

    /// Returns the contained [`Success`](Outcome::Success) value, consuming
    /// the `self` value.
    ///
    /// The caller must know the outcome is a `Success`; on the other two
    /// variants no value of type `S` exists to return.
    #[inline]
    pub fn unwrap(self) -> (s: S)
        requires
            self is Success,
        ensures
            self == Outcome::<S, M, F>::Success(s),
    {
        match self {
            Outcome::Success(s) => s,
            _ => vstd::pervasive::unreached(),
        }
    }

    /// Returns the [`Success`](Outcome::Success) value or a provided default.
    ///
    /// The `default` argument is eagerly evaluated; to compute it lazily use
    /// [`unwrap_or_else`](Outcome::unwrap_or_else).
    #[inline]
    pub fn unwrap_or(self, default: S) -> (s: S)
        ensures
            match self {
                Outcome::Success(value) => s == value,
                _ => s == default,
            },
    {
        match self {
            Outcome::Success(success) => success,
            _ => default,
        }
    }

    /// Returns the contained [`Success`](Outcome::Success) value or computes
    /// it from the closure, which receives the error side as an
    /// [`Aberration`].
    #[inline]
    pub fn unwrap_or_else<C>(self, op: C) -> (s: S) where
        C: FnOnce(Aberration<M, F>) -> S,

        requires
            self matches Outcome::Mistake(m) ==> call_requires(op, (Aberration::Mistake(m),)),
            self matches Outcome::Failure(f) ==> call_requires(op, (Aberration::Failure(f),)),
        ensures
            match self {
                Outcome::Success(value) => s == value,
                Outcome::Mistake(m) => call_ensures(op, (Aberration::Mistake(m),), s),
                Outcome::Failure(f) => call_ensures(op, (Aberration::Failure(f),), s),
            },
    {
        match self {
            Outcome::Success(value) => value,
            Outcome::Mistake(value) => op(Aberration::Mistake(value)),
            Outcome::Failure(value) => op(Aberration::Failure(value)),
        }
    }

    /// Returns the contained [`Mistake`](Outcome::Mistake) value, consuming
    /// the `self` value.
    ///
    /// The caller must know the outcome is a `Mistake`.
    #[inline]
    pub fn unwrap_mistake(self) -> (m: M)
        requires
            self is Mistake,
        ensures
            self == Outcome::<S, M, F>::Mistake(m),
    {
        match self {
            Outcome::Mistake(m) => m,
            _ => vstd::pervasive::unreached(),
        }
    }

    /// Returns the contained [`Failure`](Outcome::Failure) value, consuming
    /// the `self` value.
    ///
    /// The caller must know the outcome is a `Failure`.
    #[inline]
    pub fn unwrap_failure(self) -> (f: F)
        requires
            self is Failure,
        ensures
            self == Outcome::<S, M, F>::Failure(f),
    {
        match self {
            Outcome::Failure(f) => f,
            _ => vstd::pervasive::unreached(),
        }
    }

    /// Returns the contained [`Mistake`](Outcome::Mistake) or
    /// [`Failure`](Outcome::Failure) value wrapped in an [`Aberration`],
    /// consuming the `self` value.
    ///
    /// The caller must know the outcome is not a
    /// [`Success`](Outcome::Success).
    #[inline]
    pub fn unwrap_error(self) -> (r: Aberration<M, F>)
        requires
            self is Mistake || self is Failure,
        ensures
            match self {
                Outcome::Success(_) => false,
                Outcome::Mistake(m) => r == Aberration::<M, F>::Mistake(m),
                Outcome::Failure(f) => r == Aberration::<M, F>::Failure(f),
            },
    {
        match self {
            Outcome::Success(_) => vstd::pervasive::unreached(),
            Outcome::Mistake(value) => Aberration::Mistake(value),
            Outcome::Failure(value) => Aberration::Failure(value),
        }
    }

    /// Returns the contained [`Success`](Outcome::Success) value or the
    /// default value of `S`.
    #[inline]
    pub fn unwrap_or_default(self) -> (s: S) where S: Default
        ensures
            match self {
                Outcome::Success(value) => s == value,
                _ => call_ensures(S::default, (), s),
            },
    {
        match self {
            Outcome::Success(success) => success,
            _ => S::default(),
        }
    }

    /// Returns an owning adapter over the possibly contained value,
    /// consuming the outcome.
    ///
    /// The adapter yields one value if the outcome is a
    /// [`Success`](Outcome::Success), otherwise none.
    #[inline]
    pub fn into_iter(self) -> (it: IntoIter<S>)
        ensures
            it.inner == self.spec_success(),
    {
        IntoIter { inner: self.success() }
    }

    /// Returns the contained [`Success`](Outcome::Success) value.
    ///
    /// Where the mistake and failure payload types are uninhabited an
    /// outcome can only be a `Success`; this entry point records that
    /// knowledge as a precondition instead of a runtime check.
    pub fn into_success(self) -> (s: S)
        requires
            self is Success,
        ensures
            self == Outcome::<S, M, F>::Success(s),
    {
        match self {
            Outcome::Success(s) => s,
            _ => vstd::pervasive::unreached(),
        }
    }

    /// Returns the contained [`Mistake`](Outcome::Mistake) value.
    ///
    /// The counterpart of [`into_success`](Outcome::into_success) for an
    /// outcome that can only be a `Mistake`.
    pub fn into_mistake(self) -> (m: M)
        requires
            self is Mistake,
        ensures
            self == Outcome::<S, M, F>::Mistake(m),
    {
        match self {
            Outcome::Mistake(m) => m,
            _ => vstd::pervasive::unreached(),
        }
    }

    /// Returns the contained [`Failure`](Outcome::Failure) value.
    ///
    /// The counterpart of [`into_success`](Outcome::into_success) for an
    /// outcome that can only be a `Failure`.
    pub fn into_failure(self) -> (f: F)
        requires
            self is Failure,
        ensures
            self == Outcome::<S, M, F>::Failure(f),
    {
        match self {
            Outcome::Failure(f) => f,
            _ => vstd::pervasive::unreached(),
        }
    }

    /// Escalates an outcome already past its success state from a
    /// [`Mistake`](Outcome::Mistake) to a [`Failure`](Outcome::Failure).
    ///
    /// The result has uninhabited success and mistake slots: it can only be
    /// a `Failure`, and a failure payload passes through unchanged.
    pub fn escalate_mistake(self) -> (r: Outcome<
        core::convert::Infallible,
        core::convert::Infallible,
        F,
    >) where M: Into<F>
        requires
            self is Mistake || self is Failure,
        ensures
            match self {
                Outcome::Success(_) => false,
                Outcome::Mistake(m) => {
                    &&& r is Failure
                    &&& call_ensures(<M as Into<F>>::into, (m,), r->Failure_0)
                },
                Outcome::Failure(f) => r->Failure_0 == f && r is Failure,
            },
    {
        match self {
            Outcome::Success(_) => vstd::pervasive::unreached(),
            Outcome::Mistake(m) => Outcome::Failure(m.into()),
            Outcome::Failure(f) => Outcome::Failure(f),
        }
    }

    /// Escalates an outcome already past its success state from a
    /// [`Mistake`](Outcome::Mistake) to a [`Failure`](Outcome::Failure),
    /// using the given closure for the conversion.
    pub fn escalate_mistake_with<C, G>(self, closure: C) -> (r: Outcome<
        core::convert::Infallible,
        core::convert::Infallible,
        F,
    >) where
        G: Into<F>,
        C: FnOnce(M) -> G,

        requires
            self is Mistake || self is Failure,
            self matches Outcome::Mistake(m) ==> call_requires(closure, (m,)),
        ensures
            match self {
                Outcome::Success(_) => false,
                Outcome::Mistake(m) => {
                    &&& r is Failure
                    &&& exists|g: G|
                        call_ensures(closure, (m,), g) && call_ensures(
                            <G as Into<F>>::into,
                            (g,),
                            r->Failure_0,
                        )
                },
                Outcome::Failure(f) => r->Failure_0 == f && r is Failure,
            },
    {
        match self {
            Outcome::Success(_) => vstd::pervasive::unreached(),
            Outcome::Mistake(m) => Outcome::Failure(closure(m).into()),
            Outcome::Failure(f) => Outcome::Failure(f),
        }
    }

    /// Escalates the severity of the outcome by one step, using `closure`
    /// for the `Success` to `Mistake` edge instead of a blanket conversion.
    ///
    /// A [`Success`](Outcome::Success) becomes a
    /// [`Mistake`](Aberration::Mistake), a [`Mistake`](Outcome::Mistake)
    /// stays a `Mistake`, and a [`Failure`](Outcome::Failure) stays a
    /// `Failure`.
    pub fn escalate_with<C, T>(self, closure: C) -> (r: Aberration<M, F>) where
        T: Into<M>,
        C: FnOnce(S) -> T,

        requires
            self matches Outcome::Success(s) ==> call_requires(closure, (s,)),
        ensures
            match self {
                Outcome::Success(s) => {
                    &&& r matches Aberration::Mistake(m)
                    &&& exists|t: T|
                        call_ensures(closure, (s,), t) && call_ensures(
                            <T as Into<M>>::into,
                            (t,),
                            m,
                        )
                },
                Outcome::Mistake(m) => r == Aberration::<M, F>::Mistake(m),
                Outcome::Failure(f) => r == Aberration::<M, F>::Failure(f),
            },
    {
        match self {
            Outcome::Success(s) => Aberration::Mistake(closure(s).into()),
            Outcome::Mistake(m) => Aberration::Mistake(m),
            Outcome::Failure(f) => Aberration::Failure(f),
        }
    }
}

impl<S, M, F> Outcome<S, M, F> {
    /// Returns `true` if the outcome is a [`Success`](Outcome::Success)
    /// value containing the given value.
    ///
    /// The result is pinned down whenever `U`'s equality obeys its
    /// specification; a non-`Success` outcome never contains a success
    /// value.
    #[must_use]
    #[inline]
    pub fn contains<U>(&self, other: &U) -> (b: bool) where
        U: PartialEq<S>,

        ensures
            !(self is Success) ==> !b,
            <U as vstd::std_specs::cmp::PartialEqSpec<S>>::obeys_eq_spec() ==> b == (
            self matches Outcome::Success(s) && other.eq_spec(&s)),
    {
        if let Outcome::Success(value) = self {
            return other == value;
        }
        false
    }

    /// Returns `true` if the outcome is a [`Mistake`](Outcome::Mistake)
    /// value containing the given value.
    #[must_use]
    #[inline]
    pub fn contains_mistake<N>(&self, other: &N) -> (b: bool) where
        N: PartialEq<M>,

        ensures
            !(self is Mistake) ==> !b,
            <N as vstd::std_specs::cmp::PartialEqSpec<M>>::obeys_eq_spec() ==> b == (
            self matches Outcome::Mistake(m) && other.eq_spec(&m)),
    {
        if let Outcome::Mistake(value) = self {
            return other == value;
        }
        false
    }

    /// Returns `true` if the outcome is a [`Failure`](Outcome::Failure)
    /// value containing the given value.
    #[must_use]
    #[inline]
    pub fn contains_failure<G>(&self, other: &G) -> (b: bool) where
        G: PartialEq<F>,

        ensures
            !(self is Failure) ==> !b,
            <G as vstd::std_specs::cmp::PartialEqSpec<F>>::obeys_eq_spec() ==> b == (
            self matches Outcome::Failure(f) && other.eq_spec(&f)),
    {
        if let Outcome::Failure(value) = self {
            return other == value;
        }
        false
    }
}

impl<S: core::ops::Deref, M, F> Outcome<S, M, F> {
    /// Converts from `&Outcome<S, M, F>` to
    /// `Outcome<&S::Target, &M, &F>`, coercing the
    /// [`Success`](Outcome::Success) variant through its dereference.
    ///
    /// The tag is preserved exactly and the error payloads are borrows of
    /// the originals; what the success borrow points at is up to `S`'s
    /// dereference, of which nothing is known generically.
    pub fn as_deref(&self) -> (r: Outcome<&S::Target, &M, &F>)
        ensures
            match *self {
                Outcome::Success(_) => r is Success,
                Outcome::Mistake(m) => r matches Outcome::Mistake(p) && *p == m,
                Outcome::Failure(f) => r matches Outcome::Failure(p) && *p == f,
            },
    {
        match self {
            Outcome::Success(s) => Outcome::Success(<S as core::ops::Deref>::deref(s)),
            Outcome::Mistake(m) => Outcome::Mistake(m),
            Outcome::Failure(f) => Outcome::Failure(f),
        }
    }
}

impl<S: core::ops::DerefMut, M, F> Outcome<S, M, F> {
    /// Converts from `&mut Outcome<S, M, F>` to
    /// `Outcome<&mut S::Target, &mut M, &mut F>`, coercing the
    /// [`Success`](Outcome::Success) variant through its mutable
    /// dereference.
    ///
    /// The tag is preserved exactly; writes through the error borrows land
    /// in the original payloads, while the success borrow reaches through
    /// `S`'s dereference, of which nothing is known generically.
    pub fn as_deref_mut(&mut self) -> (r: Outcome<&mut S::Target, &mut M, &mut F>)
        ensures
            match *old(self) {
                Outcome::Success(_) => r is Success && *final(self) is Success,
                Outcome::Mistake(m) => {
                    &&& r matches Outcome::Mistake(p)
                    &&& *p == m
                    &&& *final(self) matches Outcome::Mistake(q)
                    &&& q == *final(p)
                },
                Outcome::Failure(f) => {
                    &&& r matches Outcome::Failure(p)
                    &&& *p == f
                    &&& *final(self) matches Outcome::Failure(q)
                    &&& q == *final(p)
                },
            },
    {
        match self {
            Outcome::Success(s) => Outcome::Success(<S as core::ops::DerefMut>::deref_mut(s)),
            Outcome::Mistake(m) => Outcome::Mistake(m),
            Outcome::Failure(f) => Outcome::Failure(f),
        }
    }
}

/// The outcome of an optional value, seen as an optional outcome:
/// `Success(None)` maps to `None`, and `Success(Some(s))`, `Mistake(m)` and
/// `Failure(f)` map to `Some` of `Success(s)`, `Mistake(m)` and `Failure(f)`
/// respectively.
pub open spec fn spec_transpose<S, M, F>(o: Outcome<Option<S>, M, F>) -> Option<
    Outcome<S, M, F>,
> {
    match o {
        Outcome::Success(Some(s)) => Some(Outcome::Success(s)),
        Outcome::Success(None) => None,
        Outcome::Mistake(m) => Some(Outcome::Mistake(m)),
        Outcome::Failure(f) => Some(Outcome::Failure(f)),
    }
}

/// The inverse reading of [`spec_transpose`]: an optional outcome seen as
/// the outcome of an optional value, with `None` standing for
/// `Success(None)`.
pub open spec fn spec_untranspose<S, M, F>(o: Option<Outcome<S, M, F>>) -> Outcome<
    Option<S>,
    M,
    F,
> {
    match o {
        None => Outcome::Success(None),
        Some(Outcome::Success(s)) => Outcome::Success(Some(s)),
        Some(Outcome::Mistake(m)) => Outcome::Mistake(m),
        Some(Outcome::Failure(f)) => Outcome::Failure(f),
    }
}

impl<S, M, F> Outcome<Option<S>, M, F> {
    /// Transposes an `Outcome` of an [`Option`] into an [`Option`] of an
    /// `Outcome`.
    ///
    /// `Success(None)` is mapped to `None`; `Success(Some(s))`,
    /// `Mistake(m)`, and `Failure(f)` are mapped to `Some(Success(s))`,
    /// `Some(Mistake(m))`, and `Some(Failure(f))`.
    pub fn transpose(self) -> (r: Option<Outcome<S, M, F>>)
        ensures
            r == spec_transpose(self),
    {
        match self {
            Outcome::Success(Some(s)) => Some(Outcome::Success(s)),
            Outcome::Success(None) => None,
            Outcome::Mistake(m) => Some(Outcome::Mistake(m)),
            Outcome::Failure(f) => Some(Outcome::Failure(f)),
        }
    }
}

/// A doubly-wrapped outcome with its outer layer removed: an outer `Success`
/// yields the inner outcome, while an outer `Mistake` or `Failure` passes
/// through.
pub open spec fn spec_flatten<S, M, F>(o: Outcome<Outcome<S, M, F>, M, F>) -> Outcome<S, M, F> {
    match o {
        Outcome::Success(inner) => inner,
        Outcome::Mistake(m) => Outcome::Mistake(m),
        Outcome::Failure(f) => Outcome::Failure(f),
    }
}

impl<S, M, F> Outcome<Outcome<S, M, F>, M, F> {
    /// Converts from `Outcome<Outcome<S, M, F>, M, F>` to
    /// `Outcome<S, M, F>`.
    ///
    /// Flattening only removes *one* level of nesting at a time.
    pub fn flatten(self) -> (r: Outcome<S, M, F>)
        ensures
            r == spec_flatten(self),
    {
        match self {
            Outcome::Success(inner) => inner,
            Outcome::Mistake(m) => Outcome::Mistake(m),
            Outcome::Failure(f) => Outcome::Failure(f),
        }
    }
}

impl<S, M, F> Outcome<S, M, F> where S: Into<M>, M: Into<F> {
    /// The relation `escalate` establishes between its input and its result:
    /// each call advances severity by exactly one step — `Success` to
    /// `Mistake`, `Mistake` to `Failure` — while a `Failure` is terminal and
    /// passes through unchanged.
    ///
    /// The new payload on the advancing edges is whatever the corresponding
    /// [`Into`] conversion may produce from the old one.
    pub open spec fn escalate_rel(self, r: Aberration<M, F>) -> bool {
        match self {
            Outcome::Success(s) => {
                &&& r matches Aberration::Mistake(m)
                &&& call_ensures(<S as Into<M>>::into, (s,), m)
            },
            Outcome::Mistake(m) => {
                &&& r matches Aberration::Failure(f)
                &&& call_ensures(<M as Into<F>>::into, (m,), f)
            },
            Outcome::Failure(f) => r == Aberration::<M, F>::Failure(f),
        }
    }

    /// Escalates the state of the outcome from `Success`, to `Mistake`, to
    /// `Failure` on each call.
    ///
    /// Once an outcome is in a failure state, it cannot escalate any
    /// further: the failure payload passes through unchanged.
    pub fn escalate(self) -> (r: Aberration<M, F>)
        ensures
            self.escalate_rel(r),
    {
        match self {
            Outcome::Success(s) => Aberration::Mistake(s.into()),
            Outcome::Mistake(m) => Aberration::Failure(m.into()),
            Outcome::Failure(f) => Aberration::Failure(f),
        }
    }
}

} // verus!
