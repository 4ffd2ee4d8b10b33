//! The non-fatal half of an [`Outcome`](crate::outcome::Outcome): a two-state
//! sum of a `Success` and a retryable `Mistake`.

use crate::iter::{Iter, IterMut};
use vstd::prelude::*;

verus! {

/// `Concern` is a type that can represent a [`Success`] or a [`Mistake`].
///
/// It is the projection of an [`Outcome`](crate::outcome::Outcome) that
/// remains once the fatal dimension has been routed elsewhere.
///
/// [`Success`]: Concern::Success
/// [`Mistake`]: Concern::Mistake
#[must_use]
#[derive(Copy, Clone, PartialEq, PartialOrd, Eq, Ord, Debug, Hash)]
pub enum Concern<S, M> {
    /// Contains the success value
    Success(S),
    /// Contains the mistake value
    Mistake(M),
}

impl<S, M> Concern<S, M> {
    /// Returns `true` if the concern is a [`Success`](Concern::Success).
    #[must_use]
    #[inline]
    pub fn is_success(&self) -> (b: bool)
        ensures
            b == (self is Success),
    {
        matches!(self, Concern::Success(_))
    }

    /// Returns `true` if the concern is a [`Mistake`](Concern::Mistake).
    #[must_use]
    #[inline]
    pub fn is_mistake(&self) -> (b: bool)
        ensures
            b == (self is Mistake),
    {
        matches!(self, Concern::Mistake(_))
    }

    /// The success payload, if the concern is a
    /// [`Success`](Concern::Success).
    pub open spec fn spec_success(self) -> Option<S> {
        match self {
            Concern::Success(s) => Some(s),
            _ => None,
        }
    }

    /// The mistake payload, if the concern is a
    /// [`Mistake`](Concern::Mistake).
    pub open spec fn spec_mistake(self) -> Option<M> {
        match self {
            Concern::Mistake(m) => Some(m),
            _ => None,
        }
    }

    /// Converts from `&Concern<S, M>` to `Concern<&S, &M>`.
    ///
    /// Produces a new `Concern`, containing a reference into the original,
    /// leaving it in place.
    #[inline]
    pub fn as_ref(&self) -> (r: Concern<&S, &M>)
        ensures
            match *self {
                Concern::Success(s) => r matches Concern::Success(p) && *p == s,
                Concern::Mistake(m) => r matches Concern::Mistake(p) && *p == m,
            },
    {
        match self {
            Concern::Success(value) => Concern::Success(value),
            Concern::Mistake(value) => Concern::Mistake(value),
        }
    }

    /// Converts from `&mut Concern<S, M>` to `Concern<&mut S, &mut M>`.
    ///
    /// Writes through the returned reference land in the original concern;
    /// the tag cannot change through it.
    #[inline]
    pub fn as_mut(&mut self) -> (r: Concern<&mut S, &mut M>)
        ensures
            match *old(self) {
                Concern::Success(s) => {
                    &&& r matches Concern::Success(p)
                    &&& *p == s
                    &&& *final(self) matches Concern::Success(q)
                    &&& q == *final(p)
                },
                Concern::Mistake(m) => {
                    &&& r matches Concern::Mistake(p)
                    &&& *p == m
                    &&& *final(self) matches Concern::Mistake(q)
                    &&& q == *final(p)
                },
            },
    {
        match self {
            Concern::Success(value) => Concern::Success(value),
            Concern::Mistake(value) => Concern::Mistake(value),
        }
    }

    /// Returns an adapter over the possibly contained value.
    ///
    /// The adapter yields one reference if the concern is a
    /// [`Success`](Concern::Success), otherwise none.
    #[inline]
    pub fn iter(&self) -> (it: Iter<'_, S>)
        ensures
            match *self {
                Concern::Success(s) => it.inner matches Some(p) && *p == s,
                _ => it.inner is None,
            },
    {
        match self {
            Concern::Success(value) => Iter { inner: Some(value) },
            _ => Iter { inner: None },
        }
    }

    /// Returns a mutable adapter over the possibly contained value.
    ///
    /// The adapter yields one mutable reference if the concern is a
    /// [`Success`](Concern::Success), otherwise none; writes through it
    /// land in the original concern.
    #[inline]
    pub fn iter_mut(&mut self) -> (it: IterMut<'_, S>)
        ensures
            match *old(self) {
                Concern::Success(s) => {
                    &&& it.inner matches Some(p)
                    &&& *p == s
                    &&& *final(self) matches Concern::Success(q)
                    &&& q == *final(p)
                },
                _ => it.inner is None && *final(self) == *old(self),
            },
    {
        match self {
            Concern::Success(value) => IterMut { inner: Some(value) },
            _ => IterMut { inner: None },
        }
    }

    /// Converts from `Concern<S, M>` to [`Option<S>`].
    ///
    /// Converts `self` into an [`Option<S>`], consuming `self`, and
    /// discarding the mistake, if any.
    #[verifier::when_used_as_spec(spec_success)]
    #[inline]
    pub fn success(self) -> (r: Option<S>)
        ensures
            r == self.spec_success(),
    {
        match self {
            Concern::Success(value) => Some(value),
            _ => None,
        }
    }

    /// Converts from `Concern<S, M>` to [`Option<M>`].
    ///
    /// Converts `self` into an [`Option<M>`], consuming `self`, and
    /// discarding the success, if any.
    #[verifier::when_used_as_spec(spec_mistake)]
    #[inline]
    pub fn mistake(self) -> (r: Option<M>)
        ensures
            r == self.spec_mistake(),
    {
        match self {
            Concern::Mistake(value) => Some(value),
            _ => None,
        }
    }

    /// Maps a `Concern<S, M>` to `Concern<T, M>` by applying a function to
    /// a contained [`Success`](Concern::Success) value, leaving any
    /// [`Mistake`](Concern::Mistake) value untouched.
    #[inline]
    pub fn map<T, C>(self, callable: C) -> (r: Concern<T, M>) where
        C: FnOnce(S) -> T,

        requires
            self matches Concern::Success(s) ==> call_requires(callable, (s,)),
        ensures
            match self {
                Concern::Success(s) => {
                    &&& r matches Concern::Success(t)
                    &&& call_ensures(callable, (s,), t)
                },
                Concern::Mistake(m) => r == Concern::<T, M>::Mistake(m),
            },
    {
        match self {
            Concern::Success(value) => Concern::Success(callable(value)),
            Concern::Mistake(value) => Concern::Mistake(value),
        }
    }

    /// Maps a `Concern<S, M>` to `Concern<S, N>` by applying a function to
    /// a contained [`Mistake`](Concern::Mistake) value, leaving any
    /// [`Success`](Concern::Success) value untouched.
    #[inline]
    pub fn map_mistake<N, C>(self, callable: C) -> (r: Concern<S, N>) where
        C: FnOnce(M) -> N,

        requires
            self matches Concern::Mistake(m) ==> call_requires(callable, (m,)),
        ensures
            match self {
                Concern::Success(s) => r == Concern::<S, N>::Success(s),
                Concern::Mistake(m) => {
                    &&& r matches Concern::Mistake(n)
                    &&& call_ensures(callable, (m,), n)
                },
            },
    {
        match self {
            Concern::Success(value) => Concern::Success(value),
            Concern::Mistake(value) => Concern::Mistake(callable(value)),
        }
    }

    /// Returns the contained [`Success`](Concern::Success) value, consuming
    /// the `self` value.
    ///
    /// The caller must know the concern is a `Success`.
    #[inline]
    pub fn unwrap(self) -> (s: S)
        requires
            self is Success,
        ensures
            self == Concern::<S, M>::Success(s),
    {
        match self {
            Concern::Success(s) => s,
            _ => vstd::pervasive::unreached(),
        }
    }

    /// Returns the contained [`Mistake`](Concern::Mistake) value, consuming
    /// the `self` value.
    ///
    /// The caller must know the concern is a `Mistake`.
    #[inline]
    pub fn unwrap_mistake(self) -> (m: M)
        requires
            self is Mistake,
        ensures
            self == Concern::<S, M>::Mistake(m),
    {
        match self {
            Concern::Mistake(m) => m,
            _ => vstd::pervasive::unreached(),
        }
    }
}

impl<S: core::ops::Deref, M> Concern<S, M> {
    /// Converts from `&Concern<S, M>` to `Concern<&S::Target, &M>`,
    /// coercing the [`Success`](Concern::Success) variant through its
    /// dereference.
    ///
    /// The tag is preserved exactly and the mistake payload is a borrow of
    /// the original; what the success borrow points at is up to `S`'s
    /// dereference, of which nothing is known generically.
    pub fn as_deref(&self) -> (r: Concern<&S::Target, &M>)
        ensures
            match *self {
                Concern::Success(_) => r is Success,
                Concern::Mistake(m) => r matches Concern::Mistake(p) && *p == m,
            },
    {
        match self {
            Concern::Success(s) => Concern::Success(<S as core::ops::Deref>::deref(s)),
            Concern::Mistake(m) => Concern::Mistake(m),
        }
    }
}

impl<S: core::ops::DerefMut, M> Concern<S, M> {
    /// Converts from `&mut Concern<S, M>` to
    /// `Concern<&mut S::Target, &mut M>`, coercing the
    /// [`Success`](Concern::Success) variant through its mutable
    /// dereference.
    ///
    /// The tag is preserved exactly; writes through the mistake borrow land
    /// in the original payload, while the success borrow reaches through
    /// `S`'s dereference, of which nothing is known generically.
    pub fn as_deref_mut(&mut self) -> (r: Concern<&mut S::Target, &mut M>)
        ensures
            match *old(self) {
                Concern::Success(_) => r is Success && *final(self) is Success,
                Concern::Mistake(m) => {
                    &&& r matches Concern::Mistake(p)
                    &&& *p == m
                    &&& *final(self) matches Concern::Mistake(q)
                    &&& q == *final(p)
                },
            },
    {
        match self {
            Concern::Success(s) => Concern::Success(<S as core::ops::DerefMut>::deref_mut(s)),
            Concern::Mistake(m) => Concern::Mistake(m),
        }
    }
}

} // verus!
