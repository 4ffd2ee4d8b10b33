//! Single-element sequence adapters over the success payload.
//!
//! Each adapter behaves like a sequence holding zero or one element: it
//! yields the success payload once, if there is one, and is exhausted
//! afterwards.

use vstd::prelude::*;

verus! {

/// An owning adapter over the value in a
/// [`Success`](crate::outcome::Outcome::Success) variant of an
/// [`Outcome`](crate::outcome::Outcome).
///
/// It yields one value if the outcome was a `Success`, otherwise none.
#[derive(Clone, Debug)]
pub struct IntoIter<T> {
    pub inner: Option<T>,
}

/// An adapter over a mutable reference to the
/// [`Success`](crate::outcome::Outcome::Success) variant of an
/// [`Outcome`](crate::outcome::Outcome).
///
/// It yields one reference if the outcome is a `Success`, otherwise none.
#[derive(Debug)]
pub struct IterMut<'a, T> {
    pub inner: Option<&'a mut T>,
}

/// An adapter over a shared reference to the
/// [`Success`](crate::outcome::Outcome::Success) variant of an
/// [`Outcome`](crate::outcome::Outcome).
///
/// It yields one reference if the outcome is a `Success`, otherwise none.
#[derive(Debug)]
pub struct Iter<'a, T> {
    pub inner: Option<&'a T>,
}

impl<T> IntoIter<T> {
    /// Yields the remaining value, if any, leaving the adapter exhausted.
    #[inline]
    pub fn next(&mut self) -> (r: Option<T>)
        ensures
            r == old(self).inner,
            final(self).inner is None,
    {
        self.inner.take()
    }

    /// Yields the remaining value from the back, if any, leaving the adapter
    /// exhausted. On a sequence of at most one element this is the same
    /// element `next` yields.
    #[inline]
    pub fn next_back(&mut self) -> (r: Option<T>)
        ensures
            r == old(self).inner,
            final(self).inner is None,
    {
        self.inner.take()
    }

    /// How many values remain: one before the element is yielded, zero
    /// after, and zero always when the outcome was no success.
    #[inline]
    pub fn len(&self) -> (n: usize)
        ensures
            n == if self.inner is Some { 1int } else { 0int },
    {
        if self.inner.is_some() { 1 } else { 0 }
    }
}

impl<'a, T> IterMut<'a, T> {
    /// Yields the remaining reference, if any, leaving the adapter
    /// exhausted.
    #[inline]
    pub fn next(&mut self) -> (r: Option<&'a mut T>)
        ensures
            r == old(self).inner,
            final(self).inner is None,
    {
        self.inner.take()
    }

    /// Yields the remaining reference from the back, if any, leaving the
    /// adapter exhausted. On a sequence of at most one element this is the
    /// same element `next` yields.
    #[inline]
    pub fn next_back(&mut self) -> (r: Option<&'a mut T>)
        ensures
            r == old(self).inner,
            final(self).inner is None,
    {
        self.inner.take()
    }

    /// How many references remain: one or zero.
    #[inline]
    pub fn len(&self) -> (n: usize)
        ensures
            n == if self.inner is Some { 1int } else { 0int },
    {
        if self.inner.is_some() { 1 } else { 0 }
    }
}

impl<'a, T> Iter<'a, T> {
    /// Yields the remaining reference, if any, leaving the adapter
    /// exhausted.
    #[inline]
    pub fn next(&mut self) -> (r: Option<&'a T>)
        ensures
            r == old(self).inner,
            final(self).inner is None,
    {
        self.inner.take()
    }

    /// Yields the remaining reference from the back, if any, leaving the
    /// adapter exhausted. On a sequence of at most one element this is the
    /// same element `next` yields.
    #[inline]
    pub fn next_back(&mut self) -> (r: Option<&'a T>)
        ensures
            r == old(self).inner,
            final(self).inner is None,
    {
        self.inner.take()
    }

    /// How many references remain: one or zero.
    #[inline]
    pub fn len(&self) -> (n: usize)
        ensures
            n == if self.inner is Some { 1int } else { 0int },
    {
        if self.inner.is_some() { 1 } else { 0 }
    }
}

} // verus!
