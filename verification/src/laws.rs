//! Algebraic laws of the three sum types, stated and proved once for all
//! payload types.
//!
//! The lemmas here relate the spec-level views that the combinators'
//! contracts are written against: tag exclusivity, the inverse laws of
//! extraction, the functor laws of mapping, the one-step behaviour of the
//! escalation ladder, flattening, and the transpose round trip.

use crate::aberration::Aberration;
use crate::concern::Concern;
use crate::outcome::{spec_flatten, spec_transpose, spec_untranspose, Outcome};
use vstd::prelude::*;

verus! {

/// Every outcome is in exactly one of its three states: precisely one of
/// the `Success`, `Mistake` and `Failure` tag tests holds of any value.
pub proof fn lemma_outcome_tag_exclusive<S, M, F>(o: Outcome<S, M, F>)
    ensures
        (o is Success && !(o is Mistake) && !(o is Failure)) || (!(o is Success) && o is Mistake
            && !(o is Failure)) || (!(o is Success) && !(o is Mistake) && o is Failure),
{
}

/// Every aberration is in exactly one of its two states.
pub proof fn lemma_aberration_tag_exclusive<M, F>(a: Aberration<M, F>)
    ensures
        (a is Mistake && !(a is Failure)) || (!(a is Mistake) && a is Failure),
{
}

/// Every concern is in exactly one of its two states.
pub proof fn lemma_concern_tag_exclusive<S, M>(c: Concern<S, M>)
    ensures
        (c is Success && !(c is Mistake)) || (!(c is Success) && c is Mistake),
{
}

/// Extraction inverts construction: each payload extractor yields `Some` of
/// a value exactly when the outcome was built from that value with the
/// matching constructor. The borrowing projection `as_ref` preserves tag
/// and payload exactly, so the same holds through it.
pub proof fn lemma_extraction_inverse<S, M, F>(o: Outcome<S, M, F>, s: S, m: M, f: F)
    ensures
        (o.spec_success() == Some(s)) <==> o == Outcome::<S, M, F>::Success(s),
        (o.spec_mistake() == Some(m)) <==> o == Outcome::<S, M, F>::Mistake(m),
        (o.spec_failure() == Some(f)) <==> o == Outcome::<S, M, F>::Failure(f),
{
}

/// The borrowing form of the inverse law: whenever `r` is the projection
/// `as_ref` yields from `o`, extracting a payload from `r` yields a borrow
/// of a value exactly when `o` was built from that value with the matching
/// constructor.
pub proof fn lemma_projection_inverse<S, M, F>(
    o: Outcome<S, M, F>,
    r: Outcome<&S, &M, &F>,
    s: S,
    m: M,
    f: F,
)
    requires
        match o {
            Outcome::Success(v) => r matches Outcome::Success(p) && *p == v,
            Outcome::Mistake(v) => r matches Outcome::Mistake(p) && *p == v,
            Outcome::Failure(v) => r matches Outcome::Failure(p) && *p == v,
        },
    ensures
        (r.spec_success() matches Some(p) && *p == s) <==> o == Outcome::<S, M, F>::Success(s),
        (r.spec_mistake() matches Some(p) && *p == m) <==> o == Outcome::<S, M, F>::Mistake(m),
        (r.spec_failure() matches Some(p) && *p == f) <==> o == Outcome::<S, M, F>::Failure(f),
{
}

/// Mapping with the identity function returns the outcome unchanged, on
/// all three variants.
pub proof fn lemma_map_identity<S, M, F>(o: Outcome<S, M, F>)
    ensures
        o.spec_map(|s: S| s) == o,
{
}

/// Mapping twice is mapping the composition: rewriting the success payload
/// with `f` and then with `g` is rewriting it with `g` after `f`.
pub proof fn lemma_map_composition<S, M, F, T, U>(
    o: Outcome<S, M, F>,
    f: spec_fn(S) -> T,
    g: spec_fn(T) -> U,
)
    ensures
        o.spec_map(f).spec_map(g) == o.spec_map(|s: S| g(f(s))),
{
}

/// A callable that computes the mathematical function `g` makes `map`
/// produce exactly `spec_map(g)`: the contract of
/// [`map`](Outcome::map) leaves no other result.
pub proof fn lemma_map_models<S, M, F, T>(
    o: Outcome<S, M, F>,
    r: Outcome<T, M, F>,
    g: spec_fn(S) -> T,
)
    requires
        match o {
            Outcome::Success(s) => r matches Outcome::Success(t) && t == g(s),
            Outcome::Mistake(m) => r == Outcome::<T, M, F>::Mistake(m),
            Outcome::Failure(f) => r == Outcome::<T, M, F>::Failure(f),
        },
    ensures
        r == o.spec_map(g),
{
}

/// The severity of an outcome's state, ordered `Success` below `Mistake`
/// below `Failure`.
pub open spec fn severity<S, M, F>(o: Outcome<S, M, F>) -> int {
    match o {
        Outcome::Success(_) => 0,
        Outcome::Mistake(_) => 1,
        Outcome::Failure(_) => 2,
    }
}

/// The severity of an aberration's state, on the same scale as
/// [`severity`].
pub open spec fn aberration_severity<M, F>(a: Aberration<M, F>) -> int {
    match a {
        Aberration::Mistake(_) => 1,
        Aberration::Failure(_) => 2,
    }
}

/// Escalation is monotone and stops at the terminal state: one call of
/// [`escalate`](Outcome::escalate) advances severity by exactly one step
/// unless the outcome is already a `Failure`, which passes through with its
/// payload unchanged.
pub proof fn lemma_escalate_monotone<S: Into<M>, M: Into<F>, F>(
    o: Outcome<S, M, F>,
    r: Aberration<M, F>,
)
    requires
        o.escalate_rel(r),
    ensures
        aberration_severity(r) == if severity(o) < 2 {
            severity(o) + 1
        } else {
            2
        },
        o matches Outcome::Failure(f) ==> r == Aberration::<M, F>::Failure(f),
{
}

/// Starting from a `Success`, successive escalations walk the whole
/// ladder: the first call yields a `Mistake` and the second a `Failure`.
pub proof fn lemma_escalation_ladder<S: Into<M>, M: Into<F>, F>(
    s: S,
    r1: Aberration<M, F>,
    r2: Outcome<core::convert::Infallible, core::convert::Infallible, F>,
)
    requires
        Outcome::<S, M, F>::Success(s).escalate_rel(r1),
        r1.escalate_rel(r2),
    ensures
        r1 is Mistake,
        r2 is Failure,
{
}

/// At the terminal state escalation is idempotent: an outcome already at
/// `Failure` escalates to the same failure payload, and escalating that
/// result again still returns the same payload unchanged.
pub proof fn lemma_escalate_terminal<S: Into<M>, M: Into<F>, F>(
    f: F,
    r: Aberration<M, F>,
    q: Outcome<core::convert::Infallible, core::convert::Infallible, F>,
)
    requires
        Outcome::<S, M, F>::Failure(f).escalate_rel(r),
        r.escalate_rel(q),
    ensures
        r == Aberration::<M, F>::Failure(f),
        q is Failure && q->Failure_0 == f,
{
}

/// Flattening removes exactly one layer of nesting: a doubly-nested
/// success loses only its outer wrapping, and a second flattening is
/// needed to reach the innermost outcome.
pub proof fn lemma_flatten_one_layer<S, M, F>(x: S)
    ensures
        spec_flatten(
            Outcome::<Outcome<Outcome<S, M, F>, M, F>, M, F>::Success(
                Outcome::Success(Outcome::Success(x)),
            ),
        ) == Outcome::<Outcome<S, M, F>, M, F>::Success(Outcome::Success(x)),
        spec_flatten(
            spec_flatten(
                Outcome::<Outcome<Outcome<S, M, F>, M, F>, M, F>::Success(
                    Outcome::Success(Outcome::Success(x)),
                ),
            ),
        ) == Outcome::<S, M, F>::Success(x),
{
}

/// An error at either nesting level passes through flattening unchanged.
pub proof fn lemma_flatten_passes_errors<S, M, F>(o: Outcome<Outcome<S, M, F>, M, F>)
    ensures
        o matches Outcome::Mistake(m) ==> spec_flatten(o) == Outcome::<S, M, F>::Mistake(m),
        o matches Outcome::Failure(f) ==> spec_flatten(o) == Outcome::<S, M, F>::Failure(f),
        o matches Outcome::Success(inner) ==> spec_flatten(o) == inner,
{
}

/// Transposition round-trips: reading an optional outcome as the outcome
/// of an optional value and transposing back returns the original, for
/// every variant shape, and the other direction holds as well. In
/// particular `None` and `Success(None)` correspond.
pub proof fn lemma_transpose_round_trip<S, M, F>(
    x: Option<Outcome<S, M, F>>,
    o: Outcome<Option<S>, M, F>,
)
    ensures
        spec_transpose(spec_untranspose(x)) == x,
        spec_untranspose(spec_transpose(o)) == o,
        spec_untranspose(None::<Outcome<S, M, F>>) == Outcome::<Option<S>, M, F>::Success(None),
{
}

} // verus!
