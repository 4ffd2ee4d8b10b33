//! A three-state result type, with every operation carrying a proved
//! contract.
//!
//! An [`Outcome`] represents one of three mutually exclusive states of an
//! operation: [`Success`](outcome::Outcome::Success), carrying the produced
//! value; [`Mistake`](outcome::Outcome::Mistake), a retryable
//! non-completion; or [`Failure`](outcome::Outcome::Failure), a fatal
//! non-completion. [`Aberration`] and [`Concern`] are its two two-state
//! projections — the error half and the non-fatal half — obtained by
//! discarding one dimension.
//!
//! The combinator surface mirrors the conventional two-state result type:
//! inspection, borrowing projections, consuming extraction, mapping and
//! chaining, total unwrapping fallbacks, and the one-directional
//! severity-escalation ladder `Success` to `Mistake` to `Failure`, which is
//! terminal at `Failure`. The [`convert`] module holds the retryable
//! conversion protocol, [`iter`] the zero-or-one-element sequence adapters,
//! [`ext`] the conversions with the standard library's lock results, and
//! [`laws`] the proved algebraic laws relating all of these.

pub mod aberration;
pub mod concern;
pub mod convert;
pub mod ext;
pub mod iter;
pub mod laws;
pub mod outcome;
pub mod prelude;

pub use crate::aberration::Aberration;
pub use crate::concern::Concern;
pub use crate::outcome::Outcome;
