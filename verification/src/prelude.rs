//! Quick imports for the types and traits most users need.
//!
//! The three sum types, the variants of [`Outcome`] under their bare names,
//! and the retryable conversion traits.

pub use crate::aberration::Aberration;
pub use crate::concern::Concern;
pub use crate::convert::{AttemptFrom, AttemptInto};
pub use crate::outcome::Outcome;
pub use crate::outcome::Outcome::{Failure, Mistake, Success};
