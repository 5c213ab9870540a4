//! Containers for values that may be absent, single, or a list of two or more.
//!
//! [`Multiple`] always holds at least two elements. [`MaybeMultiple`] is the
//! three-way choice between nothing, one element, and a [`Multiple`]: the
//! shape of a configuration field that can be left out, given once, or given
//! as a list.

pub mod maybe_multiple;
pub mod multiple;

pub use maybe_multiple::MaybeMultiple;
pub use multiple::Multiple;
pub use multiple::VecSizeError;
