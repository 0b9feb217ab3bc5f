//! A fallback type.
//!
//! [`Fallback`] holds a primary value and a value to fall back on, each of
//! which may be missing, and resolves the two to one: the primary value where
//! it is present and fit, else the secondary one.

pub mod companion;
pub mod empty;
pub mod iter;
pub mod laws;
pub mod pair;

pub use companion::FallbackSpec;
pub use empty::{ExactLen, StrView};
pub use iter::FallbackIter;
pub use pair::Fallback;
