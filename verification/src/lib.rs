//! One error type for results that cross subsystem boundaries.
//!
//! A failure is either a message or a foreign error carried along unchanged.
//! Whatever it came from, a [`StandardError`] answers the same questions: how
//! it describes itself, what detail it adds, and what caused it.

pub mod error;
pub mod foreign;
pub mod laws;
pub mod propagate;

pub use error::{FromError, StandardError, StandardResult};
pub use foreign::{ForeignError, Link};
pub use propagate::{fail, propagate, propagate_with};
