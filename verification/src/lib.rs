//! Conversion of native values into SQL values ready to be bound as
//! statement parameters.

use vstd::prelude::*;

pub mod error;
pub mod types;

pub use crate::error::Error;

verus! {

/// What a fallible operation of this crate returns.
pub type Result<T> = core::result::Result<T, Error>;

} // verus!
