//! The SQL value model and the conversion of native values into it.

use vstd::prelude::*;

pub mod to_sql;
pub mod value;
pub mod value_ref;

pub use self::to_sql::{SqlOutcome, SqlOutput, ToSql, ToSqlOutput};
pub use self::value::{SqlValue, Value};
pub use self::value_ref::ValueRef;

verus! {

/// The SQL NULL, as a value of its own type.
#[derive(Copy, Clone, Debug, PartialEq, Eq)]
pub struct Null;

/// A 64-bit floating point number, carried by its IEEE 754 bit pattern.
///
/// No arithmetic is done on it here: the pattern is handed on unchanged.
#[derive(Copy, Clone, Debug, PartialEq, Eq)]
pub struct Real {
    pub bits: u64,
}

impl Real {
    /// The number with the given bit pattern.
    pub fn from_bits(bits: u64) -> (r: Real)
        ensures
            r.bits == bits,
    {
        Real { bits }
    }

    /// The bit pattern of the number.
    pub fn to_bits(self) -> (bits: u64)
        ensures
            bits == self.bits,
    {
        self.bits
    }
}

} // verus!
