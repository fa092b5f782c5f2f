//! The owned form of a SQL value.

use vstd::prelude::*;
use vstd::std_specs::convert::FromSpecImpl;
use crate::types::{Null, Real};

verus! {

/// What a SQL value holds, whichever form carries it.
pub enum SqlValue {
    Null,
    Boolean(bool),
    Integer(int),
    /// The IEEE 754 bit pattern of the number.
    Real(u64),
    Text(Seq<char>),
    Blob(Seq<u8>),
}

/// A SQL value that owns its storage.
#[derive(Clone, Debug, PartialEq)]
pub enum Value {
    Null,
    Boolean(bool),
    Integer(i64),
    Real(Real),
    Text(String),
    Blob(Vec<u8>),
}

impl View for Value {
    type V = SqlValue;

    open spec fn view(&self) -> SqlValue {
        match *self {
            Value::Null => SqlValue::Null,
            Value::Boolean(b) => SqlValue::Boolean(b),
            Value::Integer(i) => SqlValue::Integer(i as int),
            Value::Real(r) => SqlValue::Real(r.bits),
            Value::Text(s) => SqlValue::Text(s@),
            Value::Blob(b) => SqlValue::Blob(b@),
        }
    }
}

/// The SQL NULL.
impl From<Null> for Value {
    fn from(_n: Null) -> (v: Value) {
        Value::Null
    }
}

impl FromSpecImpl<Null> for Value {
    open spec fn obeys_from_spec() -> bool {
        true
    }

    open spec fn from_spec(_n: Null) -> Value {
        Value::Null
    }
}

/// A boolean stays a boolean: it is not turned into a number.
impl From<bool> for Value {
    fn from(b: bool) -> (v: Value) {
        Value::Boolean(b)
    }
}

impl FromSpecImpl<bool> for Value {
    open spec fn obeys_from_spec() -> bool {
        true
    }

    open spec fn from_spec(b: bool) -> Value {
        Value::Boolean(b)
    }
}

/// A 32-bit integer becomes the integer of the same value.
impl From<i32> for Value {
    fn from(i: i32) -> (v: Value) {
        Value::Integer(i64::from(i))
    }
}

impl FromSpecImpl<i32> for Value {
    open spec fn obeys_from_spec() -> bool {
        true
    }

    open spec fn from_spec(i: i32) -> Value {
        Value::Integer(i as i64)
    }
}

/// A 64-bit integer becomes the integer of the same value.
impl From<i64> for Value {
    fn from(i: i64) -> (v: Value) {
        Value::Integer(i)
    }
}

impl FromSpecImpl<i64> for Value {
    open spec fn obeys_from_spec() -> bool {
        true
    }

    open spec fn from_spec(i: i64) -> Value {
        Value::Integer(i)
    }
}

/// A real number keeps its bit pattern.
impl From<Real> for Value {
    fn from(r: Real) -> (v: Value) {
        Value::Real(r)
    }
}

impl FromSpecImpl<Real> for Value {
    open spec fn obeys_from_spec() -> bool {
        true
    }

    open spec fn from_spec(r: Real) -> Value {
        Value::Real(r)
    }
}

/// A string becomes a text that holds the string itself.
impl From<String> for Value {
    fn from(s: String) -> (v: Value) {
        Value::Text(s)
    }
}

impl FromSpecImpl<String> for Value {
    open spec fn obeys_from_spec() -> bool {
        true
    }

    open spec fn from_spec(s: String) -> Value {
        Value::Text(s)
    }
}

/// A byte buffer becomes a blob that holds the buffer itself.
impl From<Vec<u8>> for Value {
    fn from(b: Vec<u8>) -> (v: Value) {
        Value::Blob(b)
    }
}

impl FromSpecImpl<Vec<u8>> for Value {
    open spec fn obeys_from_spec() -> bool {
        true
    }

    open spec fn from_spec(b: Vec<u8>) -> Value {
        Value::Blob(b)
    }
}

} // verus!
