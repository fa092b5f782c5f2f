//! The borrowed form of a SQL value.

use vstd::prelude::*;
use vstd::slice::slice_to_vec;
use vstd::std_specs::convert::FromSpecImpl;
use crate::types::Real;
use crate::types::value::{SqlValue, Value};

verus! {

/// A SQL value that borrows its text or its bytes from a value that lives
/// at least as long as `'a`.
#[derive(Copy, Clone, Debug, PartialEq)]
pub enum ValueRef<'a> {
    Null,
    Boolean(bool),
    Integer(i64),
    Real(Real),
    Text(&'a str),
    Blob(&'a [u8]),
}

impl<'a> View for ValueRef<'a> {
    type V = SqlValue;

    open spec fn view(&self) -> SqlValue {
        match *self {
            ValueRef::Null => SqlValue::Null,
            ValueRef::Boolean(b) => SqlValue::Boolean(b),
            ValueRef::Integer(i) => SqlValue::Integer(i as int),
            ValueRef::Real(r) => SqlValue::Real(r.bits),
            ValueRef::Text(s) => SqlValue::Text(s@),
            ValueRef::Blob(b) => SqlValue::Blob(b@),
        }
    }
}

/// A string slice becomes a text that borrows the slice.
impl<'a> From<&'a str> for ValueRef<'a> {
    fn from(s: &'a str) -> (r: ValueRef<'a>) {
        ValueRef::Text(s)
    }
}

impl<'a> FromSpecImpl<&'a str> for ValueRef<'a> {
    open spec fn obeys_from_spec() -> bool {
        true
    }

    open spec fn from_spec(s: &'a str) -> ValueRef<'a> {
        ValueRef::Text(s)
    }
}

/// A byte slice becomes a blob that borrows the slice.
impl<'a> From<&'a [u8]> for ValueRef<'a> {
    fn from(b: &'a [u8]) -> (r: ValueRef<'a>) {
        ValueRef::Blob(b)
    }
}

impl<'a> FromSpecImpl<&'a [u8]> for ValueRef<'a> {
    open spec fn obeys_from_spec() -> bool {
        true
    }

    open spec fn from_spec(b: &'a [u8]) -> ValueRef<'a> {
        ValueRef::Blob(b)
    }
}

impl<'a> From<&'a Value> for ValueRef<'a> {
    /// The view over an owned value: of the same kind, with the same
    /// content, the text and the bytes borrowed and not copied.
    fn from(v: &'a Value) -> (r: ValueRef<'a>)
        ensures
            r@ == v@,
    {
        match v {
            Value::Null => ValueRef::Null,
            Value::Boolean(b) => ValueRef::Boolean(*b),
            Value::Integer(i) => ValueRef::Integer(*i),
            Value::Real(r) => ValueRef::Real(*r),
            Value::Text(s) => ValueRef::Text(s.as_str()),
            Value::Blob(b) => ValueRef::Blob(b.as_slice()),
        }
    }
}

/// A borrowed text is known by its content alone, so the result is stated
/// through its view, on `from` itself, and not as a term.
impl<'a> FromSpecImpl<&'a Value> for ValueRef<'a> {
    open spec fn obeys_from_spec() -> bool {
        false
    }

    open spec fn from_spec(v: &'a Value) -> ValueRef<'a> {
        arbitrary()
    }
}

impl<'a> From<ValueRef<'a>> for Value {
    /// The owned value of the same kind and with the same content, the text
    /// or the bytes copied into storage of its own.
    fn from(r: ValueRef<'a>) -> (v: Value)
        ensures
            v@ == r@,
    {
        match r {
            ValueRef::Null => Value::Null,
            ValueRef::Boolean(b) => Value::Boolean(b),
            ValueRef::Integer(i) => Value::Integer(i),
            ValueRef::Real(x) => Value::Real(x),
            ValueRef::Text(s) => Value::Text(s.to_owned()),
            ValueRef::Blob(b) => Value::Blob(slice_to_vec(b)),
        }
    }
}

/// The copy is known by its content alone, so the result is stated through
/// its view, on `from` itself, and not as a term.
impl<'a> FromSpecImpl<ValueRef<'a>> for Value {
    open spec fn obeys_from_spec() -> bool {
        false
    }

    open spec fn from_spec(r: ValueRef<'a>) -> Value {
        arbitrary()
    }
}

} // verus!
