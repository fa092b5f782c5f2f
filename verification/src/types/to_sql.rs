//! Conversion of native values into SQL values.
//!
//! A value is converted by [`ToSql::to_sql`], which gives a
//! [`ToSqlOutput`]: a value borrowed from the converted one where its
//! storage can be shared, an owned value where it cannot.

use vstd::prelude::*;
use vstd::std_specs::convert::{FromSpecImpl, IntoSpec};
use vstd::string::StringSliceAdditionalSpecFns;
use vstd::utf8::encode_utf8;
use crate::error::Error;
use crate::types::{Null, Real};
use crate::types::value::{SqlValue, Value};
use crate::types::value_ref::ValueRef;

verus! {

/// What a conversion output holds: its shape and the content of its value.
pub enum SqlOutput {
    Borrowed(SqlValue),
    Owned(SqlValue),
    /// The number of zero bytes to reserve.
    ZeroBlob(int),
}

/// The result of converting a native value.
#[derive(Clone, Debug, PartialEq)]
pub enum ToSqlOutput<'a> {
    /// A value that borrows from the converted one, and so has to be used
    /// up while that one is alive.
    Borrowed(ValueRef<'a>),
    /// A value with storage of its own.
    Owned(Value),
    /// A blob of the given number of zero bytes, reserved to be written
    /// later. No conversion of this crate yields it.
    ZeroBlob(i32),
}

impl<'a> View for ToSqlOutput<'a> {
    type V = SqlOutput;

    open spec fn view(&self) -> SqlOutput {
        match *self {
            ToSqlOutput::Borrowed(r) => SqlOutput::Borrowed(r@),
            ToSqlOutput::Owned(v) => SqlOutput::Owned(v@),
            ToSqlOutput::ZeroBlob(n) => SqlOutput::ZeroBlob(n as int),
        }
    }
}

/// The one way to a borrowed output: whatever turns into a borrowed value
/// gives the output that wraps that very value. Nothing is copied.
impl<'a, T: ?Sized> From<&'a T> for ToSqlOutput<'a> where &'a T: Into<ValueRef<'a>> {
    fn from(t: &'a T) -> (out: ToSqlOutput<'a>)
        ensures
            out matches ToSqlOutput::Borrowed(r) && call_ensures(
                <&'a T as Into<ValueRef<'a>>>::into,
                (t,),
                r,
            ),
    {
        ToSqlOutput::Borrowed(t.into())
    }
}

/// Where the conversion into a borrowed value is given as a term, so is the
/// output.
impl<'a, T: ?Sized> FromSpecImpl<&'a T> for ToSqlOutput<'a> where &'a T: Into<ValueRef<'a>> {
    open spec fn obeys_from_spec() -> bool {
        <&'a T as IntoSpec<ValueRef<'a>>>::obeys_into_spec()
    }

    open spec fn from_spec(t: &'a T) -> ToSqlOutput<'a> {
        ToSqlOutput::Borrowed(t.into_spec())
    }
}

impl<'a> ToSqlOutput<'a> {
    /// The one way to an owned output: whatever turns into an owned value
    /// gives the output that wraps that value. The conversions from the
    /// single types below all go through it.
    pub fn owned<T: Into<Value>>(t: T) -> (out: ToSqlOutput<'a>)
        ensures
            out matches ToSqlOutput::Owned(v) && call_ensures(<T as Into<Value>>::into, (t,), v),
            <T as IntoSpec<Value>>::obeys_into_spec() ==> out == ToSqlOutput::Owned::<'a>(
                t.into_spec(),
            ),
    {
        ToSqlOutput::Owned(t.into())
    }
}

impl<'a> From<Null> for ToSqlOutput<'a> {
    fn from(t: Null) -> (out: ToSqlOutput<'a>) {
        ToSqlOutput::owned(t)
    }
}

impl<'a> FromSpecImpl<Null> for ToSqlOutput<'a> {
    open spec fn obeys_from_spec() -> bool {
        true
    }

    open spec fn from_spec(t: Null) -> ToSqlOutput<'a> {
        ToSqlOutput::Owned(Value::Null)
    }
}

impl<'a> From<bool> for ToSqlOutput<'a> {
    fn from(t: bool) -> (out: ToSqlOutput<'a>) {
        ToSqlOutput::owned(t)
    }
}

impl<'a> FromSpecImpl<bool> for ToSqlOutput<'a> {
    open spec fn obeys_from_spec() -> bool {
        true
    }

    open spec fn from_spec(t: bool) -> ToSqlOutput<'a> {
        ToSqlOutput::Owned(Value::Boolean(t))
    }
}

impl<'a> From<i32> for ToSqlOutput<'a> {
    fn from(t: i32) -> (out: ToSqlOutput<'a>) {
        ToSqlOutput::owned(t)
    }
}

impl<'a> FromSpecImpl<i32> for ToSqlOutput<'a> {
    open spec fn obeys_from_spec() -> bool {
        true
    }

    open spec fn from_spec(t: i32) -> ToSqlOutput<'a> {
        ToSqlOutput::Owned(Value::Integer(t as i64))
    }
}

impl<'a> From<i64> for ToSqlOutput<'a> {
    fn from(t: i64) -> (out: ToSqlOutput<'a>) {
        ToSqlOutput::owned(t)
    }
}

impl<'a> FromSpecImpl<i64> for ToSqlOutput<'a> {
    open spec fn obeys_from_spec() -> bool {
        true
    }

    open spec fn from_spec(t: i64) -> ToSqlOutput<'a> {
        ToSqlOutput::Owned(Value::Integer(t))
    }
}

impl<'a> From<Real> for ToSqlOutput<'a> {
    fn from(t: Real) -> (out: ToSqlOutput<'a>) {
        ToSqlOutput::owned(t)
    }
}

impl<'a> FromSpecImpl<Real> for ToSqlOutput<'a> {
    open spec fn obeys_from_spec() -> bool {
        true
    }

    open spec fn from_spec(t: Real) -> ToSqlOutput<'a> {
        ToSqlOutput::Owned(Value::Real(t))
    }
}

impl<'a> From<String> for ToSqlOutput<'a> {
    fn from(t: String) -> (out: ToSqlOutput<'a>) {
        ToSqlOutput::owned(t)
    }
}

impl<'a> FromSpecImpl<String> for ToSqlOutput<'a> {
    open spec fn obeys_from_spec() -> bool {
        true
    }

    open spec fn from_spec(t: String) -> ToSqlOutput<'a> {
        ToSqlOutput::Owned(Value::Text(t))
    }
}

impl<'a> From<Vec<u8>> for ToSqlOutput<'a> {
    fn from(t: Vec<u8>) -> (out: ToSqlOutput<'a>) {
        ToSqlOutput::owned(t)
    }
}

impl<'a> FromSpecImpl<Vec<u8>> for ToSqlOutput<'a> {
    open spec fn obeys_from_spec() -> bool {
        true
    }

    open spec fn from_spec(t: Vec<u8>) -> ToSqlOutput<'a> {
        ToSqlOutput::Owned(Value::Blob(t))
    }
}

impl<'a> From<Value> for ToSqlOutput<'a> {
    /// An owned value is wrapped as it is.
    fn from(t: Value) -> (out: ToSqlOutput<'a>) {
        ToSqlOutput::Owned(t)
    }
}

impl<'a> FromSpecImpl<Value> for ToSqlOutput<'a> {
    open spec fn obeys_from_spec() -> bool {
        true
    }

    open spec fn from_spec(t: Value) -> ToSqlOutput<'a> {
        ToSqlOutput::Owned(t)
    }
}

impl<'a, 'b> From<ValueRef<'b>> for ToSqlOutput<'a> {
    /// A borrowed value handed over by itself is copied into an owned one,
    /// so that the output outlives what the value borrowed from.
    fn from(t: ValueRef<'b>) -> (out: ToSqlOutput<'a>)
        ensures
            out@ == SqlOutput::Owned(t@),
    {
        ToSqlOutput::owned(t)
    }
}

/// The copy is known by its content alone, so the result is stated through
/// its view, on `from` itself, and not as a term.
impl<'a, 'b> FromSpecImpl<ValueRef<'b>> for ToSqlOutput<'a> {
    open spec fn obeys_from_spec() -> bool {
        false
    }

    open spec fn from_spec(t: ValueRef<'b>) -> ToSqlOutput<'a> {
        arbitrary()
    }
}

/// How a conversion can end: with the content of an output, or with the
/// cause of a failure.
pub type SqlOutcome = Result<SqlOutput, Seq<char>>;

/// How a conversion ended.
pub open spec fn outcome(r: Result<ToSqlOutput<'_>, Error>) -> SqlOutcome {
    match r {
        Ok(out) => Ok(out@),
        Err(e) => Err(e@),
    }
}

/// A type whose values can be converted into SQL values.
///
/// An implementation says in `sql_spec` what each value converts to, or
/// with which cause its conversion fails, and `to_sql` has to keep to it.
/// A value that has no SQL representation is to fail, never to be cut to
/// fit.
pub trait ToSql {
    /// What the conversion of this value yields.
    spec fn sql_spec(&self) -> SqlOutcome;

    /// Converts the value, which is only read.
    fn to_sql(&self) -> (r: crate::Result<ToSqlOutput<'_>>)
        ensures
            outcome(r) == self.sql_spec(),
    ;
}

impl ToSql for Null {
    open spec fn sql_spec(&self) -> SqlOutcome {
        Ok(SqlOutput::Owned(SqlValue::Null))
    }

    fn to_sql(&self) -> (r: crate::Result<ToSqlOutput<'_>>)
        ensures
            r == Ok::<ToSqlOutput<'_>, Error>(ToSqlOutput::Owned(Value::Null)),
    {
        Ok(ToSqlOutput::from(*self))
    }
}

impl ToSql for bool {
    open spec fn sql_spec(&self) -> SqlOutcome {
        Ok(SqlOutput::Owned(SqlValue::Boolean(*self)))
    }

    fn to_sql(&self) -> (r: crate::Result<ToSqlOutput<'_>>)
        ensures
            r == Ok::<ToSqlOutput<'_>, Error>(ToSqlOutput::Owned(Value::Boolean(*self))),
    {
        Ok(ToSqlOutput::from(*self))
    }
}

impl ToSql for i32 {
    open spec fn sql_spec(&self) -> SqlOutcome {
        Ok(SqlOutput::Owned(SqlValue::Integer(*self as int)))
    }

    fn to_sql(&self) -> (r: crate::Result<ToSqlOutput<'_>>)
        ensures
            r matches Ok(ToSqlOutput::Owned(Value::Integer(i))) && i == *self,
    {
        Ok(ToSqlOutput::from(*self))
    }
}

impl ToSql for i64 {
    open spec fn sql_spec(&self) -> SqlOutcome {
        Ok(SqlOutput::Owned(SqlValue::Integer(*self as int)))
    }

    fn to_sql(&self) -> (r: crate::Result<ToSqlOutput<'_>>)
        ensures
            r == Ok::<ToSqlOutput<'_>, Error>(ToSqlOutput::Owned(Value::Integer(*self))),
    {
        Ok(ToSqlOutput::from(*self))
    }
}

impl ToSql for Real {
    open spec fn sql_spec(&self) -> SqlOutcome {
        Ok(SqlOutput::Owned(SqlValue::Real(self.bits)))
    }

    fn to_sql(&self) -> (r: crate::Result<ToSqlOutput<'_>>)
        ensures
            r == Ok::<ToSqlOutput<'_>, Error>(ToSqlOutput::Owned(Value::Real(*self))),
    {
        Ok(ToSqlOutput::from(*self))
    }
}

impl ToSql for str {
    open spec fn sql_spec(&self) -> SqlOutcome {
        Ok(SqlOutput::Borrowed(SqlValue::Text(self@)))
    }

    fn to_sql(&self) -> (r: crate::Result<ToSqlOutput<'_>>)
        ensures
            r == Ok::<ToSqlOutput<'_>, Error>(ToSqlOutput::Borrowed(ValueRef::Text(self))),
    {
        Ok(ToSqlOutput::from(self))
    }
}

impl ToSql for [u8] {
    open spec fn sql_spec(&self) -> SqlOutcome {
        Ok(SqlOutput::Borrowed(SqlValue::Blob(self@)))
    }

    fn to_sql(&self) -> (r: crate::Result<ToSqlOutput<'_>>)
        ensures
            r == Ok::<ToSqlOutput<'_>, Error>(ToSqlOutput::Borrowed(ValueRef::Blob(self))),
    {
        Ok(ToSqlOutput::from(self))
    }
}

impl ToSql for String {
    open spec fn sql_spec(&self) -> SqlOutcome {
        Ok(SqlOutput::Borrowed(SqlValue::Text(self@)))
    }

    fn to_sql(&self) -> (r: crate::Result<ToSqlOutput<'_>>)
        ensures
            r matches Ok(ToSqlOutput::Borrowed(ValueRef::Text(s))) && s@ == self@,
    {
        Ok(ToSqlOutput::from(self.as_str()))
    }
}

impl ToSql for Vec<u8> {
    open spec fn sql_spec(&self) -> SqlOutcome {
        Ok(SqlOutput::Borrowed(SqlValue::Blob(self@)))
    }

    fn to_sql(&self) -> (r: crate::Result<ToSqlOutput<'_>>)
        ensures
            r matches Ok(ToSqlOutput::Borrowed(ValueRef::Blob(b))) && b@ == self@,
    {
        Ok(ToSqlOutput::from(self.as_slice()))
    }
}

impl ToSql for Value {
    open spec fn sql_spec(&self) -> SqlOutcome {
        Ok(SqlOutput::Borrowed(self@))
    }

    /// A value that is a SQL value already is not transformed: the output
    /// borrows it.
    fn to_sql(&self) -> (r: crate::Result<ToSqlOutput<'_>>)
        ensures
            r matches Ok(ToSqlOutput::Borrowed(v)) && v@ == self@,
    {
        Ok(ToSqlOutput::from(self))
    }
}

impl<T: ToSql + ?Sized> ToSql for &T {
    open spec fn sql_spec(&self) -> SqlOutcome {
        (**self).sql_spec()
    }

    /// Hands on what the value referred to converts to, be it an output
    /// or a failure.
    fn to_sql(&self) -> (r: crate::Result<ToSqlOutput<'_>>)
        ensures
            call_ensures(<T as ToSql>::to_sql, (*self,), r),
    {
        (**self).to_sql()
    }
}

impl<T: ToSql> ToSql for Option<T> {
    open spec fn sql_spec(&self) -> SqlOutcome {
        match *self {
            None => Ok(SqlOutput::Owned(SqlValue::Null)),
            Some(t) => t.sql_spec(),
        }
    }

    /// An absent value is the SQL NULL. A present one is converted as the
    /// value inside, whose output or failure is handed on unchanged.
    fn to_sql(&self) -> (r: crate::Result<ToSqlOutput<'_>>)
        ensures
            match *self {
                None => r == Ok::<ToSqlOutput<'_>, Error>(ToSqlOutput::Owned(Value::Null)),
                Some(t) => call_ensures(<T as ToSql>::to_sql, (&t,), r),
            },
    {
        match *self {
            None => Ok(ToSqlOutput::from(Null)),
            Some(ref t) => t.to_sql(),
        }
    }
}

/// A converted text reads as the text that was converted, character
/// for character and so byte for byte.
pub proof fn lemma_text_bytes_are_kept(s: String, t: &str)
    requires
        s.sql_spec() == SqlOutcome::Ok(ToSqlOutput::Borrowed(ValueRef::Text(t))@),
    ensures
        t@ == s@,
        t.spec_bytes() == encode_utf8(s@),
{
}

/// An absent value converts to what the SQL NULL converts to, whatever
/// type the value would have had.
pub proof fn lemma_absent_is_null<T: ToSql>()
    ensures
        None::<T>.sql_spec() == Null.sql_spec(),
        None::<T>.sql_spec() == SqlOutcome::Ok(SqlOutput::Owned(SqlValue::Null)),
{
}

/// A present value converts to what the value inside converts to: the same
/// output, or the same failure.
pub proof fn lemma_present_is_inner<T: ToSql>(v: T)
    ensures
        Some(v).sql_spec() == v.sql_spec(),
{
}

/// Absence at either level of a nested optional value converts to the one
/// SQL NULL, and a value present at both levels to what it converts to
/// itself.
pub proof fn lemma_nested_optional<T: ToSql>(v: Option<Option<T>>)
    ensures
        v.sql_spec() == (match v {
            Some(Some(t)) => t.sql_spec(),
            _ => Null.sql_spec(),
        }),
{
}

/// A reference converts to what the value it refers to converts to.
pub proof fn lemma_reference_is_transparent<T: ToSql + ?Sized>(v: &T)
    ensures
        <&T as ToSql>::sql_spec(&v) == <T as ToSql>::sql_spec(v),
{
}

/// Passing a SQL value through keeps its content, so a value with the
/// content of an output converts to that output again.
pub proof fn lemma_pass_through_is_idempotent(v: Value, w: Value)
    requires
        v.sql_spec() == SqlOutcome::Ok(SqlOutput::Borrowed(w@)),
    ensures
        w@ == v@,
        w.sql_spec() == v.sql_spec(),
{
}

} // verus!
