//! The failure channel of a conversion.

use vstd::prelude::*;

verus! {

/// Why a value could not be turned into a SQL value.
#[derive(Debug, Clone, PartialEq, Eq)]
pub enum Error {
    /// The value has no representation among the SQL values; the text tells
    /// the cause.
    ToSqlConversionFailure(String),
}

impl View for Error {
    type V = Seq<char>;

    /// The descriptive cause.
    open spec fn view(&self) -> Seq<char> {
        match *self {
            Error::ToSqlConversionFailure(cause) => cause@,
        }
    }
}

impl Error {
    /// A conversion failure with the given cause.
    pub fn conversion_failure(cause: String) -> (e: Error)
        ensures
            e == Error::ToSqlConversionFailure(cause),
            e@ == cause@,
    {
        Error::ToSqlConversionFailure(cause)
    }

    /// The descriptive cause of the failure.
    pub fn cause(&self) -> (s: &str)
        ensures
            s@ == self@,
    {
        match self {
            Error::ToSqlConversionFailure(cause) => cause.as_str(),
        }
    }
}

} // verus!
