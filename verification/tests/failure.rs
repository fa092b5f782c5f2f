use sqlconv::types::to_sql::{SqlOutcome, ToSql, ToSqlOutput};
use sqlconv::Error;

/// A value that has no place among the SQL values.
struct Unrepresentable;

impl ToSql for Unrepresentable {
    // Ghost: read by the verifier only, never called.
    fn sql_spec(&self) -> SqlOutcome {
        unreachable!()
    }

    fn to_sql(&self) -> sqlconv::Result<ToSqlOutput<'_>> {
        Err(Error::conversion_failure(String::from("no representation")))
    }
}

#[test]
fn failure_passes_through_optional_and_reference() {
    let e = Err(Error::ToSqlConversionFailure(String::from("no representation")));
    assert_eq!(Unrepresentable.to_sql(), e);
    assert_eq!(Some(Unrepresentable).to_sql(), e);
    assert_eq!((&Unrepresentable).to_sql(), e);
    assert_eq!(Some(&Some(Unrepresentable)).to_sql(), e);
}
