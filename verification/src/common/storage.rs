//! Errors of the relational store.

use vstd::prelude::*;

verus! {

#[verifier::external_type_specification]
#[verifier::external_body]
pub struct ExSqlxError(sqlx::Error);

/// The SQLSTATE an error carries: the code the server reported with a
/// database error; `None` for a database error without one and for any
/// other failure. A function of the error value alone.
pub uninterp spec fn sqlx_error_code(e: sqlx::Error) -> Option<Seq<char>>;

/// The SQLSTATE of a database error reported by the server
/// (`sqlx::Error::as_database_error`, then `DatabaseError::code`); `None`
/// for any other failure. Nothing is promised of the code's text beyond
/// its being the error's own (`sqlx_error_code`).
#[verifier::external_body]
pub(crate) fn database_error_code(e: &sqlx::Error) -> (r: Option<String>)
    ensures
        match r {
            Some(c) => sqlx_error_code(*e) == Some(c@),
            None => sqlx_error_code(*e) is None,
        },
{
    match e.as_database_error() {
        Some(d) => d.code().map(|c| c.into_owned()),
        None => None,
    }
}

/// PostgreSQL's `unique_violation`.
pub open spec fn unique_violation_code() -> Seq<char> {
    "23505"@
}

} // verus!
