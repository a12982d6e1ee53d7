//! Derivation of the row-count query run over a partition's SQL.

use vstd::prelude::*;
use vstd::string::StringExecFns;
use crate::errors::PostgresSourceError;
use crate::sql::CXQuery;

verus! {

/// Whether `sql` parses, under the PostgreSQL dialect, as exactly one
/// SELECT statement. This depends on the text alone.
pub uninterp spec fn is_single_select(sql: Seq<char>) -> bool;

/// Relies on sqlparser's `Parser::parse_sql` with `PostgreSqlDialect`,
/// a pure function of the text: whether the text is one SELECT statement.
#[verifier::external_body]
fn parse_single_select(sql: &str) -> (r: bool)
    ensures
        r == is_single_select(sql@),
{
    match sqlparser::parser::Parser::parse_sql(&sqlparser::dialect::PostgreSqlDialect {}, sql) {
        Ok(stmts) => match stmts.as_slice() {
            [sqlparser::ast::Statement::Query(_)] => true,
            _ => false,
        },
        Err(_) => false,
    }
}

/// The row-count query derived from the query text `q`.
pub open spec fn spec_count_query(q: Seq<char>) -> Seq<char> {
    "SELECT COUNT(*) FROM ("@ + q + ") AS CXTMPTAB_COUNT"@
}

/// Derive `SELECT COUNT(*) FROM (<q>) AS CXTMPTAB_COUNT` from a query.
/// The query must be a single SELECT under the PostgreSQL dialect;
/// anything else cannot be wrapped and fails with `Other`.
pub fn count_query(q: &CXQuery) -> (r: Result<CXQuery, PostgresSourceError>)
    ensures
        match r {
            Ok(c) => is_single_select(q.spec_str()) && c.spec_str() == spec_count_query(
                q.spec_str(),
            ) && c is Wrapped,
            Err(e) => !is_single_select(q.spec_str()) && (match e {
                PostgresSourceError::Other(m) => m@
                    == "the query cannot be wrapped as a count query"@,
                _ => false,
            }),
        },
{
    let sql = q.as_str();
    if parse_single_select(sql) {
        let mut out = String::from_str("SELECT COUNT(*) FROM (");
        out.append(sql);
        out.append(") AS CXTMPTAB_COUNT");
        Ok(CXQuery::Wrapped(out))
    } else {
        Err(
            PostgresSourceError::Other(
                String::from_str("the query cannot be wrapped as a count query"),
            ),
        )
    }
}

} // verus!
