//! Partition queries and the `COPY … TO STDOUT` forms derived from them.

use vstd::prelude::*;
use vstd::string::StringExecFns;

verus! {

/// A partition query: either raw user-supplied SQL or a library-derived
/// wrapped form. Either way the text must be embeddable verbatim inside
/// `COPY (<q>) TO STDOUT …` and inside the count derivation.
#[derive(Debug, Clone)]
pub enum CXQuery {
    Naked(String),
    Wrapped(String),
}

impl CXQuery {
    /// The SQL text of the query.
    pub open spec fn spec_str(&self) -> Seq<char> {
        match self {
            CXQuery::Naked(s) => s@,
            CXQuery::Wrapped(s) => s@,
        }
    }

    /// Same text and same discriminant.
    pub open spec fn spec_eq(&self, other: &CXQuery) -> bool {
        self.spec_str() == other.spec_str() && (self is Naked <==> other is Naked)
    }

    /// The SQL text of the query.
    pub fn as_str(&self) -> (r: &str)
        ensures
            r@ == self.spec_str(),
    {
        match self {
            CXQuery::Naked(s) => s.as_str(),
            CXQuery::Wrapped(s) => s.as_str(),
        }
    }

    /// A copy of the query with the same text and discriminant.
    pub fn duplicate(&self) -> (r: CXQuery)
        ensures
            r.spec_eq(self),
    {
        match self {
            CXQuery::Naked(s) => CXQuery::Naked(s.clone()),
            CXQuery::Wrapped(s) => CXQuery::Wrapped(s.clone()),
        }
    }
}

/// The binary bulk-load form of the query text `q`.
pub open spec fn spec_copy_binary_query(q: Seq<char>) -> Seq<char> {
    "COPY ("@ + q + ") TO STDOUT WITH BINARY"@
}

/// Wrap a query for the binary COPY protocol.
pub fn copy_binary_query(q: &CXQuery) -> (r: String)
    ensures
        r@ == spec_copy_binary_query(q.spec_str()),
{
    let mut out = String::from_str("COPY (");
    out.append(q.as_str());
    out.append(") TO STDOUT WITH BINARY");
    out
}

/// The CSV bulk-load form of the query text `q`.
pub open spec fn spec_copy_csv_query(q: Seq<char>) -> Seq<char> {
    "COPY ("@ + q + ") TO STDOUT WITH CSV"@
}

/// Wrap a query for the CSV COPY protocol.
pub fn copy_csv_query(q: &CXQuery) -> (r: String)
    ensures
        r@ == spec_copy_csv_query(q.spec_str()),
{
    let mut out = String::from_str("COPY (");
    out.append(q.as_str());
    out.append(") TO STDOUT WITH CSV");
    out
}

} // verus!
