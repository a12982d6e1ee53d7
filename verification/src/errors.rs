//! Closed taxonomy of failures surfaced by the source.

use vstd::prelude::*;
use crate::data_order::DataOrder;

verus! {

/// Generic upstream errors that are not specific to PostgreSQL.
#[derive(Debug, Clone)]
pub enum ConnectorXError {
    /// The writer asked for a traversal order the source does not offer.
    UnsupportedDataOrder(DataOrder),
    /// A field could not be decoded as the requested target type.
    /// `ty` names the attempted target; `value` carries the offending
    /// payload where one is available.
    CannotProduce { ty: String, value: Option<String> },
    /// A catalog type has no logical counterpart.
    TypeConversion(String),
}

/// `e` is the failure that marks hstore as unsupported on a bulk-load
/// protocol: only the cursor protocol decodes hstore.
pub open spec fn spec_unimplemented_hstore(e: PostgresSourceError) -> bool {
    match e {
        PostgresSourceError::Unimplemented(m) => m@ == "use cursor for hstore"@,
        _ => false,
    }
}

/// Every failure kind the PostgreSQL source surfaces.
#[derive(Debug, Clone)]
pub enum PostgresSourceError {
    /// An upstream generic error, such as an unsupported data order or a
    /// field that could not be produced.
    ConnectorX(ConnectorXError),
    /// Connection pool construction or checkout failed.
    PostgresPool(String),
    /// A driver, wire or protocol failure.
    Postgres(String),
    /// CSV framing failed.
    CSV(String),
    /// Hex decoding of a bytea field failed.
    Hex(String),
    /// JSON decoding failed.
    JSON(String),
    /// Anything else, wrapped with context.
    Other(String),
    /// A protocol/type combination that is explicitly unsupported.
    Unimplemented(String),
}

} // verus!
