//! Verified core of a PostgreSQL bulk-read source.
//!
//! The library extracts the results of one or more SQL queries from a
//! PostgreSQL server, partitions the queries for parallel consumption, and
//! delivers the resulting tuples as a strongly-typed row-by-column stream.
//! Everything that computes or decides lives here with a contract; the
//! network round-trips (connection pool checkout, `prepare`, `query_one`,
//! `copy_out`, `query_raw`, row pulls) are driven by the embedding
//! application, which hands their results to the verified state machines.

use vstd::prelude::*;

pub mod binary;
pub mod count;
pub mod cursor;
pub mod csv_parser;
pub mod data_order;
pub mod errors;
pub mod parse;
pub mod raw;
pub mod scalars;
pub mod source;
pub mod sql;
pub mod strutil;
pub mod typesystem;

verus! {

/// Capacity of a parser's row batch buffer: an upper bound on how many rows
/// one `fetch_next` may hand to the parser.
pub const DB_BUFFER_SIZE: usize = 32;

} // verus!
