//! Traversal orders a writer may request from a source.

use vstd::prelude::*;

verus! {

/// Order in which tuples are delivered to the writer. This source only
/// supports row-major delivery: all columns of row `i` come before any
/// column of row `i + 1`.
#[derive(Debug, Clone, Copy, PartialEq, Eq, Structural)]
pub enum DataOrder {
    RowMajor,
    ColumnMajor,
}

} // verus!
