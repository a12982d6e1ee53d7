//! Parser for the cursor protocol (`query_raw`).
//!
//! The application executes the partition's query directly and pulls up to
//! `DB_BUFFER_SIZE` driver rows per batch from the lazy row iterator. The
//! rows are decoded by the driver at the application's side, at the
//! positions `next_loc` hands out; this is the only protocol whose row
//! representation supports hstore. This state machine owns the batch
//! buffer and the row-major cursor.

use vstd::prelude::*;
use crate::cursor::spec_advance;
use crate::typesystem::PostgresTypeSystem;
use crate::DB_BUFFER_SIZE;

verus! {

pub struct PostgresRawSourceParser<R> {
    pub rowbuf: Vec<R>,
    pub ncols: usize,
    pub current_col: usize,
    pub current_row: usize,
}

impl<R> PostgresRawSourceParser<R> {
    /// The parser's invariant: at least one column, the cursor inside the
    /// buffer (one past its last row at the end of a drained batch), and
    /// the buffer within its capacity.
    pub open spec fn wf(&self) -> bool {
        &&& self.ncols >= 1
        &&& self.current_col < self.ncols
        &&& self.current_row <= self.rowbuf@.len()
        &&& self.rowbuf@.len() <= DB_BUFFER_SIZE
    }

    /// A parser over the given schema, with an empty batch buffer and the
    /// cursor at the origin.
    pub fn new(schema: &Vec<PostgresTypeSystem>) -> (r: PostgresRawSourceParser<R>)
        requires
            schema@.len() >= 1,
        ensures
            r.wf(),
            r.ncols == schema@.len(),
            r.rowbuf@.len() == 0,
            r.current_row == 0,
            r.current_col == 0,
    {
        PostgresRawSourceParser {
            rowbuf: Vec::new(),
            ncols: schema.len(),
            current_row: 0,
            current_col: 0,
        }
    }

    /// Return the current `(row, column)` position and advance the cursor
    /// by one cell in row-major order.
    pub fn next_loc(&mut self) -> (r: (usize, usize))
        requires
            old(self).wf(),
            old(self).current_row < old(self).rowbuf@.len(),
        ensures
            final(self).wf(),
            r.0 == old(self).current_row,
            r.1 == old(self).current_col,
            (final(self).current_row as int, final(self).current_col as int) == spec_advance(
                (old(self).current_row as int, old(self).current_col as int),
                old(self).ncols as int,
            ),
            final(self).ncols == old(self).ncols,
            final(self).rowbuf == old(self).rowbuf,
    {
        proof {
            if old(self).current_col + 1 < old(self).ncols {
                vstd::arithmetic::div_mod::lemma_basic_div(
                    old(self).current_col + 1,
                    old(self).ncols as int,
                );
                vstd::arithmetic::div_mod::lemma_small_mod(
                    (old(self).current_col + 1) as nat,
                    old(self).ncols as nat,
                );
            } else {
                vstd::arithmetic::div_mod::lemma_div_by_self(old(self).ncols as int);
                vstd::arithmetic::div_mod::lemma_mod_self_0(old(self).ncols as int);
            }
        }
        let ret = (self.current_row, self.current_col);
        self.current_row = self.current_row + (self.current_col + 1) / self.ncols;
        self.current_col = (self.current_col + 1) % self.ncols;
        ret
    }

    /// Install the batch the application pulled — at most `DB_BUFFER_SIZE`
    /// rows, the previous batch being dropped — and reset the cursor.
    /// Returns how many rows the batch holds and whether it was short,
    /// which marks the end of the stream once this batch is drained.
    pub fn fetch_next(&mut self, batch: Vec<R>) -> (r: (usize, bool))
        requires
            old(self).wf(),
            batch@.len() <= DB_BUFFER_SIZE,
        ensures
            final(self).wf(),
            final(self).rowbuf == batch,
            final(self).current_row == 0,
            final(self).current_col == 0,
            final(self).ncols == old(self).ncols,
            r.0 == batch@.len(),
            r.1 == (batch@.len() < DB_BUFFER_SIZE),
    {
        self.rowbuf = batch;
        self.current_row = 0;
        self.current_col = 0;
        let n = self.rowbuf.len();
        (n, n < DB_BUFFER_SIZE)
    }

    /// The buffered row at `i`, for the application to decode.
    pub fn get_row(&self, i: usize) -> (r: &R)
        requires
            i < self.rowbuf@.len(),
        ensures
            *r == self.rowbuf@[i as int],
    {
        &self.rowbuf[i]
    }
}

} // verus!
