//! Row-major cursor arithmetic shared by the three parsers, and the batch
//! accounting laws that hold of every partition driven to completion.

use vstd::prelude::*;
use vstd::arithmetic::div_mod::{
    lemma_basic_div, lemma_div_by_self, lemma_mod_self_0, lemma_small_mod,
};
use vstd::arithmetic::mul::lemma_mul_is_distributive_add_other_way;
use crate::DB_BUFFER_SIZE;

verus! {

/// One step of the row-major cursor: return position advanced by one cell,
/// wrapping from the last column of a row to the first column of the next.
pub open spec fn spec_advance(loc: (int, int), ncols: int) -> (int, int) {
    (loc.0 + (loc.1 + 1) / ncols, (loc.1 + 1) % ncols)
}

/// The cursor position after `k` advances from `(0, 0)`.
pub open spec fn spec_advance_n(k: nat, ncols: int) -> (int, int)
    decreases k,
{
    if k == 0 {
        (0int, 0int)
    } else {
        spec_advance(spec_advance_n((k - 1) as nat, ncols), ncols)
    }
}

/// Row-major cursor law: starting from `(0, 0)`, the first `ncols` cursor
/// positions are `(0, 0), (0, 1), …, (0, ncols - 1)`, and one more advance
/// lands on `(1, 0)`.
pub proof fn lemma_row_major_cursor(ncols: int, k: nat)
    requires
        1 <= ncols,
        k <= ncols,
    ensures
        k < ncols ==> spec_advance_n(k, ncols) == (0int, k as int),
        k == ncols ==> spec_advance_n(k, ncols) == (1int, 0int),
    decreases k,
{
    if k > 0 {
        lemma_row_major_cursor(ncols, (k - 1) as nat);
        if k < ncols {
            lemma_basic_div(k as int, ncols);
            lemma_small_mod(k, ncols as nat);
        } else {
            lemma_div_by_self(ncols);
            lemma_mod_self_0(ncols);
        }
    }
}

/// The number of rows in a sequence of batches.
pub open spec fn spec_total_rows(batches: Seq<int>) -> int
    decreases batches.len(),
{
    if batches.len() == 0 {
        0
    } else {
        batches[0] + spec_total_rows(batches.skip(1))
    }
}

/// The number of `produce` calls a sequence of batches admits: each batch
/// of `b` rows is drained by exactly `b * ncols` produces.
pub open spec fn spec_total_produces(batches: Seq<int>, ncols: int) -> int
    decreases batches.len(),
{
    if batches.len() == 0 {
        0
    } else {
        batches[0] * ncols + spec_total_produces(batches.skip(1), ncols)
    }
}

/// Batch accounting law: over any partition driven to completion, the total
/// number of `produce` calls across all batches equals the number of rows
/// observed times the column count.
pub proof fn lemma_total_produce_count(batches: Seq<int>, ncols: int)
    ensures
        spec_total_produces(batches, ncols) == spec_total_rows(batches) * ncols,
    decreases batches.len(),
{
    if batches.len() == 0 {
        assert(spec_total_rows(batches) * ncols == 0) by {
            lemma_mul_is_distributive_add_other_way(ncols, 0, 0);
        }
    } else {
        lemma_total_produce_count(batches.skip(1), ncols);
        lemma_mul_is_distributive_add_other_way(
            ncols,
            batches[0],
            spec_total_rows(batches.skip(1)),
        );
    }
}

/// How many rows one `fetch_next` pulls when `remaining` rows are left in
/// the stream: a full buffer if it can, the rest otherwise.
pub open spec fn spec_pull(remaining: nat) -> nat {
    if remaining < DB_BUFFER_SIZE as nat {
        remaining
    } else {
        DB_BUFFER_SIZE as nat
    }
}

/// The batch sizes a partition sees when its stream of `remaining` rows
/// is driven to completion: each fetch pulls `spec_pull` of what is left.
pub open spec fn spec_batches(remaining: nat) -> Seq<int>
    decreases remaining,
{
    if remaining == 0 {
        Seq::empty()
    } else {
        seq![spec_pull(remaining) as int] + spec_batches((remaining - spec_pull(remaining)) as nat)
    }
}

/// Driving a stream of `remaining` rows to completion pulls batches whose
/// sizes sum to exactly `remaining`. With the batch accounting law this
/// pins the whole run down: such a partition is drained by exactly
/// `remaining * ncols` produce calls.
pub proof fn lemma_drained_stream_total(remaining: nat)
    ensures
        spec_total_rows(spec_batches(remaining)) == remaining,
    decreases remaining,
{
    if remaining > 0 {
        let b = spec_pull(remaining) as int;
        let rest = spec_batches((remaining - spec_pull(remaining)) as nat);
        lemma_drained_stream_total((remaining - spec_pull(remaining)) as nat);
        assert((seq![b] + rest).skip(1) =~= rest);
        assert((seq![b] + rest)[0] == b);
    }
}

/// End-of-stream law: a short fetch reports `is_last`, and the fetch after
/// it pulls nothing and reports `is_last` again. The converse holds for
/// every stream except one whose rows run out exactly on a full buffer:
/// there the full batch does not report `is_last`, and only the following
/// empty fetch does.
pub proof fn lemma_last_batch_marks_end(remaining: nat)
    requires
        remaining != DB_BUFFER_SIZE as nat,
    ensures
        (spec_pull(remaining) < DB_BUFFER_SIZE as nat) <==> (spec_pull(
            (remaining - spec_pull(remaining)) as nat,
        ) == 0),
        spec_pull(remaining) < DB_BUFFER_SIZE as nat ==> spec_pull(
            (remaining - spec_pull(remaining)) as nat,
        ) < DB_BUFFER_SIZE as nat,
{
}

} // verus!
