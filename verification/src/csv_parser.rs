//! Parser for the CSV COPY protocol.
//!
//! The application opens `COPY (<q>) TO STDOUT WITH CSV`, reads up to
//! `DB_BUFFER_SIZE` records per batch, and hands each batch to
//! `fetch_next` as rows of plain string fields. Every field is decoded
//! here: values arrive as text and each `produce_*` interprets the field
//! under the cursor, advancing it by one cell in row-major order. A SQL
//! NULL arrives as the empty field; the `produce_opt_*` forms read it as
//! `None`.

use vstd::prelude::*;
use vstd::string::{StrSliceExecFns, StringExecFns};
use crate::cursor::spec_advance;
use crate::errors::{spec_unimplemented_hstore, ConnectorXError, PostgresSourceError};
use crate::parse::{
    decode_hex, int_literal_val, is_hex_str, is_int_literal, parse_bool, parse_i16, parse_i32,
    parse_i64, parse_i8, spec_arr_elems, spec_bool_of, spec_hex_bytes, spec_int_array_ok,
    spec_int_array_vals, spec_pieces, split_commas_idx,
};
use crate::scalars::{
    date_wf, decimal_wf, json_wf, parse_date, parse_decimal, parse_json, parse_time,
    parse_timestamp, parse_timestamp_tz, parse_uuid, time_wf, timestamp_tz_wf, timestamp_wf,
    uuid_wf,
};
use crate::typesystem::PostgresTypeSystem;
use crate::DB_BUFFER_SIZE;

verus! {

/// `e` is the decode failure for target type `ty` carrying the offending
/// field text.
pub open spec fn spec_cannot_produce(e: PostgresSourceError, ty: Seq<char>, value: Seq<char>) -> bool {
    match e {
        PostgresSourceError::ConnectorX(ConnectorXError::CannotProduce { ty: t, value: v }) => t@
            == ty && (match v {
            Some(s) => s@ == value,
            None => false,
        }),
        _ => false,
    }
}

/// The decode failure for target type `ty` carrying the offending field.
fn cannot_produce_err(ty: &str, value: &String) -> (e: PostgresSourceError)
    ensures
        spec_cannot_produce(e, ty@, value@),
{
    PostgresSourceError::ConnectorX(
        ConnectorXError::CannotProduce { ty: ty.to_owned(), value: Some(value.clone()) },
    )
}

/// Decode an array field into its 64-bit integer elements: `{}` is empty,
/// anything shorter than three characters cannot be decoded, and otherwise
/// the text between the outer delimiters is split at commas and every
/// piece must be an integer literal that fits.
fn parse_int_array_vals(field: &str) -> (r: Option<Vec<i64>>)
    ensures
        match r {
            Some(v) => {
                &&& spec_int_array_ok(field@, i64::MIN as int, i64::MAX as int)
                &&& v@.len() == spec_int_array_vals(field@).len()
                &&& forall|j: int|
                    0 <= j < v@.len() ==> (#[trigger] v@[j]) as int == spec_int_array_vals(
                        field@,
                    )[j]
            },
            None => !spec_int_array_ok(field@, i64::MIN as int, i64::MAX as int),
        },
{
    let flen = field.unicode_len();
    if flen == 2 && field.get_char(0) == '{' && field.get_char(1) == '}' {
        proof {
            assert(field@ =~= seq!['{', '}']);
            assert(spec_int_array_vals(field@) =~= Seq::<int>::empty());
        }
        return Some(Vec::new());
    }
    proof {
        assert(field@ != seq!['{', '}']);
    }
    if flen < 3 {
        return None;
    }
    let inner = field.substring_char(1, flen - 1);
    let idxs = split_commas_idx(inner);
    let ghost elems = spec_arr_elems(field@);
    proof {
        assert(inner@ == field@.subrange(1, field@.len() - 1));
        assert(elems == spec_pieces(idxs@, inner@));
    }
    let mut out: Vec<i64> = Vec::new();
    let n = idxs.len();
    let mut k: usize = 0;
    while k < n
        invariant
            k <= n,
            n == idxs@.len(),
            inner@ == field@.subrange(1, field@.len() - 1),
            field@ != seq!['{', '}'],
            field@.len() >= 3,
            elems == spec_arr_elems(field@),
            elems == spec_pieces(idxs@, inner@),
            forall|j: int| 0 <= j < n ==> (#[trigger] idxs@[j]).0 <= idxs@[j].1 <= inner@.len(),
            out@.len() == k,
            forall|j: int|
                0 <= j < k ==> is_int_literal(#[trigger] elems[j]) && i64::MIN
                    <= int_literal_val(elems[j]) <= i64::MAX && out@[j] as int == int_literal_val(
                    elems[j],
                ),
        decreases n - k,
    {
        let a = idxs[k].0;
        let b = idxs[k].1;
        let es = inner.substring_char(a, b);
        proof {
            assert(es@ == elems[k as int]);
        }
        match parse_i64(es) {
            Some(v) => {
                out.push(v);
            },
            None => {
                return None;
            },
        }
        k = k + 1;
    }
    proof {
        assert(spec_int_array_vals(field@) == elems.map_values(|e: Seq<char>| int_literal_val(e)));
        assert(forall|j: int|
            0 <= j < out@.len() ==> (#[trigger] out@[j]) as int == spec_int_array_vals(field@)[j]);
    }
    Some(out)
}

/// Whether an array field decodes as decimals: it is `{}`, or it is at
/// least three characters long and every element is a decimal literal.
pub open spec fn spec_decimal_array_ok(f: Seq<char>) -> bool {
    if f == seq!['{', '}'] {
        true
    } else {
        &&& f.len() >= 3
        &&& forall|k: int|
            0 <= k < spec_arr_elems(f).len() ==> decimal_wf(#[trigger] spec_arr_elems(f)[k])
    }
}

/// The number of elements an array field holds.
pub open spec fn spec_arr_len(f: Seq<char>) -> int {
    if f == seq!['{', '}'] {
        0
    } else {
        spec_arr_elems(f).len() as int
    }
}

/// Decode an array field into its decimal elements: `{}` is empty,
/// anything shorter than three characters cannot be decoded, and otherwise
/// the text between the outer delimiters is split at commas and every
/// piece must be a decimal literal.
fn parse_decimal_array(field: &str) -> (r: Option<Vec<rust_decimal::Decimal>>)
    ensures
        match r {
            Some(v) => spec_decimal_array_ok(field@) && v@.len() == spec_arr_len(field@),
            None => !spec_decimal_array_ok(field@),
        },
{
    let flen = field.unicode_len();
    if flen == 2 && field.get_char(0) == '{' && field.get_char(1) == '}' {
        proof {
            assert(field@ =~= seq!['{', '}']);
        }
        return Some(Vec::new());
    }
    proof {
        assert(field@ != seq!['{', '}']);
    }
    if flen < 3 {
        return None;
    }
    let inner = field.substring_char(1, flen - 1);
    let idxs = split_commas_idx(inner);
    let ghost elems = spec_arr_elems(field@);
    proof {
        assert(inner@ == field@.subrange(1, field@.len() - 1));
        assert(elems == spec_pieces(idxs@, inner@));
    }
    let mut out: Vec<rust_decimal::Decimal> = Vec::new();
    let n = idxs.len();
    let mut k: usize = 0;
    while k < n
        invariant
            k <= n,
            n == idxs@.len(),
            inner@ == field@.subrange(1, field@.len() - 1),
            field@ != seq!['{', '}'],
            field@.len() >= 3,
            elems == spec_arr_elems(field@),
            elems == spec_pieces(idxs@, inner@),
            forall|j: int| 0 <= j < n ==> (#[trigger] idxs@[j]).0 <= idxs@[j].1 <= inner@.len(),
            out@.len() == k,
            forall|j: int| 0 <= j < k ==> decimal_wf(#[trigger] elems[j]),
        decreases n - k,
    {
        let a = idxs[k].0;
        let b = idxs[k].1;
        let es = inner.substring_char(a, b);
        proof {
            assert(es@ == elems[k as int]);
        }
        match parse_decimal(es) {
            Some(v) => {
                out.push(v);
            },
            None => {
                return None;
            },
        }
        k = k + 1;
    }
    Some(out)
}

pub struct PostgresCSVSourceParser {
    pub rowbuf: Vec<Vec<String>>,
    pub ncols: usize,
    pub current_col: usize,
    pub current_row: usize,
}

impl PostgresCSVSourceParser {
    /// The parser's invariant: at least one column, the cursor inside the
    /// buffer (one past its last row at the end of a drained batch), the
    /// buffer within its capacity, and every buffered record as wide as
    /// the schema.
    pub open spec fn wf(&self) -> bool {
        &&& self.ncols >= 1
        &&& self.current_col < self.ncols
        &&& self.current_row <= self.rowbuf@.len()
        &&& self.rowbuf@.len() <= DB_BUFFER_SIZE
        &&& forall|i: int|
            0 <= i < self.rowbuf@.len() ==> (#[trigger] self.rowbuf@[i])@.len() == self.ncols
    }

    /// The text of the field at `(row, col)`.
    pub open spec fn spec_field(&self, row: int, col: int) -> Seq<char> {
        self.rowbuf@[row]@[col]@
    }

    /// The text of the field under the cursor.
    pub open spec fn cur_field(&self) -> Seq<char> {
        self.spec_field(self.current_row as int, self.current_col as int)
    }

    /// `self` is `pre` with its cursor advanced by one cell and nothing
    /// else changed: what every successful or failed `produce_*` does to
    /// the parser.
    pub open spec fn advanced_from(&self, pre: &PostgresCSVSourceParser) -> bool {
        &&& self.wf()
        &&& self.rowbuf == pre.rowbuf
        &&& self.ncols == pre.ncols
        &&& (self.current_row as int, self.current_col as int) == spec_advance(
            (pre.current_row as int, pre.current_col as int),
            pre.ncols as int,
        )
    }

    /// A parser over the given schema, with an empty batch buffer and the
    /// cursor at the origin.
    pub fn new(schema: &Vec<PostgresTypeSystem>) -> (r: PostgresCSVSourceParser)
        requires
            schema@.len() >= 1,
        ensures
            r.wf(),
            r.ncols == schema@.len(),
            r.rowbuf@.len() == 0,
            r.current_row == 0,
            r.current_col == 0,
    {
        PostgresCSVSourceParser {
            rowbuf: Vec::new(),
            ncols: schema.len(),
            current_row: 0,
            current_col: 0,
        }
    }

    /// Return the current `(row, column)` position and advance the cursor
    /// by one cell in row-major order.
    pub fn next_loc(&mut self) -> (r: (usize, usize))
        requires
            old(self).wf(),
            old(self).current_row < old(self).rowbuf@.len(),
        ensures
            final(self).advanced_from(old(self)),
            r.0 == old(self).current_row,
            r.1 == old(self).current_col,
    {
        proof {
            if old(self).current_col + 1 < old(self).ncols {
                vstd::arithmetic::div_mod::lemma_basic_div(
                    old(self).current_col + 1,
                    old(self).ncols as int,
                );
                vstd::arithmetic::div_mod::lemma_small_mod(
                    (old(self).current_col + 1) as nat,
                    old(self).ncols as nat,
                );
            } else {
                vstd::arithmetic::div_mod::lemma_div_by_self(old(self).ncols as int);
                vstd::arithmetic::div_mod::lemma_mod_self_0(old(self).ncols as int);
            }
        }
        let ret = (self.current_row, self.current_col);
        self.current_row = self.current_row + (self.current_col + 1) / self.ncols;
        self.current_col = (self.current_col + 1) % self.ncols;
        ret
    }

    /// Install the batch the application read — at most `DB_BUFFER_SIZE`
    /// records of schema width, the previous batch being dropped — and
    /// reset the cursor. Returns how many rows the batch holds and whether
    /// it was short, which marks the end of the stream once this batch is
    /// drained.
    pub fn fetch_next(&mut self, batch: Vec<Vec<String>>) -> (r: (usize, bool))
        requires
            old(self).wf(),
            batch@.len() <= DB_BUFFER_SIZE,
            forall|i: int| 0 <= i < batch@.len() ==> (#[trigger] batch@[i])@.len() == old(
                self,
            ).ncols,
        ensures
            final(self).wf(),
            final(self).rowbuf == batch,
            final(self).current_row == 0,
            final(self).current_col == 0,
            final(self).ncols == old(self).ncols,
            r.0 == batch@.len(),
            r.1 == (batch@.len() < DB_BUFFER_SIZE),
    {
        self.rowbuf = batch;
        self.current_row = 0;
        self.current_col = 0;
        let n = self.rowbuf.len();
        (n, n < DB_BUFFER_SIZE)
    }

    /// The buffered field text at `(row, col)`.
    pub fn field_at(&self, row: usize, col: usize) -> (r: &String)
        requires
            self.wf(),
            row < self.rowbuf@.len(),
            col < self.ncols,
        ensures
            r@ == self.spec_field(row as int, col as int),
    {
        &self.rowbuf[row][col]
    }

    /// Produce the field under the cursor as text.
    pub fn produce_str(&mut self) -> (r: Result<String, PostgresSourceError>)
        requires
            old(self).wf(),
            old(self).current_row < old(self).rowbuf@.len(),
        ensures
            final(self).advanced_from(old(self)),
            r matches Ok(v) && v@ == old(self).cur_field(),
    {
        let (ridx, cidx) = self.next_loc();
        Ok(self.rowbuf[ridx][cidx].clone())
    }

    /// Produce the field under the cursor as optional text: the empty
    /// field is `None`.
    pub fn produce_opt_str(&mut self) -> (r: Result<Option<String>, PostgresSourceError>)
        requires
            old(self).wf(),
            old(self).current_row < old(self).rowbuf@.len(),
        ensures
            final(self).advanced_from(old(self)),
            ({
                let f = old(self).cur_field();
                match r {
                    Ok(Some(v)) => f.len() > 0 && v@ == f,
                    Ok(None) => f.len() == 0,
                    Err(_) => false,
                }
            }),
    {
        let (ridx, cidx) = self.next_loc();
        let field = &self.rowbuf[ridx][cidx];
        if field.as_str().unicode_len() == 0 {
            Ok(None)
        } else {
            Ok(Some(field.clone()))
        }
    }

    /// Produce the field under the cursor as a boolean: `t` or `f`.
    pub fn produce_bool(&mut self) -> (r: Result<bool, PostgresSourceError>)
        requires
            old(self).wf(),
            old(self).current_row < old(self).rowbuf@.len(),
        ensures
            final(self).advanced_from(old(self)),
            ({
                let f = old(self).cur_field();
                match r {
                    Ok(v) => spec_bool_of(f) == Some(v),
                    Err(e) => spec_bool_of(f) is None && spec_cannot_produce(e, "bool"@, f),
                }
            }),
    {
        let (ridx, cidx) = self.next_loc();
        let field = &self.rowbuf[ridx][cidx];
        match parse_bool(field.as_str()) {
            Some(v) => Ok(v),
            None => Err(cannot_produce_err("bool", field)),
        }
    }

    /// Produce the field under the cursor as an optional boolean: the
    /// empty field is `None`.
    pub fn produce_opt_bool(&mut self) -> (r: Result<Option<bool>, PostgresSourceError>)
        requires
            old(self).wf(),
            old(self).current_row < old(self).rowbuf@.len(),
        ensures
            final(self).advanced_from(old(self)),
            ({
                let f = old(self).cur_field();
                match r {
                    Ok(Some(v)) => f.len() > 0 && spec_bool_of(f) == Some(v),
                    Ok(None) => f.len() == 0,
                    Err(e) => f.len() > 0 && spec_bool_of(f) is None && spec_cannot_produce(
                        e,
                        "bool"@,
                        f,
                    ),
                }
            }),
    {
        let (ridx, cidx) = self.next_loc();
        let field = &self.rowbuf[ridx][cidx];
        if field.as_str().unicode_len() == 0 {
            return Ok(None);
        }
        match parse_bool(field.as_str()) {
            Some(v) => Ok(Some(v)),
            None => Err(cannot_produce_err("bool", field)),
        }
    }

    /// Produce the field under the cursor as an `i64`.
    pub fn produce_i64(&mut self) -> (r: Result<i64, PostgresSourceError>)
        requires
            old(self).wf(),
            old(self).current_row < old(self).rowbuf@.len(),
        ensures
            final(self).advanced_from(old(self)),
            ({
                let f = old(self).cur_field();
                match r {
                    Ok(v) => is_int_literal(f) && v as int == int_literal_val(f),
                    Err(e) => !(is_int_literal(f) && i64::MIN <= int_literal_val(f) <= i64::MAX)
                        && spec_cannot_produce(e, "i64"@, f),
                }
            }),
    {
        let (ridx, cidx) = self.next_loc();
        let field = &self.rowbuf[ridx][cidx];
        match parse_i64(field.as_str()) {
            Some(v) => Ok(v),
            None => Err(cannot_produce_err("i64", field)),
        }
    }

    /// Produce the field under the cursor as an optional `i64`: the empty
    /// field is `None`.
    pub fn produce_opt_i64(&mut self) -> (r: Result<Option<i64>, PostgresSourceError>)
        requires
            old(self).wf(),
            old(self).current_row < old(self).rowbuf@.len(),
        ensures
            final(self).advanced_from(old(self)),
            ({
                let f = old(self).cur_field();
                match r {
                    Ok(Some(v)) => f.len() > 0 && is_int_literal(f) && v as int
                        == int_literal_val(f),
                    Ok(None) => f.len() == 0,
                    Err(e) => f.len() > 0 && !(is_int_literal(f) && i64::MIN <= int_literal_val(f)
                        <= i64::MAX) && spec_cannot_produce(e, "i64"@, f),
                }
            }),
    {
        let (ridx, cidx) = self.next_loc();
        let field = &self.rowbuf[ridx][cidx];
        if field.as_str().unicode_len() == 0 {
            return Ok(None);
        }
        match parse_i64(field.as_str()) {
            Some(v) => Ok(Some(v)),
            None => Err(cannot_produce_err("i64", field)),
        }
    }

    /// Produce the field under the cursor as an `i32`.
    pub fn produce_i32(&mut self) -> (r: Result<i32, PostgresSourceError>)
        requires
            old(self).wf(),
            old(self).current_row < old(self).rowbuf@.len(),
        ensures
            final(self).advanced_from(old(self)),
            ({
                let f = old(self).cur_field();
                match r {
                    Ok(v) => is_int_literal(f) && v as int == int_literal_val(f),
                    Err(e) => !(is_int_literal(f) && i32::MIN <= int_literal_val(f) <= i32::MAX)
                        && spec_cannot_produce(e, "i32"@, f),
                }
            }),
    {
        let (ridx, cidx) = self.next_loc();
        let field = &self.rowbuf[ridx][cidx];
        match parse_i32(field.as_str()) {
            Some(v) => Ok(v),
            None => Err(cannot_produce_err("i32", field)),
        }
    }

    /// Produce the field under the cursor as an optional `i32`: the empty
    /// field is `None`.
    pub fn produce_opt_i32(&mut self) -> (r: Result<Option<i32>, PostgresSourceError>)
        requires
            old(self).wf(),
            old(self).current_row < old(self).rowbuf@.len(),
        ensures
            final(self).advanced_from(old(self)),
            ({
                let f = old(self).cur_field();
                match r {
                    Ok(Some(v)) => f.len() > 0 && is_int_literal(f) && v as int
                        == int_literal_val(f),
                    Ok(None) => f.len() == 0,
                    Err(e) => f.len() > 0 && !(is_int_literal(f) && i32::MIN <= int_literal_val(f)
                        <= i32::MAX) && spec_cannot_produce(e, "i32"@, f),
                }
            }),
    {
        let (ridx, cidx) = self.next_loc();
        let field = &self.rowbuf[ridx][cidx];
        if field.as_str().unicode_len() == 0 {
            return Ok(None);
        }
        match parse_i32(field.as_str()) {
            Some(v) => Ok(Some(v)),
            None => Err(cannot_produce_err("i32", field)),
        }
    }

    /// Produce the field under the cursor as an `i16`.
    pub fn produce_i16(&mut self) -> (r: Result<i16, PostgresSourceError>)
        requires
            old(self).wf(),
            old(self).current_row < old(self).rowbuf@.len(),
        ensures
            final(self).advanced_from(old(self)),
            ({
                let f = old(self).cur_field();
                match r {
                    Ok(v) => is_int_literal(f) && v as int == int_literal_val(f),
                    Err(e) => !(is_int_literal(f) && i16::MIN <= int_literal_val(f) <= i16::MAX)
                        && spec_cannot_produce(e, "i16"@, f),
                }
            }),
    {
        let (ridx, cidx) = self.next_loc();
        let field = &self.rowbuf[ridx][cidx];
        match parse_i16(field.as_str()) {
            Some(v) => Ok(v),
            None => Err(cannot_produce_err("i16", field)),
        }
    }

    /// Produce the field under the cursor as an optional `i16`: the empty
    /// field is `None`.
    pub fn produce_opt_i16(&mut self) -> (r: Result<Option<i16>, PostgresSourceError>)
        requires
            old(self).wf(),
            old(self).current_row < old(self).rowbuf@.len(),
        ensures
            final(self).advanced_from(old(self)),
            ({
                let f = old(self).cur_field();
                match r {
                    Ok(Some(v)) => f.len() > 0 && is_int_literal(f) && v as int
                        == int_literal_val(f),
                    Ok(None) => f.len() == 0,
                    Err(e) => f.len() > 0 && !(is_int_literal(f) && i16::MIN <= int_literal_val(f)
                        <= i16::MAX) && spec_cannot_produce(e, "i16"@, f),
                }
            }),
    {
        let (ridx, cidx) = self.next_loc();
        let field = &self.rowbuf[ridx][cidx];
        if field.as_str().unicode_len() == 0 {
            return Ok(None);
        }
        match parse_i16(field.as_str()) {
            Some(v) => Ok(Some(v)),
            None => Err(cannot_produce_err("i16", field)),
        }
    }

    /// Produce the field under the cursor as an `i8`.
    pub fn produce_i8(&mut self) -> (r: Result<i8, PostgresSourceError>)
        requires
            old(self).wf(),
            old(self).current_row < old(self).rowbuf@.len(),
        ensures
            final(self).advanced_from(old(self)),
            ({
                let f = old(self).cur_field();
                match r {
                    Ok(v) => is_int_literal(f) && v as int == int_literal_val(f),
                    Err(e) => !(is_int_literal(f) && i8::MIN <= int_literal_val(f) <= i8::MAX)
                        && spec_cannot_produce(e, "i8"@, f),
                }
            }),
    {
        let (ridx, cidx) = self.next_loc();
        let field = &self.rowbuf[ridx][cidx];
        match parse_i8(field.as_str()) {
            Some(v) => Ok(v),
            None => Err(cannot_produce_err("i8", field)),
        }
    }

    /// Produce the field under the cursor as an optional `i8`: the empty
    /// field is `None`.
    pub fn produce_opt_i8(&mut self) -> (r: Result<Option<i8>, PostgresSourceError>)
        requires
            old(self).wf(),
            old(self).current_row < old(self).rowbuf@.len(),
        ensures
            final(self).advanced_from(old(self)),
            ({
                let f = old(self).cur_field();
                match r {
                    Ok(Some(v)) => f.len() > 0 && is_int_literal(f) && v as int
                        == int_literal_val(f),
                    Ok(None) => f.len() == 0,
                    Err(e) => f.len() > 0 && !(is_int_literal(f) && i8::MIN <= int_literal_val(f)
                        <= i8::MAX) && spec_cannot_produce(e, "i8"@, f),
                }
            }),
    {
        let (ridx, cidx) = self.next_loc();
        let field = &self.rowbuf[ridx][cidx];
        if field.as_str().unicode_len() == 0 {
            return Ok(None);
        }
        match parse_i8(field.as_str()) {
            Some(v) => Ok(Some(v)),
            None => Err(cannot_produce_err("i8", field)),
        }
    }

    /// Produce the field under the cursor as bytes: the field carries a
    /// `\x` prefix followed by hexadecimal digits. A field too short to
    /// carry the prefix cannot be produced; bad digits fail with `Hex`.
    pub fn produce_bytea(&mut self) -> (r: Result<Vec<u8>, PostgresSourceError>)
        requires
            old(self).wf(),
            old(self).current_row < old(self).rowbuf@.len(),
        ensures
            final(self).advanced_from(old(self)),
            ({
                let f = old(self).cur_field();
                match r {
                    Ok(v) => f.len() >= 2 && is_hex_str(f.skip(2)) && v@ == spec_hex_bytes(
                        f.skip(2),
                    ),
                    Err(e) => !(f.len() >= 2 && is_hex_str(f.skip(2))) && (if f.len() < 2 {
                        spec_cannot_produce(e, "bytes"@, f)
                    } else {
                        e matches PostgresSourceError::Hex(m) && m@ == f
                    }),
                }
            }),
    {
        let (ridx, cidx) = self.next_loc();
        let field = &self.rowbuf[ridx][cidx];
        if field.as_str().unicode_len() < 2 {
            return Err(cannot_produce_err("bytes", field));
        }
        match decode_hex(field.as_str(), 2) {
            Some(v) => Ok(v),
            None => Err(PostgresSourceError::Hex(field.clone())),
        }
    }

    /// Produce the field under the cursor as optional bytes: the empty
    /// field is `None`.
    pub fn produce_opt_bytea(&mut self) -> (r: Result<Option<Vec<u8>>, PostgresSourceError>)
        requires
            old(self).wf(),
            old(self).current_row < old(self).rowbuf@.len(),
        ensures
            final(self).advanced_from(old(self)),
            ({
                let f = old(self).cur_field();
                match r {
                    Ok(Some(v)) => f.len() >= 2 && is_hex_str(f.skip(2)) && v@ == spec_hex_bytes(
                        f.skip(2),
                    ),
                    Ok(None) => f.len() == 0,
                    Err(e) => f.len() > 0 && !(f.len() >= 2 && is_hex_str(f.skip(2))) && (if f.len()
                        < 2 {
                        spec_cannot_produce(e, "bytes"@, f)
                    } else {
                        e matches PostgresSourceError::Hex(m) && m@ == f
                    }),
                }
            }),
    {
        let (ridx, cidx) = self.next_loc();
        let field = &self.rowbuf[ridx][cidx];
        let flen = field.as_str().unicode_len();
        if flen == 0 {
            return Ok(None);
        }
        if flen < 2 {
            return Err(cannot_produce_err("bytes", field));
        }
        match decode_hex(field.as_str(), 2) {
            Some(v) => Ok(Some(v)),
            None => Err(PostgresSourceError::Hex(field.clone())),
        }
    }

    /// Produce the field under the cursor as an array of `i64`.
    pub fn produce_i64_vec(&mut self) -> (r: Result<Vec<i64>, PostgresSourceError>)
        requires
            old(self).wf(),
            old(self).current_row < old(self).rowbuf@.len(),
        ensures
            final(self).advanced_from(old(self)),
            ({
                let f = old(self).cur_field();
                match r {
                    Ok(v) => spec_int_array_ok(f, i64::MIN as int, i64::MAX as int) && v@.len()
                        == spec_int_array_vals(f).len() && forall|j: int|
                        0 <= j < v@.len() ==> (#[trigger] v@[j]) as int == spec_int_array_vals(
                            f,
                        )[j],
                    Err(e) => !spec_int_array_ok(f, i64::MIN as int, i64::MAX as int)
                        && spec_cannot_produce(e, "i64"@, f),
                }
            }),
    {
        let (ridx, cidx) = self.next_loc();
        let field = &self.rowbuf[ridx][cidx];
        match parse_int_array_vals(field.as_str()) {
            Some(v) => Ok(v),
            None => Err(cannot_produce_err("i64", field)),
        }
    }

    /// Produce the field under the cursor as an optional array of `i64`:
    /// the empty field is `None`.
    pub fn produce_opt_i64_vec(&mut self) -> (r: Result<Option<Vec<i64>>, PostgresSourceError>)
        requires
            old(self).wf(),
            old(self).current_row < old(self).rowbuf@.len(),
        ensures
            final(self).advanced_from(old(self)),
            ({
                let f = old(self).cur_field();
                match r {
                    Ok(Some(v)) => f.len() > 0 && spec_int_array_ok(f, i64::MIN as int, i64::MAX as int)
                        && v@.len() == spec_int_array_vals(f).len() && forall|j: int|
                        0 <= j < v@.len() ==> (#[trigger] v@[j]) as int == spec_int_array_vals(
                            f,
                        )[j],
                    Ok(None) => f.len() == 0,
                    Err(e) => f.len() > 0 && !spec_int_array_ok(f, i64::MIN as int, i64::MAX as int)
                        && spec_cannot_produce(e, "i64"@, f),
                }
            }),
    {
        let (ridx, cidx) = self.next_loc();
        let field = &self.rowbuf[ridx][cidx];
        if field.as_str().unicode_len() == 0 {
            return Ok(None);
        }
        match parse_int_array_vals(field.as_str()) {
            Some(v) => Ok(Some(v)),
            None => Err(cannot_produce_err("i64", field)),
        }
    }

    /// Produce the field under the cursor as an array of `i32`.
    pub fn produce_i32_vec(&mut self) -> (r: Result<Vec<i32>, PostgresSourceError>)
        requires
            old(self).wf(),
            old(self).current_row < old(self).rowbuf@.len(),
        ensures
            final(self).advanced_from(old(self)),
            ({
                let f = old(self).cur_field();
                match r {
                    Ok(v) => spec_int_array_ok(f, i32::MIN as int, i32::MAX as int) && v@.len()
                        == spec_int_array_vals(f).len() && forall|j: int|
                        0 <= j < v@.len() ==> (#[trigger] v@[j]) as int == spec_int_array_vals(
                            f,
                        )[j],
                    Err(e) => !spec_int_array_ok(f, i32::MIN as int, i32::MAX as int)
                        && spec_cannot_produce(e, "i32"@, f),
                }
            }),
    {
        let ghost f = old(self).cur_field();
        let (ridx, cidx) = self.next_loc();
        let field = &self.rowbuf[ridx][cidx];
        proof {
            assert(f == field@);
        }
        match parse_int_array_vals(field.as_str()) {
            Some(v64) => {
                let mut out: Vec<i32> = Vec::new();
                let m = v64.len();
                let mut j: usize = 0;
                while j < m
                    invariant
                        self.advanced_from(old(self)),
                        j <= m,
                        m == v64@.len(),
                        f == field@,
                        f == old(self).cur_field(),
                        spec_int_array_ok(f, i64::MIN as int, i64::MAX as int),
                        v64@.len() == spec_int_array_vals(f).len(),
                        forall|t: int|
                            0 <= t < v64@.len() ==> (#[trigger] v64@[t]) as int
                                == spec_int_array_vals(f)[t],
                        out@.len() == j,
                        forall|t: int|
                            0 <= t < j ==> (#[trigger] out@[t]) as int == spec_int_array_vals(
                                f,
                            )[t],
                    decreases m - j,
                {
                    let x = v64[j];
                    if x < -2147483648i64 || x > 2147483647i64 {
                        proof {
                            assert(f != seq!['{', '}']);
                            assert(spec_int_array_vals(f)[j as int] == int_literal_val(
                                spec_arr_elems(f)[j as int],
                            ));
                            assert(!spec_int_array_ok(f, i32::MIN as int, i32::MAX as int)) by {
                                if spec_int_array_ok(f, i32::MIN as int, i32::MAX as int) {
                                    assert(is_int_literal(spec_arr_elems(f)[j as int])
                                        && i32::MIN <= int_literal_val(spec_arr_elems(f)[j as int])
                                        <= i32::MAX);
                                }
                            }
                        }
                        return Err(cannot_produce_err("i32", field));
                    }
                    out.push(x as i32);
                    j = j + 1;
                }
                proof {
                    if f != seq!['{', '}'] {
                        assert forall|k: int| 0 <= k < spec_arr_elems(f).len() implies
                            is_int_literal(#[trigger] spec_arr_elems(f)[k]) && i32::MIN
                            <= int_literal_val(spec_arr_elems(f)[k]) <= i32::MAX by {
                            assert(spec_int_array_vals(f)[k] == int_literal_val(
                                spec_arr_elems(f)[k],
                            ));
                            assert(v64@[k] as int == spec_int_array_vals(f)[k]);
                            assert(out@[k] as int == spec_int_array_vals(f)[k]);
                        }
                    }
                }
                Ok(out)
            },
            None => {
                proof {
                    if spec_int_array_ok(f, i32::MIN as int, i32::MAX as int) {
                        crate::parse::lemma_int_array_ok_widen(
                            f,
                            i32::MIN as int,
                            i32::MAX as int,
                            i64::MIN as int,
                            i64::MAX as int,
                        );
                    }
                }
                Err(cannot_produce_err("i32", field))
            },
        }
    }

    /// Produce the field under the cursor as an optional array of `i32`:
    /// the empty field is `None`.
    pub fn produce_opt_i32_vec(&mut self) -> (r: Result<Option<Vec<i32>>, PostgresSourceError>)
        requires
            old(self).wf(),
            old(self).current_row < old(self).rowbuf@.len(),
        ensures
            final(self).advanced_from(old(self)),
            ({
                let f = old(self).cur_field();
                match r {
                    Ok(Some(v)) => f.len() > 0 && spec_int_array_ok(f, i32::MIN as int, i32::MAX as int)
                        && v@.len() == spec_int_array_vals(f).len() && forall|j: int|
                        0 <= j < v@.len() ==> (#[trigger] v@[j]) as int == spec_int_array_vals(
                            f,
                        )[j],
                    Ok(None) => f.len() == 0,
                    Err(e) => f.len() > 0 && !spec_int_array_ok(f, i32::MIN as int, i32::MAX as int)
                        && spec_cannot_produce(e, "i32"@, f),
                }
            }),
    {
        if self.field_at(self.current_row, self.current_col).as_str().unicode_len() == 0 {
            let _ = self.next_loc();
            return Ok(None);
        }
        match self.produce_i32_vec() {
            Ok(v) => Ok(Some(v)),
            Err(e) => Err(e),
        }
    }

    /// Produce the field under the cursor as an array of `i16`.
    pub fn produce_i16_vec(&mut self) -> (r: Result<Vec<i16>, PostgresSourceError>)
        requires
            old(self).wf(),
            old(self).current_row < old(self).rowbuf@.len(),
        ensures
            final(self).advanced_from(old(self)),
            ({
                let f = old(self).cur_field();
                match r {
                    Ok(v) => spec_int_array_ok(f, i16::MIN as int, i16::MAX as int) && v@.len()
                        == spec_int_array_vals(f).len() && forall|j: int|
                        0 <= j < v@.len() ==> (#[trigger] v@[j]) as int == spec_int_array_vals(
                            f,
                        )[j],
                    Err(e) => !spec_int_array_ok(f, i16::MIN as int, i16::MAX as int)
                        && spec_cannot_produce(e, "i16"@, f),
                }
            }),
    {
        let ghost f = old(self).cur_field();
        let (ridx, cidx) = self.next_loc();
        let field = &self.rowbuf[ridx][cidx];
        proof {
            assert(f == field@);
        }
        match parse_int_array_vals(field.as_str()) {
            Some(v64) => {
                let mut out: Vec<i16> = Vec::new();
                let m = v64.len();
                let mut j: usize = 0;
                while j < m
                    invariant
                        self.advanced_from(old(self)),
                        j <= m,
                        m == v64@.len(),
                        f == field@,
                        f == old(self).cur_field(),
                        spec_int_array_ok(f, i64::MIN as int, i64::MAX as int),
                        v64@.len() == spec_int_array_vals(f).len(),
                        forall|t: int|
                            0 <= t < v64@.len() ==> (#[trigger] v64@[t]) as int
                                == spec_int_array_vals(f)[t],
                        out@.len() == j,
                        forall|t: int|
                            0 <= t < j ==> (#[trigger] out@[t]) as int == spec_int_array_vals(
                                f,
                            )[t],
                    decreases m - j,
                {
                    let x = v64[j];
                    if x < -32768i64 || x > 32767i64 {
                        proof {
                            assert(f != seq!['{', '}']);
                            assert(spec_int_array_vals(f)[j as int] == int_literal_val(
                                spec_arr_elems(f)[j as int],
                            ));
                            assert(!spec_int_array_ok(f, i16::MIN as int, i16::MAX as int)) by {
                                if spec_int_array_ok(f, i16::MIN as int, i16::MAX as int) {
                                    assert(is_int_literal(spec_arr_elems(f)[j as int])
                                        && i16::MIN <= int_literal_val(spec_arr_elems(f)[j as int])
                                        <= i16::MAX);
                                }
                            }
                        }
                        return Err(cannot_produce_err("i16", field));
                    }
                    out.push(x as i16);
                    j = j + 1;
                }
                proof {
                    if f != seq!['{', '}'] {
                        assert forall|k: int| 0 <= k < spec_arr_elems(f).len() implies
                            is_int_literal(#[trigger] spec_arr_elems(f)[k]) && i16::MIN
                            <= int_literal_val(spec_arr_elems(f)[k]) <= i16::MAX by {
                            assert(spec_int_array_vals(f)[k] == int_literal_val(
                                spec_arr_elems(f)[k],
                            ));
                            assert(v64@[k] as int == spec_int_array_vals(f)[k]);
                            assert(out@[k] as int == spec_int_array_vals(f)[k]);
                        }
                    }
                }
                Ok(out)
            },
            None => {
                proof {
                    if spec_int_array_ok(f, i16::MIN as int, i16::MAX as int) {
                        crate::parse::lemma_int_array_ok_widen(
                            f,
                            i16::MIN as int,
                            i16::MAX as int,
                            i64::MIN as int,
                            i64::MAX as int,
                        );
                    }
                }
                Err(cannot_produce_err("i16", field))
            },
        }
    }

    /// Produce the field under the cursor as an optional array of `i16`:
    /// the empty field is `None`.
    pub fn produce_opt_i16_vec(&mut self) -> (r: Result<Option<Vec<i16>>, PostgresSourceError>)
        requires
            old(self).wf(),
            old(self).current_row < old(self).rowbuf@.len(),
        ensures
            final(self).advanced_from(old(self)),
            ({
                let f = old(self).cur_field();
                match r {
                    Ok(Some(v)) => f.len() > 0 && spec_int_array_ok(f, i16::MIN as int, i16::MAX as int)
                        && v@.len() == spec_int_array_vals(f).len() && forall|j: int|
                        0 <= j < v@.len() ==> (#[trigger] v@[j]) as int == spec_int_array_vals(
                            f,
                        )[j],
                    Ok(None) => f.len() == 0,
                    Err(e) => f.len() > 0 && !spec_int_array_ok(f, i16::MIN as int, i16::MAX as int)
                        && spec_cannot_produce(e, "i16"@, f),
                }
            }),
    {
        if self.field_at(self.current_row, self.current_col).as_str().unicode_len() == 0 {
            let _ = self.next_loc();
            return Ok(None);
        }
        match self.produce_i16_vec() {
            Ok(v) => Ok(Some(v)),
            Err(e) => Err(e),
        }
    }

    /// Produce the field under the cursor as an array of `i8`.
    pub fn produce_i8_vec(&mut self) -> (r: Result<Vec<i8>, PostgresSourceError>)
        requires
            old(self).wf(),
            old(self).current_row < old(self).rowbuf@.len(),
        ensures
            final(self).advanced_from(old(self)),
            ({
                let f = old(self).cur_field();
                match r {
                    Ok(v) => spec_int_array_ok(f, i8::MIN as int, i8::MAX as int) && v@.len()
                        == spec_int_array_vals(f).len() && forall|j: int|
                        0 <= j < v@.len() ==> (#[trigger] v@[j]) as int == spec_int_array_vals(
                            f,
                        )[j],
                    Err(e) => !spec_int_array_ok(f, i8::MIN as int, i8::MAX as int)
                        && spec_cannot_produce(e, "i8"@, f),
                }
            }),
    {
        let ghost f = old(self).cur_field();
        let (ridx, cidx) = self.next_loc();
        let field = &self.rowbuf[ridx][cidx];
        proof {
            assert(f == field@);
        }
        match parse_int_array_vals(field.as_str()) {
            Some(v64) => {
                let mut out: Vec<i8> = Vec::new();
                let m = v64.len();
                let mut j: usize = 0;
                while j < m
                    invariant
                        self.advanced_from(old(self)),
                        j <= m,
                        m == v64@.len(),
                        f == field@,
                        f == old(self).cur_field(),
                        spec_int_array_ok(f, i64::MIN as int, i64::MAX as int),
                        v64@.len() == spec_int_array_vals(f).len(),
                        forall|t: int|
                            0 <= t < v64@.len() ==> (#[trigger] v64@[t]) as int
                                == spec_int_array_vals(f)[t],
                        out@.len() == j,
                        forall|t: int|
                            0 <= t < j ==> (#[trigger] out@[t]) as int == spec_int_array_vals(
                                f,
                            )[t],
                    decreases m - j,
                {
                    let x = v64[j];
                    if x < -128i64 || x > 127i64 {
                        proof {
                            assert(f != seq!['{', '}']);
                            assert(spec_int_array_vals(f)[j as int] == int_literal_val(
                                spec_arr_elems(f)[j as int],
                            ));
                            assert(!spec_int_array_ok(f, i8::MIN as int, i8::MAX as int)) by {
                                if spec_int_array_ok(f, i8::MIN as int, i8::MAX as int) {
                                    assert(is_int_literal(spec_arr_elems(f)[j as int])
                                        && i8::MIN <= int_literal_val(spec_arr_elems(f)[j as int])
                                        <= i8::MAX);
                                }
                            }
                        }
                        return Err(cannot_produce_err("i8", field));
                    }
                    out.push(x as i8);
                    j = j + 1;
                }
                proof {
                    if f != seq!['{', '}'] {
                        assert forall|k: int| 0 <= k < spec_arr_elems(f).len() implies
                            is_int_literal(#[trigger] spec_arr_elems(f)[k]) && i8::MIN
                            <= int_literal_val(spec_arr_elems(f)[k]) <= i8::MAX by {
                            assert(spec_int_array_vals(f)[k] == int_literal_val(
                                spec_arr_elems(f)[k],
                            ));
                            assert(v64@[k] as int == spec_int_array_vals(f)[k]);
                            assert(out@[k] as int == spec_int_array_vals(f)[k]);
                        }
                    }
                }
                Ok(out)
            },
            None => {
                proof {
                    if spec_int_array_ok(f, i8::MIN as int, i8::MAX as int) {
                        crate::parse::lemma_int_array_ok_widen(
                            f,
                            i8::MIN as int,
                            i8::MAX as int,
                            i64::MIN as int,
                            i64::MAX as int,
                        );
                    }
                }
                Err(cannot_produce_err("i8", field))
            },
        }
    }

    /// Produce the field under the cursor as an optional array of `i8`:
    /// the empty field is `None`.
    pub fn produce_opt_i8_vec(&mut self) -> (r: Result<Option<Vec<i8>>, PostgresSourceError>)
        requires
            old(self).wf(),
            old(self).current_row < old(self).rowbuf@.len(),
        ensures
            final(self).advanced_from(old(self)),
            ({
                let f = old(self).cur_field();
                match r {
                    Ok(Some(v)) => f.len() > 0 && spec_int_array_ok(f, i8::MIN as int, i8::MAX as int)
                        && v@.len() == spec_int_array_vals(f).len() && forall|j: int|
                        0 <= j < v@.len() ==> (#[trigger] v@[j]) as int == spec_int_array_vals(
                            f,
                        )[j],
                    Ok(None) => f.len() == 0,
                    Err(e) => f.len() > 0 && !spec_int_array_ok(f, i8::MIN as int, i8::MAX as int)
                        && spec_cannot_produce(e, "i8"@, f),
                }
            }),
    {
        if self.field_at(self.current_row, self.current_col).as_str().unicode_len() == 0 {
            let _ = self.next_loc();
            return Ok(None);
        }
        match self.produce_i8_vec() {
            Ok(v) => Ok(Some(v)),
            Err(e) => Err(e),
        }
    }

    /// Produce the field under the cursor as a fixed-point decimal.
    pub fn produce_decimal(&mut self) -> (r: Result<rust_decimal::Decimal, PostgresSourceError>)
        requires
            old(self).wf(),
            old(self).current_row < old(self).rowbuf@.len(),
        ensures
            final(self).advanced_from(old(self)),
            ({
                let f = old(self).cur_field();
                match r {
                    Ok(_) => decimal_wf(f) && f.len() > 0,
                    Err(e) => !decimal_wf(f) && spec_cannot_produce(e, "Decimal"@, f),
                }
            }),
    {
        let (ridx, cidx) = self.next_loc();
        let field = &self.rowbuf[ridx][cidx];
        match parse_decimal(field.as_str()) {
            Some(v) => Ok(v),
            None => Err(cannot_produce_err("Decimal", field)),
        }
    }

    /// Produce the field under the cursor as an optional fixed-point decimal: the empty
    /// field is `None`.
    pub fn produce_opt_decimal(&mut self) -> (r: Result<Option<rust_decimal::Decimal>, PostgresSourceError>)
        requires
            old(self).wf(),
            old(self).current_row < old(self).rowbuf@.len(),
        ensures
            final(self).advanced_from(old(self)),
            ({
                let f = old(self).cur_field();
                match r {
                    Ok(Some(_)) => f.len() > 0 && decimal_wf(f),
                    Ok(None) => f.len() == 0,
                    Err(e) => f.len() > 0 && !decimal_wf(f) && spec_cannot_produce(e, "Decimal"@, f),
                }
            }),
    {
        let (ridx, cidx) = self.next_loc();
        let field = &self.rowbuf[ridx][cidx];
        if field.as_str().unicode_len() == 0 {
            return Ok(None);
        }
        match parse_decimal(field.as_str()) {
            Some(v) => Ok(Some(v)),
            None => Err(cannot_produce_err("Decimal", field)),
        }
    }

    /// Produce the field under the cursor as a UUID.
    pub fn produce_uuid(&mut self) -> (r: Result<uuid::Uuid, PostgresSourceError>)
        requires
            old(self).wf(),
            old(self).current_row < old(self).rowbuf@.len(),
        ensures
            final(self).advanced_from(old(self)),
            ({
                let f = old(self).cur_field();
                match r {
                    Ok(_) => uuid_wf(f) && f.len() > 0,
                    Err(e) => !uuid_wf(f) && spec_cannot_produce(e, "Uuid"@, f),
                }
            }),
    {
        let (ridx, cidx) = self.next_loc();
        let field = &self.rowbuf[ridx][cidx];
        match parse_uuid(field.as_str()) {
            Some(v) => Ok(v),
            None => Err(cannot_produce_err("Uuid", field)),
        }
    }

    /// Produce the field under the cursor as an optional UUID: the empty
    /// field is `None`.
    pub fn produce_opt_uuid(&mut self) -> (r: Result<Option<uuid::Uuid>, PostgresSourceError>)
        requires
            old(self).wf(),
            old(self).current_row < old(self).rowbuf@.len(),
        ensures
            final(self).advanced_from(old(self)),
            ({
                let f = old(self).cur_field();
                match r {
                    Ok(Some(_)) => f.len() > 0 && uuid_wf(f),
                    Ok(None) => f.len() == 0,
                    Err(e) => f.len() > 0 && !uuid_wf(f) && spec_cannot_produce(e, "Uuid"@, f),
                }
            }),
    {
        let (ridx, cidx) = self.next_loc();
        let field = &self.rowbuf[ridx][cidx];
        if field.as_str().unicode_len() == 0 {
            return Ok(None);
        }
        match parse_uuid(field.as_str()) {
            Some(v) => Ok(Some(v)),
            None => Err(cannot_produce_err("Uuid", field)),
        }
    }

    /// Produce the field under the cursor as a JSON value.
    pub fn produce_json(&mut self) -> (r: Result<serde_json::Value, PostgresSourceError>)
        requires
            old(self).wf(),
            old(self).current_row < old(self).rowbuf@.len(),
        ensures
            final(self).advanced_from(old(self)),
            ({
                let f = old(self).cur_field();
                match r {
                    Ok(_) => json_wf(f) && f.len() > 0,
                    Err(e) => !json_wf(f) && spec_cannot_produce(e, "Value"@, f),
                }
            }),
    {
        let (ridx, cidx) = self.next_loc();
        let field = &self.rowbuf[ridx][cidx];
        match parse_json(field.as_str()) {
            Some(v) => Ok(v),
            None => Err(cannot_produce_err("Value", field)),
        }
    }

    /// Produce the field under the cursor as an optional JSON value: the empty
    /// field is `None`.
    pub fn produce_opt_json(&mut self) -> (r: Result<Option<serde_json::Value>, PostgresSourceError>)
        requires
            old(self).wf(),
            old(self).current_row < old(self).rowbuf@.len(),
        ensures
            final(self).advanced_from(old(self)),
            ({
                let f = old(self).cur_field();
                match r {
                    Ok(Some(_)) => f.len() > 0 && json_wf(f),
                    Ok(None) => f.len() == 0,
                    Err(e) => f.len() > 0 && !json_wf(f) && spec_cannot_produce(e, "Value"@, f),
                }
            }),
    {
        let (ridx, cidx) = self.next_loc();
        let field = &self.rowbuf[ridx][cidx];
        if field.as_str().unicode_len() == 0 {
            return Ok(None);
        }
        match parse_json(field.as_str()) {
            Some(v) => Ok(Some(v)),
            None => Err(cannot_produce_err("Value", field)),
        }
    }

    /// Produce the field under the cursor as a date in `YYYY-MM-DD` form.
    pub fn produce_date(&mut self) -> (r: Result<chrono::NaiveDate, PostgresSourceError>)
        requires
            old(self).wf(),
            old(self).current_row < old(self).rowbuf@.len(),
        ensures
            final(self).advanced_from(old(self)),
            ({
                let f = old(self).cur_field();
                match r {
                    Ok(_) => date_wf(f) && f.len() > 0,
                    Err(e) => !date_wf(f) && spec_cannot_produce(e, "NaiveDate"@, f),
                }
            }),
    {
        let (ridx, cidx) = self.next_loc();
        let field = &self.rowbuf[ridx][cidx];
        match parse_date(field.as_str()) {
            Some(v) => Ok(v),
            None => Err(cannot_produce_err("NaiveDate", field)),
        }
    }

    /// Produce the field under the cursor as an optional date in `YYYY-MM-DD` form: the empty
    /// field is `None`.
    pub fn produce_opt_date(&mut self) -> (r: Result<Option<chrono::NaiveDate>, PostgresSourceError>)
        requires
            old(self).wf(),
            old(self).current_row < old(self).rowbuf@.len(),
        ensures
            final(self).advanced_from(old(self)),
            ({
                let f = old(self).cur_field();
                match r {
                    Ok(Some(_)) => f.len() > 0 && date_wf(f),
                    Ok(None) => f.len() == 0,
                    Err(e) => f.len() > 0 && !date_wf(f) && spec_cannot_produce(e, "NaiveDate"@, f),
                }
            }),
    {
        let (ridx, cidx) = self.next_loc();
        let field = &self.rowbuf[ridx][cidx];
        if field.as_str().unicode_len() == 0 {
            return Ok(None);
        }
        match parse_date(field.as_str()) {
            Some(v) => Ok(Some(v)),
            None => Err(cannot_produce_err("NaiveDate", field)),
        }
    }

    /// Produce the field under the cursor as a time in `HH:MM:SS` form.
    pub fn produce_time(&mut self) -> (r: Result<chrono::NaiveTime, PostgresSourceError>)
        requires
            old(self).wf(),
            old(self).current_row < old(self).rowbuf@.len(),
        ensures
            final(self).advanced_from(old(self)),
            ({
                let f = old(self).cur_field();
                match r {
                    Ok(_) => time_wf(f) && f.len() > 0,
                    Err(e) => !time_wf(f) && spec_cannot_produce(e, "NaiveTime"@, f),
                }
            }),
    {
        let (ridx, cidx) = self.next_loc();
        let field = &self.rowbuf[ridx][cidx];
        match parse_time(field.as_str()) {
            Some(v) => Ok(v),
            None => Err(cannot_produce_err("NaiveTime", field)),
        }
    }

    /// Produce the field under the cursor as an optional time in `HH:MM:SS` form: the empty
    /// field is `None`.
    pub fn produce_opt_time(&mut self) -> (r: Result<Option<chrono::NaiveTime>, PostgresSourceError>)
        requires
            old(self).wf(),
            old(self).current_row < old(self).rowbuf@.len(),
        ensures
            final(self).advanced_from(old(self)),
            ({
                let f = old(self).cur_field();
                match r {
                    Ok(Some(_)) => f.len() > 0 && time_wf(f),
                    Ok(None) => f.len() == 0,
                    Err(e) => f.len() > 0 && !time_wf(f) && spec_cannot_produce(e, "NaiveTime"@, f),
                }
            }),
    {
        let (ridx, cidx) = self.next_loc();
        let field = &self.rowbuf[ridx][cidx];
        if field.as_str().unicode_len() == 0 {
            return Ok(None);
        }
        match parse_time(field.as_str()) {
            Some(v) => Ok(Some(v)),
            None => Err(cannot_produce_err("NaiveTime", field)),
        }
    }

    /// Produce the field under the cursor as a timestamp in `YYYY-MM-DD HH:MM:SS` form.
    pub fn produce_timestamp(&mut self) -> (r: Result<chrono::NaiveDateTime, PostgresSourceError>)
        requires
            old(self).wf(),
            old(self).current_row < old(self).rowbuf@.len(),
        ensures
            final(self).advanced_from(old(self)),
            ({
                let f = old(self).cur_field();
                match r {
                    Ok(_) => timestamp_wf(f) && f.len() > 0,
                    Err(e) => !timestamp_wf(f) && spec_cannot_produce(e, "NaiveDateTime"@, f),
                }
            }),
    {
        let (ridx, cidx) = self.next_loc();
        let field = &self.rowbuf[ridx][cidx];
        match parse_timestamp(field.as_str()) {
            Some(v) => Ok(v),
            None => Err(cannot_produce_err("NaiveDateTime", field)),
        }
    }

    /// Produce the field under the cursor as an optional timestamp in `YYYY-MM-DD HH:MM:SS` form: the empty
    /// field is `None`.
    pub fn produce_opt_timestamp(&mut self) -> (r: Result<Option<chrono::NaiveDateTime>, PostgresSourceError>)
        requires
            old(self).wf(),
            old(self).current_row < old(self).rowbuf@.len(),
        ensures
            final(self).advanced_from(old(self)),
            ({
                let f = old(self).cur_field();
                match r {
                    Ok(Some(_)) => f.len() > 0 && timestamp_wf(f),
                    Ok(None) => f.len() == 0,
                    Err(e) => f.len() > 0 && !timestamp_wf(f) && spec_cannot_produce(e, "NaiveDateTime"@, f),
                }
            }),
    {
        let (ridx, cidx) = self.next_loc();
        let field = &self.rowbuf[ridx][cidx];
        if field.as_str().unicode_len() == 0 {
            return Ok(None);
        }
        match parse_timestamp(field.as_str()) {
            Some(v) => Ok(Some(v)),
            None => Err(cannot_produce_err("NaiveDateTime", field)),
        }
    }

    /// Produce the field under the cursor as an instant with a time zone.
    /// PostgreSQL's CSV output truncates the offset to `±HH`, so `:00` is
    /// appended before parsing; the instant comes back on the UTC timeline.
    pub fn produce_timestamp_tz(&mut self) -> (r: Result<
        chrono::NaiveDateTime,
        PostgresSourceError,
    >)
        requires
            old(self).wf(),
            old(self).current_row < old(self).rowbuf@.len(),
        ensures
            final(self).advanced_from(old(self)),
            ({
                let f = old(self).cur_field();
                match r {
                    Ok(_) => timestamp_tz_wf(f + ":00"@),
                    Err(e) => !timestamp_tz_wf(f + ":00"@) && spec_cannot_produce(
                        e,
                        "DateTime"@,
                        f,
                    ),
                }
            }),
    {
        let (ridx, cidx) = self.next_loc();
        let field = &self.rowbuf[ridx][cidx];
        let mut padded = field.clone();
        padded.append(":00");
        match parse_timestamp_tz(padded.as_str()) {
            Some(v) => Ok(v),
            None => Err(cannot_produce_err("DateTime", field)),
        }
    }

    /// Produce the field under the cursor as an optional instant with a
    /// time zone: the empty field is `None`. A non-empty field gets `:00`
    /// appended to its truncated offset before parsing.
    pub fn produce_opt_timestamp_tz(&mut self) -> (r: Result<
        Option<chrono::NaiveDateTime>,
        PostgresSourceError,
    >)
        requires
            old(self).wf(),
            old(self).current_row < old(self).rowbuf@.len(),
        ensures
            final(self).advanced_from(old(self)),
            ({
                let f = old(self).cur_field();
                match r {
                    Ok(Some(_)) => f.len() > 0 && timestamp_tz_wf(f + ":00"@),
                    Ok(None) => f.len() == 0,
                    Err(e) => f.len() > 0 && !timestamp_tz_wf(f + ":00"@) && spec_cannot_produce(
                        e,
                        "DateTime"@,
                        f,
                    ),
                }
            }),
    {
        let (ridx, cidx) = self.next_loc();
        let field = &self.rowbuf[ridx][cidx];
        if field.as_str().unicode_len() == 0 {
            return Ok(None);
        }
        let mut padded = field.clone();
        padded.append(":00");
        match parse_timestamp_tz(padded.as_str()) {
            Some(v) => Ok(Some(v)),
            None => Err(cannot_produce_err("DateTime", field)),
        }
    }

    /// Produce the field under the cursor as an array of decimals.
    pub fn produce_decimal_vec(&mut self) -> (r: Result<
        Vec<rust_decimal::Decimal>,
        PostgresSourceError,
    >)
        requires
            old(self).wf(),
            old(self).current_row < old(self).rowbuf@.len(),
        ensures
            final(self).advanced_from(old(self)),
            ({
                let f = old(self).cur_field();
                match r {
                    Ok(v) => spec_decimal_array_ok(f) && v@.len() == spec_arr_len(f),
                    Err(e) => !spec_decimal_array_ok(f) && spec_cannot_produce(e, "Decimal"@, f),
                }
            }),
    {
        let (ridx, cidx) = self.next_loc();
        let field = &self.rowbuf[ridx][cidx];
        match parse_decimal_array(field.as_str()) {
            Some(v) => Ok(v),
            None => Err(cannot_produce_err("Decimal", field)),
        }
    }

    /// Produce the field under the cursor as an optional array of
    /// decimals: the empty field is `None`.
    pub fn produce_opt_decimal_vec(&mut self) -> (r: Result<
        Option<Vec<rust_decimal::Decimal>>,
        PostgresSourceError,
    >)
        requires
            old(self).wf(),
            old(self).current_row < old(self).rowbuf@.len(),
        ensures
            final(self).advanced_from(old(self)),
            ({
                let f = old(self).cur_field();
                match r {
                    Ok(Some(v)) => f.len() > 0 && spec_decimal_array_ok(f) && v@.len()
                        == spec_arr_len(f),
                    Ok(None) => f.len() == 0,
                    Err(e) => f.len() > 0 && !spec_decimal_array_ok(f) && spec_cannot_produce(
                        e,
                        "Decimal"@,
                        f,
                    ),
                }
            }),
    {
        let (ridx, cidx) = self.next_loc();
        let field = &self.rowbuf[ridx][cidx];
        if field.as_str().unicode_len() == 0 {
            return Ok(None);
        }
        match parse_decimal_array(field.as_str()) {
            Some(v) => Ok(Some(v)),
            None => Err(cannot_produce_err("Decimal", field)),
        }
    }

    /// Produce the field under the cursor as an hstore value. The CSV
    /// protocol does not decode hstore; the cursor protocol must be used.
    /// Always fails, still advancing the cursor, so that writer-side
    /// dispatch stays uniform across the column.
    pub fn produce_hstore(&mut self) -> (r: Result<
        Vec<(String, Option<String>)>,
        PostgresSourceError,
    >)
        requires
            old(self).wf(),
            old(self).current_row < old(self).rowbuf@.len(),
        ensures
            final(self).advanced_from(old(self)),
            r matches Err(e) && spec_unimplemented_hstore(e),
    {
        let _ = self.next_loc();
        Err(PostgresSourceError::Unimplemented(String::from_str("use cursor for hstore")))
    }

    /// Produce the field under the cursor as an optional hstore value.
    /// Always fails: hstore is not decoded on the CSV protocol.
    pub fn produce_opt_hstore(&mut self) -> (r: Result<
        Option<Vec<(String, Option<String>)>>,
        PostgresSourceError,
    >)
        requires
            old(self).wf(),
            old(self).current_row < old(self).rowbuf@.len(),
        ensures
            final(self).advanced_from(old(self)),
            r matches Err(e) && spec_unimplemented_hstore(e),
    {
        let _ = self.next_loc();
        Err(PostgresSourceError::Unimplemented(String::from_str("use cursor for hstore")))
    }
}

} // verus!
