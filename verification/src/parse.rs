//! Verified decoding of the scalar text forms PostgreSQL's CSV output
//! uses: decimal integer literals and `t`/`f` booleans.

use vstd::prelude::*;
use vstd::string::StrSliceExecFns;

verus! {

/// A decimal digit.
pub open spec fn is_digit(c: char) -> bool {
    '0' <= c && c <= '9'
}

/// The value of one decimal digit.
pub open spec fn digit_val(c: char) -> int {
    (c as u32) as int - 48
}

/// Every character is a decimal digit.
pub open spec fn all_digits(s: Seq<char>) -> bool {
    forall|i: int| 0 <= i < s.len() ==> is_digit(#[trigger] s[i])
}

/// The number a digit string denotes, most significant digit first.
pub open spec fn digits_val(s: Seq<char>) -> int
    decreases s.len(),
{
    if s.len() == 0 {
        0
    } else {
        digits_val(s.drop_last()) * 10 + digit_val(s.last())
    }
}

/// An optional sign followed by at least one digit, as Rust's integer
/// `parse` accepts it: one leading `+` or `-` and nothing else but digits.
pub open spec fn is_int_literal(s: Seq<char>) -> bool {
    if s.len() == 0 {
        false
    } else if s[0] == '-' || s[0] == '+' {
        s.len() >= 2 && all_digits(s.skip(1))
    } else {
        all_digits(s)
    }
}

/// The integer an integer literal denotes.
pub open spec fn int_literal_val(s: Seq<char>) -> int {
    if s.len() > 0 && s[0] == '-' {
        -digits_val(s.skip(1))
    } else if s.len() > 0 && s[0] == '+' {
        digits_val(s.skip(1))
    } else {
        digits_val(s)
    }
}

/// A digit string never denotes a negative number.
proof fn lemma_digits_val_nonneg(p: Seq<char>)
    requires
        all_digits(p),
    ensures
        digits_val(p) >= 0,
    decreases p.len(),
{
    if p.len() > 0 {
        assert(all_digits(p.drop_last()));
        lemma_digits_val_nonneg(p.drop_last());
        assert(is_digit(p.last()));
    }
}

/// Appending digits to a digit string never shrinks its value.
proof fn lemma_digits_val_append_ge(p: Seq<char>, rest: Seq<char>)
    requires
        all_digits(p),
        all_digits(rest),
    ensures
        digits_val(p + rest) >= digits_val(p),
    decreases rest.len(),
{
    lemma_digits_val_nonneg(p);
    if rest.len() == 0 {
        assert(p + rest =~= p);
    } else {
        let rest1 = rest.drop_last();
        assert(all_digits(rest1));
        lemma_digits_val_append_ge(p, rest1);
        assert((p + rest).drop_last() =~= p + rest1);
        assert(is_digit(rest.last()));
        assert((p + rest).last() == rest.last());
        assert(all_digits(p + rest1));
        lemma_digits_val_nonneg(p + rest1);
    }
}

/// Parse the digits of `s` from `start` on. Yields their value when they
/// are all digits, there is at least one, and the value does not exceed
/// `2^63` (the largest magnitude a 64-bit integer literal may carry).
fn parse_digits(s: &str, start: usize) -> (r: Option<u64>)
    requires
        start <= s@.len(),
    ensures
        match r {
            Some(m) => {
                &&& all_digits(s@.skip(start as int))
                &&& s@.len() > start
                &&& m as int == digits_val(s@.skip(start as int))
                &&& m <= 9223372036854775808u64
            },
            None => !(all_digits(s@.skip(start as int)) && s@.len() > start) || digits_val(
                s@.skip(start as int),
            ) > 9223372036854775808,
        },
{
    let len = s.unicode_len();
    if start >= len {
        return None;
    }
    let ghost digits = s@.skip(start as int);
    let mut acc: u64 = 0;
    let mut i: usize = start;
    while i < len
        invariant
            start <= i <= len,
            len == s@.len(),
            start < len,
            digits == s@.skip(start as int),
            forall|j: int| start <= j < i ==> is_digit(#[trigger] s@[j]),
            acc as int == digits_val(s@.subrange(start as int, i as int)),
            acc <= 9223372036854775808u64,
        decreases len - i,
    {
        let c = s.get_char(i);
        if c < '0' || c > '9' {
            proof {
                assert(s@.skip(start as int)[i - start] == s@[i as int]);
                assert(!all_digits(s@.skip(start as int)));
            }
            return None;
        }
        let d: u64 = (c as u32 - 48) as u64;
        proof {
            assert(s@.subrange(start as int, i + 1).drop_last() =~= s@.subrange(
                start as int,
                i as int,
            ));
            assert(s@.subrange(start as int, i + 1).last() == s@[i as int]);
        }
        if acc > 922337203685477580u64 || acc * 10 > 9223372036854775808u64 - d {
            proof {
                let p = s@.subrange(start as int, i + 1);
                assert(digits_val(p) == acc * 10 + d);
                assert(digits_val(p) > 9223372036854775808);
                if all_digits(digits) && s@.len() > start {
                    let rest = s@.subrange(i + 1, len as int);
                    assert forall|j: int| 0 <= j < p.len() implies is_digit(#[trigger] p[j]) by {
                        assert(p[j] == s@[start + j]);
                        assert(digits[j] == s@[start + j]);
                        assert(is_digit(digits[j]));
                    }
                    assert forall|j: int| 0 <= j < rest.len() implies is_digit(
                        #[trigger] rest[j],
                    ) by {
                        assert(rest[j] == s@[i + 1 + j]);
                        assert(digits[i + 1 - start + j] == s@[i + 1 + j]);
                        assert(is_digit(digits[i + 1 - start + j]));
                    }
                    lemma_digits_val_append_ge(p, rest);
                    assert(p + rest =~= digits);
                }
            }
            return None;
        }
        acc = acc * 10 + d;
        i = i + 1;
    }
    proof {
        assert(s@.subrange(start as int, len as int) =~= digits);
    }
    Some(acc)
}

/// Parse a 64-bit integer literal: an optional sign followed by digits.
/// Succeeds exactly on well-formed literals whose value fits.
pub fn parse_i64(s: &str) -> (r: Option<i64>)
    ensures
        match r {
            Some(v) => is_int_literal(s@) && v as int == int_literal_val(s@),
            None => !(is_int_literal(s@) && i64::MIN <= int_literal_val(s@) <= i64::MAX),
        },
{
    let len = s.unicode_len();
    if len == 0 {
        return None;
    }
    let head = s.get_char(0);
    let neg = head == '-';
    let signed = neg || head == '+';
    let start: usize = if signed {
        1
    } else {
        0
    };
    match parse_digits(s, start) {
        None => {
            proof {
                if signed {
                    assert(s@.skip(1) == s@.skip(start as int));
                } else {
                    assert(s@.skip(0) =~= s@);
                }
            }
            None
        },
        Some(m) => {
            proof {
                if signed {
                    assert(s@.skip(1) == s@.skip(start as int));
                } else {
                    assert(s@.skip(0) =~= s@);
                }
            }
            if neg {
                if m == 9223372036854775808u64 {
                    Some(i64::MIN)
                } else {
                    Some(-(m as i64))
                }
            } else {
                if m > 9223372036854775807u64 {
                    None
                } else {
                    Some(m as i64)
                }
            }
        },
    }
}

/// Parse a 32-bit integer literal.
pub fn parse_i32(s: &str) -> (r: Option<i32>)
    ensures
        match r {
            Some(v) => is_int_literal(s@) && v as int == int_literal_val(s@),
            None => !(is_int_literal(s@) && i32::MIN <= int_literal_val(s@) <= i32::MAX),
        },
{
    match parse_i64(s) {
        Some(v) => if i32::MIN as i64 <= v && v <= i32::MAX as i64 {
            Some(v as i32)
        } else {
            None
        },
        None => None,
    }
}

/// Parse a 16-bit integer literal.
pub fn parse_i16(s: &str) -> (r: Option<i16>)
    ensures
        match r {
            Some(v) => is_int_literal(s@) && v as int == int_literal_val(s@),
            None => !(is_int_literal(s@) && i16::MIN <= int_literal_val(s@) <= i16::MAX),
        },
{
    match parse_i64(s) {
        Some(v) => if i16::MIN as i64 <= v && v <= i16::MAX as i64 {
            Some(v as i16)
        } else {
            None
        },
        None => None,
    }
}

/// Parse an 8-bit integer literal.
pub fn parse_i8(s: &str) -> (r: Option<i8>)
    ensures
        match r {
            Some(v) => is_int_literal(s@) && v as int == int_literal_val(s@),
            None => !(is_int_literal(s@) && i8::MIN <= int_literal_val(s@) <= i8::MAX),
        },
{
    match parse_i64(s) {
        Some(v) => if i8::MIN as i64 <= v && v <= i8::MAX as i64 {
            Some(v as i8)
        } else {
            None
        },
        None => None,
    }
}

/// A hexadecimal digit, either case.
pub open spec fn is_hex_digit(c: char) -> bool {
    ('0' <= c && c <= '9') || ('a' <= c && c <= 'f') || ('A' <= c && c <= 'F')
}

/// The value of one hexadecimal digit.
pub open spec fn hex_digit_val(c: char) -> int {
    if '0' <= c && c <= '9' {
        (c as u32) as int - 48
    } else if 'a' <= c && c <= 'f' {
        (c as u32) as int - 87
    } else {
        (c as u32) as int - 55
    }
}

/// An even number of hexadecimal digits.
pub open spec fn is_hex_str(s: Seq<char>) -> bool {
    s.len() % 2 == 0 && forall|i: int| 0 <= i < s.len() ==> is_hex_digit(#[trigger] s[i])
}

/// The bytes a hexadecimal string denotes, two digits per byte.
pub open spec fn spec_hex_bytes(s: Seq<char>) -> Seq<u8>
    decreases s.len(),
{
    if s.len() < 2 {
        Seq::empty()
    } else {
        seq![(hex_digit_val(s[0]) * 16 + hex_digit_val(s[1])) as u8] + spec_hex_bytes(s.skip(2))
    }
}

/// Two more digits extend the denoted bytes by one.
proof fn lemma_hex_bytes_snoc(t: Seq<char>, c1: char, c2: char)
    requires
        t.len() % 2 == 0,
    ensures
        spec_hex_bytes(t + seq![c1, c2]) == spec_hex_bytes(t) + seq![
            (hex_digit_val(c1) * 16 + hex_digit_val(c2)) as u8,
        ],
    decreases t.len(),
{
    let w = t + seq![c1, c2];
    if t.len() == 0 {
        assert(w =~= seq![c1, c2]);
        assert(w[0] == c1 && w[1] == c2);
        assert(w.skip(2) =~= Seq::<char>::empty());
        assert(spec_hex_bytes(w) == seq![(hex_digit_val(w[0]) * 16 + hex_digit_val(w[1])) as u8]
            + spec_hex_bytes(w.skip(2)));
        assert(spec_hex_bytes(w) =~= spec_hex_bytes(t) + seq![
            (hex_digit_val(c1) * 16 + hex_digit_val(c2)) as u8,
        ]);
    } else {
        lemma_hex_bytes_snoc(t.skip(2), c1, c2);
        assert(w.skip(2) =~= t.skip(2) + seq![c1, c2]);
        assert(w[0] == t[0] && w[1] == t[1]);
        assert(spec_hex_bytes(w) =~= spec_hex_bytes(t) + seq![
            (hex_digit_val(c1) * 16 + hex_digit_val(c2)) as u8,
        ]);
    }
}

/// Decode the hexadecimal digits of `s` from `start` on into bytes.
/// Succeeds exactly when what follows `start` is an even number of
/// hexadecimal digits.
pub fn decode_hex(s: &str, start: usize) -> (r: Option<Vec<u8>>)
    requires
        start <= s@.len(),
    ensures
        match r {
            Some(v) => is_hex_str(s@.skip(start as int)) && v@ == spec_hex_bytes(
                s@.skip(start as int),
            ),
            None => !is_hex_str(s@.skip(start as int)),
        },
{
    let ghost digits = s@.skip(start as int);
    let len = s.unicode_len();
    if (len - start) % 2 != 0 {
        return None;
    }
    let mut out: Vec<u8> = Vec::new();
    let mut i: usize = start;
    proof {
        assert(s@.subrange(start as int, start as int) =~= Seq::<char>::empty());
    }
    while i < len
        invariant
            start <= i <= len,
            len == s@.len(),
            digits == s@.skip(start as int),
            (len - start) % 2 == 0,
            (i - start) % 2 == 0,
            forall|j: int| start <= j < i ==> is_hex_digit(#[trigger] s@[j]),
            out@ == spec_hex_bytes(s@.subrange(start as int, i as int)),
        decreases len - i,
    {
        let c1 = s.get_char(i);
        let c2 = s.get_char(i + 1);
        let v1: u32 = if '0' <= c1 && c1 <= '9' {
            c1 as u32 - 48
        } else if 'a' <= c1 && c1 <= 'f' {
            c1 as u32 - 87
        } else if 'A' <= c1 && c1 <= 'F' {
            c1 as u32 - 55
        } else {
            proof {
                assert(digits[i - start] == s@[i as int]);
            }
            return None;
        };
        let v2: u32 = if '0' <= c2 && c2 <= '9' {
            c2 as u32 - 48
        } else if 'a' <= c2 && c2 <= 'f' {
            c2 as u32 - 87
        } else if 'A' <= c2 && c2 <= 'F' {
            c2 as u32 - 55
        } else {
            proof {
                assert(digits[i + 1 - start] == s@[i + 1]);
            }
            return None;
        };
        proof {
            lemma_hex_bytes_snoc(
                s@.subrange(start as int, i as int),
                s@[i as int],
                s@[i + 1],
            );
            assert(s@.subrange(start as int, i + 2) =~= s@.subrange(start as int, i as int)
                + seq![s@[i as int], s@[i + 1]]);
        }
        out.push((v1 * 16 + v2) as u8);
        i = i + 2;
    }
    proof {
        assert(s@.subrange(start as int, len as int) =~= digits);
    }
    Some(out)
}

/// The pieces of `s` between its commas, in order. Splitting the empty
/// string yields one empty piece, as `str::split` does.
pub open spec fn spec_split_commas(s: Seq<char>) -> Seq<Seq<char>>
    decreases s.len(),
{
    if s.len() == 0 {
        seq![Seq::<char>::empty()]
    } else {
        let rest = spec_split_commas(s.skip(1));
        if s[0] == ',' {
            seq![Seq::<char>::empty()] + rest
        } else {
            rest.update(0, seq![s[0]] + rest[0])
        }
    }
}

/// Splitting yields at least one piece.
pub proof fn lemma_split_commas_nonempty(s: Seq<char>)
    ensures
        spec_split_commas(s).len() >= 1,
    decreases s.len(),
{
    if s.len() > 0 {
        lemma_split_commas_nonempty(s.skip(1));
    }
}

/// The pieces that a sequence of index pairs cuts out of `s`.
pub open spec fn spec_pieces(r: Seq<(usize, usize)>, s: Seq<char>) -> Seq<Seq<char>> {
    Seq::new(r.len(), |k: int| s.subrange(r[k].0 as int, r[k].1 as int))
}

/// A split with the prefix `p` glued onto its first piece.
pub open spec fn spec_prepend_first(p: Seq<char>, ss: Seq<Seq<char>>) -> Seq<Seq<char>> {
    ss.update(0, p + ss[0])
}

/// Cut `s` at its commas: the pairs index the pieces of `s`, in order,
/// exactly as `spec_split_commas` lists them.
pub fn split_commas_idx(s: &str) -> (r: Vec<(usize, usize)>)
    ensures
        spec_pieces(r@, s@) == spec_split_commas(s@),
        forall|k: int| 0 <= k < r@.len() ==> (#[trigger] r@[k]).0 <= r@[k].1 <= s@.len(),
{
    let len = s.unicode_len();
    let mut out: Vec<(usize, usize)> = Vec::new();
    let mut cur_start: usize = 0;
    let mut i: usize = 0;
    proof {
        lemma_split_commas_nonempty(s@.skip(0));
        assert(s@.skip(0) =~= s@);
        assert(s@.subrange(0, 0) =~= Seq::<char>::empty());
        assert(spec_prepend_first(Seq::<char>::empty(), spec_split_commas(s@))
            =~~= spec_split_commas(s@)) by {
            assert(Seq::<char>::empty() + spec_split_commas(s@)[0] =~= spec_split_commas(s@)[0]);
        }
        assert(spec_pieces(out@, s@) =~~= Seq::<Seq<char>>::empty());
    }
    while i < len
        invariant
            cur_start <= i <= len,
            len == s@.len(),
            forall|k: int| 0 <= k < out@.len() ==> (#[trigger] out@[k]).0 <= out@[k].1 <= s@.len(),
            spec_split_commas(s@) =~~= spec_pieces(out@, s@) + spec_prepend_first(
                s@.subrange(cur_start as int, i as int),
                spec_split_commas(s@.skip(i as int)),
            ),
        decreases len - i,
    {
        let c = s.get_char(i);
        proof {
            lemma_split_commas_nonempty(s@.skip(i + 1));
            assert(s@.skip(i as int)[0] == s@[i as int]);
            assert(s@.skip(i as int).skip(1) =~= s@.skip(i + 1));
        }
        if c == ',' {
            let ghost old_out = out@;
            let ghost rest = spec_split_commas(s@.skip(i + 1));
            let ghost cur = s@.subrange(cur_start as int, i as int);
            out.push((cur_start, i));
            proof {
                assert(spec_split_commas(s@.skip(i as int)) =~~= seq![Seq::<char>::empty()]
                    + rest);
                assert(spec_prepend_first(cur, seq![Seq::<char>::empty()] + rest) =~~= seq![cur]
                    + rest) by {
                    assert(cur + Seq::<char>::empty() =~= cur);
                }
                assert(spec_pieces(out@, s@) =~~= spec_pieces(old_out, s@) + seq![cur]);
                assert(spec_prepend_first(Seq::<char>::empty(), rest) =~~= rest) by {
                    assert(Seq::<char>::empty() + rest[0] =~= rest[0]);
                }
                assert(s@.subrange(i + 1, i + 1) =~= Seq::<char>::empty());
            }
            cur_start = i + 1;
        } else {
            proof {
                let rest = spec_split_commas(s@.skip(i + 1));
                let cur = s@.subrange(cur_start as int, i as int);
                assert(spec_split_commas(s@.skip(i as int)) =~~= rest.update(
                    0,
                    seq![s@[i as int]] + rest[0],
                ));
                assert(spec_prepend_first(cur, rest.update(0, seq![s@[i as int]] + rest[0]))
                    =~~= spec_prepend_first(s@.subrange(cur_start as int, i + 1), rest)) by {
                    assert(cur + (seq![s@[i as int]] + rest[0]) =~= s@.subrange(
                        cur_start as int,
                        i + 1,
                    ) + rest[0]);
                }
            }
        }
        i = i + 1;
    }
    let ghost old_out = out@;
    out.push((cur_start, len));
    proof {
        let cur = s@.subrange(cur_start as int, len as int);
        assert(s@.skip(len as int) =~= Seq::<char>::empty());
        assert(spec_split_commas(Seq::<char>::empty()) =~~= seq![Seq::<char>::empty()]);
        assert(spec_prepend_first(cur, seq![Seq::<char>::empty()]) =~~= seq![cur]) by {
            assert(cur + Seq::<char>::empty() =~= cur);
        }
        assert(spec_pieces(out@, s@) =~~= spec_pieces(old_out, s@) + seq![cur]);
        assert(spec_pieces(out@, s@) =~~= spec_split_commas(s@));
    }
    out
}

/// The element texts of an array field: the pieces between the commas of
/// what stands inside the single leading and trailing delimiter.
pub open spec fn spec_arr_elems(f: Seq<char>) -> Seq<Seq<char>> {
    spec_split_commas(f.subrange(1, f.len() - 1))
}

/// Whether an array field decodes as integers within `[lo, hi]`: it is
/// `{}`, or it is at least three characters long and every element is an
/// integer literal in range.
pub open spec fn spec_int_array_ok(f: Seq<char>, lo: int, hi: int) -> bool {
    if f == seq!['{', '}'] {
        true
    } else {
        &&& f.len() >= 3
        &&& forall|k: int|
            0 <= k < spec_arr_elems(f).len() ==> is_int_literal(#[trigger] spec_arr_elems(f)[k])
                && lo <= int_literal_val(spec_arr_elems(f)[k]) <= hi
    }
}

/// An array field whose elements fit tight bounds also fits wide ones.
pub proof fn lemma_int_array_ok_widen(f: Seq<char>, lo1: int, hi1: int, lo2: int, hi2: int)
    requires
        lo2 <= lo1,
        hi1 <= hi2,
        spec_int_array_ok(f, lo1, hi1),
    ensures
        spec_int_array_ok(f, lo2, hi2),
{
    if f != seq!['{', '}'] {
        assert forall|k: int| 0 <= k < spec_arr_elems(f).len() implies is_int_literal(
            #[trigger] spec_arr_elems(f)[k],
        ) && lo2 <= int_literal_val(spec_arr_elems(f)[k]) <= hi2 by {
            assert(is_int_literal(spec_arr_elems(f)[k]) && lo1 <= int_literal_val(
                spec_arr_elems(f)[k],
            ) <= hi1);
        }
    }
}

/// The integers an array field denotes.
pub open spec fn spec_int_array_vals(f: Seq<char>) -> Seq<int> {
    if f == seq!['{', '}'] {
        Seq::empty()
    } else {
        spec_arr_elems(f).map_values(|e: Seq<char>| int_literal_val(e))
    }
}

/// The boolean a PostgreSQL CSV field denotes: `t` or `f`.
pub open spec fn spec_bool_of(s: Seq<char>) -> Option<bool> {
    if s == seq!['t'] {
        Some(true)
    } else if s == seq!['f'] {
        Some(false)
    } else {
        None
    }
}

/// Parse a PostgreSQL CSV boolean field.
pub fn parse_bool(s: &str) -> (r: Option<bool>)
    ensures
        r == spec_bool_of(s@),
{
    let len = s.unicode_len();
    if len == 1 {
        let c = s.get_char(0);
        if c == 't' {
            proof {
                assert(s@ =~= seq!['t']);
            }
            Some(true)
        } else if c == 'f' {
            proof {
                assert(s@ =~= seq!['f']);
                assert(s@ != seq!['t']);
            }
            Some(false)
        } else {
            proof {
                assert(s@[0] != 't' && s@[0] != 'f');
            }
            None
        }
    } else {
        proof {
            assert(s@.len() != 1);
        }
        None
    }
}

} // verus!
