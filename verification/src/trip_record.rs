//! Text format of the persisted trip counters.
//!
//! The record is three decimal counters — cumulative distance, cumulative
//! fuel, total fuel used, each in its accumulator unit — separated by
//! commas, with no trailing delimiter. Parsing is total: surrounding
//! whitespace is ignored, and a field that is absent or not a plain
//! decimal number within range reads as zero, so a missing or corrupt
//! record quietly falls back to zeroed counters. The same fallback meets
//! a record written in any other number format — fractional text, for
//! one — so counters kept in another unit do not carry over. The file
//! store that carries these bytes lives with the caller, which writes
//! through a temporary file and an atomic rename.

use vstd::prelude::*;
use vstd::arithmetic::div_mod::lemma_fundamental_div_mod;

use crate::context::EngineContext;
use crate::context::spec_reset;

verus! {

/// The field separator.
pub const COMMA: u8 = 44;

/// An ASCII decimal digit.
pub open spec fn spec_is_digit(b: u8) -> bool {
    48 <= b <= 57
}

/// ASCII whitespace as the record parser ignores it: space, tab,
/// line feed, carriage return.
pub open spec fn spec_is_space(b: u8) -> bool {
    b == 32 || b == 9 || b == 10 || b == 13
}

/// Canonical decimal representation of a counter, most significant
/// digit first, no leading zeroes except for zero itself.
pub open spec fn spec_decimal(n: u128) -> Seq<u8>
    decreases n,
{
    if n < 10 {
        seq![(48 + n) as u8]
    } else {
        spec_decimal((n / 10) as u128) + seq![(48 + n % 10) as u8]
    }
}

/// The numeric value of a digit string, read left to right.
pub open spec fn spec_digits_value(s: Seq<u8>) -> int
    decreases s.len(),
{
    if s.len() == 0 {
        0
    } else {
        spec_digits_value(s.drop_last()) * 10 + (s.last() - 48)
    }
}

/// Every byte of the string is a digit.
pub open spec fn spec_all_digits(s: Seq<u8>) -> bool {
    forall|i: int| 0 <= i < s.len() ==> spec_is_digit(s[i])
}

/// What one comma-separated field reads as: its decimal value when it is
/// a non-empty digit string whose value fits the counter type, else zero.
pub open spec fn spec_field_value(s: Seq<u8>) -> u128 {
    if s.len() > 0 && spec_all_digits(s) && spec_digits_value(s) <= u128::MAX {
        spec_digits_value(s) as u128
    } else {
        0
    }
}

/// The exact bytes a counter triple is written as.
pub open spec fn spec_record_bytes(distance: u128, fuel: u128, total: u128) -> Seq<u8> {
    spec_decimal(distance) + seq![COMMA] + spec_decimal(fuel) + seq![COMMA] + spec_decimal(total)
}

/// Index of the first non-space byte at or after `from`, or the length.
pub open spec fn spec_skip_spaces(s: Seq<u8>, from: int) -> int
    decreases s.len() - from,
{
    if from < 0 || from >= s.len() {
        s.len() as int
    } else if spec_is_space(s[from]) {
        spec_skip_spaces(s, from + 1)
    } else {
        from
    }
}

/// One past the last non-space byte, or zero when only spaces remain.
pub open spec fn spec_trim_end(s: Seq<u8>) -> int
    decreases s.len(),
{
    if s.len() == 0 {
        0
    } else if spec_is_space(s.last()) {
        spec_trim_end(s.drop_last())
    } else {
        s.len() as int
    }
}

/// Index of the first comma at or after `from`, or the length.
pub open spec fn spec_find_comma(s: Seq<u8>, from: int) -> int
    decreases s.len() - from,
{
    if from < 0 || from >= s.len() {
        s.len() as int
    } else if s[from] == COMMA {
        from
    } else {
        spec_find_comma(s, from + 1)
    }
}

/// What any byte buffer parses as: trim surrounding whitespace, split at
/// the first two commas, read the first three fields, each defaulting to
/// zero on its own; anything after a third comma is ignored.
pub open spec fn spec_parse_record(s: Seq<u8>) -> (u128, u128, u128) {
    let lo = spec_skip_spaces(s, 0);
    let hi = spec_trim_end(s);
    let t = if lo <= hi {
        s.subrange(lo, hi)
    } else {
        Seq::<u8>::empty()
    };
    let c1 = spec_find_comma(t, 0);
    let c2 = spec_find_comma(t, c1 + 1);
    let c3 = spec_find_comma(t, c2 + 1);
    (
        spec_field_value(t.subrange(0, c1)),
        if c1 < t.len() {
            spec_field_value(t.subrange(c1 + 1, c2))
        } else {
            0
        },
        if c2 < t.len() {
            spec_field_value(t.subrange(c2 + 1, c3))
        } else {
            0
        },
    )
}

/// Appends the decimal digits of `n` to `out`.
fn push_decimal(n: u128, out: &mut Vec<u8>)
    ensures
        final(out)@ == old(out)@ + spec_decimal(n),
    decreases n,
{
    if n < 10 {
        out.push(48 + (n as u8));
    } else {
        push_decimal(n / 10, out);
        let d: u8 = 48 + ((n % 10) as u8);
        out.push(d);
        proof {
            assert(final(out)@ =~= old(out)@ + spec_decimal(n));
        }
    }
}

/// Serializes a counter triple as the persisted record.
pub fn format_trip_record(distance: u128, fuel: u128, total: u128) -> (bytes: Vec<u8>)
    ensures
        bytes@ == spec_record_bytes(distance, fuel, total),
{
    let mut bytes: Vec<u8> = Vec::new();
    push_decimal(distance, &mut bytes);
    bytes.push(COMMA);
    push_decimal(fuel, &mut bytes);
    bytes.push(COMMA);
    push_decimal(total, &mut bytes);
    proof {
        assert(bytes@ =~= spec_record_bytes(distance, fuel, total));
    }
    bytes
}

/// The value of a digit string never drops when more digits follow:
/// every prefix values at most the whole.
proof fn lemma_digits_prefix_le(s: Seq<u8>, j: int)
    requires
        spec_all_digits(s),
        0 <= j <= s.len(),
    ensures
        0 <= spec_digits_value(s.subrange(0, j)),
        spec_digits_value(s.subrange(0, j)) <= spec_digits_value(s),
    decreases s.len() - j,
{
    lemma_digits_value_nonneg(s.subrange(0, j));
    if j == s.len() {
        assert(s.subrange(0, j) =~= s);
    } else {
        assert(s.subrange(0, j + 1).drop_last() =~= s.subrange(0, j));
        assert(s.subrange(0, j + 1).last() == s[j]);
        lemma_digits_prefix_le(s, j + 1);
    }
}

/// A digit string values at least zero.
proof fn lemma_digits_value_nonneg(s: Seq<u8>)
    requires
        spec_all_digits(s),
    ensures
        spec_digits_value(s) >= 0,
    decreases s.len(),
{
    if s.len() > 0 {
        assert(spec_all_digits(s.drop_last())) by {
            assert(forall|i: int|
                0 <= i < s.len() - 1 ==> s.drop_last()[i] == s[i] && spec_is_digit(s[i]));
        }
        lemma_digits_value_nonneg(s.drop_last());
    }
}

/// Reads one field of the record: the bytes of `s` from `start` to `end`.
fn parse_decimal_field(s: &[u8], start: usize, end: usize) -> (r: u128)
    requires
        start <= end <= s@.len(),
    ensures
        r == spec_field_value(s@.subrange(start as int, end as int)),
{
    let ghost field = s@.subrange(start as int, end as int);
    if start == end {
        return 0;
    }
    let mut acc: u128 = 0;
    let mut j: usize = start;
    while j < end
        invariant
            start <= j <= end <= s@.len(),
            field == s@.subrange(start as int, end as int),
            forall|i: int| 0 <= i < j - start ==> spec_is_digit(#[trigger] field[i]),
            acc == spec_digits_value(field.subrange(0, j - start)),
        decreases end - j,
    {
        let b = s[j];
        assert(field[j - start] == b);
        if b < 48 || b > 57 {
            assert(!spec_is_digit(field[j - start]));
            return 0;
        }
        let d: u128 = (b - 48) as u128;
        proof {
            lemma_fundamental_div_mod((u128::MAX - d) as int, 10);
            assert(field.subrange(0, j + 1 - start).drop_last() =~= field.subrange(0, j - start));
            assert(field.subrange(0, j + 1 - start).last() == field[j - start]);
        }
        if acc > (u128::MAX - d) / 10 {
            proof {
                if spec_all_digits(field) {
                    assert(spec_digits_value(field.subrange(0, j + 1 - start)) == acc * 10 + d);
                    assert(acc * 10 + d > u128::MAX);
                    lemma_digits_prefix_le(field, j + 1 - start);
                }
            }
            return 0;
        }
        acc = acc * 10 + d;
        j = j + 1;
    }
    proof {
        assert(field.subrange(0, end - start) =~= field);
        assert(spec_all_digits(field));
    }
    acc
}

/// Parses a record buffer into the three counters, exactly as
/// [`spec_parse_record`] describes; never fails.
pub fn parse_trip_record(bytes: &[u8]) -> (r: (u128, u128, u128))
    ensures
        r == spec_parse_record(bytes@),
{
    let n = bytes.len();
    let mut lo: usize = 0;
    while lo < n && (bytes[lo] == 32 || bytes[lo] == 9 || bytes[lo] == 10 || bytes[lo] == 13)
        invariant
            lo <= n,
            n == bytes@.len(),
            spec_skip_spaces(bytes@, 0) == spec_skip_spaces(bytes@, lo as int),
        decreases n - lo,
    {
        lo = lo + 1;
    }
    let mut hi: usize = n;
    proof {
        assert(bytes@.subrange(0, n as int) =~= bytes@);
    }
    while hi > 0 && (bytes[hi - 1] == 32 || bytes[hi - 1] == 9 || bytes[hi - 1] == 10 || bytes[hi
        - 1] == 13)
        invariant
            hi <= n,
            n == bytes@.len(),
            spec_trim_end(bytes@) == spec_trim_end(bytes@.subrange(0, hi as int)),
        decreases hi,
    {
        proof {
            assert(bytes@.subrange(0, hi as int).last() == bytes@[hi - 1]);
            assert(bytes@.subrange(0, hi as int).drop_last() =~= bytes@.subrange(0, hi - 1));
        }
        hi = hi - 1;
    }
    proof {
        if hi > 0 {
            assert(bytes@.subrange(0, hi as int).last() == bytes@[hi - 1]);
        }
        assert(spec_trim_end(bytes@) == hi);
    }
    if lo >= hi {
        proof {
            if lo <= hi {
                assert(bytes@.subrange(lo as int, hi as int) =~= Seq::<u8>::empty());
            }
        }
        return (0, 0, 0);
    }
    let mut t: Vec<u8> = Vec::new();
    let mut k: usize = lo;
    while k < hi
        invariant
            lo <= k <= hi <= n,
            n == bytes@.len(),
            t@ =~= bytes@.subrange(lo as int, k as int),
        decreases hi - k,
    {
        t.push(bytes[k]);
        k = k + 1;
    }
    proof {
        assert(t@ =~= bytes@.subrange(lo as int, hi as int));
    }
    let tn = t.len();
    let c1 = find_comma(&t, 0);
    let first = parse_decimal_field(t.as_slice(), 0, c1);
    if c1 >= tn {
        return (first, 0, 0);
    }
    let c2 = find_comma(&t, c1 + 1);
    let second = parse_decimal_field(t.as_slice(), c1 + 1, c2);
    if c2 >= tn {
        return (first, second, 0);
    }
    let c3 = find_comma(&t, c2 + 1);
    let third = parse_decimal_field(t.as_slice(), c2 + 1, c3);
    (first, second, third)
}

/// Index of the first comma in `t` at or after `from`, or `t.len()`.
fn find_comma(t: &Vec<u8>, from: usize) -> (r: usize)
    requires
        from <= t@.len(),
    ensures
        r == spec_find_comma(t@, from as int),
        from <= r <= t@.len(),
{
    let mut j: usize = from;
    while j < t.len() && t[j] != COMMA
        invariant
            from <= j <= t@.len(),
            spec_find_comma(t@, from as int) == spec_find_comma(t@, j as int),
        decreases t@.len() - j,
    {
        j = j + 1;
    }
    j
}

/// The decimal representation of a counter is a non-empty digit string
/// that reads back as the counter itself.
pub proof fn lemma_decimal_value(n: u128)
    ensures
        spec_decimal(n).len() >= 1,
        spec_all_digits(spec_decimal(n)),
        spec_digits_value(spec_decimal(n)) == n,
    decreases n,
{
    if n < 10 {
        let s = spec_decimal(n);
        assert(s.len() == 1);
        assert(s.last() == (48 + n) as u8);
        assert(spec_digits_value(s.drop_last()) == 0);
        assert(spec_digits_value(s) == n);
    } else {
        lemma_decimal_value(n / 10);
        let whole = spec_decimal(n);
        let prefix = spec_decimal((n / 10) as u128);
        assert(whole.drop_last() =~= prefix);
        assert(whole.last() == (48 + n % 10) as u8);
        lemma_fundamental_div_mod(n as int, 10);
        assert(spec_digits_value(whole) == spec_digits_value(prefix) * 10 + n % 10);
        assert(spec_digits_value(prefix) == n / 10);
        assert(n == 10 * ((n as int) / 10) + (n as int) % 10);
        assert(spec_digits_value(whole) == n);
        assert(forall|i: int| 0 <= i < whole.len() - 1 ==> whole[i] == prefix[i]);
        assert(spec_is_digit(whole[whole.len() - 1]));
    }
}

/// `spec_find_comma` lands on `at` when `at` holds a comma and nothing
/// before it (from `from` on) does.
proof fn lemma_find_comma_at(s: Seq<u8>, from: int, at: int)
    requires
        0 <= from <= at < s.len(),
        s[at] == COMMA,
        forall|i: int| from <= i < at ==> s[i] != COMMA,
    ensures
        spec_find_comma(s, from) == at,
    decreases at - from,
{
    if from < at {
        lemma_find_comma_at(s, from + 1, at);
    }
}

/// `spec_find_comma` runs to the end when no comma remains.
proof fn lemma_find_comma_none(s: Seq<u8>, from: int)
    requires
        0 <= from,
        forall|i: int| from <= i < s.len() ==> s[i] != COMMA,
    ensures
        spec_find_comma(s, from) == s.len(),
    decreases s.len() - from,
{
    if from < s.len() {
        lemma_find_comma_none(s, from + 1);
    }
}

/// Law: the three record fields are read independently of one another.
/// For any comma-free field contents, with nothing at the record's outer
/// edges for the trim to eat, each component of the parse is the value of
/// its own field alone — so a field that is not a plain decimal number
/// defaults to zero without disturbing its neighbours.
#[verifier::rlimit(50)]
pub proof fn lemma_fields_parse_independently(f0: Seq<u8>, f1: Seq<u8>, f2: Seq<u8>)
    requires
        forall|i: int| 0 <= i < f0.len() ==> f0[i] != COMMA,
        forall|i: int| 0 <= i < f1.len() ==> f1[i] != COMMA,
        forall|i: int| 0 <= i < f2.len() ==> f2[i] != COMMA,
        f0.len() > 0 ==> !spec_is_space(f0[0]),
        f2.len() > 0 ==> !spec_is_space(f2.last()),
    ensures
        spec_parse_record(f0 + seq![COMMA] + f1 + seq![COMMA] + f2) == (
            spec_field_value(f0),
            spec_field_value(f1),
            spec_field_value(f2),
        ),
{
    let s = f0 + seq![COMMA] + f1 + seq![COMMA] + f2;
    let c1 = f0.len() as int;
    let c2 = c1 + 1 + f1.len();
    assert(s.len() == f0.len() + f1.len() + f2.len() + 2);
    assert(s.subrange(0, c1) =~= f0);
    assert(s[c1] == COMMA);
    assert(s.subrange(c1 + 1, c2) =~= f1);
    assert(s[c2] == COMMA);
    assert(s.subrange(c2 + 1, s.len() as int) =~= f2);

    if f0.len() > 0 {
        assert(s[0] == f0[0]);
    } else {
        assert(s[0] == COMMA);
    }
    assert(!spec_is_space(s[0]));
    assert(spec_skip_spaces(s, 0) == 0);
    if f2.len() > 0 {
        assert(s.last() == f2.last());
    } else {
        assert(s.last() == COMMA);
    }
    assert(!spec_is_space(s.last()));
    assert(spec_trim_end(s) == s.len());
    assert(s.subrange(0, s.len() as int) =~= s);

    assert forall|i: int| 0 <= i < c1 implies s[i] != COMMA by {
        assert(s[i] == s.subrange(0, c1)[i]);
    }
    lemma_find_comma_at(s, 0, c1);
    assert forall|i: int| c1 + 1 <= i < c2 implies s[i] != COMMA by {
        assert(s[i] == s.subrange(c1 + 1, c2)[i - (c1 + 1)]);
    }
    lemma_find_comma_at(s, c1 + 1, c2);
    assert forall|i: int| c2 + 1 <= i < s.len() implies s[i] != COMMA by {
        assert(s[i] == s.subrange(c2 + 1, s.len() as int)[i - (c2 + 1)]);
    }
    lemma_find_comma_none(s, c2 + 1);

    assert(spec_find_comma(s, 0) == c1);
    assert(spec_find_comma(s, c1 + 1) == c2);
    assert(spec_find_comma(s, c2 + 1) == s.len());
}

/// Law: a record is written back exactly as it will be read: formatting
/// any counter triple and parsing the bytes again yields that triple.
pub proof fn lemma_record_round_trip(distance: u128, fuel: u128, total: u128)
    ensures
        spec_parse_record(spec_record_bytes(distance, fuel, total)) == (distance, fuel, total),
{
    lemma_decimal_value(distance);
    lemma_decimal_value(fuel);
    lemma_decimal_value(total);
    let dd = spec_decimal(distance);
    let df = spec_decimal(fuel);
    let dt = spec_decimal(total);
    assert forall|i: int| 0 <= i < dd.len() implies dd[i] != COMMA by {
        assert(spec_is_digit(dd[i]));
    }
    assert forall|i: int| 0 <= i < df.len() implies df[i] != COMMA by {
        assert(spec_is_digit(df[i]));
    }
    assert forall|i: int| 0 <= i < dt.len() implies dt[i] != COMMA by {
        assert(spec_is_digit(dt[i]));
    }
    assert(spec_is_digit(dd[0]) && !spec_is_space(dd[0]));
    assert(spec_is_digit(dt.last()) && !spec_is_space(dt.last()));
    lemma_fields_parse_independently(dd, df, dt);
    assert(spec_field_value(dd) == distance);
    assert(spec_field_value(df) == fuel);
    assert(spec_field_value(dt) == total);
}

/// Law: the record written immediately after a trip reset reads back as
/// the zeroed state, whatever the counters held before.
pub proof fn lemma_reset_record_reloads_zeroes(pre: EngineContext)
    ensures
        spec_parse_record(
            spec_record_bytes(
                spec_reset(pre).cumulative_distance,
                spec_reset(pre).cumulative_fuel,
                spec_reset(pre).total_fuel_used,
            ),
        ) == (0u128, 0u128, 0u128),
{
    lemma_record_round_trip(0, 0, 0);
}

} // verus!
