//! The coordinate codec: conversion between column letters and column
//! numbers, and between full A1-notation cell references and 1-indexed
//! `(row, column)` pairs.
//!
//! Column letters form a bijective base-26 numeral system: the digits are
//! `A`..`Z` standing for 1..26, and there is no digit for zero, so
//! `Z` (26) is followed by `AA` (27). The mathematical model of that
//! system is given by [`letters_value`] and [`column_letters`]; the proofs
//! [`lemma_column_number_round_trip`] and [`lemma_column_letters_round_trip`]
//! show the two are mutually inverse.

use vstd::prelude::*;

use crate::error::Error;

verus! {

// ---------------------------------------------------------------------------
// Character classes and digit values
// ---------------------------------------------------------------------------
/// `c` is an uppercase Latin letter `A`..`Z`.
pub open spec fn is_upper_letter(c: char) -> bool {
    'A' as int <= c as int && c as int <= 'Z' as int
}

/// `c` is a decimal digit `0`..`9`.
pub open spec fn is_digit_char(c: char) -> bool {
    '0' as int <= c as int && c as int <= '9' as int
}

/// The value 1..26 of an uppercase letter seen as a bijective base-26 digit.
pub open spec fn letter_val(c: char) -> int {
    c as int - 'A' as int + 1
}

/// The value 0..9 of a decimal digit character.
pub open spec fn digit_val(c: char) -> int {
    c as int - '0' as int
}

/// The uppercase letter standing for the bijective base-26 digit `d + 1`,
/// for `0 <= d < 26`.
pub open spec fn letter_char(d: int) -> char {
    (('A' as int) + d) as char
}

/// The character of the decimal digit `d`, for `0 <= d < 10`.
pub open spec fn digit_char(d: int) -> char {
    (('0' as int) + d) as char
}

/// Every character of `s` is an uppercase Latin letter.
pub open spec fn all_upper(s: Seq<char>) -> bool {
    forall|i: int| 0 <= i < s.len() ==> is_upper_letter(#[trigger] s[i])
}

/// Every character of `s` is a decimal digit.
pub open spec fn all_digits(s: Seq<char>) -> bool {
    forall|i: int| 0 <= i < s.len() ==> is_digit_char(#[trigger] s[i])
}

/// `s` is a well-formed column-letter string: non-empty and uppercase only.
pub open spec fn valid_column_letters(s: Seq<char>) -> bool {
    s.len() > 0 && all_upper(s)
}

// ---------------------------------------------------------------------------
// The bijective base-26 numeral system, and decimal numerals
// ---------------------------------------------------------------------------
/// The column number denoted by a letter string, reading left to right:
/// each letter multiplies the accumulator by 26 and adds its own 1..26
/// value. (On strings with non-letter characters this has no meaning.)
pub open spec fn letters_value(s: Seq<char>) -> int
    decreases s.len(),
{
    if s.len() == 0 {
        0
    } else {
        letters_value(s.drop_last()) * 26 + letter_val(s.last())
    }
}

/// The letter string denoting column number `n` (empty for `n <= 0`):
/// the last letter is the `(n - 1) % 26` digit, the rest denote
/// `(n - 1) / 26`.
pub open spec fn column_letters(n: int) -> Seq<char>
    decreases n,
{
    if n <= 0 {
        Seq::empty()
    } else {
        column_letters((n - 1) / 26).push(letter_char((n - 1) % 26))
    }
}

/// The number denoted by a decimal digit string, reading left to right.
pub open spec fn dec_value(s: Seq<char>) -> int
    decreases s.len(),
{
    if s.len() == 0 {
        0
    } else {
        dec_value(s.drop_last()) * 10 + digit_val(s.last())
    }
}

/// The decimal digits of `n` without leading zeros (empty for `n <= 0`).
pub open spec fn dec_digits(n: int) -> Seq<char>
    decreases n,
{
    if n <= 0 {
        Seq::empty()
    } else {
        dec_digits(n / 10).push(digit_char(n % 10))
    }
}

/// The decimal rendering of a row number; row 0 renders as `"0"`.
pub open spec fn row_digits(n: int) -> Seq<char> {
    if n <= 0 {
        seq!['0']
    } else {
        dec_digits(n)
    }
}

// ---------------------------------------------------------------------------
// Facts about the numeral systems
// ---------------------------------------------------------------------------
/// A string of uppercase letters denotes a non-negative number, and a
/// non-empty one denotes a positive number.
proof fn lemma_letters_value_nonneg(s: Seq<char>)
    requires
        all_upper(s),
    ensures
        letters_value(s) >= 0,
        s.len() > 0 ==> letters_value(s) >= 1,
    decreases s.len(),
{
    if s.len() > 0 {
        assert(is_upper_letter(s[s.len() - 1]));
        lemma_letters_value_nonneg(s.drop_last());
    }
}

/// Extending an uppercase string cannot shrink its value.
proof fn lemma_letters_value_monotone(s: Seq<char>, j: int)
    requires
        all_upper(s),
        0 <= j <= s.len(),
    ensures
        letters_value(s.subrange(0, j)) <= letters_value(s),
    decreases s.len() - j,
{
    if j == s.len() {
        assert(s.subrange(0, j) =~= s);
    } else {
        let t = s.subrange(0, j + 1);
        assert(t.drop_last() =~= s.subrange(0, j));
        assert(is_upper_letter(s[j]));
        lemma_letters_value_nonneg(s.subrange(0, j));
        assert(letters_value(t) == letters_value(s.subrange(0, j)) * 26 + letter_val(s[j]));
        lemma_letters_value_monotone(s, j + 1);
    }
}

/// The letters of a positive column number form a valid column string.
proof fn lemma_column_letters_valid(n: int)
    requires
        n >= 1,
    ensures
        valid_column_letters(column_letters(n)),
    decreases n,
{
    let q = (n - 1) / 26;
    let d = (n - 1) % 26;
    assert(0 <= d < 26);
    assert(is_upper_letter(letter_char(d)));
    if q >= 1 {
        lemma_column_letters_valid(q);
    }
    let s = column_letters(n);
    assert(s == column_letters(q).push(letter_char(d)));
    assert forall|i: int| 0 <= i < s.len() implies is_upper_letter(#[trigger] s[i]) by {
        if i < s.len() - 1 {
            assert(s[i] == column_letters(q)[i]);
        } else {
            assert(s[i] == letter_char(d));
        }
    }
}

/// Converting a column number to letters and reading the letters back
/// yields the number again.
proof fn lemma_letters_value_of_column(n: int)
    requires
        n >= 0,
    ensures
        letters_value(column_letters(n)) == n,
    decreases n,
{
    if n > 0 {
        let q = (n - 1) / 26;
        let d = (n - 1) % 26;
        lemma_letters_value_of_column(q);
        let s = column_letters(n);
        assert(s == column_letters(q).push(letter_char(d)));
        assert(s.drop_last() =~= column_letters(q));
        assert(s.last() == letter_char(d));
        assert(letter_val(letter_char(d)) == d + 1);
        vstd::arithmetic::div_mod::lemma_fundamental_div_mod(n - 1, 26);
    }
}

/// Reading a valid letter string as a number and rendering that number
/// yields the original string: the bijective system has no leading-zero
/// ambiguity, so the representation is unique.
proof fn lemma_column_of_letters_value(s: Seq<char>)
    requires
        valid_column_letters(s),
    ensures
        column_letters(letters_value(s)) == s,
    decreases s.len(),
{
    let p = s.drop_last();
    let c = s.last();
    assert(is_upper_letter(c));
    let lv = letter_val(c);
    assert(1 <= lv <= 26);
    assert(forall|i: int| 0 <= i < p.len() ==> p[i] == s[i] && is_upper_letter(#[trigger] p[i]));
    lemma_letters_value_nonneg(p);
    let n = letters_value(s);
    assert(n == letters_value(p) * 26 + lv);
    lemma_letters_value_nonneg(s);
    // n - 1 = letters_value(p) * 26 + (lv - 1) with 0 <= lv - 1 < 26
    vstd::arithmetic::div_mod::lemma_fundamental_div_mod_converse(
        n - 1,
        26,
        letters_value(p),
        lv - 1,
    );
    assert((n - 1) / 26 == letters_value(p));
    assert((n - 1) % 26 == lv - 1);
    assert(letter_char(lv - 1) == c);
    if p.len() > 0 {
        lemma_column_of_letters_value(p);
        assert(column_letters(n) == p.push(c));
    } else {
        assert(letters_value(p) == 0);
        assert(column_letters(n) == column_letters(0).push(c));
        assert(column_letters(0) =~= Seq::<char>::empty());
    }
    assert(p.push(c) =~= s);
}

/// A string of decimal digits denotes a non-negative number.
proof fn lemma_dec_value_nonneg(s: Seq<char>)
    requires
        all_digits(s),
    ensures
        dec_value(s) >= 0,
    decreases s.len(),
{
    if s.len() > 0 {
        assert(is_digit_char(s[s.len() - 1]));
        lemma_dec_value_nonneg(s.drop_last());
    }
}

/// The decimal digits of a positive number are a non-empty digit string.
proof fn lemma_dec_digits_are_digits(n: int)
    requires
        n >= 1,
    ensures
        dec_digits(n).len() > 0,
        all_digits(dec_digits(n)),
    decreases n,
{
    let q = n / 10;
    let d = n % 10;
    assert(0 <= d < 10);
    assert(is_digit_char(digit_char(d)));
    if q >= 1 {
        lemma_dec_digits_are_digits(q);
    }
    let s = dec_digits(n);
    assert(s == dec_digits(q).push(digit_char(d)));
    assert forall|i: int| 0 <= i < s.len() implies is_digit_char(#[trigger] s[i]) by {
        if i < s.len() - 1 {
            assert(s[i] == dec_digits(q)[i]);
        } else {
            assert(s[i] == digit_char(d));
        }
    }
}

/// Rendering a number in decimal and reading the digits back yields the
/// number again.
proof fn lemma_dec_value_of_digits(n: int)
    requires
        n >= 0,
    ensures
        dec_value(dec_digits(n)) == n,
    decreases n,
{
    if n > 0 {
        let q = n / 10;
        let d = n % 10;
        lemma_dec_value_of_digits(q);
        let s = dec_digits(n);
        assert(s == dec_digits(q).push(digit_char(d)));
        assert(s.drop_last() =~= dec_digits(q));
        assert(s.last() == digit_char(d));
        assert(digit_val(digit_char(d)) == d);
        vstd::arithmetic::div_mod::lemma_fundamental_div_mod(n, 10);
    }
}

// ---------------------------------------------------------------------------
// Full coordinate strings
// ---------------------------------------------------------------------------
/// The number of uppercase letters at the front of `s`.
pub open spec fn leading_upper_count(s: Seq<char>) -> int
    decreases s.len(),
{
    if s.len() == 0 {
        0
    } else if is_upper_letter(s[0]) {
        1 + leading_upper_count(s.subrange(1, s.len() as int))
    } else {
        0
    }
}

/// `s` is a well-formed cell reference: a non-empty uppercase letter
/// prefix followed by a non-empty decimal digit suffix denoting a row
/// of at least 1. Anything else — other characters, letters after a
/// digit, a missing part, row zero — is rejected.
pub open spec fn valid_coord(s: Seq<char>) -> bool {
    let k = leading_upper_count(s);
    &&& 1 <= k < s.len()
    &&& all_digits(s.subrange(k, s.len() as int))
    &&& dec_value(s.subrange(k, s.len() as int)) >= 1
}

/// The row denoted by a well-formed cell reference.
pub open spec fn coord_row(s: Seq<char>) -> int {
    dec_value(s.subrange(leading_upper_count(s), s.len() as int))
}

/// The column denoted by a well-formed cell reference.
pub open spec fn coord_col(s: Seq<char>) -> int {
    letters_value(s.subrange(0, leading_upper_count(s)))
}

/// The A1-notation rendering of a `(row, column)` pair: column letters
/// followed by the decimal row number, with no separator.
pub open spec fn coord_string(row: int, col: int) -> Seq<char> {
    column_letters(col) + row_digits(row)
}

/// The leading-letter count of a string that is a run of uppercase
/// letters followed by something that is not an uppercase letter is the
/// length of the run.
proof fn lemma_leading_upper_count_concat(l: Seq<char>, d: Seq<char>)
    requires
        all_upper(l),
        d.len() > 0,
        !is_upper_letter(d[0]),
    ensures
        leading_upper_count(l + d) == l.len(),
    decreases l.len(),
{
    let s = l + d;
    if l.len() == 0 {
        assert(s =~= d);
    } else {
        assert(is_upper_letter(l[0]));
        assert(s[0] == l[0]);
        assert(s.subrange(1, s.len() as int) =~= l.subrange(1, l.len() as int) + d);
        assert(forall|i: int|
            0 <= i < l.len() - 1 ==> is_upper_letter(#[trigger] l.subrange(1, l.len() as int)[i]));
        lemma_leading_upper_count_concat(l.subrange(1, l.len() as int), d);
    }
}

/// Parsing the rendering of a valid `(row, column)` pair yields the pair
/// again.
pub proof fn lemma_coordinate_round_trip(row: int, col: int)
    requires
        1 <= row,
        1 <= col,
    ensures
        valid_coord(coord_string(row, col)),
        coord_row(coord_string(row, col)) == row,
        coord_col(coord_string(row, col)) == col,
{
    let l = column_letters(col);
    let d = dec_digits(row);
    let s = coord_string(row, col);
    assert(s == l + d);
    lemma_column_letters_valid(col);
    lemma_letters_value_of_column(col);
    lemma_dec_digits_are_digits(row);
    lemma_dec_value_of_digits(row);
    assert(is_digit_char(d[0]));
    assert(!is_upper_letter(d[0]));
    lemma_leading_upper_count_concat(l, d);
    assert(leading_upper_count(s) == l.len());
    assert(s.subrange(0, l.len() as int) =~= l);
    assert(s.subrange(l.len() as int, s.len() as int) =~= d);
}

/// Rendering the pair a valid cell reference parses to yields the same
/// text: the reference's letter prefix and digit suffix are recovered
/// exactly, up to leading zeros in the row part, which the rendering
/// never produces.
pub proof fn lemma_coordinate_render(s: Seq<char>)
    requires
        valid_coord(s),
        s[leading_upper_count(s)] != '0',
    ensures
        coord_string(coord_row(s), coord_col(s)) == s,
{
    let k = leading_upper_count(s);
    let l = s.subrange(0, k);
    let d = s.subrange(k, s.len() as int);
    lemma_leading_upper_is_upper(s);
    assert(forall|i: int| 0 <= i < l.len() ==> l[i] == s[i] && is_upper_letter(#[trigger] l[i]));
    lemma_column_of_letters_value(l);
    lemma_digits_no_leading_zero_round_trip(d);
    assert(coord_string(coord_row(s), coord_col(s)) == column_letters(letters_value(l))
        + row_digits(dec_value(d)));
    lemma_dec_value_nonneg(d);
    assert(l + d =~= s);
}

/// The leading-letter count lies between 0 and the string's length, and
/// the characters it counts are uppercase letters.
proof fn lemma_leading_upper_is_upper(s: Seq<char>)
    ensures
        0 <= leading_upper_count(s) <= s.len(),
        forall|i: int| 0 <= i < leading_upper_count(s) ==> is_upper_letter(#[trigger] s[i]),
    decreases s.len(),
{
    if s.len() > 0 && is_upper_letter(s[0]) {
        let t = s.subrange(1, s.len() as int);
        lemma_leading_upper_is_upper(t);
        assert(forall|i: int| 1 <= i < leading_upper_count(s) ==> s[i] == t[i - 1]);
    }
}

/// A digit string that does not start with `0` renders back from its
/// value unchanged.
proof fn lemma_digits_no_leading_zero_round_trip(d: Seq<char>)
    requires
        all_digits(d),
        d.len() > 0,
        d[0] != '0',
        dec_value(d) >= 1,
    ensures
        dec_digits(dec_value(d)) == d,
    decreases d.len(),
{
    let p = d.drop_last();
    let c = d.last();
    assert(is_digit_char(c));
    let dv = digit_val(c);
    assert(0 <= dv < 10);
    assert(forall|i: int| 0 <= i < p.len() ==> p[i] == d[i] && is_digit_char(#[trigger] p[i]));
    lemma_dec_value_nonneg(p);
    let n = dec_value(d);
    assert(n == dec_value(p) * 10 + dv);
    vstd::arithmetic::div_mod::lemma_fundamental_div_mod_converse(n, 10, dec_value(p), dv);
    assert(n / 10 == dec_value(p));
    assert(n % 10 == dv);
    assert(digit_char(dv) == c);
    if p.len() > 0 {
        assert(p[0] == d[0]);
        assert(is_digit_char(p[0]) && p[0] != '0');
        assert(digit_val(p[0]) >= 1);
        lemma_dec_value_positive_first(p);
        lemma_digits_no_leading_zero_round_trip(p);
        assert(dec_digits(n) == p.push(c));
    } else {
        assert(dec_value(p) == 0);
        assert(digit_val(c) >= 1) by {
            assert(c != '0');
        }
        assert(dec_digits(n) == dec_digits(0).push(c));
        assert(dec_digits(0) =~= Seq::<char>::empty());
    }
    assert(p.push(c) =~= d);
}

/// A prefix of a digit string denotes at most what the whole denotes.
proof fn lemma_dec_value_monotone(s: Seq<char>, j: int)
    requires
        all_digits(s),
        0 <= j <= s.len(),
    ensures
        dec_value(s.subrange(0, j)) <= dec_value(s),
    decreases s.len() - j,
{
    if j == s.len() {
        assert(s.subrange(0, j) =~= s);
    } else {
        let t = s.subrange(0, j + 1);
        assert(t.drop_last() =~= s.subrange(0, j));
        assert(is_digit_char(s[j]));
        lemma_dec_value_nonneg_all(s, j);
        assert(dec_value(t) == dec_value(s.subrange(0, j)) * 10 + digit_val(s[j]));
        lemma_dec_value_monotone(s, j + 1);
    }
}

/// Helper: prefixes of a digit string denote non-negative numbers.
proof fn lemma_dec_value_nonneg_all(s: Seq<char>, j: int)
    requires
        all_digits(s),
        0 <= j <= s.len(),
    ensures
        dec_value(s.subrange(0, j)) >= 0,
{
    let p = s.subrange(0, j);
    assert(forall|i: int| 0 <= i < p.len() ==> p[i] == s[i] && is_digit_char(#[trigger] p[i]));
    lemma_dec_value_nonneg(p);
}

/// A string whose first `k` characters are uppercase and whose `k`-th
/// character (if any) is not has exactly `k` leading letters.
proof fn lemma_leading_upper_count_from_scan(s: Seq<char>, k: int)
    requires
        0 <= k <= s.len(),
        forall|i: int| 0 <= i < k ==> is_upper_letter(#[trigger] s[i]),
        k < s.len() ==> !is_upper_letter(s[k]),
    ensures
        leading_upper_count(s) == k,
    decreases s.len(),
{
    if k == 0 {
        if s.len() > 0 {
            assert(!is_upper_letter(s[0]));
        }
    } else {
        assert(is_upper_letter(s[0]));
        let t = s.subrange(1, s.len() as int);
        assert(forall|i: int| 0 <= i < k - 1 ==> t[i] == s[i + 1] && is_upper_letter(#[trigger] t[i]));
        assert(k - 1 < t.len() ==> !is_upper_letter(t[k - 1]));
        lemma_leading_upper_count_from_scan(t, k - 1);
    }
}

/// A digit string whose first digit is not `0` denotes a positive number.
proof fn lemma_dec_value_positive_first(d: Seq<char>)
    requires
        all_digits(d),
        d.len() > 0,
        d[0] != '0',
    ensures
        dec_value(d) >= 1,
    decreases d.len(),
{
    let p = d.drop_last();
    assert(is_digit_char(d[d.len() - 1]));
    assert(digit_val(d.last()) >= 0);
    if p.len() > 0 {
        assert(forall|i: int| 0 <= i < p.len() ==> p[i] == d[i] && is_digit_char(#[trigger] p[i]));
        lemma_dec_value_positive_first(p);
        assert(dec_value(d) == dec_value(p) * 10 + digit_val(d.last()));
    } else {
        assert(d.last() == d[0]);
        assert(is_digit_char(d[0]) && d[0] != '0');
        assert(digit_val(d.last()) >= 1);
        assert(dec_value(d) == dec_value(p) * 10 + digit_val(d.last()));
        assert(dec_value(p) == 0);
    }
}

// ---------------------------------------------------------------------------
// Round-trip laws
// ---------------------------------------------------------------------------
/// For every column number `n >= 1`, converting to letters and back
/// yields `n` again, and the letters form a valid column string.
pub proof fn lemma_column_number_round_trip(n: int)
    requires
        n >= 1,
    ensures
        valid_column_letters(column_letters(n)),
        letters_value(column_letters(n)) == n,
{
    lemma_column_letters_valid(n);
    lemma_letters_value_of_column(n);
}

/// For every valid column-letter string `s`, reading it as a number and
/// converting back yields `s` again, and the number is at least 1.
pub proof fn lemma_column_letters_round_trip(s: Seq<char>)
    requires
        valid_column_letters(s),
    ensures
        letters_value(s) >= 1,
        column_letters(letters_value(s)) == s,
{
    lemma_letters_value_nonneg(s);
    lemma_column_of_letters_value(s);
}

// ---------------------------------------------------------------------------
// Executable conversions
// ---------------------------------------------------------------------------
/// Relies on std's `String::push`: appends one character at the end of
/// the string.
#[verifier::external_body]
pub(crate) fn push_char(s: &mut String, c: char)
    ensures
        final(s)@ == old(s)@.push(c),
{
    s.push(c);
}

/// The characters of `b`, read as ASCII codes, in reverse order.
spec fn rev_chars(b: Seq<u8>) -> Seq<char> {
    Seq::new(b.len(), |i: int| b[b.len() - 1 - i] as char)
}

/// Convert column letters to the column number they denote (1-indexed:
/// `A` is 1, `Z` is 26, `AA` is 27).
///
/// Fails with [`Error::InvalidCellReference`] when the string is empty or
/// holds any character other than an uppercase ASCII letter (lowercase is
/// rejected, not folded), and also when the denoted number does not fit
/// in `usize`.
pub fn column_index_from_string(col: &str) -> (r: Result<usize, Error>)
    ensures
        match r {
            Ok(n) => {
                &&& valid_column_letters(col@)
                &&& n as int == letters_value(col@)
            },
            Err(e) => {
                &&& (!valid_column_letters(col@) || letters_value(col@) > usize::MAX)
                &&& e matches Error::InvalidCellReference { reference } && reference@ == col@
            },
        },
{
    let len = col.unicode_len();
    if len == 0 {
        return Err(Error::invalid_cell_reference(col));
    }
    let mut result: usize = 0;
    let mut i: usize = 0;
    while i < len
        invariant
            0 < len == col@.len(),
            i <= len,
            all_upper(col@.subrange(0, i as int)),
            result as int == letters_value(col@.subrange(0, i as int)),
        decreases len - i,
    {
        let c = col.get_char(i);
        let u = c as u32;
        if u < 65 || u > 90 {
            proof {
                assert(!is_upper_letter(col@[i as int]));
            }
            return Err(Error::invalid_cell_reference(col));
        }
        let v = (u - 64) as usize;
        proof {
            assert(v as int == letter_val(col@[i as int]));
            assert(1 <= v <= 26);
        }
        let limit = (usize::MAX - v) / 26;
        proof {
            let m = (usize::MAX - v) as int;
            vstd::arithmetic::div_mod::lemma_fundamental_div_mod(m, 26);
            assert(26 * (m / 26) <= m);
            assert(m - 26 * (m / 26) < 26);
        }
        if result > limit {
            proof {
                let s = col@;
                let t = s.subrange(0, i as int + 1);
                assert(t.drop_last() =~= s.subrange(0, i as int));
                assert(t.last() == s[i as int]);
                assert(letters_value(t) == result * 26 + v);
                assert(letters_value(t) > usize::MAX);
                if valid_column_letters(s) {
                    lemma_letters_value_monotone(s, i as int + 1);
                }
            }
            return Err(Error::invalid_cell_reference(col));
        }
        let next = result * 26 + v;
        proof {
            let s = col@;
            let t = s.subrange(0, i as int + 1);
            assert(t.drop_last() =~= s.subrange(0, i as int));
            assert(t.last() == s[i as int]);
            assert(letters_value(t) == result * 26 + v);
            assert(forall|j: int| 0 <= j < t.len() ==> is_upper_letter(#[trigger] t[j]));
        }
        result = next;
        i = i + 1;
    }
    proof {
        assert(col@.subrange(0, len as int) =~= col@);
    }
    Ok(result)
}

/// Convert a column number to its column letters (1-indexed: 1 is `A`,
/// 26 is `Z`, 27 is `AA`). A number of 0 yields the empty string, which
/// callers must guard against if they mean a real column.
pub fn get_column_letter(col: usize) -> (r: String)
    ensures
        r@ == column_letters(col as int),
{
    let mut rev: Vec<u8> = Vec::new();
    let mut n: usize = col;
    while n > 0
        invariant
            column_letters(col as int) == column_letters(n as int) + rev_chars(rev@),
        decreases n,
    {
        let d = ((n - 1) % 26) as u8;
        let b = 65 + d;
        proof {
            let old_rev = rev@;
            let new_rev = rev@.push(b);
            assert(b as char == letter_char((n - 1) as int % 26));
            assert(rev_chars(new_rev) =~= seq![b as char] + rev_chars(old_rev));
            assert(column_letters(n as int) == column_letters(((n - 1) / 26) as int).push(
                b as char,
            ));
            assert(column_letters(((n - 1) / 26) as int) + rev_chars(new_rev)
                =~= column_letters(n as int) + rev_chars(old_rev));
        }
        rev.push(b);
        n = (n - 1) / 26;
    }
    let letters = rev.len();
    let mut s = String::new();
    let mut i: usize = letters;
    while i > 0
        invariant
            i <= letters == rev.len(),
            column_letters(col as int) == rev_chars(rev@),
            s@ =~= rev_chars(rev@).subrange(0, (letters - i) as int),
        decreases i,
    {
        i = i - 1;
        let b = rev[i];
        proof {
            assert(rev_chars(rev@)[(letters - 1 - i) as int] == b as char);
            assert(s@.push(b as char) =~= rev_chars(rev@).subrange(0, (letters - i) as int));
        }
        push_char(&mut s, b as char);
    }
    proof {
        assert(rev_chars(rev@).subrange(0, letters as int) =~= rev_chars(rev@));
    }
    s
}

/// Render a `(row, column)` pair as an A1-notation reference: the column
/// letters followed by the decimal row number.
///
/// No upper bound is enforced, and a row or column of 0 is not rejected:
/// column 0 contributes no letters and row 0 renders as `0`, so the
/// result is then malformed rather than an error.
pub fn coordinate_to_string(row: usize, col: usize) -> (r: String)
    ensures
        r@ == coord_string(row as int, col as int),
{
    let mut s = get_column_letter(col);
    if row == 0 {
        push_char(&mut s, '0');
        proof {
            assert(s@ =~= column_letters(col as int) + row_digits(0));
        }
        return s;
    }
    let mut rev: Vec<u8> = Vec::new();
    let mut n: usize = row;
    while n > 0
        invariant
            dec_digits(row as int) == dec_digits(n as int) + rev_chars(rev@),
        decreases n,
    {
        let d = (n % 10) as u8;
        let b = 48 + d;
        proof {
            let old_rev = rev@;
            let new_rev = rev@.push(b);
            assert(b as char == digit_char(n as int % 10));
            assert(rev_chars(new_rev) =~= seq![b as char] + rev_chars(old_rev));
            assert(dec_digits(n as int) == dec_digits((n / 10) as int).push(b as char));
            assert(dec_digits((n / 10) as int) + rev_chars(new_rev) =~= dec_digits(n as int)
                + rev_chars(old_rev));
        }
        rev.push(b);
        n = n / 10;
    }
    let digits = rev.len();
    let mut i: usize = digits;
    while i > 0
        invariant
            i <= digits == rev.len(),
            dec_digits(row as int) == rev_chars(rev@),
            s@ =~= column_letters(col as int) + rev_chars(rev@).subrange(0, (digits - i) as int),
        decreases i,
    {
        i = i - 1;
        let b = rev[i];
        proof {
            assert(rev_chars(rev@)[(digits - 1 - i) as int] == b as char);
            assert(s@.push(b as char) =~= column_letters(col as int) + rev_chars(rev@).subrange(
                0,
                (digits - i) as int,
            ));
        }
        push_char(&mut s, b as char);
    }
    proof {
        assert(rev_chars(rev@).subrange(0, digits as int) =~= rev_chars(rev@));
        assert(s@ =~= coord_string(row as int, col as int));
    }
    s
}

/// The length of the run of uppercase letters at the front of `s`.
fn scan_letters(s: &str, len: usize) -> (k: usize)
    requires
        len == s@.len(),
    ensures
        k <= len,
        leading_upper_count(s@) == k,
        forall|i: int| 0 <= i < k ==> is_upper_letter(#[trigger] s@[i]),
{
    let mut k: usize = 0;
    while k < len
        invariant
            k <= len == s@.len(),
            forall|i: int| 0 <= i < k ==> is_upper_letter(#[trigger] s@[i]),
        decreases len - k,
    {
        let c = s.get_char(k);
        let u = c as u32;
        if u < 65 || u > 90 {
            proof {
                lemma_leading_upper_count_from_scan(s@, k as int);
            }
            return k;
        }
        k = k + 1;
    }
    proof {
        lemma_leading_upper_count_from_scan(s@, k as int);
    }
    k
}

/// Parse an A1-notation cell reference like `"AA100"` into its 1-indexed
/// `(row, column)` pair.
///
/// Fails with [`Error::InvalidCellReference`] when the text is not a
/// non-empty run of uppercase letters followed by a non-empty run of
/// decimal digits, when the row is 0, and also when the row or the
/// column does not fit in `usize`. Leading zeros in the row part are
/// tolerated.
pub fn coordinate_from_string(coord: &str) -> (r: Result<(usize, usize), Error>)
    ensures
        match r {
            Ok((row, col)) => {
                &&& valid_coord(coord@)
                &&& row as int == coord_row(coord@)
                &&& col as int == coord_col(coord@)
                &&& row >= 1 && col >= 1
            },
            Err(e) => {
                &&& (!valid_coord(coord@) || coord_row(coord@) > usize::MAX || coord_col(coord@)
                    > usize::MAX)
                &&& e matches Error::InvalidCellReference { reference } && reference@ == coord@
            },
        },
{
    let len = coord.unicode_len();
    let k = scan_letters(coord, len);
    if k == 0 || k >= len {
        return Err(Error::invalid_cell_reference(coord));
    }
    let ghost suffix = coord@.subrange(k as int, len as int);
    let mut row: usize = 0;
    let mut i: usize = k;
    while i < len
        invariant
            0 < k <= i <= len == coord@.len(),
            k < len,
            leading_upper_count(coord@) == k,
            suffix == coord@.subrange(k as int, len as int),
            all_digits(coord@.subrange(k as int, i as int)),
            row as int == dec_value(coord@.subrange(k as int, i as int)),
        decreases len - i,
    {
        let c = coord.get_char(i);
        let u = c as u32;
        if u < 48 || u > 57 {
            proof {
                assert(!is_digit_char(coord@[i as int]));
                assert(suffix[i as int - k as int] == coord@[i as int]);
                assert(!all_digits(suffix));
            }
            return Err(Error::invalid_cell_reference(coord));
        }
        let d = (u - 48) as usize;
        proof {
            assert(d as int == digit_val(coord@[i as int]));
            assert(d <= 9);
        }
        let limit = (usize::MAX - d) / 10;
        proof {
            let m = (usize::MAX - d) as int;
            vstd::arithmetic::div_mod::lemma_fundamental_div_mod(m, 10);
            assert(10 * (m / 10) <= m);
            assert(m - 10 * (m / 10) < 10);
        }
        if row > limit {
            proof {
                let s = coord@;
                let t = s.subrange(k as int, i as int + 1);
                assert(t.drop_last() =~= s.subrange(k as int, i as int));
                assert(t.last() == s[i as int]);
                assert(dec_value(t) == row * 10 + d);
                assert(dec_value(t) > usize::MAX);
                if valid_coord(s) {
                    assert(t =~= suffix.subrange(0, i as int + 1 - k as int));
                    lemma_dec_value_monotone(suffix, i as int + 1 - k as int);
                }
            }
            return Err(Error::invalid_cell_reference(coord));
        }
        let next = row * 10 + d;
        proof {
            let s = coord@;
            let t = s.subrange(k as int, i as int + 1);
            assert(t.drop_last() =~= s.subrange(k as int, i as int));
            assert(t.last() == s[i as int]);
            assert(dec_value(t) == row * 10 + d);
            assert(forall|j: int| 0 <= j < t.len() ==> is_digit_char(#[trigger] t[j]));
        }
        row = next;
        i = i + 1;
    }
    proof {
        assert(coord@.subrange(k as int, i as int) =~= suffix);
    }
    if row == 0 {
        return Err(Error::invalid_cell_reference(coord));
    }
    let prefix = coord.substring_char(0, k);
    proof {
        assert(prefix@ =~= coord@.subrange(0, k as int));
        assert(forall|j: int|
            0 <= j < k ==> prefix@[j] == coord@[j] && is_upper_letter(#[trigger] prefix@[j]));
        assert(valid_column_letters(prefix@));
        lemma_letters_value_nonneg(prefix@);
    }
    match column_index_from_string(prefix) {
        Ok(col) => Ok((row, col)),
        Err(_) => Err(Error::invalid_cell_reference(coord)),
    }
}

} // verus!

