//! Parsing of hex color strings like `"#FF0000"` into RGB values.
//!
//! The accepted form mirrors what `u32` parsing with radix 16 accepts:
//! any number of leading `#` marks is dropped, then an optional `+`
//! sign, then at least one hex digit, and the value must fit in 32
//! bits. Anything else yields no color.

use vstd::prelude::*;

verus! {

/// `c` is a hexadecimal digit in either case.
pub open spec fn is_hex_digit(c: char) -> bool {
    ||| '0' as int <= c as int <= '9' as int
    ||| 'a' as int <= c as int <= 'f' as int
    ||| 'A' as int <= c as int <= 'F' as int
}

/// The value 0..15 of a hexadecimal digit.
pub open spec fn hex_digit_val(c: char) -> int {
    if '0' as int <= c as int <= '9' as int {
        c as int - '0' as int
    } else if 'a' as int <= c as int <= 'f' as int {
        c as int - 'a' as int + 10
    } else {
        c as int - 'A' as int + 10
    }
}

/// Every character of `s` is a hexadecimal digit.
pub open spec fn all_hex(s: Seq<char>) -> bool {
    forall|i: int| 0 <= i < s.len() ==> is_hex_digit(#[trigger] s[i])
}

/// The number denoted by a hexadecimal digit string, left to right.
pub open spec fn hex_value(s: Seq<char>) -> int
    decreases s.len(),
{
    if s.len() == 0 {
        0
    } else {
        hex_value(s.drop_last()) * 16 + hex_digit_val(s.last())
    }
}

/// `s` with every leading `#` removed.
pub open spec fn strip_hashes(s: Seq<char>) -> Seq<char>
    decreases s.len(),
{
    if s.len() > 0 && s[0] == '#' {
        strip_hashes(s.subrange(1, s.len() as int))
    } else {
        s
    }
}

/// `s` with one leading `+` sign removed, if there is one.
pub open spec fn strip_sign(s: Seq<char>) -> Seq<char> {
    if s.len() > 0 && s[0] == '+' {
        s.subrange(1, s.len() as int)
    } else {
        s
    }
}

/// The color denoted by a hex color string, if it denotes one: after
/// dropping leading `#` marks and an optional `+`, a non-empty string
/// of hex digits whose value fits in 32 bits.
pub open spec fn color_from_hex(s: Seq<char>) -> Option<int> {
    let t = strip_sign(strip_hashes(s));
    if t.len() > 0 && all_hex(t) && hex_value(t) <= u32::MAX {
        Some(hex_value(t))
    } else {
        None
    }
}

/// A string of hex digits denotes a non-negative number.
proof fn lemma_hex_value_nonneg(s: Seq<char>)
    requires
        all_hex(s),
    ensures
        hex_value(s) >= 0,
    decreases s.len(),
{
    if s.len() > 0 {
        assert(is_hex_digit(s[s.len() - 1]));
        lemma_hex_value_nonneg(s.drop_last());
    }
}

/// Extending a hex digit string cannot shrink its value.
proof fn lemma_hex_value_monotone(s: Seq<char>, j: int)
    requires
        all_hex(s),
        0 <= j <= s.len(),
    ensures
        hex_value(s.subrange(0, j)) <= hex_value(s),
    decreases s.len() - j,
{
    if j == s.len() {
        assert(s.subrange(0, j) =~= s);
    } else {
        let t = s.subrange(0, j + 1);
        assert(t.drop_last() =~= s.subrange(0, j));
        assert(is_hex_digit(s[j]));
        assert(forall|i: int| 0 <= i < j ==> s.subrange(0, j)[i] == s[i]);
        lemma_hex_value_nonneg(s.subrange(0, j));
        assert(hex_value(t) == hex_value(s.subrange(0, j)) * 16 + hex_digit_val(s[j]));
        lemma_hex_value_monotone(s, j + 1);
    }
}

/// A string whose first `h` characters are `#` and whose `h`-th
/// character (if any) is not strips to its tail from `h`.
proof fn lemma_strip_hashes_scan(s: Seq<char>, h: int)
    requires
        0 <= h <= s.len(),
        forall|i: int| 0 <= i < h ==> #[trigger] s[i] == '#',
        h < s.len() ==> s[h] != '#',
    ensures
        strip_hashes(s) == s.subrange(h, s.len() as int),
    decreases s.len(),
{
    if h == 0 {
        assert(s.subrange(0, s.len() as int) =~= s);
    } else {
        assert(s[0] == '#');
        let t = s.subrange(1, s.len() as int);
        assert(forall|i: int| 0 <= i < h - 1 ==> #[trigger] t[i] == s[i + 1]);
        lemma_strip_hashes_scan(t, h - 1);
        assert(t.subrange(h - 1, t.len() as int) =~= s.subrange(h, s.len() as int));
    }
}

/// Parse a hex color string. Yields the RGB value for a well-formed
/// string (see [`color_from_hex`]), nothing otherwise.
pub fn parse_hex_color(s: &str) -> (r: Option<u32>)
    ensures
        match r {
            Some(v) => color_from_hex(s@) == Some(v as int),
            None => color_from_hex(s@) is None,
        },
{
    let len = s.unicode_len();
    let mut h: usize = 0;
    while h < len
        invariant
            h <= len == s@.len(),
            forall|i: int| 0 <= i < h ==> #[trigger] s@[i] == '#',
        ensures
            h <= len == s@.len(),
            forall|i: int| 0 <= i < h ==> #[trigger] s@[i] == '#',
            h == len || s@[h as int] != '#',
        decreases len - h,
    {
        let c = s.get_char(h);
        if c != '#' {
            break;
        }
        h = h + 1;
    }
    proof {
        lemma_strip_hashes_scan(s@, h as int);
    }
    let ghost stripped = s@.subrange(h as int, len as int);
    let mut start = h;
    if start < len {
        let c = s.get_char(start);
        if c == '+' {
            start = start + 1;
        }
    }
    let ghost body = s@.subrange(start as int, len as int);
    proof {
        if h < len && s@[h as int] == '+' {
            assert(stripped[0] == '+');
            assert(strip_sign(stripped) =~= body);
        } else {
            assert(strip_sign(stripped) =~= body);
        }
    }
    if start == len {
        return None;
    }
    let mut value: u32 = 0;
    let mut i: usize = start;
    while i < len
        invariant
            start <= i <= len == s@.len(),
            start < len,
            body == s@.subrange(start as int, len as int),
            strip_sign(strip_hashes(s@)) == body,
            all_hex(s@.subrange(start as int, i as int)),
            value as int == hex_value(s@.subrange(start as int, i as int)),
        decreases len - i,
    {
        let c = s.get_char(i);
        let u = c as u32;
        let d: u32 = if 48 <= u && u <= 57 {
            u - 48
        } else if 97 <= u && u <= 102 {
            u - 97 + 10
        } else if 65 <= u && u <= 70 {
            u - 65 + 10
        } else {
            proof {
                assert(!is_hex_digit(s@[i as int]));
                assert(body[i as int - start as int] == s@[i as int]);
                assert(!all_hex(body));
            }
            return None;
        };
        proof {
            assert(is_hex_digit(s@[i as int]));
            assert(d as int == hex_digit_val(s@[i as int]));
        }
        let limit = (u32::MAX - d) / 16;
        proof {
            let m = (u32::MAX - d) as int;
            vstd::arithmetic::div_mod::lemma_fundamental_div_mod(m, 16);
            assert(16 * (m / 16) <= m);
            assert(m - 16 * (m / 16) < 16);
        }
        if value > limit {
            proof {
                let t = s@.subrange(start as int, i as int + 1);
                assert(t.drop_last() =~= s@.subrange(start as int, i as int));
                assert(t.last() == s@[i as int]);
                assert(hex_value(t) == value * 16 + d);
                assert(hex_value(t) > u32::MAX);
                if all_hex(body) {
                    assert(t =~= body.subrange(0, i as int + 1 - start as int));
                    lemma_hex_value_monotone(body, i as int + 1 - start as int);
                }
            }
            return None;
        }
        let next = value * 16 + d;
        proof {
            let t = s@.subrange(start as int, i as int + 1);
            assert(t.drop_last() =~= s@.subrange(start as int, i as int));
            assert(t.last() == s@[i as int]);
            assert(hex_value(t) == value * 16 + d);
            assert(forall|j: int| 0 <= j < t.len() ==> is_hex_digit(#[trigger] t[j]));
        }
        value = next;
        i = i + 1;
    }
    proof {
        assert(s@.subrange(start as int, i as int) =~= body);
    }
    Some(value)
}

} // verus!
