//! Tokenising and number parsing, as `str::split_whitespace`,
//! `str::split_once`, `str::trim_matches` and `u32::from_str` do them.

use vstd::prelude::*;
use crate::text::{chars_of, char_is_whitespace, is_whitespace, string_from_range};

verus! {

/// The white-space separated words of `s` (`str::split_whitespace`).
pub open spec fn split_ws(s: Seq<char>) -> Seq<Seq<char>>
    decreases s.len(),
{
    if s.len() == 0 {
        seq![]
    } else if is_whitespace(s.last()) {
        split_ws(s.drop_last())
    } else {
        let init = s.drop_last();
        let words = split_ws(init);
        if init.len() == 0 || is_whitespace(init.last()) {
            words.push(seq![s.last()])
        } else {
            words.update(words.len() - 1, words.last().push(s.last()))
        }
    }
}

proof fn lemma_split_ws_nonempty(s: Seq<char>)
    requires
        s.len() > 0,
        !is_whitespace(s.last()),
    ensures
        split_ws(s).len() > 0,
    decreases s.len(),
{
    let init = s.drop_last();
    if !(init.len() == 0 || is_whitespace(init.last())) {
        lemma_split_ws_nonempty(init);
    }
}

/// The words of `s`, split at white space.
pub fn split_whitespace(s: &str) -> (words: Vec<Vec<char>>)
    ensures
        words@.map_values(|w: Vec<char>| w@) == split_ws(s@),
{
    let chars = chars_of(s);
    let mut words: Vec<Vec<char>> = Vec::new();
    let mut i: usize = 0;
    while i < chars.len()
        invariant
            chars@ == s@,
            i <= chars.len(),
            words@.map_values(|w: Vec<char>| w@) == split_ws(chars@.take(i as int)),
        decreases chars.len() - i,
    {
        let c = chars[i];
        let ghost prefix = chars@.take(i as int);
        let ghost next = chars@.take(i + 1);
        assert(next.drop_last() == prefix);
        assert(next.last() == c);
        if char_is_whitespace(c) {
        } else if i == 0 || char_is_whitespace(chars[i - 1]) {
            if i > 0 {
                assert(prefix.last() == chars@[i - 1]);
            }
            let mut w: Vec<char> = Vec::new();
            w.push(c);
            words.push(w);
            assert(words@.map_values(|w: Vec<char>| w@) =~= split_ws(prefix).push(seq![c]));
        } else {
            assert(prefix.last() == chars@[i - 1]);
            proof {
                lemma_split_ws_nonempty(prefix);
            }
            let last = words.len() - 1;
            let mut w = words[last].clone();
            w.push(c);
            words.set(last, w);
            assert(words@.map_values(|w: Vec<char>| w@) =~= split_ws(prefix).update(
                split_ws(prefix).len() - 1,
                split_ws(prefix).last().push(c),
            ));
        }
        i = i + 1;
    }
    assert(chars@.take(chars.len() as int) == chars@);
    words
}

/// Whether `c` is an ASCII digit.
pub open spec fn is_digit(c: char) -> bool {
    '0' <= c && c <= '9'
}

/// The value of a string of decimal digits.
pub open spec fn digits_value(s: Seq<char>) -> nat
    decreases s.len(),
{
    if s.len() == 0 {
        0
    } else {
        digits_value(s.drop_last()) * 10 + ((s.last() as u32) - 48) as nat
    }
}

/// `s` without one leading `+`.
pub open spec fn unsigned_digits(s: Seq<char>) -> Seq<char> {
    if s.len() > 0 && s[0] == '+' {
        s.drop_first()
    } else {
        s
    }
}

/// Whether every character of `d` is a decimal digit.
pub open spec fn all_digits(d: Seq<char>) -> bool {
    forall|i: int| 0 <= i < d.len() ==> is_digit(#[trigger] d[i])
}

/// The number that `u32::from_str` reads from `s`: an optional `+` and
/// one or more decimal digits whose value fits in a `u32`.
#[verifier::opaque]
pub open spec fn parse_u32_spec(s: Seq<char>) -> Option<u32> {
    let d = unsigned_digits(s);
    if d.len() > 0 && all_digits(d) && digits_value(d) <= u32::MAX {
        Some(digits_value(d) as u32)
    } else {
        None
    }
}

proof fn lemma_digits_value_grows(s: Seq<char>, k: int)
    requires
        0 <= k <= s.len(),
        forall|i: int| 0 <= i < s.len() ==> is_digit(#[trigger] s[i]),
    ensures
        digits_value(s.take(k)) <= digits_value(s),
    decreases s.len() - k,
{
    if k < s.len() {
        lemma_digits_value_grows(s, k + 1);
        assert(s.take(k + 1).drop_last() == s.take(k));
    } else {
        assert(s.take(k) == s);
    }
}

/// Reads an unsigned 32-bit number from the characters `s[from..to]`.
pub fn parse_u32(s: &Vec<char>, from: usize, to: usize) -> (r: Option<u32>)
    requires
        from <= to <= s.len(),
    ensures
        r == parse_u32_spec(s@.subrange(from as int, to as int)),
{
    reveal(parse_u32_spec);
    let ghost whole = s@.subrange(from as int, to as int);
    let mut start = from;
    if start < to && s[start] == '+' {
        start = start + 1;
    }
    let ghost d = s@.subrange(start as int, to as int);
    assert(d == unsigned_digits(whole));
    if start == to {
        return None;
    }
    let mut value: u64 = 0;
    let mut i = start;
    while i < to
        invariant
            from <= start <= i <= to <= s.len(),
            d == s@.subrange(start as int, to as int),
            whole == s@.subrange(from as int, to as int),
            d == unsigned_digits(whole),
            d.len() > 0,
            forall|k: int| start <= k < i ==> is_digit(#[trigger] s@[k]),
            value == digits_value(s@.subrange(start as int, i as int)),
            value <= u32::MAX,
        decreases to - i,
    {
        let c = s[i];
        if !('0' <= c && c <= '9') {
            assert(!is_digit(d[i - start]));
            assert(!all_digits(d));
            reveal(parse_u32_spec);
            assert(parse_u32_spec(whole) is None);
            return None;
        }
        let digit: u64 = ((c as u32) - 48) as u64;
        assert(s@.subrange(start as int, i + 1).drop_last() == s@.subrange(start as int, i as int));
        let next = value * 10 + digit;
        assert(s@.subrange(start as int, i + 1).last() == c);
        assert(digits_value(s@.subrange(start as int, i + 1)) == next);
        if next > 0xFFFF_FFFF {
            proof {
                if all_digits(d) {
                    lemma_digits_value_grows(d, i + 1 - start);
                    assert(d.take(i + 1 - start) == s@.subrange(start as int, i + 1));
                    assert(digits_value(d) > u32::MAX);
                }
                reveal(parse_u32_spec);
                assert(parse_u32_spec(whole) is None);
            }
            return None;
        }
        value = next;
        i = i + 1;
    }
    assert(s@.subrange(start as int, to as int) == d);
    Some(value as u32)
}

/// The position of the first `/` in `s`, if any (`str::split_once('/')`).
pub open spec fn first_slash(s: Seq<char>) -> Option<int> {
    if s.contains('/') {
        Some(s.index_of_first('/')->0)
    } else {
        None
    }
}

/// `s` without the non-digit characters at either end
/// (`str::trim_matches(|c| !c.is_ascii_digit())`).
#[verifier::opaque]
pub open spec fn trim_non_digits(s: Seq<char>) -> Seq<char> {
    if exists|i: int| 0 <= i < s.len() && is_digit(#[trigger] s[i]) {
        let a = choose|a: int|
            0 <= a < s.len() && is_digit(s[a]) && forall|k: int| 0 <= k < a ==> !is_digit(#[trigger] s[k]);
        let b = choose|b: int|
            0 <= b < s.len() && is_digit(s[b]) && forall|k: int| b < k < s.len() ==> !is_digit(#[trigger] s[k]);
        s.subrange(a, b + 1)
    } else {
        seq![]
    }
}

/// The bounds `[a, b)` of `s[from..to]` without non-digit characters at
/// either end.
pub fn trim_non_digit_bounds(s: &Vec<char>, from: usize, to: usize) -> (r: (usize, usize))
    requires
        from <= to <= s.len(),
    ensures
        from <= r.0 <= r.1 <= to,
        s@.subrange(r.0 as int, r.1 as int) == trim_non_digits(s@.subrange(from as int, to as int)),
{
    reveal(trim_non_digits);
    let ghost t = s@.subrange(from as int, to as int);
    let mut a = from;
    while a < to && !('0' <= s[a] && s[a] <= '9')
        invariant
            from <= a <= to <= s.len(),
            forall|k: int| from <= k < a ==> !is_digit(#[trigger] s@[k]),
        decreases to - a,
    {
        a = a + 1;
    }
    if a == to {
        assert forall|i: int| 0 <= i < t.len() implies !is_digit(#[trigger] t[i]) by {
            assert(t[i] == s@[from + i]);
        }
        return (from, from);
    }
    let mut b = to;
    while b > a && !('0' <= s[b - 1] && s[b - 1] <= '9')
        invariant
            a < to,
            is_digit(s@[a as int]),
            a <= b <= to <= s.len(),
            forall|k: int| b <= k < to ==> !is_digit(#[trigger] s@[k]),
        decreases b,
    {
        b = b - 1;
    }
    proof {
        assert(is_digit(t[a - from]));
        let ca = choose|x: int|
            0 <= x < t.len() && is_digit(t[x]) && forall|k: int| 0 <= k < x ==> !is_digit(#[trigger] t[k]);
        assert(0 <= a - from < t.len() && is_digit(t[a - from]) && forall|k: int|
            0 <= k < a - from ==> !is_digit(#[trigger] t[k])) by {
            assert forall|k: int| 0 <= k < a - from implies !is_digit(#[trigger] t[k]) by {
                assert(t[k] == s@[from + k]);
            }
        }
        if ca < a - from {
            assert(t[ca] == s@[from + ca]);
        } else if ca > a - from {
        }
        assert(ca == a - from);
        assert(b > a);
        assert(is_digit(t[b - 1 - from]));
        assert(0 <= b - 1 - from < t.len() && is_digit(t[b - 1 - from]) && forall|k: int|
            b - 1 - from < k < t.len() ==> !is_digit(#[trigger] t[k])) by {
            assert forall|k: int| b - 1 - from < k < t.len() implies !is_digit(#[trigger] t[k]) by {
                assert(t[k] == s@[from + k]);
            }
        }
        let cb = choose|x: int|
            0 <= x < t.len() && is_digit(t[x]) && forall|k: int| x < k < t.len() ==> !is_digit(#[trigger] t[k]);
        if cb > b - 1 - from {
            assert(t[cb] == s@[from + cb]);
        } else if cb < b - 1 - from {
        }
        assert(cb == b - 1 - from);
        assert(t.subrange(ca, cb + 1) =~= s@.subrange(a as int, b as int));
    }
    (a, b)
}

} // verus!
