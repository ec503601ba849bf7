//! XML escaping of text placed in SVG markup, and the file-name
//! sanitiser used for saved designs.

use vstd::prelude::*;
use crate::text::{ascii_lower, chars_of, push_char, to_ascii_lower};

verus! {

/// The markup that stands for `c` in escaped text.
pub open spec fn escape_char(c: char) -> Seq<char> {
    if c == '&' {
        seq!['&', 'a', 'm', 'p', ';']
    } else if c == '<' {
        seq!['&', 'l', 't', ';']
    } else if c == '>' {
        seq!['&', 'g', 't', ';']
    } else if c == '"' {
        seq!['&', 'q', 'u', 'o', 't', ';']
    } else if c == '\'' {
        seq!['&', 'a', 'p', 'o', 's', ';']
    } else {
        seq![c]
    }
}

/// `s` with `&`, `<`, `>`, `"` and `'` replaced by their XML entities.
pub open spec fn xml_escape_spec(s: Seq<char>) -> Seq<char>
    decreases s.len(),
{
    if s.len() == 0 {
        seq![]
    } else {
        escape_char(s[0]) + xml_escape_spec(s.drop_first())
    }
}

/// Whether `c` would change the meaning of markup if it stood unescaped.
pub open spec fn is_markup_char(c: char) -> bool {
    c == '<' || c == '>' || c == '"' || c == '\''
}

/// Decodes the five entities that [`xml_escape_spec`] writes.
pub open spec fn xml_unescape_spec(s: Seq<char>) -> Seq<char>
    decreases s.len(),
{
    if s.len() == 0 {
        seq![]
    } else if s.len() >= 5 && s.take(5) == seq!['&', 'a', 'm', 'p', ';'] {
        seq!['&'] + xml_unescape_spec(s.skip(5))
    } else if s.len() >= 4 && s.take(4) == seq!['&', 'l', 't', ';'] {
        seq!['<'] + xml_unescape_spec(s.skip(4))
    } else if s.len() >= 4 && s.take(4) == seq!['&', 'g', 't', ';'] {
        seq!['>'] + xml_unescape_spec(s.skip(4))
    } else if s.len() >= 6 && s.take(6) == seq!['&', 'q', 'u', 'o', 't', ';'] {
        seq!['"'] + xml_unescape_spec(s.skip(6))
    } else if s.len() >= 6 && s.take(6) == seq!['&', 'a', 'p', 'o', 's', ';'] {
        seq!['\''] + xml_unescape_spec(s.skip(6))
    } else {
        seq![s[0]] + xml_unescape_spec(s.drop_first())
    }
}

proof fn lemma_escape_push(s: Seq<char>, c: char)
    ensures
        xml_escape_spec(s.push(c)) == xml_escape_spec(s) + escape_char(c),
    decreases s.len(),
{
    if s.len() == 0 {
        assert(s.push(c).drop_first() == Seq::<char>::empty());
        assert(s.push(c)[0] == c);
        assert(xml_escape_spec(Seq::<char>::empty()) == Seq::<char>::empty());
        assert(xml_escape_spec(s.push(c)) == escape_char(c) + Seq::<char>::empty());
        assert(escape_char(c) + Seq::<char>::empty() == escape_char(c));
    } else {
        assert(s.push(c).drop_first() == s.drop_first().push(c));
        lemma_escape_push(s.drop_first(), c);
        assert(s.push(c)[0] == s[0]);
    }
}

proof fn lemma_escape_concat(a: Seq<char>, b: Seq<char>)
    ensures
        xml_escape_spec(a + b) == xml_escape_spec(a) + xml_escape_spec(b),
    decreases a.len(),
{
    if a.len() == 0 {
        assert(a + b == b);
    } else {
        assert((a + b).drop_first() == a.drop_first() + b);
        assert((a + b)[0] == a[0]);
        lemma_escape_concat(a.drop_first(), b);
    }
}

/// No character that could open a tag or end an attribute survives escaping.
pub proof fn lemma_escape_has_no_markup(s: Seq<char>)
    ensures
        forall|i: int|
            0 <= i < xml_escape_spec(s).len() ==> !is_markup_char(#[trigger] xml_escape_spec(s)[i]),
    decreases s.len(),
{
    if s.len() > 0 {
        lemma_escape_has_no_markup(s.drop_first());
        let e = escape_char(s[0]);
        let r = xml_escape_spec(s.drop_first());
        assert forall|i: int| 0 <= i < (e + r).len() implies !is_markup_char(#[trigger] (e + r)[i]) by {
            if i >= e.len() {
                assert((e + r)[i] == r[i - e.len()]);
            }
        }
    }
}

/// Escaping loses nothing: decoding the five entities gives the text back.
pub proof fn lemma_escape_round_trip(s: Seq<char>)
    ensures
        xml_unescape_spec(xml_escape_spec(s)) == s,
    decreases s.len(),
{
    if s.len() > 0 {
        let c = s[0];
        let rest = xml_escape_spec(s.drop_first());
        let e = escape_char(c);
        let t = e + rest;
        lemma_escape_round_trip(s.drop_first());
        assert(t.skip(e.len() as int) == rest);
        assert(t.take(e.len() as int) == e);
        if c == '&' {
            assert(t.take(5) == e);
        } else if c == '<' {
            assert(t.take(4) == e);
            if t.len() >= 5 {
                assert(t.take(5)[1] == 'l');
            }
        } else if c == '>' {
            assert(t.take(4) == e);
            if t.len() >= 5 {
                assert(t.take(5)[1] == 'g');
            }
            assert(t.take(4)[1] == 'g');
        } else if c == '"' {
            assert(t.take(6) == e);
            assert(t.take(5)[1] == 'q');
            assert(t.take(4)[1] == 'q');
        } else if c == '\'' {
            assert(t.take(6) == e);
            assert(t.take(5)[2] == 'p');
            assert(t.take(4)[1] == 'a');
            assert(t.take(6)[1] == 'a');
        } else {
            assert(t[0] == c);
            if t.len() >= 5 {
                assert(t.take(5)[0] == c);
            }
            if t.len() >= 4 {
                assert(t.take(4)[0] == c);
            }
            if t.len() >= 6 {
                assert(t.take(6)[0] == c);
            }
            assert(t.drop_first() == rest);
        }
        assert(seq![c] + s.drop_first() == s);
    }
}

/// Replaces the characters that are special in XML by their entities, so
/// that user text can stand inside SVG elements and attributes.
pub fn xml_escape(value: &str) -> (escaped: String)
    ensures
        escaped@ == xml_escape_spec(value@),
        forall|i: int| 0 <= i < escaped@.len() ==> !is_markup_char(#[trigger] escaped@[i]),
{
    let chars = chars_of(value);
    let mut out = String::new();
    for i in 0..chars.len()
        invariant
            chars@ == value@,
            out@ == xml_escape_spec(chars@.take(i as int)),
    {
        let c = chars[i];
        proof {
            assert(chars@.take(i + 1) == chars@.take(i as int).push(c));
            lemma_escape_push(chars@.take(i as int), c);
        }
        if c == '&' {
            push_char(&mut out, '&');
            push_char(&mut out, 'a');
            push_char(&mut out, 'm');
            push_char(&mut out, 'p');
            push_char(&mut out, ';');
        } else if c == '<' {
            push_char(&mut out, '&');
            push_char(&mut out, 'l');
            push_char(&mut out, 't');
            push_char(&mut out, ';');
        } else if c == '>' {
            push_char(&mut out, '&');
            push_char(&mut out, 'g');
            push_char(&mut out, 't');
            push_char(&mut out, ';');
        } else if c == '"' {
            push_char(&mut out, '&');
            push_char(&mut out, 'q');
            push_char(&mut out, 'u');
            push_char(&mut out, 'o');
            push_char(&mut out, 't');
            push_char(&mut out, ';');
        } else if c == '\'' {
            push_char(&mut out, '&');
            push_char(&mut out, 'a');
            push_char(&mut out, 'p');
            push_char(&mut out, 'o');
            push_char(&mut out, 's');
            push_char(&mut out, ';');
        } else {
            push_char(&mut out, c);
        }
        assert(out@ =~= xml_escape_spec(chars@.take(i as int)) + escape_char(c));
    }
    assert(chars@.take(chars.len() as int) == chars@);
    proof {
        lemma_escape_has_no_markup(value@);
    }
    out
}

/// Escaping a concatenation escapes each part.
pub proof fn lemma_escape_of_concat(a: Seq<char>, b: Seq<char>)
    ensures
        xml_escape_spec(a + b) == xml_escape_spec(a) + xml_escape_spec(b),
{
    lemma_escape_concat(a, b);
}

// ---------------------------------------------------------------------
// File names

/// Characters that a design file name keeps as they are.
pub open spec fn is_name_char(c: char) -> bool {
    ('a' <= c && c <= 'z') || ('A' <= c && c <= 'Z') || ('0' <= c && c <= '9') || c == '-'
        || c == '_'
}

/// `c`, or `-` when the file name cannot keep it.
pub open spec fn name_char(c: char) -> char {
    if is_name_char(c) {
        c
    } else {
        '-'
    }
}

/// `s` without leading dashes.
pub open spec fn trim_dash_start(s: Seq<char>) -> Seq<char>
    decreases s.len(),
{
    if s.len() > 0 && s[0] == '-' {
        trim_dash_start(s.drop_first())
    } else {
        s
    }
}

/// `s` without trailing dashes.
pub open spec fn trim_dash_end(s: Seq<char>) -> Seq<char>
    decreases s.len(),
{
    if s.len() > 0 && s.last() == '-' {
        trim_dash_end(s.drop_last())
    } else {
        s
    }
}

/// The name used when nothing of the requested one is left.
pub open spec fn default_design_name() -> Seq<char> {
    seq!['d', 'e', 's', 'i', 'g', 'n']
}

/// The file-name stem of a design: unsupported characters become `-`,
/// dashes at either end are dropped, letters are lower-cased, and an empty
/// result becomes `design`.
pub open spec fn sanitize_name_spec(value: Seq<char>) -> Seq<char> {
    let cleaned = trim_dash_end(trim_dash_start(value.map_values(|c: char| name_char(c)))).map_values(
        |c: char| ascii_lower(c),
    );
    if cleaned.len() == 0 {
        default_design_name()
    } else {
        cleaned
    }
}

/// Characters that a sanitised design name is made of.
pub open spec fn is_clean_name_char(c: char) -> bool {
    ('a' <= c && c <= 'z') || ('0' <= c && c <= '9') || c == '-' || c == '_'
}

/// A sanitised design name: not empty, made of `[a-z0-9_-]`, with no dash
/// at either end.
pub open spec fn is_clean_name(s: Seq<char>) -> bool {
    &&& s.len() > 0
    &&& forall|i: int| 0 <= i < s.len() ==> is_clean_name_char(#[trigger] s[i])
    &&& s[0] != '-'
    &&& s.last() != '-'
}

proof fn lemma_trim_dash_start_skip(s: Seq<char>, i: int)
    requires
        0 <= i <= s.len(),
        forall|k: int| 0 <= k < i ==> #[trigger] s[k] == '-',
    ensures
        trim_dash_start(s) == trim_dash_start(s.subrange(i, s.len() as int)),
    decreases i,
{
    if i > 0 {
        assert(s.drop_first() == s.subrange(1, s.len() as int));
        lemma_trim_dash_start_skip(s.drop_first(), i - 1);
        assert(s.drop_first().subrange(i - 1, s.drop_first().len() as int) == s.subrange(
            i,
            s.len() as int,
        ));
    } else {
        assert(s.subrange(0, s.len() as int) == s);
    }
}

proof fn lemma_trim_dash_end_skip(s: Seq<char>, j: int)
    requires
        0 <= j <= s.len(),
        forall|k: int| j <= k < s.len() ==> #[trigger] s[k] == '-',
    ensures
        trim_dash_end(s) == trim_dash_end(s.subrange(0, j)),
    decreases s.len() - j,
{
    if j < s.len() {
        assert(s.drop_last() == s.subrange(0, s.len() - 1));
        lemma_trim_dash_end_skip(s.drop_last(), j);
        assert(s.drop_last().subrange(0, j) == s.subrange(0, j));
    } else {
        assert(s.subrange(0, j) == s);
    }
}

/// `trim_dash_start` only removes a prefix of dashes.
proof fn lemma_trim_dash_start_shape(s: Seq<char>)
    ensures
        exists|i: int|
            0 <= i <= s.len() && trim_dash_start(s) == s.subrange(i, s.len() as int),
        trim_dash_start(s).len() > 0 ==> trim_dash_start(s)[0] != '-',
    decreases s.len(),
{
    if s.len() > 0 && s[0] == '-' {
        lemma_trim_dash_start_shape(s.drop_first());
        let i = choose|i: int|
            0 <= i <= s.drop_first().len() && trim_dash_start(s.drop_first())
                == s.drop_first().subrange(i, s.drop_first().len() as int);
        assert(s.drop_first().subrange(i, s.drop_first().len() as int) == s.subrange(
            i + 1,
            s.len() as int,
        ));
    } else {
        assert(s.subrange(0, s.len() as int) == s);
    }
}

/// `trim_dash_end` only removes a suffix of dashes.
proof fn lemma_trim_dash_end_shape(s: Seq<char>)
    ensures
        exists|j: int| 0 <= j <= s.len() && trim_dash_end(s) == s.subrange(0, j),
        trim_dash_end(s).len() > 0 ==> trim_dash_end(s).last() != '-',
    decreases s.len(),
{
    if s.len() > 0 && s.last() == '-' {
        lemma_trim_dash_end_shape(s.drop_last());
        let j = choose|j: int|
            0 <= j <= s.drop_last().len() && trim_dash_end(s.drop_last()) == s.drop_last().subrange(
                0,
                j,
            );
        assert(s.drop_last().subrange(0, j) == s.subrange(0, j));
    } else {
        assert(s.subrange(0, s.len() as int) == s);
    }
}

proof fn lemma_trim_dash_start_noop(s: Seq<char>)
    requires
        s.len() == 0 || s[0] != '-',
    ensures
        trim_dash_start(s) == s,
{
}

proof fn lemma_trim_dash_end_noop(s: Seq<char>)
    requires
        s.len() == 0 || s.last() != '-',
    ensures
        trim_dash_end(s) == s,
{
}

/// Every sanitised name is clean.
pub proof fn lemma_sanitized_is_clean(value: Seq<char>)
    ensures
        is_clean_name(sanitize_name_spec(value)),
{
    let mapped = value.map_values(|c: char| name_char(c));
    let a = trim_dash_start(mapped);
    let b = trim_dash_end(a);
    let cleaned = b.map_values(|c: char| ascii_lower(c));
    lemma_trim_dash_start_shape(mapped);
    lemma_trim_dash_end_shape(a);
    let i = choose|i: int| 0 <= i <= mapped.len() && a == mapped.subrange(i, mapped.len() as int);
    let j = choose|j: int| 0 <= j <= a.len() && b == a.subrange(0, j);
    assert forall|k: int| 0 <= k < b.len() implies is_name_char(#[trigger] b[k]) by {
        assert(b[k] == a[k]);
        assert(a[k] == mapped[k + i]);
    }
    if cleaned.len() > 0 {
        assert forall|k: int| 0 <= k < cleaned.len() implies is_clean_name_char(
            #[trigger] cleaned[k],
        ) by {
            assert(is_name_char(b[k]));
        }
        assert(cleaned[0] == ascii_lower(b[0]));
        assert(cleaned.last() == ascii_lower(b.last()));
    } else {
        let d = default_design_name();
        assert forall|k: int| 0 <= k < d.len() implies is_clean_name_char(#[trigger] d[k]) by {}
    }
}

/// Sanitising a clean name leaves it as it is.
pub proof fn lemma_clean_name_is_fixed(s: Seq<char>)
    requires
        is_clean_name(s),
    ensures
        sanitize_name_spec(s) == s,
{
    let mapped = s.map_values(|c: char| name_char(c));
    assert(mapped =~= s);
    lemma_trim_dash_start_noop(mapped);
    lemma_trim_dash_end_noop(mapped);
    let cleaned = mapped.map_values(|c: char| ascii_lower(c));
    assert(cleaned =~= s);
}

/// Sanitising is idempotent: a sanitised name is its own sanitised form.
pub proof fn lemma_sanitize_idempotent(value: Seq<char>)
    ensures
        sanitize_name_spec(sanitize_name_spec(value)) == sanitize_name_spec(value),
{
    lemma_sanitized_is_clean(value);
    lemma_clean_name_is_fixed(sanitize_name_spec(value));
}

/// Whether `c` is an ASCII letter, an ASCII digit or `_`: a character that
/// survives in a sanitised name.
pub open spec fn is_kept_name_char(c: char) -> bool {
    ('a' <= c && c <= 'z') || ('A' <= c && c <= 'Z') || ('0' <= c && c <= '9') || c == '_'
}

/// A requested name without an ASCII letter, digit or `_` (such as `../..`
/// or `!!!`) falls back to `design`.
pub proof fn lemma_sanitize_falls_back_to_design(value: Seq<char>)
    requires
        forall|i: int| 0 <= i < value.len() ==> !is_kept_name_char(#[trigger] value[i]),
    ensures
        sanitize_name_spec(value) == default_design_name(),
{
    let mapped = value.map_values(|c: char| name_char(c));
    assert forall|k: int| 0 <= k < mapped.len() implies #[trigger] mapped[k] == '-' by {
        assert(!is_kept_name_char(value[k]));
    }
    lemma_trim_dash_start_skip(mapped, mapped.len() as int);
    assert(mapped.subrange(mapped.len() as int, mapped.len() as int) =~= Seq::<char>::empty());
    let cleaned = trim_dash_end(trim_dash_start(mapped)).map_values(|c: char| ascii_lower(c));
    assert(cleaned.len() == 0);
}

/// Turns a requested design name into a safe file-name stem: characters
/// other than ASCII letters, digits, `-` and `_` become `-`, dashes at
/// either end are dropped, letters are lower-cased, and an empty result
/// becomes `design`.
pub fn sanitize_name(value: &str) -> (name: String)
    ensures
        name@ == sanitize_name_spec(value@),
        is_clean_name(name@),
{
    let chars = chars_of(value);
    let mut mapped: Vec<char> = Vec::new();
    for i in 0..chars.len()
        invariant
            chars@ == value@,
            mapped.len() == i,
            forall|k: int| 0 <= k < i ==> #[trigger] mapped@[k] == name_char(chars@[k]),
    {
        let c = chars[i];
        let keep = ('a' <= c && c <= 'z') || ('A' <= c && c <= 'Z') || ('0' <= c && c <= '9')
            || c == '-' || c == '_';
        if keep {
            mapped.push(c);
        } else {
            mapped.push('-');
        }
    }
    let ghost m = value@.map_values(|c: char| name_char(c));
    assert(mapped@ =~= m);
    let mut start: usize = 0;
    while start < mapped.len() && mapped[start] == '-'
        invariant
            start <= mapped.len(),
            forall|k: int| 0 <= k < start ==> #[trigger] mapped@[k] == '-',
        decreases mapped.len() - start,
    {
        start = start + 1;
    }
    let mut end: usize = mapped.len();
    while end > start && mapped[end - 1] == '-'
        invariant
            start <= end <= mapped.len(),
            forall|k: int| end <= k < mapped.len() ==> #[trigger] mapped@[k] == '-',
        decreases end,
    {
        end = end - 1;
    }
    let ghost rest = mapped@.subrange(start as int, mapped@.len() as int);
    let ghost kept = mapped@.subrange(start as int, end as int);
    proof {
        lemma_trim_dash_start_skip(mapped@, start as int);
        if rest.len() > 0 {
            assert(rest[0] == mapped@[start as int]);
        }
        lemma_trim_dash_start_noop(rest);
        let r = end - start;
        assert forall|k: int| r <= k < rest.len() implies #[trigger] rest[k] == '-' by {
            assert(rest[k] == mapped@[k + start]);
        }
        lemma_trim_dash_end_skip(rest, r as int);
        assert(rest.subrange(0, r as int) == kept);
        if kept.len() > 0 {
            assert(kept.last() == mapped@[end - 1]);
        }
        lemma_trim_dash_end_noop(kept);
    }
    let mut out = String::new();
    let mut k: usize = start;
    while k < end
        invariant
            start <= k <= end <= mapped.len(),
            out@ == mapped@.subrange(start as int, k as int).map_values(|c: char| ascii_lower(c)),
        decreases end - k,
    {
        push_char(&mut out, to_ascii_lower(mapped[k]));
        assert(mapped@.subrange(start as int, k + 1).map_values(|c: char| ascii_lower(c))
            =~= mapped@.subrange(start as int, k as int).map_values(|c: char| ascii_lower(c)).push(
            ascii_lower(mapped@[k as int]),
        ));
        k = k + 1;
    }
    proof {
        lemma_sanitized_is_clean(value@);
    }
    if start == end {
        let mut d = String::new();
        push_char(&mut d, 'd');
        push_char(&mut d, 'e');
        push_char(&mut d, 's');
        push_char(&mut d, 'i');
        push_char(&mut d, 'g');
        push_char(&mut d, 'n');
        assert(d@ =~= default_design_name());
        d
    } else {
        out
    }
}

} // verus!
