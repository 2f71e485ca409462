//! Text helpers used by the hub's validation rules: equality, prefixes,
//! whitespace trimming, substring search and decimal parsing, each with its
//! meaning stated over the string's characters.

use vstd::prelude::*;
use vstd::string::StrSliceExecFns;

verus! {

/// Whether `c` has the Unicode `White_Space` property: the 25 code points
/// that the Unicode Character Database (PropList.txt) lists for it.
pub open spec fn unicode_white_space(c: char) -> bool {
    ||| '\u{9}' <= c <= '\u{d}'
    ||| c == ' '
    ||| c == '\u{85}'
    ||| c == '\u{a0}'
    ||| c == '\u{1680}'
    ||| '\u{2000}' <= c <= '\u{200a}'
    ||| c == '\u{2028}'
    ||| c == '\u{2029}'
    ||| c == '\u{202f}'
    ||| c == '\u{205f}'
    ||| c == '\u{3000}'
}

/// Whether `c` is whitespace, as `char::is_whitespace` answers: std
/// documents it as the `White_Space` property, and the whole of that
/// property is the short list above, so it is checked here directly.
pub(crate) fn char_is_whitespace(c: char) -> (res: bool)
    ensures
        res == unicode_white_space(c),
{
    ('\u{9}' <= c && c <= '\u{d}')
        || c == ' '
        || c == '\u{85}'
        || c == '\u{a0}'
        || c == '\u{1680}'
        || ('\u{2000}' <= c && c <= '\u{200a}')
        || c == '\u{2028}'
        || c == '\u{2029}'
        || c == '\u{202f}'
        || c == '\u{205f}'
        || c == '\u{3000}'
}

/// Equality of two strings' characters.
pub fn str_eq(a: &str, b: &str) -> (res: bool)
    ensures
        res == (a@ == b@),
{
    let n = a.unicode_len();
    if n != b.unicode_len() {
        return false;
    }
    let mut i: usize = 0;
    while i < n
        invariant
            n == a@.len(),
            n == b@.len(),
            0 <= i <= n,
            forall|j: int| 0 <= j < i ==> a@[j] == b@[j],
        decreases n - i,
    {
        if a.get_char(i) != b.get_char(i) {
            return false;
        }
        i = i + 1;
    }
    assert(a@ =~= b@);
    true
}

/// Whether `prefix` is a prefix of `s`.
pub open spec fn has_prefix(s: Seq<char>, prefix: Seq<char>) -> bool {
    prefix.len() <= s.len() && s.subrange(0, prefix.len() as int) == prefix
}

/// `str::starts_with` with a string pattern.
pub fn starts_with(s: &str, prefix: &str) -> (res: bool)
    ensures
        res == has_prefix(s@, prefix@),
{
    let n = s.unicode_len();
    let m = prefix.unicode_len();
    if m > n {
        return false;
    }
    let mut i: usize = 0;
    while i < m
        invariant
            n == s@.len(),
            m == prefix@.len(),
            m <= n,
            0 <= i <= m,
            forall|j: int| 0 <= j < i ==> s@[j] == prefix@[j],
        decreases m - i,
    {
        if s.get_char(i) != prefix.get_char(i) {
            assert(s@.subrange(0, m as int)[i as int] != prefix@[i as int]);
            return false;
        }
        i = i + 1;
    }
    assert(s@.subrange(0, m as int) =~= prefix@);
    true
}

/// Whether `needle` occurs in `s` starting at index `i`.
pub open spec fn occurs_at(s: Seq<char>, needle: Seq<char>, i: int) -> bool {
    0 <= i && i + needle.len() <= s.len() && s.subrange(i, i + needle.len()) == needle
}

/// `str::contains` with a string pattern.
pub fn contains(s: &str, needle: &str) -> (res: bool)
    ensures
        res == exists|i: int| occurs_at(s@, needle@, i),
{
    let n = s.unicode_len();
    let m = needle.unicode_len();
    if m > n {
        assert forall|i: int| !occurs_at(s@, needle@, i) by {}
        return false;
    }
    let mut i: usize = 0;
    while i <= n - m
        invariant
            n == s@.len(),
            m == needle@.len(),
            m <= n,
            0 <= i <= n - m + 1,
            forall|k: int| 0 <= k < i ==> !occurs_at(s@, needle@, k),
        decreases n - m + 1 - i,
    {
        let mut j: usize = 0;
        let mut matched = true;
        while j < m
            invariant
                n == s@.len(),
                m == needle@.len(),
                i + m <= n,
                0 <= j <= m,
                matched == (forall|t: int| 0 <= t < j ==> s@[i + t] == needle@[t]),
            decreases m - j,
        {
            if s.get_char(i + j) != needle.get_char(j) {
                matched = false;
            }
            j = j + 1;
        }
        if matched {
            assert(s@.subrange(i as int, i + m) =~= needle@);
            assert(occurs_at(s@, needle@, i as int));
            return true;
        }
        assert(!occurs_at(s@, needle@, i as int)) by {
            let t = choose|t: int| 0 <= t < m && s@[i + t] != needle@[t];
            if s@.subrange(i as int, i + m) == needle@ {
                assert(s@.subrange(i as int, i + m)[t] == s@[i + t]);
            }
        }
        i = i + 1;
    }
    assert forall|k: int| !occurs_at(s@, needle@, k) by {
        if 0 <= k < i {
        }
    }
    false
}

/// The characters left after removing leading whitespace.
pub open spec fn trim_start_spec(s: Seq<char>) -> Seq<char>
    decreases s.len(),
{
    if s.len() > 0 && unicode_white_space(s[0]) {
        trim_start_spec(s.drop_first())
    } else {
        s
    }
}

/// The characters left after removing trailing whitespace.
pub open spec fn trim_end_spec(s: Seq<char>) -> Seq<char>
    decreases s.len(),
{
    if s.len() > 0 && unicode_white_space(s.last()) {
        trim_end_spec(s.drop_last())
    } else {
        s
    }
}

/// `str::trim`: the characters left after removing leading and trailing whitespace.
pub open spec fn trim_spec(s: Seq<char>) -> Seq<char> {
    trim_end_spec(trim_start_spec(s))
}

/// Whether a string is empty or all whitespace, i.e. `s.trim().is_empty()`.
pub open spec fn is_blank_spec(s: Seq<char>) -> bool {
    trim_spec(s).len() == 0
}

proof fn lemma_trim_start_from(s: Seq<char>, i: int)
    requires
        0 <= i <= s.len(),
        forall|j: int| 0 <= j < i ==> unicode_white_space(#[trigger] s[j]),
    ensures
        trim_start_spec(s) == trim_start_spec(s.subrange(i, s.len() as int)),
    decreases i,
{
    if i > 0 {
        assert(s.drop_first().subrange(i - 1, s.drop_first().len() as int) =~= s.subrange(i, s.len() as int));
        assert forall|j: int| 0 <= j < i - 1 implies unicode_white_space(#[trigger] s.drop_first()[j]) by {
            assert(s.drop_first()[j] == s[j + 1]);
        }
        assert(unicode_white_space(s[0]));
        lemma_trim_start_from(s.drop_first(), i - 1);
    } else {
        assert(s.subrange(0, s.len() as int) =~= s);
    }
}

proof fn lemma_trim_end_upto(s: Seq<char>, e: int)
    requires
        0 <= e <= s.len(),
        forall|j: int| e <= j < s.len() ==> unicode_white_space(#[trigger] s[j]),
    ensures
        trim_end_spec(s) == trim_end_spec(s.subrange(0, e)),
    decreases s.len() - e,
{
    if e < s.len() {
        assert(unicode_white_space(s[s.len() - 1]));
        assert(s.drop_last().subrange(0, e) =~= s.subrange(0, e));
        assert forall|j: int| e <= j < s.drop_last().len() implies unicode_white_space(#[trigger] s.drop_last()[j]) by {
            assert(s.drop_last()[j] == s[j]);
        }
        lemma_trim_end_upto(s.drop_last(), e);
    } else {
        assert(s.subrange(0, s.len() as int) =~= s);
    }
}

/// `str::trim`.
pub fn trim(s: &str) -> (res: &str)
    ensures
        res@ == trim_spec(s@),
{
    let n = s.unicode_len();
    let mut start: usize = 0;
    while start < n && char_is_whitespace(s.get_char(start))
        invariant
            n == s@.len(),
            0 <= start <= n,
            forall|j: int| 0 <= j < start ==> unicode_white_space(#[trigger] s@[j]),
        decreases n - start,
    {
        start = start + 1;
    }
    proof {
        lemma_trim_start_from(s@, start as int);
    }
    let ghost rest = s@.subrange(start as int, n as int);
    assert(rest.len() == 0 || !unicode_white_space(rest[0]));
    assert(trim_start_spec(rest) == rest);
    let mut end: usize = n;
    while end > start && char_is_whitespace(s.get_char(end - 1))
        invariant
            n == s@.len(),
            0 <= start <= end <= n,
            rest == s@.subrange(start as int, n as int),
            forall|j: int| end <= j < n ==> unicode_white_space(#[trigger] s@[j]),
        decreases end - start,
    {
        end = end - 1;
    }
    proof {
        assert forall|j: int| end - start <= j < rest.len() implies unicode_white_space(#[trigger] rest[j]) by {
            assert(rest[j] == s@[start + j]);
        }
        lemma_trim_end_upto(rest, end - start);
        let kept = rest.subrange(0, end - start);
        assert(kept =~= s@.subrange(start as int, end as int));
        if kept.len() > 0 {
            assert(kept.last() == s@[end - 1]);
        }
    }
    s.substring_char(start, end)
}

/// Whether a string is empty or all whitespace.
pub fn is_blank(s: &str) -> (res: bool)
    ensures
        res == is_blank_spec(s@),
{
    trim(s).unicode_len() == 0
}

/// The characters left after removing every trailing `c`.
pub open spec fn trim_end_char_spec(s: Seq<char>, c: char) -> Seq<char>
    decreases s.len(),
{
    if s.len() > 0 && s.last() == c {
        trim_end_char_spec(s.drop_last(), c)
    } else {
        s
    }
}

/// `str::trim_end_matches` with a single character.
pub fn trim_end_char(s: &str, c: char) -> (res: &str)
    ensures
        res@ == trim_end_char_spec(s@, c),
{
    let n = s.unicode_len();
    let mut end: usize = n;
    assert(s@.subrange(0, n as int) =~= s@);
    while end > 0 && s.get_char(end - 1) == c
        invariant
            n == s@.len(),
            0 <= end <= n,
            trim_end_char_spec(s@, c) == trim_end_char_spec(s@.subrange(0, end as int), c),
        decreases end,
    {
        proof {
            let t = s@.subrange(0, end as int);
            assert(t.drop_last() =~= s@.subrange(0, end - 1));
        }
        end = end - 1;
    }
    proof {
        assert(s@.subrange(0, n as int) =~= s@);
    }
    s.substring_char(0, end)
}

/// The value of a string of ASCII decimal digits (no sign), or `None` when
/// it holds anything else or is empty.
pub open spec fn decimal_value(d: Seq<char>) -> Option<int>
    decreases d.len(),
{
    if d.len() == 0 {
        None
    } else if !('0' <= d.last() <= '9') {
        None
    } else if d.len() == 1 {
        Some(d.last() as int - 48)
    } else {
        match decimal_value(d.drop_last()) {
            Some(v) => Some(v * 10 + (d.last() as int - 48)),
            None => None,
        }
    }
}

/// `u32::from_str`: an optional leading `+`, then one or more ASCII
/// digits, with a value below 2^32.
pub open spec fn parse_u32_spec(s: Seq<char>) -> Option<u32> {
    let digits = if s.len() > 0 && s[0] == '+' { s.drop_first() } else { s };
    match decimal_value(digits) {
        Some(v) => if v <= u32::MAX { Some(v as u32) } else { None },
        None => None,
    }
}

proof fn lemma_decimal_nonneg(d: Seq<char>)
    ensures
        decimal_value(d) matches Some(v) ==> v >= 0,
    decreases d.len(),
{
    if d.len() > 1 {
        lemma_decimal_nonneg(d.drop_last());
    }
}

/// Parses a decimal `u32` as `str::parse::<u32>` does.
pub fn parse_u32(s: &str) -> (res: Option<u32>)
    ensures
        res == parse_u32_spec(s@),
{
    let n = s.unicode_len();
    let start: usize = if n > 0 && s.get_char(0) == '+' { 1 } else { 0 };
    let ghost digits = s@.subrange(start as int, n as int);
    proof {
        if start == 1 {
            assert(digits =~= s@.drop_first());
        } else {
            assert(digits =~= s@);
        }
    }
    assert(parse_u32_spec(s@) == (match decimal_value(digits) {
        Some(v) => if v <= u32::MAX { Some(v as u32) } else { None },
        None => None,
    }));
    if start == n {
        return None;
    }
    let mut value: u64 = 0;
    let mut i: usize = start;
    while i < n
        invariant
            n == s@.len(),
            start <= i <= n,
            start < n,
            digits == s@.subrange(start as int, n as int),
            value <= u32::MAX,
            i > start ==> decimal_value(s@.subrange(start as int, i as int)) == Some(value as int),
            i == start ==> value == 0,
            parse_u32_spec(s@) == (match decimal_value(digits) {
                Some(v) => if v <= u32::MAX { Some(v as u32) } else { None },
                None => None,
            }),
        decreases n - i,
    {
        let c = s.get_char(i);
        let ghost prefix = s@.subrange(start as int, i + 1);
        proof {
            assert(prefix.last() == c);
            assert(prefix.drop_last() =~= s@.subrange(start as int, i as int));
        }
        if !('0' <= c && c <= '9') {
            proof {
                assert(decimal_value(prefix) is None);
                assert(s@.subrange(start as int, n as int).subrange(0, i - start + 1) =~= prefix);
                lemma_decimal_none_extends(s@.subrange(start as int, n as int), (i - start + 1) as int);
            }
            return None;
        }
        let digit = (c as u32 - 48u32) as u64;
        let next = value * 10 + digit;
        proof {
            assert(digit as int == c as int - 48);
            if i == start {
                assert(prefix.len() == 1);
            }
            assert(decimal_value(prefix) == Some(next as int));
        }
        if next > 0xffff_ffffu64 {
            proof {
                lemma_decimal_nonneg(prefix);
                assert(s@.subrange(start as int, n as int).subrange(0, i - start + 1) =~= prefix);
                lemma_decimal_grows(s@.subrange(start as int, n as int), (i - start + 1) as int);
            }
            return None;
        }
        value = next;
        i = i + 1;
    }
    assert(s@.subrange(start as int, n as int) =~= digits);
    Some(value as u32)
}

/// Once a prefix of digits is invalid, every longer prefix is invalid.
proof fn lemma_decimal_none_extends(d: Seq<char>, k: int)
    requires
        0 < k <= d.len(),
        decimal_value(d.subrange(0, k)) is None,
    ensures
        decimal_value(d) is None,
    decreases d.len() - k,
{
    if k < d.len() {
        let p = d.subrange(0, k + 1);
        assert(p.drop_last() =~= d.subrange(0, k));
        lemma_decimal_none_extends(d, k + 1);
    } else {
        assert(d.subrange(0, k) =~= d);
    }
}

/// Every longer valid prefix of digits has a value at least as large.
proof fn lemma_decimal_grows(d: Seq<char>, k: int)
    requires
        0 < k <= d.len(),
        decimal_value(d.subrange(0, k)) matches Some(v) && v > u32::MAX,
    ensures
        decimal_value(d) is None || decimal_value(d)->0 > u32::MAX,
    decreases d.len() - k,
{
    if k < d.len() {
        let p = d.subrange(0, k + 1);
        assert(p.drop_last() =~= d.subrange(0, k));
        if decimal_value(p) is Some {
            lemma_decimal_nonneg(p.drop_last());
            lemma_decimal_grows(d, k + 1);
        } else {
            lemma_decimal_none_extends(d, k + 1);
        }
    } else {
        assert(d.subrange(0, k) =~= d);
    }
}

} // verus!
