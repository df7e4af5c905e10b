//! Operations on text that the rest of the library needs: comparing,
//! trimming and replacing, each stated over the text's sequence of
//! characters.

use vstd::prelude::*;
use vstd::string::StrSliceExecFns;
use vstd::string::StringExecFns;

verus! {

/// Whether a character has the Unicode property White_Space.
pub open spec fn is_whitespace(c: char) -> bool {
    let v = c as u32;
    ||| 0x09 <= v <= 0x0D
    ||| v == 0x20
    ||| v == 0x85
    ||| v == 0xA0
    ||| v == 0x1680
    ||| 0x2000 <= v <= 0x200A
    ||| v == 0x2028
    ||| v == 0x2029
    ||| v == 0x202F
    ||| v == 0x205F
    ||| v == 0x3000
}

/// A text without its leading whitespace.
pub open spec fn trim_start(s: Seq<char>) -> Seq<char>
    decreases s.len(),
{
    if s.len() > 0 && is_whitespace(s.first()) {
        trim_start(s.drop_first())
    } else {
        s
    }
}

/// A text without its trailing whitespace.
pub open spec fn trim_end(s: Seq<char>) -> Seq<char>
    decreases s.len(),
{
    if s.len() > 0 && is_whitespace(s.last()) {
        trim_end(s.drop_last())
    } else {
        s
    }
}

/// A text without the whitespace that surrounds it.
pub open spec fn trimmed(s: Seq<char>) -> Seq<char> {
    trim_end(trim_start(s))
}

/// A text in which each occurrence of a pattern, found from left to right
/// without overlap, is replaced. An empty pattern occurs nowhere.
pub open spec fn replaced(s: Seq<char>, from: Seq<char>, to: Seq<char>) -> Seq<char>
    decreases s.len(),
{
    if from.len() == 0 || s.len() < from.len() {
        s
    } else if from.is_prefix_of(s) {
        to + replaced(s.skip(from.len() as int), from, to)
    } else {
        s.take(1) + replaced(s.skip(1), from, to)
    }
}

/// Whether a character is whitespace.
pub fn char_is_whitespace(c: char) -> (b: bool)
    ensures
        b == is_whitespace(c),
{
    let v: u32 = c as u32;
    (0x09 <= v && v <= 0x0D) || v == 0x20 || v == 0x85 || v == 0xA0 || v == 0x1680 || (0x2000 <= v
        && v <= 0x200A) || v == 0x2028 || v == 0x2029 || v == 0x202F || v == 0x205F || v == 0x3000
}

/// Whether `pattern` occurs in `s` at character position `at`.
pub open spec fn occurs_at(s: Seq<char>, at: int, pattern: Seq<char>) -> bool {
    0 <= at && at + pattern.len() <= s.len() && s.subrange(at, at + pattern.len()) == pattern
}

/// Whether `pattern` stands in `s` at character position `at`.
pub fn matches_at(s: &str, at: usize, pattern: &str) -> (b: bool)
    ensures
        b == occurs_at(s@, at as int, pattern@),
{
    let n: usize = s.unicode_len();
    let m: usize = pattern.unicode_len();
    if at > n || m > n - at {
        return false;
    }
    let mut j: usize = 0;
    while j < m
        invariant
            j <= m,
            m == pattern@.len(),
            at + m <= n,
            n == s@.len(),
            s@.subrange(at as int, at + j) == pattern@.subrange(0, j as int),
        decreases m - j,
    {
        if s.get_char(at + j) != pattern.get_char(j) {
            assert(s@.subrange(at as int, at + m)[j as int] != pattern@[j as int]);
            return false;
        }
        assert(s@.subrange(at as int, at + j + 1) == s@.subrange(at as int, at + j).push(
            s@[at + j],
        ));
        assert(pattern@.subrange(0, j + 1) == pattern@.subrange(0, j as int).push(
            pattern@[j as int],
        ));
        j += 1;
    }
    assert(pattern@.subrange(0, m as int) == pattern@);
    true
}

/// Whether two texts are the same sequence of characters.
pub fn str_eq(a: &str, b: &str) -> (same: bool)
    ensures
        same == (a@ == b@),
{
    let n: usize = a.unicode_len();
    if n != b.unicode_len() {
        return false;
    }
    assert(a@.subrange(0, n as int) == a@);
    matches_at(a, 0, b)
}

/// Whether a text begins with a prefix.
pub fn starts_with(s: &str, prefix: &str) -> (b: bool)
    ensures
        b == prefix@.is_prefix_of(s@),
{
    if prefix.unicode_len() > s.unicode_len() {
        return false;
    }
    matches_at(s, 0, prefix)
}

/// Whether a text ends with a suffix.
pub fn ends_with(s: &str, suffix: &str) -> (b: bool)
    ensures
        b == suffix@.is_suffix_of(s@),
{
    let n: usize = s.unicode_len();
    let m: usize = suffix.unicode_len();
    if m > n {
        return false;
    }
    matches_at(s, n - m, suffix)
}

/// The text without the whitespace that surrounds it.
pub fn trim(s: &str) -> (r: &str)
    ensures
        r@ == trimmed(s@),
{
    let n: usize = s.unicode_len();
    let mut start: usize = 0;
    assert(s@.skip(0) == s@);
    while start < n
        invariant
            start <= n,
            n == s@.len(),
            trim_start(s@) == trim_start(s@.skip(start as int)),
        ensures
            start <= n,
            trim_start(s@) == s@.skip(start as int),
        decreases n - start,
    {
        if !char_is_whitespace(s.get_char(start)) {
            break ;
        }
        assert(s@.skip(start as int).drop_first() == s@.skip(start + 1));
        start += 1;
    }
    let ghost rest = s@.skip(start as int);
    let mut end: usize = n;
    while end > start
        invariant
            start <= end <= n,
            n == s@.len(),
            rest == s@.skip(start as int),
            trim_end(rest) == trim_end(s@.subrange(start as int, end as int)),
        ensures
            start <= end <= n,
            trim_end(rest) == s@.subrange(start as int, end as int),
        decreases end - start,
    {
        if !char_is_whitespace(s.get_char(end - 1)) {
            break ;
        }
        assert(s@.subrange(start as int, end as int).drop_last() == s@.subrange(
            start as int,
            end - 1,
        ));
        end -= 1;
    }
    s.substring_char(start, end)
}

/// The text in which each occurrence of `from`, found from left to right
/// without overlap, is replaced by `to`. An empty `from` replaces nothing.
pub fn replace_all(s: &str, from: &str, to: &str) -> (out: String)
    ensures
        out@ == replaced(s@, from@, to@),
{
    let n: usize = s.unicode_len();
    let m: usize = from.unicode_len();
    if m == 0 || n < m {
        return s.to_owned();
    }
    let mut out = String::new();
    let mut i: usize = 0;
    assert(s@.skip(0) == s@);
    assert(out@ + s@ == s@);
    while i <= n - m
        invariant
            0 < m <= n,
            i <= n,
            n == s@.len(),
            m == from@.len(),
            out@ + replaced(s@.skip(i as int), from@, to@) == replaced(s@, from@, to@),
        decreases n - i,
    {
        let ghost tail = s@.skip(i as int);
        assert(tail.subrange(0, m as int) == s@.subrange(i as int, i + m));
        if matches_at(s, i, from) {
            assert(tail.skip(m as int) == s@.skip(i + m));
            out.append(to);
            i += m;
        } else {
            assert(tail.skip(1) == s@.skip(i + 1));
            assert(tail.take(1) == s@.subrange(i as int, i + 1));
            out.append(s.substring_char(i, i + 1));
            i += 1;
        }
    }
    out.append(s.substring_char(i, n));
    out
}

} // verus!
