//! Text helpers over `Seq<char>`: prefixes and suffixes, repeated stripping,
//! and white space.

use vstd::prelude::*;
use vstd::string::*;

verus! {

/// Whether `pattern` occurs in `s` at char position `at`.
pub open spec fn occurs_at(s: Seq<char>, pattern: Seq<char>, at: int) -> bool {
    0 <= at && at + pattern.len() <= s.len() && s.subrange(at, at + pattern.len()) == pattern
}

/// `s` with every leading repetition of `pattern` removed.
pub open spec fn strip_leading(s: Seq<char>, pattern: Seq<char>) -> Seq<char>
    decreases s.len(),
{
    if pattern.len() > 0 && pattern.is_prefix_of(s) {
        strip_leading(s.skip(pattern.len() as int), pattern)
    } else {
        s
    }
}

/// `s` with every trailing repetition of `pattern` removed.
pub open spec fn strip_trailing(s: Seq<char>, pattern: Seq<char>) -> Seq<char>
    decreases s.len(),
{
    if pattern.len() > 0 && pattern.is_suffix_of(s) {
        strip_trailing(s.take(s.len() - pattern.len()), pattern)
    } else {
        s
    }
}

/// Whether `c` is white space: a char with Unicode's `White_Space` property.
pub open spec fn is_space(c: char) -> bool {
    let code = c as u32;
    (0x09 <= code <= 0x0D) || code == 0x20 || code == 0x85 || code == 0xA0 || code == 0x1680
        || (0x2000 <= code <= 0x200A) || code == 0x2028 || code == 0x2029 || code == 0x202F
        || code == 0x205F || code == 0x3000
}

/// `s` without the white space it begins with.
pub open spec fn without_leading_space(s: Seq<char>) -> Seq<char>
    decreases s.len(),
{
    if s.len() > 0 && is_space(s[0]) {
        without_leading_space(s.skip(1))
    } else {
        s
    }
}

/// `s` without the white space it ends with.
pub open spec fn without_trailing_space(s: Seq<char>) -> Seq<char>
    decreases s.len(),
{
    if s.len() > 0 && is_space(s.last()) {
        without_trailing_space(s.drop_last())
    } else {
        s
    }
}

/// `s` without the white space at either end.
pub open spec fn trimmed(s: Seq<char>) -> Seq<char> {
    without_trailing_space(without_leading_space(s))
}

/// Tests whether `pattern` occurs in `s` at char position `at`.
pub fn matches_at(s: &str, pattern: &str, at: usize) -> (found: bool)
    ensures
        found == occurs_at(s@, pattern@, at as int),
{
    let n: usize = s.unicode_len();
    let m: usize = pattern.unicode_len();
    if at > n || m > n - at {
        return false;
    }
    let mut i: usize = 0;
    while i < m
        invariant
            n == s@.len(),
            m == pattern@.len(),
            at + m <= n,
            i <= m,
            forall|j: int| 0 <= j < i ==> s@[at + j] == pattern@[j],
        decreases m - i,
    {
        if s.get_char(at + i) != pattern.get_char(i) {
            assert(s@.subrange(at as int, at + m)[i as int] != pattern@[i as int]);
            return false;
        }
        i = i + 1;
    }
    assert(s@.subrange(at as int, at + m) =~= pattern@);
    true
}

/// Tests whether `s` begins with `pattern`.
pub fn starts_with(s: &str, pattern: &str) -> (found: bool)
    ensures
        found == pattern@.is_prefix_of(s@),
{
    matches_at(s, pattern, 0)
}

/// Tests whether `s` ends with `pattern`.
pub fn ends_with(s: &str, pattern: &str) -> (found: bool)
    ensures
        found == pattern@.is_suffix_of(s@),
{
    let n: usize = s.unicode_len();
    let m: usize = pattern.unicode_len();
    if m > n {
        return false;
    }
    matches_at(s, pattern, n - m)
}

/// Tests whether two texts hold the same chars.
pub fn same_text(a: &str, b: &str) -> (same: bool)
    ensures
        same == (a@ == b@),
{
    let n: usize = a.unicode_len();
    let m: usize = b.unicode_len();
    if n != m {
        return false;
    }
    let found = matches_at(a, b, 0);
    assert(a@.subrange(0, n as int) =~= a@);
    found
}

/// Removes every leading repetition of `pattern` from `s`.
pub fn trim_leading(s: &str, pattern: &str) -> (rest: String)
    ensures
        rest@ == strip_leading(s@, pattern@),
{
    let n: usize = s.unicode_len();
    let m: usize = pattern.unicode_len();
    if m == 0 {
        return String::from_str(s);
    }
    let mut at: usize = 0;
    assert(s@.skip(0) =~= s@);
    while at <= n && matches_at(s, pattern, at)
        invariant
            n == s@.len(),
            m == pattern@.len(),
            m > 0,
            at <= n,
            strip_leading(s@, pattern@) == strip_leading(s@.skip(at as int), pattern@),
        decreases n - at,
    {
        proof {
            let here = s@.skip(at as int);
            assert(here.subrange(0, m as int) =~= s@.subrange(at as int, at + m));
            assert(here.skip(m as int) =~= s@.skip(at + m));
        }
        at = at + m;
    }
    proof {
        let here = s@.skip(at as int);
        if pattern@.is_prefix_of(here) {
            assert(here.subrange(0, m as int) =~= s@.subrange(at as int, at + m));
        }
        assert(here =~= s@.subrange(at as int, n as int));
    }
    String::from_str(s.substring_char(at, n))
}

/// Removes every trailing repetition of `pattern` from `s`.
pub fn trim_trailing(s: &str, pattern: &str) -> (rest: String)
    ensures
        rest@ == strip_trailing(s@, pattern@),
{
    let n: usize = s.unicode_len();
    let m: usize = pattern.unicode_len();
    if m == 0 {
        return String::from_str(s);
    }
    let mut end: usize = n;
    assert(s@.take(n as int) =~= s@);
    while end >= m && matches_at(s, pattern, end - m)
        invariant
            n == s@.len(),
            m == pattern@.len(),
            m > 0,
            end <= n,
            strip_trailing(s@, pattern@) == strip_trailing(s@.take(end as int), pattern@),
        decreases end,
    {
        proof {
            let here = s@.take(end as int);
            assert(here.subrange(end - m, end as int) =~= s@.subrange(end - m, end as int));
            assert(here.take(end - m) =~= s@.take(end - m));
        }
        end = end - m;
    }
    proof {
        let here = s@.take(end as int);
        if pattern@.is_suffix_of(here) {
            assert(here.subrange(end - m, end as int) =~= s@.subrange(end - m, end as int));
        }
        assert(here =~= s@.subrange(0, end as int));
    }
    String::from_str(s.substring_char(0, end))
}

fn is_space_char(c: char) -> (space: bool)
    ensures
        space == is_space(c),
{
    let code: u32 = c as u32;
    (0x09 <= code && code <= 0x0D) || code == 0x20 || code == 0x85 || code == 0xA0 || code
        == 0x1680 || (0x2000 <= code && code <= 0x200A) || code == 0x2028 || code == 0x2029
        || code == 0x202F || code == 0x205F || code == 0x3000
}

/// Removes the white space at either end of `s`.
pub fn trim(s: &str) -> (rest: String)
    ensures
        rest@ == trimmed(s@),
{
    let n: usize = s.unicode_len();
    let mut start: usize = 0;
    assert(s@.skip(0) =~= s@);
    while start < n && is_space_char(s.get_char(start))
        invariant
            n == s@.len(),
            start <= n,
            without_leading_space(s@) == without_leading_space(s@.skip(start as int)),
        decreases n - start,
    {
        assert(s@.skip(start as int).skip(1) =~= s@.skip(start + 1));
        start = start + 1;
    }
    let ghost front = s@.skip(start as int);
    assert(without_leading_space(s@) == front);
    let mut end: usize = n;
    assert(front =~= s@.subrange(start as int, n as int));
    while end > start && is_space_char(s.get_char(end - 1))
        invariant
            n == s@.len(),
            start <= end <= n,
            without_trailing_space(front) == without_trailing_space(
                s@.subrange(start as int, end as int),
            ),
        decreases end,
    {
        assert(s@.subrange(start as int, end as int).drop_last() =~= s@.subrange(
            start as int,
            end - 1,
        ));
        end = end - 1;
    }
    String::from_str(s.substring_char(start, end))
}

} // verus!
