//! Character-level string operations the request handling relies on:
//! substring search and repeated prefix stripping.
use vstd::prelude::*;
use vstd::string::*;

verus! {

/// `pattern` occurs in `s` starting at position `i`.
pub open spec fn occurs_at(s: Seq<char>, pattern: Seq<char>, i: int) -> bool {
    &&& 0 <= i
    &&& i + pattern.len() <= s.len()
    &&& s.subrange(i, i + pattern.len()) == pattern
}

/// `pattern` occurs somewhere in `s` (the empty pattern occurs in every string).
pub open spec fn seq_contains(s: Seq<char>, pattern: Seq<char>) -> bool {
    exists|i: int| #[trigger] occurs_at(s, pattern, i)
}

/// `s` with every leading copy of a non-empty `pattern` removed; an empty
/// pattern leaves `s` as it is.
pub open spec fn strip_prefixes(s: Seq<char>, pattern: Seq<char>) -> Seq<char>
    decreases s.len(),
{
    if 0 < pattern.len() <= s.len() && s.subrange(0, pattern.len() as int) == pattern {
        strip_prefixes(s.subrange(pattern.len() as int, s.len() as int), pattern)
    } else {
        s
    }
}

/// The characters of `s`, one per element.
fn chars_of(s: &str) -> (chars: Vec<char>)
    ensures
        chars@ == s@,
{
    let n = s.unicode_len();
    let mut chars: Vec<char> = Vec::new();
    let mut i: usize = 0;
    while i < n
        invariant
            i <= n,
            n == s@.len(),
            chars@ == s@.subrange(0, i as int),
        decreases n - i,
    {
        chars.push(s.get_char(i));
        i += 1;
    }
    chars
}

/// Whether `pattern` occurs in `s` at position `start`.
fn matches_at(s: &Vec<char>, pattern: &Vec<char>, start: usize) -> (found: bool)
    requires
        pattern.len() <= s.len() - start,
        start <= s.len(),
    ensures
        found == occurs_at(s@, pattern@, start as int),
{
    let m = pattern.len();
    let mut j: usize = 0;
    while j < m
        invariant
            j <= m,
            m == pattern.len(),
            start + m <= s.len(),
            forall|k: int| 0 <= k < j ==> s@[start + k] == pattern@[k],
        decreases m - j,
    {
        if s[start + j] != pattern[j] {
            assert(s@.subrange(start as int, start + m)[j as int] != pattern@[j as int]);
            return false;
        }
        j += 1;
    }
    assert(s@.subrange(start as int, start + m) =~= pattern@);
    true
}

/// Whether `pattern` occurs in `s`, as `str::contains` with a string pattern.
pub fn str_contains(s: &str, pattern: &str) -> (found: bool)
    ensures
        found == seq_contains(s@, pattern@),
{
    let sv = chars_of(s);
    let pv = chars_of(pattern);
    let n = sv.len();
    let m = pv.len();
    if m > n {
        assert forall|i: int| !occurs_at(s@, pattern@, i) by {}
        return false;
    }
    if m == 0 {
        assert(s@.subrange(0, 0) =~= pattern@);
        assert(occurs_at(s@, pattern@, 0));
        return true;
    }
    let mut i: usize = 0;
    while m <= n - i
        invariant
            n == sv@.len(),
            m == pv@.len(),
            0 < m <= n,
            sv@ == s@,
            pv@ == pattern@,
            i <= n,
            forall|k: int| 0 <= k < i ==> !occurs_at(s@, pattern@, k),
        decreases n - i,
    {
        if matches_at(&sv, &pv, i) {
            return true;
        }
        i += 1;
    }
    assert forall|k: int| !occurs_at(s@, pattern@, k) by {
        if 0 <= k < i {
        }
    }
    false
}

/// One step of prefix stripping: a leading `pattern` can be removed
/// without changing the result.
proof fn lemma_strip_step(s: Seq<char>, pattern: Seq<char>, pos: int)
    requires
        0 <= pos <= s.len(),
        0 < pattern.len(),
        occurs_at(s, pattern, pos),
    ensures
        strip_prefixes(s.subrange(pos, s.len() as int), pattern) == strip_prefixes(
            s.subrange(pos + pattern.len(), s.len() as int),
            pattern,
        ),
{
    let rest = s.subrange(pos, s.len() as int);
    assert(rest.subrange(0, pattern.len() as int) =~= s.subrange(pos, pos + pattern.len()));
    assert(rest.subrange(pattern.len() as int, rest.len() as int) =~= s.subrange(
        pos + pattern.len(),
        s.len() as int,
    ));
}

/// `s` with every leading copy of `pattern` removed, as
/// `str::trim_start_matches` with a string pattern.
pub fn trim_start_matches<'a>(s: &'a str, pattern: &str) -> (rest: &'a str)
    ensures
        rest@ == strip_prefixes(s@, pattern@),
{
    let sv = chars_of(s);
    let pv = chars_of(pattern);
    let n = sv.len();
    let m = pv.len();
    if m == 0 {
        return s;
    }
    assert(s@.subrange(0, n as int) =~= s@);
    let mut pos: usize = 0;
    while m <= n - pos && matches_at(&sv, &pv, pos)
        invariant
            n == sv@.len(),
            m == pv@.len(),
            0 < m,
            sv@ == s@,
            pv@ == pattern@,
            pos <= n,
            strip_prefixes(s@, pattern@) == strip_prefixes(
                s@.subrange(pos as int, n as int),
                pattern@,
            ),
        decreases n - pos,
    {
        proof {
            lemma_strip_step(s@, pattern@, pos as int);
        }
        pos += m;
    }
    let rest = s.substring_char(pos, n);
    proof {
        let tail = s@.subrange(pos as int, n as int);
        if m <= n - pos {
            assert(tail.subrange(0, m as int) =~= s@.subrange(pos as int, pos + m));
        }
    }
    rest
}

/// Stripping is idempotent: what is left after stripping no longer starts
/// with the pattern.
pub proof fn lemma_strip_prefixes_idempotent(s: Seq<char>, pattern: Seq<char>)
    ensures
        strip_prefixes(strip_prefixes(s, pattern), pattern) == strip_prefixes(s, pattern),
    decreases s.len(),
{
    if 0 < pattern.len() <= s.len() && s.subrange(0, pattern.len() as int) == pattern {
        lemma_strip_prefixes_idempotent(s.subrange(pattern.len() as int, s.len() as int), pattern);
    }
}

/// A leading copy of the pattern makes no difference to what stripping
/// leaves.
pub proof fn lemma_strip_leading_pattern(pattern: Seq<char>, t: Seq<char>)
    requires
        0 < pattern.len(),
    ensures
        strip_prefixes(pattern + t, pattern) == strip_prefixes(t, pattern),
{
    let s = pattern + t;
    assert(s.subrange(0, pattern.len() as int) =~= pattern);
    assert(s.subrange(pattern.len() as int, s.len() as int) =~= t);
}

} // verus!
