//! String helpers for address handling: suffix tests, repeated suffix
//! stripping, and a character search, each verified against a sequence-level
//! specification.

use vstd::prelude::*;
use vstd::string::*;

verus! {

/// `s` ends with `suffix`.
pub open spec fn ends_with(s: Seq<char>, suffix: Seq<char>) -> bool {
    suffix.len() <= s.len() && s.subrange(s.len() - suffix.len(), s.len() as int) == suffix
}

/// `c` occurs somewhere in `s`.
pub open spec fn contains_char(s: Seq<char>, c: char) -> bool {
    exists|i: int| 0 <= i < s.len() && s[i] == c
}

/// The result of removing every trailing copy of `suffix` from `s`.
pub open spec fn strip_all(s: Seq<char>, suffix: Seq<char>) -> Seq<char>
    decreases s.len(),
{
    if suffix.len() > 0 && ends_with(s, suffix) {
        strip_all(s.subrange(0, s.len() - suffix.len()), suffix)
    } else {
        s
    }
}

/// The stripped string never ends with a non-empty suffix.
pub proof fn lemma_strip_all_clears_suffix(s: Seq<char>, suffix: Seq<char>)
    requires
        suffix.len() > 0,
    ensures
        !ends_with(strip_all(s, suffix), suffix),
    decreases s.len(),
{
    if ends_with(s, suffix) {
        lemma_strip_all_clears_suffix(s.subrange(0, s.len() - suffix.len()), suffix);
    }
}

/// Appending the suffix and stripping undoes itself.
pub proof fn lemma_strip_all_append(s: Seq<char>, suffix: Seq<char>)
    requires
        suffix.len() > 0,
    ensures
        strip_all(s + suffix, suffix) == strip_all(s, suffix),
{
    let t = s + suffix;
    assert(t.subrange(t.len() - suffix.len(), t.len() as int) =~= suffix);
    assert(ends_with(t, suffix));
    assert(t.subrange(0, t.len() - suffix.len()) =~= s);
}

/// Whether `s` ends with `suffix`, by character comparison.
pub fn str_ends_with(s: &str, suffix: &str) -> (r: bool)
    ensures
        r == ends_with(s@, suffix@),
{
    let n = s.unicode_len();
    let m = suffix.unicode_len();
    if m > n {
        return false;
    }
    let mut i: usize = 0;
    while i < m
        invariant
            i <= m,
            m <= n,
            n == s@.len(),
            m == suffix@.len(),
            forall|j: int| 0 <= j < i ==> s@[n - m + j] == suffix@[j],
        decreases m - i,
    {
        if s.get_char(n - m + i) != suffix.get_char(i) {
            assert(s@.subrange(n - m, n as int)[i as int] == s@[n - m + i]);
            return false;
        }
        i += 1;
    }
    assert(s@.subrange(n - m, n as int) =~= suffix@);
    true
}

/// Whether the character `c` occurs in `s`.
pub fn str_contains_char(s: &str, c: char) -> (r: bool)
    ensures
        r == contains_char(s@, c),
{
    let n = s.unicode_len();
    let mut i: usize = 0;
    while i < n
        invariant
            i <= n,
            n == s@.len(),
            forall|j: int| 0 <= j < i ==> s@[j] != c,
        decreases n - i,
    {
        if s.get_char(i) == c {
            return true;
        }
        i += 1;
    }
    false
}

/// Removes every trailing copy of `suffix` from `s`.
pub fn strip_suffix_repeated(s: &str, suffix: &str) -> (r: String)
    ensures
        r@ == strip_all(s@, suffix@),
{
    let m = suffix.unicode_len();
    let mut cur: String = s.to_owned();
    if m == 0 {
        return cur;
    }
    while str_ends_with(cur.as_str(), suffix)
        invariant
            m == suffix@.len(),
            m > 0,
            strip_all(cur@, suffix@) == strip_all(s@, suffix@),
        decreases cur@.len(),
    {
        let n = cur.as_str().unicode_len();
        let shorter = cur.as_str().substring_char(0, n - m).to_owned();
        cur = shorter;
    }
    cur
}

} // verus!
