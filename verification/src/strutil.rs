//! Small verified string helpers used across the library.

use vstd::prelude::*;

verus! {

/// Character-for-character equality of two string slices.
pub fn str_eq(a: &str, b: &str) -> (r: bool)
    ensures
        r == (a@ == b@),
{
    let a_owned = String::from_str(a);
    let b_owned = String::from_str(b);
    a_owned == b_owned
}

/// Position of the last occurrence of `c` in `s`, or `-1`.
pub open spec fn last_index_of(s: Seq<char>, c: char) -> int
    decreases s.len(),
{
    if s.len() == 0 {
        -1
    } else if s[s.len() - 1] == c {
        s.len() - 1
    } else {
        last_index_of(s.drop_last(), c)
    }
}

pub proof fn lemma_last_index_of(s: Seq<char>, c: char)
    ensures
        -1 <= last_index_of(s, c) < s.len(),
        last_index_of(s, c) >= 0 ==> s[last_index_of(s, c)] == c,
        forall|j: int| last_index_of(s, c) < j < s.len() ==> s[j] != c,
    decreases s.len(),
{
    if s.len() == 0 {
    } else if s[s.len() - 1] == c {
    } else {
        lemma_last_index_of(s.drop_last(), c);
        assert forall|j: int| last_index_of(s, c) < j < s.len() implies s[j] != c by {
            if j < s.len() - 1 {
                assert(s.drop_last()[j] == s[j]);
            }
        }
        if last_index_of(s, c) >= 0 {
            assert(s.drop_last()[last_index_of(s, c)] == s[last_index_of(s, c)]);
        }
    }
}

/// The characters after the last namespace separator: `"uro:Attr"` gives
/// `"Attr"`, a name without a colon is kept whole.
pub open spec fn short_name(s: Seq<char>) -> Seq<char> {
    s.subrange(last_index_of(s, ':') + 1, s.len() as int)
}

/// Strip a namespace-style prefix up to the last `:`.
pub fn table_short_name(s: &str) -> (r: String)
    ensures
        r@ == short_name(s@),
{
    proof {
        lemma_last_index_of(s@, ':');
    }
    let n = s.unicode_len();
    let mut i: usize = n;
    while i > 0
        invariant
            i <= n,
            n == s@.len(),
            forall|j: int| i <= j < s@.len() ==> s@[j] != ':',
        decreases i,
    {
        if s.get_char(i - 1) == ':' {
            proof {
                lemma_last_index_at(s@, i - 1 as int);
            }
            let tail = s.substring_char(i, n);
            return String::from_str(tail);
        }
        i -= 1;
    }
    proof {
        assert(last_index_of(s@, ':') == -1);
        assert(s@.subrange(0, s@.len() as int) =~= s@);
    }
    String::from_str(s)
}

/// `last_index_of` finds exactly the last matching position.
pub proof fn lemma_last_index_at(s: Seq<char>, i: int)
    requires
        0 <= i < s.len(),
        s[i] == ':',
        forall|j: int| i < j < s.len() ==> s[j] != ':',
    ensures
        last_index_of(s, ':') == i,
{
    lemma_last_index_of(s, ':');
    let l = last_index_of(s, ':');
    if l < i {
        assert(s[i] != ':');
    } else if l > i {
        assert(s[l] != ':');
    }
}

/// Whether `suffix` ends `s`.
pub open spec fn ends_with(s: Seq<char>, suffix: Seq<char>) -> bool {
    s.len() >= suffix.len() && s.subrange(s.len() - suffix.len(), s.len() as int) == suffix
}

pub fn str_ends_with(s: &str, suffix: &str) -> (r: bool)
    ensures
        r == ends_with(s@, suffix@),
{
    let n = s.unicode_len();
    let m = suffix.unicode_len();
    if n < m {
        return false;
    }
    let tail = s.substring_char(n - m, n);
    str_eq(tail, suffix)
}

} // verus!
