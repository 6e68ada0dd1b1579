//! Character-level string helpers used by the mirror policy and the
//! registry: equality, substring containment, and suffix analysis.
use vstd::prelude::*;

verus! {

/// True when `needle` occurs at position `i` of `hay`.
pub open spec fn occurs_at(hay: Seq<char>, needle: Seq<char>, i: int) -> bool {
    0 <= i && i + needle.len() <= hay.len() && hay.subrange(i, i + needle.len() as int)
        == needle
}

/// True when `needle` occurs anywhere in `hay` as a contiguous run.
pub open spec fn contains_seq(hay: Seq<char>, needle: Seq<char>) -> bool {
    exists|i: int| occurs_at(hay, needle, i)
}

/// The position just after the last occurrence of `c` in `p`, or `0`
/// when `c` does not occur.
pub open spec fn after_last(p: Seq<char>, c: char) -> int
    decreases p.len(),
{
    if p.len() == 0 {
        0
    } else if p.last() == c {
        p.len() as int
    } else {
        after_last(p.drop_last(), c)
    }
}

/// `after_last` points just past the last occurrence: nothing at or
/// beyond it is `c`, and the character right before it (if any) is `c`.
pub proof fn lemma_after_last(p: Seq<char>, c: char)
    ensures
        0 <= after_last(p, c) <= p.len(),
        forall|k: int| after_last(p, c) <= k < p.len() ==> p[k] != c,
        after_last(p, c) > 0 ==> p[after_last(p, c) - 1] == c,
    decreases p.len(),
{
    if p.len() > 0 && p.last() != c {
        lemma_after_last(p.drop_last(), c);
        assert(forall|k: int| after_last(p, c) <= k < p.len() - 1 ==> p.drop_last()[k] == p[k]);
    }
}

/// Finds the position just after the last occurrence of `c`.
pub fn find_after_last(p: &str, c: char) -> (r: usize)
    ensures
        r == after_last(p@, c),
{
    let len = p.unicode_len();
    let mut i: usize = len;
    proof {
        assert(p@.subrange(0, len as int) =~= p@);
    }
    while i > 0
        invariant
            i <= len,
            len == p@.len(),
            after_last(p@, c) == after_last(p@.subrange(0, i as int), c),
        decreases i,
    {
        if p.get_char(i - 1) == c {
            proof {
                assert(p@.subrange(0, i as int).last() == p@[i - 1]);
            }
            return i;
        }
        proof {
            assert(p@.subrange(0, i as int).last() == p@[i - 1]);
            assert(p@.subrange(0, i as int).drop_last() =~= p@.subrange(0, i - 1));
        }
        i = i - 1;
    }
    proof {
        assert(p@.subrange(0, 0).len() == 0);
    }
    0
}

/// Character-for-character equality of two string slices.
pub fn str_eq(a: &str, b: &str) -> (r: bool)
    ensures
        r == (a@ == b@),
{
    let alen = a.unicode_len();
    let blen = b.unicode_len();
    if alen != blen {
        return false;
    }
    let mut i: usize = 0;
    while i < alen
        invariant
            i <= alen,
            alen == a@.len(),
            alen == b@.len(),
            forall|j: int| 0 <= j < i ==> a@[j] == b@[j],
        decreases alen - i,
    {
        if a.get_char(i) != b.get_char(i) {
            return false;
        }
        i = i + 1;
    }
    proof {
        assert(a@ =~= b@);
    }
    true
}

/// True when `needle` occurs at position `at` of `hay`.
fn matches_at(hay: &str, needle: &str, at: usize) -> (r: bool)
    requires
        at + needle@.len() <= hay@.len(),
        hay@.len() <= usize::MAX,
    ensures
        r == occurs_at(hay@, needle@, at as int),
{
    let nlen = needle.unicode_len();
    let mut i: usize = 0;
    while i < nlen
        invariant
            i <= nlen,
            nlen == needle@.len(),
            at + nlen <= hay@.len(),
            hay@.len() <= usize::MAX,
            forall|j: int| 0 <= j < i ==> hay@[at + j] == needle@[j],
        decreases nlen - i,
    {
        if hay.get_char(at + i) != needle.get_char(i) {
            proof {
                assert(hay@.subrange(at as int, at + nlen as int)[i as int] == hay@[at + i]);
            }
            return false;
        }
        i = i + 1;
    }
    proof {
        assert(hay@.subrange(at as int, at + nlen as int) =~= needle@);
    }
    true
}

/// Substring containment, the loose test the mirror policy is specified
/// with: the needle may occur anywhere in the hay, not only as a suffix.
pub fn str_contains(hay: &str, needle: &str) -> (r: bool)
    ensures
        r == contains_seq(hay@, needle@),
{
    let hlen = hay.unicode_len();
    let nlen = needle.unicode_len();
    if nlen > hlen {
        proof {
            assert(forall|i: int| !occurs_at(hay@, needle@, i));
        }
        return false;
    }
    if nlen == 0 {
        proof {
            assert(hay@.subrange(0, 0) =~= needle@);
            assert(occurs_at(hay@, needle@, 0));
        }
        return true;
    }
    let mut i: usize = 0;
    while i <= hlen - nlen
        invariant
            hlen == hay@.len(),
            nlen == needle@.len(),
            0 < nlen <= hlen,
            i <= hlen - nlen + 1,
            forall|j: int| 0 <= j < i ==> !occurs_at(hay@, needle@, j),
        decreases hlen + 1 - nlen - i,
    {
        if matches_at(hay, needle, i) {
            return true;
        }
        i = i + 1;
    }
    proof {
        assert(forall|j: int| occurs_at(hay@, needle@, j) ==> 0 <= j <= hlen - nlen);
    }
    false
}

} // verus!
