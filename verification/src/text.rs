//! Substring search over strings, the primitive behind the name-based
//! exclusion rule.

use vstd::prelude::*;

verus! {

/// `needle` occurs in `hay` starting at character index `i`.
pub open spec fn has_substr_at(hay: Seq<char>, needle: Seq<char>, i: int) -> bool {
    &&& 0 <= i
    &&& i + needle.len() <= hay.len()
    &&& hay.subrange(i, i + needle.len()) == needle
}

/// `needle` occurs somewhere in `hay`.
pub open spec fn has_substr(hay: Seq<char>, needle: Seq<char>) -> bool {
    exists|i: int| has_substr_at(hay, needle, i)
}

/// A single differing character rules out an occurrence at `i`.
proof fn lemma_mismatch_at(hay: Seq<char>, needle: Seq<char>, i: int, j: int)
    requires
        0 <= i,
        0 <= j < needle.len(),
        i + needle.len() <= hay.len(),
        hay[i + j] != needle[j],
    ensures
        !has_substr_at(hay, needle, i),
{
    if has_substr_at(hay, needle, i) {
        assert(hay.subrange(i, i + needle.len())[j] == hay[i + j]);
    }
}

/// Substring search: decides whether `needle` occurs in `hay`.
pub fn str_has_substr(hay: &str, needle: &str) -> (r: bool)
    ensures
        r == has_substr(hay@, needle@),
{
    let hay_len: usize = hay.unicode_len();
    let needle_len: usize = needle.unicode_len();
    if needle_len == 0 {
        proof {
            assert(hay@.subrange(0, 0) =~= needle@);
            assert(has_substr_at(hay@, needle@, 0));
        }
        return true;
    }
    if needle_len > hay_len {
        proof {
            if has_substr(hay@, needle@) {
                let i0 = choose|i0: int| has_substr_at(hay@, needle@, i0);
                assert(i0 + needle@.len() <= hay@.len());
            }
        }
        return false;
    }
    let mut i: usize = 0;
    while i <= hay_len - needle_len
        invariant
            1 <= needle_len <= hay_len,
            hay_len == hay@.len(),
            needle_len == needle@.len(),
            i <= hay_len - needle_len + 1,
            forall|k: int| 0 <= k < i ==> !has_substr_at(hay@, needle@, k),
        decreases hay_len - needle_len - i + 1,
    {
        let mut j: usize = 0;
        let mut matched: bool = true;
        while matched && j < needle_len
            invariant
                1 <= needle_len <= hay_len,
                hay_len == hay@.len(),
                needle_len == needle@.len(),
                i + needle_len <= hay_len,
                j <= needle_len,
                matched ==> forall|k: int| 0 <= k < j ==> hay@[i + k] == needle@[k],
                !matched ==> !has_substr_at(hay@, needle@, i as int),
            decreases needle_len - j + (if matched { 1int } else { 0int }),
    {
            if hay.get_char(i + j) != needle.get_char(j) {
                proof {
                    lemma_mismatch_at(hay@, needle@, i as int, j as int);
                }
                matched = false;
            } else {
                j += 1;
            }
        }
        if matched {
            proof {
                assert(hay@.subrange(i as int, i + needle@.len()) =~= needle@);
                assert(has_substr_at(hay@, needle@, i as int));
            }
            return true;
        }
        i += 1;
    }
    proof {
        if has_substr(hay@, needle@) {
            let i0 = choose|i0: int| has_substr_at(hay@, needle@, i0);
            assert(i0 + needle@.len() <= hay@.len());
            assert(!has_substr_at(hay@, needle@, i0));
        }
    }
    false
}

/// Character-for-character string equality, stated over the views.
pub fn str_equal(a: &str, b: &str) -> (r: bool)
    ensures
        r == (a@ == b@),
{
    let a_len: usize = a.unicode_len();
    let b_len: usize = b.unicode_len();
    if a_len != b_len {
        return false;
    }
    let mut i: usize = 0;
    while i < a_len
        invariant
            a_len == a@.len(),
            a_len == b@.len(),
            i <= a_len,
            forall|k: int| 0 <= k < i ==> a@[k] == b@[k],
        decreases a_len - i,
    {
        if a.get_char(i) != b.get_char(i) {
            return false;
        }
        i += 1;
    }
    proof {
        assert(a@ =~= b@);
    }
    true
}

} // verus!
