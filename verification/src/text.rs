//! Substring search over character sequences.
//!
//! The page object and the step verdicts both decide by "does this banner
//! or heading text contain a given phrase"; this module gives that test a
//! specification and a verified implementation.

use vstd::prelude::*;

verus! {

/// The needle occurs in the haystack starting at character position `i`.
pub open spec fn matches_at(hay: Seq<char>, needle: Seq<char>, i: int) -> bool {
    &&& 0 <= i
    &&& i + needle.len() <= hay.len()
    &&& forall|j: int| 0 <= j < needle.len() ==> hay[i + j] == needle[j]
}

/// The needle occurs somewhere in the haystack.  An empty needle occurs in
/// every haystack.
pub open spec fn contains_seq(hay: Seq<char>, needle: Seq<char>) -> bool {
    exists|i: int| matches_at(hay, needle, i)
}

/// Whether `needle` occurs in `hay` as a contiguous run of characters.
pub fn contains_substring(hay: &str, needle: &str) -> (r: bool)
    ensures
        r == contains_seq(hay@, needle@),
{
    let h = hay.unicode_len();
    let n = needle.unicode_len();
    if n > h {
        proof {
            assert forall|k: int| !matches_at(hay@, needle@, k) by {}
        }
        return false;
    }
    let mut i: usize = 0;
    while i <= h - n
        invariant
            n <= h,
            h == hay@.len(),
            n == needle@.len(),
            i <= h - n + 1,
            forall|k: int| 0 <= k < i ==> !matches_at(hay@, needle@, k),
        decreases h - n + 1 - i,
    {
        let mut j: usize = 0;
        let mut matched = true;
        while j < n
            invariant
                n <= h,
                h == hay@.len(),
                n == needle@.len(),
                i <= h - n,
                j <= n,
                matched <==> (forall|l: int| 0 <= l < j ==> hay@[i + l] == needle@[l]),
            decreases n - j,
        {
            if hay.get_char(i + j) != needle.get_char(j) {
                matched = false;
            }
            j = j + 1;
        }
        if matched {
            proof {
                assert(matches_at(hay@, needle@, i as int));
            }
            return true;
        }
        i = i + 1;
    }
    proof {
        assert forall|k: int| !matches_at(hay@, needle@, k) by {
            if 0 <= k < i {
            } else if k >= i {
                assert(k + needle@.len() > hay@.len());
            }
        }
    }
    false
}

} // verus!
