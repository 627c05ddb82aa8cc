//! Substring containment over character sequences, used to classify the AI
//! collaborator's response text.

use vstd::prelude::*;

verus! {

/// `needle` occurs somewhere in `hay` as a contiguous run of characters.
pub open spec fn contains_sub(hay: Seq<char>, needle: Seq<char>) -> bool {
    exists|i: int|
        0 <= i && i + needle.len() <= hay.len() && #[trigger] hay.subrange(
            i,
            i + needle.len() as int,
        ) == needle
}

/// Decide whether `needle` occurs in `hay` as a literal substring.
pub fn contains_substring(hay: &str, needle: &str) -> (b: bool)
    ensures
        b == contains_sub(hay@, needle@),
{
    let n = hay.unicode_len();
    let m = needle.unicode_len();
    if m > n {
        return false;
    }
    let mut i: usize = 0;
    while i <= n - m
        invariant
            m <= n,
            n == hay@.len(),
            m == needle@.len(),
            0 <= i <= n - m + 1,
            forall|i2: int|
                0 <= i2 < i ==> #[trigger] hay@.subrange(i2, i2 + m as int) != needle@,
        decreases n - m + 1 - i,
    {
        let mut j: usize = 0;
        let mut matched = true;
        while matched && j < m
            invariant
                n == hay@.len(),
                m == needle@.len(),
                i + m <= n,
                0 <= j <= m,
                matched ==> forall|k: int| 0 <= k < j ==> hay@[i + k] == needle@[k],
                !matched ==> exists|k: int| 0 <= k < m && hay@[i + k] != #[trigger] needle@[k],
            decreases m - j + if matched { 1int } else { 0int },
        {
            if hay.get_char(i + j) != needle.get_char(j) {
                matched = false;
            } else {
                j += 1;
            }
        }
        if matched {
            proof {
                assert(hay@.subrange(i as int, i + m as int) =~= needle@);
            }
            return true;
        }
        proof {
            let k = choose|k: int| 0 <= k < m && hay@[i + k] != #[trigger] needle@[k];
            assert(hay@.subrange(i as int, i + m as int)[k] == hay@[i + k]);
        }
        i += 1;
    }
    proof {
        assert forall|i2: int|
            0 <= i2 && i2 + needle@.len() <= hay@.len() implies #[trigger] hay@.subrange(
            i2,
            i2 + needle@.len() as int,
        ) != needle@ by {
            assert(i2 < i);
        }
    }
    false
}

} // verus!
