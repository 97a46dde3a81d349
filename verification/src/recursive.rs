//! Recursive counter: head/tail decomposition of the slice, cut off at
//! the sentinel.

use crate::model::{iter_count, lemma_count_le_len, lemma_iterative_equals_recursive, rec_count,
    SENTINEL, QUALIFYING};
use vstd::prelude::*;
use vstd::slice::slice_subrange;

verus! {

/// Count the elements equal to 1 strictly before the first element equal
/// to 2, by structural recursion: an empty slice and a slice starting
/// with the sentinel both yield 0; otherwise the head's contribution is
/// added to the count of the tail. Observable behaviour is identical to
/// the iterative counter. Recursion depth is bounded by the slice length.
pub fn count_until_2(slice: &[i32]) -> (count: usize)
    ensures
        count == rec_count(slice@),
        count == iter_count(slice@),
    decreases slice@.len(),
{
    proof {
        lemma_iterative_equals_recursive(slice@);
    }
    if slice.len() == 0 {
        0
    } else if slice[0] == SENTINEL {
        0
    } else {
        let head: usize = if slice[0] == QUALIFYING {
            1
        } else {
            0
        };
        let tail = slice_subrange(slice, 1, slice.len());
        proof {
            assert(tail@ =~= slice@.skip(1));
            lemma_count_le_len(slice@.skip(1));
        }
        head + count_until_2(tail)
    }
}

} // verus!
