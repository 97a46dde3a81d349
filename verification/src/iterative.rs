//! Iterative counter: a single left-to-right pass that stops at the
//! sentinel.

use crate::model::{iter_count, iter_scan, lemma_iterative_equals_recursive, rec_count, SENTINEL,
    QUALIFYING};
use vstd::prelude::*;

verus! {

/// Count the elements equal to 1 strictly before the first element equal
/// to 2; when no 2 is present, count over the whole slice. The scan is a
/// single pass and stops at the sentinel, so elements after it are never
/// inspected. An empty slice yields 0.
pub fn count_until_2(slice: &[i32]) -> (count: usize)
    ensures
        count == iter_count(slice@),
        count == rec_count(slice@),
{
    proof {
        lemma_iterative_equals_recursive(slice@);
        assert(slice@.skip(0) =~= slice@);
    }
    let n = slice.len();
    let mut count: usize = 0;
    let mut i: usize = 0;
    while i < n
        invariant_except_break
            n == slice@.len(),
            i <= n,
            count <= i,
            iter_count(slice@) == iter_scan(slice@.skip(i as int), count as nat),
        ensures
            count == iter_count(slice@),
        decreases n - i,
    {
        let x = slice[i];
        proof {
            assert(slice@.skip(i as int)[0] == slice@[i as int]);
        }
        if x == SENTINEL {
            break;
        }
        proof {
            assert(slice@.skip(i as int).skip(1) =~= slice@.skip(i + 1));
        }
        if x == QUALIFYING {
            count = count + 1;
        }
        i = i + 1;
    }
    count
}

} // verus!
