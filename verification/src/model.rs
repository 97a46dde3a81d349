//! Mathematical model of sentinel-bounded counting.
//!
//! `rec_count` is the head-recursive definition: the contribution of the
//! first element plus the count of the tail, cut off at the sentinel.
//! `iter_count` is the accumulator-passing, left-to-right definition that
//! a single-pass scan computes. The central lemma proves the two agree on
//! every sequence.

use vstd::prelude::*;

verus! {

/// The value that terminates scanning: elements at or after its first
/// occurrence never contribute to the count.
pub const SENTINEL: i32 = 2;

/// The value whose occurrences are counted.
pub const QUALIFYING: i32 = 1;

/// Head-recursive count of elements equal to 1 strictly before the first
/// element equal to 2; counts the whole sequence when no 2 is present.
pub open spec fn rec_count(s: Seq<i32>) -> nat
    decreases s.len(),
{
    if s.len() == 0 {
        0
    } else if s[0] == SENTINEL {
        0
    } else {
        (if s[0] == QUALIFYING {
            1nat
        } else {
            0nat
        }) + rec_count(s.skip(1))
    }
}

/// Left-to-right scan with an accumulator: the count already tallied plus
/// whatever the rest of the sequence contributes before the sentinel.
pub open spec fn iter_scan(s: Seq<i32>, acc: nat) -> nat
    decreases s.len(),
{
    if s.len() == 0 {
        acc
    } else if s[0] == SENTINEL {
        acc
    } else {
        iter_scan(
            s.skip(1),
            acc + (if s[0] == QUALIFYING {
                1nat
            } else {
                0nat
            }),
        )
    }
}

/// What an iterative single-pass scan computes, starting from an empty tally.
pub open spec fn iter_count(s: Seq<i32>) -> nat {
    iter_scan(s, 0)
}

/// The accumulator passes through the scan unchanged: scanning with a
/// non-empty tally yields the tally plus the head-recursive count.
pub proof fn lemma_iter_scan_accumulates(s: Seq<i32>, acc: nat)
    ensures
        iter_scan(s, acc) == acc + rec_count(s),
    decreases s.len(),
{
    if s.len() == 0 {
    } else if s[0] == SENTINEL {
    } else {
        lemma_iter_scan_accumulates(
            s.skip(1),
            acc + (if s[0] == QUALIFYING {
                1nat
            } else {
                0nat
            }),
        );
    }
}

/// The iterative and the recursive counter agree on every finite sequence
/// of integers; in particular on every sequence over {0, 1, 2}.
pub proof fn lemma_iterative_equals_recursive(s: Seq<i32>)
    ensures
        iter_count(s) == rec_count(s),
{
    lemma_iter_scan_accumulates(s, 0);
}

/// The count never exceeds the length of the sequence.
pub proof fn lemma_count_le_len(s: Seq<i32>)
    ensures
        rec_count(s) <= s.len(),
    decreases s.len(),
{
    if s.len() == 0 {
    } else if s[0] == SENTINEL {
    } else {
        lemma_count_le_len(s.skip(1));
    }
}

} // verus!
