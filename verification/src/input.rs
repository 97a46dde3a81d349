//! Validation of sequence-entry tokens.
//!
//! The interactive shell parses whitespace-separated tokens into integers
//! and hands each one here. A token in {0, 1} is appended; the sentinel 2
//! is appended and ends the sequence; any other integer is rejected and
//! the sequence is left unchanged. Parse failures never reach this module:
//! the shell reports them itself.

use crate::model::SENTINEL;
use vstd::prelude::*;

verus! {

/// What became of one parsed token.
#[derive(Clone, Copy, Debug, PartialEq, Eq, Structural)]
pub enum TokenAction {
    /// The token was in {0, 1}: appended, reading goes on.
    Kept,
    /// The token was the sentinel 2: appended, reading stops.
    Stopped,
    /// The token was an integer outside {0, 1, 2}: discarded.
    Rejected,
}

/// Append one parsed token to the sequence being read, if its value is
/// permitted, and say whether reading should stop.
pub fn append_token(nums: &mut Vec<i32>, value: i32) -> (action: TokenAction)
    ensures
        value == 0 || value == 1 ==> action == TokenAction::Kept && final(nums)@ == old(nums)@.push(
            value,
        ),
        value == SENTINEL ==> action == TokenAction::Stopped && final(nums)@ == old(nums)@.push(value),
        !(value == 0 || value == 1 || value == SENTINEL) ==> action == TokenAction::Rejected
            && final(nums)@ == old(nums)@,
{
    if value == 0 || value == 1 {
        nums.push(value);
        TokenAction::Kept
    } else if value == SENTINEL {
        nums.push(value);
        TokenAction::Stopped
    } else {
        TokenAction::Rejected
    }
}

} // verus!
