//! Counting a sequence of small integers up to a sentinel.
//!
//! Two counters share one observable behaviour: given a sequence of
//! integers, they return how many elements equal 1 appear strictly before
//! the first element equal 2 (the sentinel); when no sentinel is present,
//! the whole sequence is counted. One counter scans iteratively, the other
//! decomposes the sequence recursively, and both are proved equivalent.
//! A benchmark driver times the two counters on synthesized sequences.

pub mod bench;
pub mod input;
pub mod iterative;
pub mod model;
pub mod recursive;
