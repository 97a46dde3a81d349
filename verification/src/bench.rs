//! Benchmark driver: times the two counters on synthesized sequences of
//! increasing size.
//!
//! For each size in the arithmetic progression from `min` to `max`
//! stepping by `step`, a sequence of that size is synthesized (random
//! elements from {0, 1} followed by one sentinel), each counter is
//! invoked `k` times against it, and the average elapsed wall-clock time
//! per call is recorded in whole nanoseconds. What the clock returns is
//! outside the reach of proof; the report's shape — which sizes appear,
//! in which order — is pinned down exactly.

use crate::model::SENTINEL;
use vstd::prelude::*;

verus! {

/// The repetition count is floor-clamped to this many calls per
/// measurement, to average out timer-resolution noise.
pub const MIN_REPETITIONS: usize = 100;

#[verifier::external_type_specification]
#[verifier::external_body]
pub struct ExInstant(std::time::Instant);

/// Relies on std::time::Instant::now: a reading of a monotonic clock.
/// Nothing is promised of the reading itself.
pub assume_specification[ std::time::Instant::now ]() -> std::time::Instant;

/// Relies on std::time::Instant::elapsed: the wall-clock time since the
/// reading was taken. Nothing is promised of a time-dependent value.
pub assume_specification[ std::time::Instant::elapsed ](start: &std::time::Instant) -> (d:
    core::time::Duration);

/// Relies on core::time::Duration::as_nanos: the duration as a number of
/// whole nanoseconds. The duration itself is opaque, so no more is said.
pub assume_specification[ core::time::Duration::as_nanos ](d: &core::time::Duration) -> (n: u128);

/// Relies on rand::random::<bool>: an independent draw from the thread's
/// generator. Nothing is promised of a random value.
#[verifier::external_body]
fn random_bool() -> bool {
    rand::random::<bool>()
}

/// One report row: the sequence size and the average elapsed time per
/// call, in whole nanoseconds, for each counter.
#[derive(Clone, Copy, Debug)]
pub struct BenchRow {
    pub size: usize,
    pub recursive_nanos: u128,
    pub iterative_nanos: u128,
}

/// Floor-clamp the repetition count collected from the user.
pub fn clamp_repetitions(k: usize) -> (r: usize)
    ensures
        r == (if k >= MIN_REPETITIONS {
            k
        } else {
            MIN_REPETITIONS
        }),
        r >= MIN_REPETITIONS,
{
    if k >= MIN_REPETITIONS {
        k
    } else {
        MIN_REPETITIONS
    }
}

/// Synthesize one test sequence of the requested size: `size` elements
/// drawn independently from {0, 1}, followed by exactly one sentinel.
/// The result always has length `size + 1`, its final element is the
/// sentinel, and no sentinel occurs earlier.
pub fn generate_test_data(size: usize) -> (data: Vec<i32>)
    requires
        size < usize::MAX,
    ensures
        data@.len() == size + 1,
        data@[size as int] == SENTINEL,
        forall|i: int| 0 <= i < size ==> data@[i] == 0 || data@[i] == 1,
        forall|i: int| 0 <= i < size ==> data@[i] != SENTINEL,
{
    let mut data: Vec<i32> = Vec::new();
    let mut i: usize = 0;
    while i < size
        invariant
            i <= size,
            data@.len() == i,
            forall|j: int| 0 <= j < i ==> data@[j] == 0 || data@[j] == 1,
        decreases size - i,
    {
        let value: i32 = if random_bool() {
            1
        } else {
            0
        };
        data.push(value);
        i = i + 1;
    }
    data.push(SENTINEL);
    data
}

/// Time `k` calls of the recursive counter against `data` and return the
/// total elapsed wall-clock time in nanoseconds. The clock decides the
/// value; nothing can be stated of it.
fn time_recursive(data: &Vec<i32>, k: usize) -> u128 {
    let start = std::time::Instant::now();
    let mut j: usize = 0;
    while j < k
        invariant
            j <= k,
        decreases k - j,
    {
        let _ = crate::recursive::count_until_2(data.as_slice());
        j = j + 1;
    }
    start.elapsed().as_nanos()
}

/// Time `k` calls of the iterative counter against `data` and return the
/// total elapsed wall-clock time in nanoseconds.
fn time_iterative(data: &Vec<i32>, k: usize) -> u128 {
    let start = std::time::Instant::now();
    let mut j: usize = 0;
    while j < k
        invariant
            j <= k,
        decreases k - j,
    {
        let _ = crate::iterative::count_until_2(data.as_slice());
        j = j + 1;
    }
    start.elapsed().as_nanos()
}

/// Measure both counters at one size: synthesize a sequence, invoke each
/// counter `k` times against the same sequence, and average.
fn bench_one_size(size: usize, k: usize) -> (row: BenchRow)
    requires
        size < usize::MAX,
        k >= 1,
    ensures
        row.size == size,
{
    let data = generate_test_data(size);
    let recursive_total = time_recursive(&data, k);
    let iterative_total = time_iterative(&data, k);
    BenchRow {
        size,
        recursive_nanos: recursive_total / (k as u128),
        iterative_nanos: iterative_total / (k as u128),
    }
}

/// Run the benchmark over the arithmetic progression of sizes from `min`
/// to `max` inclusive, stepping by `step`: one row per size, in
/// increasing order. When `min > max` the progression is empty and no
/// rows are produced; that is not an error. The driver assumes a
/// strictly positive step and repetition count; clamping the repetition
/// count is the parameter-collection stage's concern.
pub fn run_benchmark(min: usize, max: usize, step: usize, k: usize) -> (rows: Vec<BenchRow>)
    requires
        step >= 1,
        k >= 1,
        max < usize::MAX,
    ensures
        min > max ==> rows@.len() == 0,
        min <= max ==> rows@.len() >= 1 && min + rows@.len() * step > max,
        forall|j: int|
            0 <= j < rows@.len() ==> (#[trigger] rows@[j]).size == min + j * step && rows@[j].size
                <= max,
{
    let mut rows: Vec<BenchRow> = Vec::new();
    if min > max {
        return rows;
    }
    let mut size: usize = min;
    proof {
        assert(rows@.len() == 0);
        assert(min + 0 * step == min) by (nonlinear_arith);
    }
    loop
        invariant_except_break
            min <= max,
            step >= 1,
            k >= 1,
            max < usize::MAX,
            min <= size <= max,
            size == min + rows@.len() * step,
            forall|j: int|
                0 <= j < rows@.len() ==> (#[trigger] rows@[j]).size == min + j * step
                    && rows@[j].size <= max,
        ensures
            rows@.len() >= 1,
            min + rows@.len() * step > max,
            forall|j: int|
                0 <= j < rows@.len() ==> (#[trigger] rows@[j]).size == min + j * step
                    && rows@[j].size <= max,
        decreases max - size,
    {
        let ghost len_before = rows@.len();
        let row = bench_one_size(size, k);
        rows.push(row);
        proof {
            assert((len_before + 1) * step == len_before * step + step) by (nonlinear_arith);
        }
        if max - size < step {
            break;
        }
        size = size + step;
    }
    rows
}

} // verus!
