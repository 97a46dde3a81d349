use sentinel_count::bench::{clamp_repetitions, generate_test_data, run_benchmark};

#[test]
fn synthesized_sequence_has_trailing_sentinel() {
    for size in [0usize, 1, 2, 10, 100] {
        let data = generate_test_data(size);
        assert_eq!(data.len(), size + 1);
        assert_eq!(data[size], 2);
        for &x in &data[..size] {
            assert!(x == 0 || x == 1, "unexpected element {}", x);
        }
    }
}

#[test]
fn single_size_emits_one_row() {
    let n = 8;
    let rows = run_benchmark(n, n, 1, 100);
    assert_eq!(rows.len(), 1);
    assert_eq!(rows[0].size, n);
}

#[test]
fn empty_progression_emits_no_rows() {
    let rows = run_benchmark(10, 3, 1, 100);
    assert_eq!(rows.len(), 0);
}

#[test]
fn progression_steps_from_min_to_max() {
    let rows = run_benchmark(2, 10, 3, 100);
    let sizes: Vec<usize> = rows.iter().map(|r| r.size).collect();
    assert_eq!(sizes, vec![2, 5, 8]);
}

#[test]
fn progression_includes_max_when_reached_exactly() {
    let rows = run_benchmark(0, 6, 2, 100);
    let sizes: Vec<usize> = rows.iter().map(|r| r.size).collect();
    assert_eq!(sizes, vec![0, 2, 4, 6]);
}

#[test]
fn repetitions_are_floor_clamped() {
    assert_eq!(clamp_repetitions(0), 100);
    assert_eq!(clamp_repetitions(99), 100);
    assert_eq!(clamp_repetitions(100), 100);
    assert_eq!(clamp_repetitions(250), 250);
}
