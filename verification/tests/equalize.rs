use fractal_lab::equalize::{equalize, IterationSample};
use fractal_lab::hist::Hist;

fn escaped(iterations: u32) -> IterationSample {
    IterationSample { iterations, flag: 0 }
}

fn not_escaped(iterations: u32) -> IterationSample {
    IterationSample { iterations, flag: 1 }
}

#[test]
fn non_escaped_samples_never_reach_the_histogram() {
    let mut h = Hist::new();
    // the non-escaped 9999 must not influence anything
    let samples = vec![escaped(10), not_escaped(9999)];
    let t = equalize(&mut h, &samples);
    assert_eq!(t, vec![10; 9]);
    assert_eq!(h.total(), 1);
    assert_eq!(h.count_at(10), 1);
}

#[test]
fn end_to_end_distribution_yields_ascending_thresholds() {
    let mut h = Hist::new();
    let counts: Vec<u32> = vec![
        1, 1, 1, 1, 50, 50, 100, 100, 100, 100, 500, 500, 500, 999, 999, 999, 999, 999, 999, 999,
    ];
    let samples: Vec<IterationSample> = counts.into_iter().map(escaped).collect();
    let t = equalize(&mut h, &samples);
    assert_eq!(t, vec![1, 50, 100, 500, 999, 999, 999, 999, 999]);
    // non-decreasing, strictly increasing until clamped at the max 999
    for i in 0..8 {
        assert!(t[i] <= t[i + 1]);
        if t[i] == t[i + 1] {
            assert_eq!(t[i + 1], 999);
        }
    }
    assert!(t[0] <= 1);
    assert_eq!(t[8], 999);
}

#[test]
fn empty_sample_set_yields_all_sentinel_thresholds() {
    let mut h = Hist::new();
    let samples: Vec<IterationSample> = Vec::new();
    let t = equalize(&mut h, &samples);
    assert_eq!(t, vec![0; 9]);
    assert_eq!(h.total(), 0);
}

#[test]
fn all_non_escaped_yields_all_sentinel_thresholds() {
    let mut h = Hist::new();
    let samples = vec![not_escaped(5), not_escaped(7), not_escaped(2000)];
    let t = equalize(&mut h, &samples);
    assert_eq!(t, vec![0; 9]);
    assert_eq!(h.total(), 0);
}

#[test]
fn duplicates_are_nudged_to_the_next_recorded_value() {
    let mut h = Hist::new();
    // one sample of each value 1..=8: every raw octile duplicate must be
    // replaced with the next recorded value above it
    let samples: Vec<IterationSample> = (1..=8).map(escaped).collect();
    let t = equalize(&mut h, &samples);
    assert_eq!(t, vec![1, 2, 3, 4, 5, 6, 7, 8, 8]);
}

#[test]
fn single_value_distribution_clamps_at_the_maximum() {
    let mut h = Hist::new();
    let samples = vec![escaped(42), escaped(42), escaped(42)];
    let t = equalize(&mut h, &samples);
    assert_eq!(t, vec![42; 9]);
}

#[test]
fn histogram_rebuild_replaces_the_previous_frame() {
    let mut h = Hist::new();
    let first = vec![escaped(3), escaped(3)];
    equalize(&mut h, &first);
    assert_eq!(h.count_at(3), 2);
    let second = vec![escaped(7)];
    let t = equalize(&mut h, &second);
    // no carry-over from the first frame
    assert_eq!(h.count_at(3), 0);
    assert_eq!(h.count_at(7), 1);
    assert_eq!(t, vec![7; 9]);
}
