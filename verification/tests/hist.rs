use fractal_lab::hist::Hist;

#[test]
fn record_and_count() {
    let mut h = Hist::new();
    h.record(5);
    h.record(5);
    h.record(1000);
    assert_eq!(h.count_at(5), 2);
    assert_eq!(h.count_at(1000), 1);
    assert_eq!(h.count_at(6), 0);
    assert_eq!(h.total(), 3);
}

#[test]
fn reset_clears_everything() {
    let mut h = Hist::new();
    h.record(12);
    h.reset();
    assert_eq!(h.total(), 0);
    assert_eq!(h.count_at(12), 0);
    assert_eq!(h.max_value(), 0);
}

#[test]
fn max_value_is_the_largest_recorded() {
    let mut h = Hist::new();
    assert_eq!(h.max_value(), 0);
    h.record(3);
    h.record(900);
    h.record(40);
    assert_eq!(h.max_value(), 900);
}

#[test]
fn octiles_of_a_single_value() {
    let mut h = Hist::new();
    h.record(17);
    for i in 0..=8u8 {
        assert_eq!(h.value_at_octile(i), 17);
    }
}

#[test]
fn octiles_walk_the_distribution() {
    let mut h = Hist::new();
    // 4 samples: quantiles 0/8..2/8 hit the first value, 3/8..4/8 the
    // second, and so on
    h.record(10);
    h.record(20);
    h.record(30);
    h.record(40);
    assert_eq!(h.value_at_octile(0), 10);
    assert_eq!(h.value_at_octile(2), 10);
    assert_eq!(h.value_at_octile(3), 20);
    assert_eq!(h.value_at_octile(4), 20);
    assert_eq!(h.value_at_octile(5), 30);
    assert_eq!(h.value_at_octile(6), 30);
    assert_eq!(h.value_at_octile(8), 40);
}

#[test]
fn octiles_agree_with_the_outside_quantile_query() {
    // the verified octile query must agree with the full-precision
    // quantile query of the histogram crate itself
    let mut h = Hist::new();
    let mut outside = hdrhistogram::Histogram::<u32>::new(3).unwrap();
    let values = [
        1u32, 1, 1, 1, 50, 50, 100, 100, 100, 100, 500, 500, 500, 999, 999, 999, 999, 999, 999,
        999,
    ];
    for v in values {
        h.record(v);
        outside.record(v as u64).unwrap();
    }
    for i in 0..=8u8 {
        assert_eq!(
            h.value_at_octile(i) as u64,
            outside.value_at_quantile(i as f64 / 8.0)
        );
    }
    assert_eq!(h.max_value() as u64, outside.max());
    assert_eq!(h.total(), outside.len());
}

#[test]
fn next_above_finds_the_next_recorded_value() {
    let mut h = Hist::new();
    h.record(10);
    h.record(50);
    assert_eq!(h.next_above(10), Some(50));
    assert_eq!(h.next_above(9), Some(10));
    assert_eq!(h.next_above(50), None);
}
