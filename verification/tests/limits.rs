use fff_mcp::number::{Binary64, MAX_CONTEXT_LINES};

fn number(v: f64) -> Binary64 {
    Binary64::from_bits(v.to_bits())
}

fn normalize_max_results(raw: Option<f64>, default_limit: usize) -> usize {
    fff_mcp::number::normalize_max_results(raw.map(number), default_limit)
}

fn normalize_context(raw: Option<f64>) -> Option<usize> {
    fff_mcp::number::normalize_context(raw.map(number))
}

#[test]
fn normalize_max_results_none_uses_default() {
    assert_eq!(normalize_max_results(None, 20), 20);
}

#[test]
fn normalize_max_results_zero_uses_default() {
    assert_eq!(normalize_max_results(Some(0.0), 20), 20);
}

#[test]
fn normalize_max_results_negative_uses_default() {
    assert_eq!(normalize_max_results(Some(-5.0), 20), 20);
}

#[test]
fn normalize_max_results_non_finite_uses_default() {
    assert_eq!(normalize_max_results(Some(f64::NAN), 20), 20);
    assert_eq!(normalize_max_results(Some(f64::INFINITY), 20), 20);
}

#[test]
fn normalize_max_results_rounds_and_clamps() {
    assert_eq!(normalize_max_results(Some(0.4), 20), 1);
    assert_eq!(normalize_max_results(Some(10.0), 20), 10);
    assert_eq!(normalize_max_results(Some(10.7), 20), 11);
}

#[test]
fn normalize_context_rejects_bogus_and_caps() {
    assert_eq!(normalize_context(None), None);
    assert_eq!(normalize_context(Some(3.4)), Some(3));
    assert_eq!(normalize_context(Some(-1.0)), None);
    assert_eq!(normalize_context(Some(f64::NAN)), None);
    assert_eq!(normalize_context(Some(1e308)), Some(MAX_CONTEXT_LINES));
}

#[test]
fn rounding_agrees_with_the_floating_point_unit() {
    let samples = [
        0.0,
        -0.0,
        f64::MIN_POSITIVE,
        f64::from_bits(1),
        0.25,
        0.49999999999999994,
        0.5,
        0.75,
        1.0,
        1.4999999999999998,
        1.5,
        2.5,
        99.5,
        100.49,
        4503599627370495.5,
        4503599627370496.0,
        4503599627370497.0,
        9007199254740993.0,
        1e15,
        1.8e19,
        18446744073709549568.0,
        18446744073709551616.0,
        1e300,
        f64::MAX,
    ];
    for v in samples {
        assert_eq!(number(v).round_to_usize(), v.round() as usize);
        assert_eq!(number(v).is_positive(), v > 0.0);
        assert!(number(v).is_nonnegative());
        let limit = if v <= 0.0 { 20 } else { (v.round() as usize).max(1) };
        assert_eq!(normalize_max_results(Some(v), 20), limit);
        assert_eq!(normalize_context(Some(v)), Some((v.round() as usize).min(100)));
    }
    for v in [-0.1, -1.0, f64::NEG_INFINITY, f64::INFINITY, f64::NAN] {
        assert!(!number(v).is_nonnegative());
        assert!(!number(v).is_positive());
        assert_eq!(normalize_context(Some(v)), None);
    }
}

#[test]
fn limit_is_never_zero() {
    for v in [0.0, -0.0, 0.1, 0.49, -7.0, f64::NAN, 1e-300] {
        assert!(normalize_max_results(Some(v), 1) >= 1);
    }
}

#[test]
fn limit_is_monotone() {
    let ordered = [
        f64::from_bits(1),
        f64::MIN_POSITIVE,
        0.4,
        0.5,
        1.0,
        1.5,
        2.4,
        2.5,
        99.5,
        4503599627370495.5,
        9007199254740993.0,
        1.8e19,
        f64::MAX,
    ];
    for pair in ordered.windows(2) {
        let low = normalize_max_results(Some(pair[0]), 90);
        assert!(1 <= low && low <= normalize_max_results(Some(pair[1]), 3));
    }
    assert_eq!(normalize_max_results(Some(2.5), 20), 3);
}
