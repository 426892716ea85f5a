use drift_analyzer::{
    bf16_bits, comparison_sample_interval, eisenstein_norm, f16_bits, is_sample_point,
    sampling_interval, DriftSummary, DriftTracker, Observation, Precision,
    DEFAULT_SAMPLE_INTERVAL, SCENARIO_SAMPLE_INTERVAL,
};

/// The value a precision would hold, built from the library's truncations.
fn truncate(value: f64, p: Precision) -> f64 {
    match p {
        Precision::F64 => value,
        Precision::F32 => (value as f32) as f64,
        Precision::F16 => f64::from_bits(f16_bits(value.to_bits())),
        Precision::Bf16 => f64::from_bits(bf16_bits(value.to_bits())),
        Precision::Int8 | Precision::Int16 => p.saturate(value.round() as i32) as f64,
        Precision::Int32 => value.round(),
    }
}

/// Runs an operation in exact and truncated arithmetic, handing each
/// iteration's verdicts to a tracker; returns the summary and the sampled
/// iterations.
fn run(
    p: Precision,
    tolerance: f64,
    interval: u64,
    op: impl Fn(f64) -> f64,
    initial: f64,
    iterations: u64,
) -> (DriftSummary, Vec<u64>) {
    let mut tracker = DriftTracker::new(p, interval, iterations);
    let mut exact = initial;
    let mut computed = truncate(initial, p);
    let mut sampled = Vec::new();
    for i in 0..=iterations {
        if i > 0 {
            exact = op(exact);
            computed = truncate(op(computed), p);
        }
        let abs_err = if computed.is_nan() || exact.is_nan() { f64::NAN } else { (computed - exact).abs() };
        let obs = Observation {
            violated: abs_err > tolerance,
            non_finite: computed.is_nan() || computed.is_infinite(),
            zero: computed == 0.0,
        };
        if tracker.observe(obs) {
            sampled.push(i);
        }
    }
    assert!(tracker.is_finished());
    (tracker.summary(), sampled)
}

#[test]
fn f64_survives_basic_rotation() {
    let (report, _) = run(Precision::F64, 1e-6, 10, |v| v * 0.5, 1.0, 100);
    assert!(report.survived());
}

#[test]
fn int8_clamps_correctly() {
    let (report, _) = run(Precision::Int8, 1e-6, 1, |v| v + 100.0, 1.0, 5);
    // Int8 clamps at 127, so there will be drift
    assert!(report.first_violation.is_some());
    assert_eq!(report.first_violation, Some(2));
}

#[test]
fn sampling_takes_every_interval_and_both_ends() {
    let (_, sampled) = run(Precision::F64, 1e-6, 10, |v| v, 1.0, 25);
    assert_eq!(sampled, vec![0, 10, 20, 25]);
    let (_, sampled) = run(Precision::F64, 1e-6, 0, |v| v, 1.0, 3);
    assert_eq!(sampled, vec![0, 1, 2, 3]);
}

#[test]
fn first_violation_and_signal_death_are_the_first_ones() {
    let mut t = DriftTracker::new(Precision::F32, 100, 5);
    let quiet = Observation { violated: false, non_finite: false, zero: false };
    assert!(t.observe(Observation { violated: false, non_finite: false, zero: true }));
    assert!(!t.observe(quiet));
    assert!(!t.observe(Observation { violated: true, non_finite: false, zero: false }));
    assert!(!t.observe(Observation { violated: true, non_finite: false, zero: true }));
    assert!(!t.observe(Observation { violated: true, non_finite: true, zero: false }));
    assert_eq!(t.next_iteration(), 5);
    assert!(t.observe(quiet));
    assert!(t.is_finished());
    // A zero at the start does not count as a collapse; the zero at
    // iteration 3 does.
    assert_eq!(t.first_violation(), Some(2));
    assert_eq!(t.signal_destroyed_at(), Some(3));
    let s = t.summary();
    assert_eq!(
        s,
        DriftSummary {
            precision: Precision::F32,
            total_iterations: 5,
            first_violation: Some(2),
            signal_destroyed_at: Some(3),
            bytes_per_value: 4,
        }
    );
    assert!(!s.survived());
}

#[test]
fn a_quiet_run_survives() {
    let mut t = DriftTracker::new(Precision::Bf16, 1, 2);
    for _ in 0..3 {
        assert!(t.observe(Observation { violated: false, non_finite: false, zero: false }));
    }
    let s = t.summary();
    assert!(s.survived());
    assert_eq!(s.signal_destroyed_at, None);
    assert_eq!(s.bytes_per_value, 2);
}

#[test]
fn sampling_helpers() {
    assert_eq!(sampling_interval(0), 1);
    assert_eq!(sampling_interval(7), 7);
    assert_eq!(DEFAULT_SAMPLE_INTERVAL, 100);
    assert_eq!(SCENARIO_SAMPLE_INTERVAL, 10);
    assert!(is_sample_point(0, 7, 100));
    assert!(is_sample_point(14, 7, 100));
    assert!(!is_sample_point(15, 7, 100));
    assert!(is_sample_point(100, 7, 100));
}

#[test]
fn comparison_interval() {
    assert_eq!(comparison_sample_interval(10), 10);
    assert_eq!(comparison_sample_interval(1000), 10);
    assert_eq!(comparison_sample_interval(1001), 50);
    assert_eq!(comparison_sample_interval(10_000), 500);
}

#[test]
fn eisenstein_norms() {
    assert_eq!(eisenstein_norm(3, 5), Some(49));
    assert_eq!(eisenstein_norm(-3, 5), Some(19));
    assert_eq!(eisenstein_norm(0, 0), Some(0));
    assert_eq!(eisenstein_norm(46340, 0), Some(2_147_395_600));
    assert_eq!(eisenstein_norm(46341, 0), None);
    assert_eq!(eisenstein_norm(30000, 30000), None);
    assert_eq!(eisenstein_norm(-30000, 30000), Some(900_000_000));
}

#[test]
fn eisenstein_norms_are_nonnegative() {
    for a in -20..20 {
        for b in -20..20 {
            assert!(eisenstein_norm(a, b).unwrap() >= 0);
        }
    }
}

#[test]
fn events_do_not_depend_on_the_interval() {
    let (a, _) = run(Precision::Bf16, 1e-6, 1, |v| v * 1.0001, 1.0, 300);
    let (b, _) = run(Precision::Bf16, 1e-6, 97, |v| v * 1.0001, 1.0, 300);
    assert_eq!(a.first_violation, b.first_violation);
    assert_eq!(a.signal_destroyed_at, b.signal_destroyed_at);
    assert!(a.first_violation.is_some());
}

#[test]
fn shorter_runs_see_the_events_cut_off() {
    let (long, _) = run(Precision::Int8, 1e-6, 10, |v| v + 100.0, 1.0, 10);
    assert_eq!(long.first_violation, Some(2));
    let (short, _) = run(Precision::Int8, 1e-6, 10, |v| v + 100.0, 1.0, 1);
    assert_eq!(short.first_violation, None);
    let (same, _) = run(Precision::Int8, 1e-6, 10, |v| v + 100.0, 1.0, 2);
    assert_eq!(same.first_violation, Some(2));
}
