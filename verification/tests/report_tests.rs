use drift_analyzer::report::{event_column, row_string};
use drift_analyzer::text::{append_padded, decimal_string};
use drift_analyzer::{narrows_report, BoatStatus, DriftSummary, Precision, NARROWS_ITERATIONS};

fn summary(p: Precision, first: Option<u64>, death: Option<u64>) -> DriftSummary {
    DriftSummary {
        precision: p,
        total_iterations: NARROWS_ITERATIONS,
        first_violation: first,
        signal_destroyed_at: death,
        bytes_per_value: p.bytes(),
    }
}

fn boats() -> Vec<DriftSummary> {
    vec![
        summary(Precision::F16, Some(1), Some(3)),
        summary(Precision::Bf16, Some(8), Some(100)),
        summary(Precision::F32, Some(28), None),
        summary(Precision::F64, None, None),
        summary(Precision::Int8, Some(1), Some(2)),
        summary(Precision::Int16, Some(320), None),
        summary(Precision::Int32, None, None),
    ]
}

#[test]
fn narrows_report_runs() {
    let boats = boats();
    let details: Vec<String> = boats.iter().map(|b| b.describe("1.0e-6")).collect();
    let report = narrows_report(&boats, &details);
    assert!(report.contains("NARROWS"));
    assert!(report.contains("FP32"));
}

#[test]
fn narrows_report_layout() {
    let boats = boats();
    let details = vec!["first".to_string(), "second".to_string()];
    let report = narrows_report(&boats, &details);
    assert!(report.starts_with("\n\x1b[1m\x1b[36m╔"));
    assert!(report.contains("  \x1b[1mTolerance:\x1b[0m 1.0e-6\n"));
    assert!(report.contains("  \x1b[1mIterations:\x1b[0m 10000\n\n"));
    assert!(report.contains("│  Boat   │ Precision │ Bytes │ First Sink │ Signal Death │ Survived │"));
    for b in &boats {
        assert!(report.contains(&row_string(b)));
    }
    assert!(report.ends_with(" — FP32 under cumulative rotation\n\nfirst\nsecond\n"));
    // One row per boat, between the table's head and its bottom.
    assert_eq!(report.matches(" │\n").count(), boats.len());
}

#[test]
fn narrows_report_without_boats() {
    let report = narrows_report(&Vec::new(), &Vec::new());
    assert!(report.contains("├"));
    assert!(report.contains("└"));
    assert_eq!(report.matches(" │\n").count(), 0);
}

#[test]
fn statuses() {
    assert_eq!(summary(Precision::F64, None, None).status(), BoatStatus::Survived);
    assert_eq!(summary(Precision::F64, None, Some(4)).status(), BoatStatus::Survived);
    assert_eq!(summary(Precision::F32, Some(28), None).status(), BoatStatus::Leaking);
    assert_eq!(summary(Precision::F16, Some(1), Some(3)).status(), BoatStatus::Sunk);
    assert_eq!(BoatStatus::Sunk.colour(), "\x1b[31m");
    assert_eq!(BoatStatus::Survived.verdict(), "\x1b[32m✓ ALL\x1b[0m");
    assert_eq!(BoatStatus::Leaking.verdict(), "\x1b[33m✗ leak\x1b[0m");
}

#[test]
fn event_columns() {
    assert_eq!(event_column(Some(28)), "iter    28");
    assert_eq!(event_column(Some(1234567)), "iter 1234567");
    assert_eq!(event_column(None), "\x1b[32mnever\x1b[0m");
}

#[test]
fn row_of_a_leaking_boat() {
    let row = row_string(&summary(Precision::F32, Some(28), None));
    let y = "\x1b[33m";
    let r = "\x1b[0m";
    let expected = format!(
        "  {y}│ {y}   FP32{r} │ FP32 │     4 │ {y}            iter    28{r} │ {y}        \x1b[32mnever{r}{r} │ {y}{y}✗ leak{r}{r} │\n"
    );
    assert_eq!(row, expected);
}

#[test]
fn description_of_a_run() {
    let s = summary(Precision::Bf16, Some(8), Some(100));
    assert_eq!(
        s.describe("1.0e-6"),
        "\x1b[1m\x1b[36m═══ Drift Analysis: BF16 \x1b[0m\x1b[1m═══\x1b[0m\n  Iterations:      10000\n  Bytes/value:     2\n  First violation: \x1b[31miteration 8\x1b[0m (tolerance 1.0e-6)\n  Signal death:    \x1b[31miteration 100\x1b[0m\n"
    );
    let s = summary(Precision::Int32, None, None);
    assert_eq!(
        s.describe("1.0e-8"),
        "\x1b[1m\x1b[36m═══ Drift Analysis: INT32 \x1b[0m\x1b[1m═══\x1b[0m\n  Iterations:      10000\n  Bytes/value:     4\n  First violation: \x1b[32mnone (survived all)\x1b[0m\n  Signal death:    \x1b[32mnone\x1b[0m\n"
    );
}

#[test]
fn decimals() {
    assert_eq!(decimal_string(0), "0");
    assert_eq!(decimal_string(7), "7");
    assert_eq!(decimal_string(10_000), "10000");
    assert_eq!(decimal_string(u64::MAX), u64::MAX.to_string());
}

#[test]
fn padding() {
    let mut s = String::from("x");
    append_padded(&mut s, "ab", 5);
    assert_eq!(s, "x   ab");
    let mut s = String::new();
    append_padded(&mut s, "✓ ALL", 3);
    assert_eq!(s, "✓ ALL");
    let mut s = String::new();
    append_padded(&mut s, "⚓x", 4);
    assert_eq!(s, "  ⚓x");
}
