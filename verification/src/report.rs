//! The text of the reports: one run's outcome, and the Narrows table that
//! compares every precision.
use vstd::prelude::*;

use crate::precision::spec_label;
use crate::text::{append_decimal, append_padded, decimal, lemma_decimal_len, lemma_pad_left_law, pad_left, pow10};
use crate::tracker::DriftSummary;

verus! {

/// ANSI red.
pub const RED: &'static str = "\x1b[31m";

/// ANSI green.
pub const GREEN: &'static str = "\x1b[32m";

/// ANSI yellow.
pub const YELLOW: &'static str = "\x1b[33m";

/// ANSI cyan.
pub const CYAN: &'static str = "\x1b[36m";

/// ANSI bold.
pub const BOLD: &'static str = "\x1b[1m";

/// ANSI dim.
pub const DIM: &'static str = "\x1b[2m";

/// ANSI reset.
pub const RESET: &'static str = "\x1b[0m";

/// How a boat fared in the Narrows.
#[derive(Debug, Clone, Copy, PartialEq, Eq, Structural)]
pub enum BoatStatus {
    /// The constraint held for the whole run.
    Survived,
    /// The constraint broke, but the signal lived on.
    Leaking,
    /// The constraint broke and the signal collapsed.
    Sunk,
}

/// How a run fared: survived when the constraint never broke; otherwise
/// sunk when the signal collapsed, leaking when it did not.
pub open spec fn spec_status(s: DriftSummary) -> BoatStatus {
    if s.first_violation is None {
        BoatStatus::Survived
    } else if s.signal_destroyed_at is Some {
        BoatStatus::Sunk
    } else {
        BoatStatus::Leaking
    }
}

/// The colour a status is shown in.
pub open spec fn status_colour(st: BoatStatus) -> Seq<char> {
    match st {
        BoatStatus::Survived => GREEN@,
        BoatStatus::Sunk => RED@,
        BoatStatus::Leaking => YELLOW@,
    }
}

/// The verdict column of a status.
pub open spec fn status_text(st: BoatStatus) -> Seq<char> {
    match st {
        BoatStatus::Survived => GREEN@ + "✓ ALL"@ + RESET@,
        BoatStatus::Sunk => RED@ + "✗✗ DEAD"@ + RESET@,
        BoatStatus::Leaking => YELLOW@ + "✗ leak"@ + RESET@,
    }
}

/// The column text of an event that happened at some iteration, or never.
pub open spec fn event_text(o: Option<u64>) -> Seq<char> {
    match o {
        Some(v) => "iter "@ + pad_left(decimal(v as nat), 5),
        None => GREEN@ + "never"@ + RESET@,
    }
}

impl DriftSummary {
    /// How the run fared.
    pub fn status(&self) -> (st: BoatStatus)
        ensures
            st == spec_status(*self),
    {
        if self.survived() {
            BoatStatus::Survived
        } else if self.signal_destroyed_at.is_some() {
            BoatStatus::Sunk
        } else {
            BoatStatus::Leaking
        }
    }
}

impl BoatStatus {
    /// The colour the status is shown in.
    pub fn colour(&self) -> (r: &'static str)
        ensures
            r@ == status_colour(*self),
    {
        match self {
            BoatStatus::Survived => GREEN,
            BoatStatus::Sunk => RED,
            BoatStatus::Leaking => YELLOW,
        }
    }

    /// The verdict column of the status.
    pub fn verdict(&self) -> (r: String)
        ensures
            r@ == status_text(*self),
    {
        let mut out = String::new();
        match self {
            BoatStatus::Survived => {
                out.append(GREEN);
                out.append("✓ ALL");
            },
            BoatStatus::Sunk => {
                out.append(RED);
                out.append("✗✗ DEAD");
            },
            BoatStatus::Leaking => {
                out.append(YELLOW);
                out.append("✗ leak");
            },
        }
        out.append(RESET);
        out
    }
}

/// The column text of an event that happened at some iteration, or never.
pub fn event_column(o: Option<u64>) -> (r: String)
    ensures
        r@ == event_text(o),
{
    let mut out = String::new();
    match o {
        Some(v) => {
            out.append("iter ");
            let mut digits = String::new();
            append_decimal(&mut digits, v);
            append_padded(&mut out, digits.as_str(), 5);
        },
        None => {
            out.append(GREEN);
            out.append("never");
            out.append(RESET);
        },
    }
    assert(out@ =~= event_text(o));
    out
}

/// One row of the Narrows table.
pub open spec fn row_text(r: DriftSummary) -> Seq<char> {
    let st = spec_status(r);
    let c = status_colour(st);
    let label = spec_label(r.precision);
    "  "@ + c + "│ "@ + c + pad_left(label, 7) + RESET@ + " │ "@ + label + " │ "@
        + pad_left(decimal(r.bytes_per_value as nat), 5) + " │ "@ + c + pad_left(
        event_text(r.first_violation),
        22,
    ) + RESET@ + " │ "@ + c + pad_left(event_text(r.signal_destroyed_at), 22) + RESET@
        + " │ "@ + c + pad_left(status_text(st), 12) + RESET@ + " │\n"@
}

/// One row of the Narrows table.
pub fn row_string(r: &DriftSummary) -> (row: String)
    ensures
        row@ == row_text(*r),
{
    let st = r.status();
    let c = st.colour();
    let label = r.precision.label();
    let first = event_column(r.first_violation);
    let death = event_column(r.signal_destroyed_at);
    let verdict = st.verdict();
    let mut bytes = String::new();
    append_decimal(&mut bytes, r.bytes_per_value as u64);
    assert(bytes@ =~= decimal(r.bytes_per_value as nat));
    let mut row = String::new();
    row.append("  ");
    assert(row@ =~= "  "@);
    row.append(c);
    row.append("│ ");
    row.append(c);
    append_padded(&mut row, label, 7);
    row.append(RESET);
    row.append(" │ ");
    row.append(label);
    row.append(" │ ");
    append_padded(&mut row, bytes.as_str(), 5);
    row.append(" │ ");
    row.append(c);
    append_padded(&mut row, first.as_str(), 22);
    row.append(RESET);
    row.append(" │ ");
    row.append(c);
    append_padded(&mut row, death.as_str(), 22);
    row.append(RESET);
    row.append(" │ ");
    row.append(c);
    append_padded(&mut row, verdict.as_str(), 12);
    row.append(RESET);
    row.append(" │\n");
    row
}

/// The opening lines of the description of one run: its precision, length,
/// bytes per value, first violation (with the tolerance, as given) and
/// signal death.
pub open spec fn outcome_text(s: DriftSummary, tolerance: Seq<char>) -> Seq<char> {
    BOLD@ + CYAN@ + "═══ Drift Analysis: "@ + spec_label(s.precision) + " "@ + RESET@ + BOLD@
        + "═══"@ + RESET@ + "\n"@ + "  Iterations:      "@ + decimal(s.total_iterations as nat)
        + "\n"@ + "  Bytes/value:     "@ + decimal(s.bytes_per_value as nat) + "\n"@ + match s.first_violation {
        Some(v) => "  First violation: "@ + RED@ + "iteration "@ + decimal(v as nat) + RESET@
            + " (tolerance "@ + tolerance + ")\n"@,
        None => "  First violation: "@ + GREEN@ + "none (survived all)"@ + RESET@ + "\n"@,
    } + match s.signal_destroyed_at {
        Some(v) => "  Signal death:    "@ + RED@ + "iteration "@ + decimal(v as nat) + RESET@
            + "\n"@,
        None => "  Signal death:    "@ + GREEN@ + "none"@ + RESET@ + "\n"@,
    }
}

fn first_violation_line(o: Option<u64>, tolerance: &str) -> (r: String)
    ensures
        r@ == match o {
            Some(v) => "  First violation: "@ + RED@ + "iteration "@ + decimal(v as nat) + RESET@
                + " (tolerance "@ + tolerance@ + ")\n"@,
            None => "  First violation: "@ + GREEN@ + "none (survived all)"@ + RESET@ + "\n"@,
        },
{
    let mut out = String::new();
    out.append("  First violation: ");
    assert(out@ =~= "  First violation: "@);
    match o {
        Some(v) => {
            out.append(RED);
            out.append("iteration ");
            append_decimal(&mut out, v);
            out.append(RESET);
            out.append(" (tolerance ");
            out.append(tolerance);
            out.append(")\n");
        },
        None => {
            out.append(GREEN);
            out.append("none (survived all)");
            out.append(RESET);
            out.append("\n");
        },
    }
    out
}

fn signal_death_line(o: Option<u64>) -> (r: String)
    ensures
        r@ == match o {
            Some(v) => "  Signal death:    "@ + RED@ + "iteration "@ + decimal(v as nat) + RESET@
                + "\n"@,
            None => "  Signal death:    "@ + GREEN@ + "none"@ + RESET@ + "\n"@,
        },
{
    let mut out = String::new();
    out.append("  Signal death:    ");
    assert(out@ =~= "  Signal death:    "@);
    match o {
        Some(v) => {
            out.append(RED);
            out.append("iteration ");
            append_decimal(&mut out, v);
            out.append(RESET);
            out.append("\n");
        },
        None => {
            out.append(GREEN);
            out.append("none");
            out.append(RESET);
            out.append("\n");
        },
    }
    out
}

impl DriftSummary {
    /// The opening lines of the description of the run; `tolerance` is the
    /// tolerance as it is to be printed.
    pub fn describe(&self, tolerance: &str) -> (r: String)
        ensures
            r@ == outcome_text(*self, tolerance@),
    {
        let mut out = String::new();
        out.append(BOLD);
        assert(out@ =~= BOLD@);
        out.append(CYAN);
        out.append("═══ Drift Analysis: ");
        out.append(self.precision.label());
        out.append(" ");
        out.append(RESET);
        out.append(BOLD);
        out.append("═══");
        out.append(RESET);
        out.append("\n");
        out.append("  Iterations:      ");
        append_decimal(&mut out, self.total_iterations);
        out.append("\n");
        out.append("  Bytes/value:     ");
        append_decimal(&mut out, self.bytes_per_value as u64);
        out.append("\n");
        out.append(first_violation_line(self.first_violation, tolerance).as_str());
        out.append(signal_death_line(self.signal_destroyed_at).as_str());
        out
    }
}

/// `t` is the end of `s`.
pub open spec fn ends_with(s: Seq<char>, t: Seq<char>) -> bool {
    t.len() <= s.len() && s.subrange(s.len() - t.len(), s.len() as int) == t
}

/// `a + t` ends with `t`.
proof fn lemma_ends_with_sum(a: Seq<char>, t: Seq<char>)
    ensures
        ends_with(a + t, t),
{
    assert((a + t).subrange(a.len() as int, (a + t).len() as int) =~= t);
}

/// The column of an event: `never` in green when it did not happen;
/// otherwise `iter ` followed by the iteration, right-aligned in five
/// places (ten characters in all below 100000).
pub proof fn lemma_event_text_law(o: Option<u64>)
    ensures
        o is None ==> event_text(o) == GREEN@ + "never"@ + RESET@,
        o matches Some(v) ==> {
            let t = event_text(o);
            &&& t.len() >= 10
            &&& t.subrange(0, 5) == "iter "@
            &&& ends_with(t, decimal(v as nat))
            &&& (v < 100000 ==> t.len() == 10)
        },
{
    reveal_strlit("iter ");
    if let Some(v) = o {
        let d = decimal(v as nat);
        let p = pad_left(d, 5);
        lemma_pad_left_law(d, 5);
        let t = "iter "@ + p;
        assert(t.subrange(0, 5) =~= "iter "@);
        assert(t.subrange(t.len() - d.len(), t.len() as int) =~= p.subrange(
            p.len() - d.len(),
            p.len() as int,
        ));
        if v < 100000 {
            assert(pow10(0) == 1);
            assert(pow10(1) == 10);
            assert(pow10(2) == 100);
            assert(pow10(3) == 1000);
            assert(pow10(4) == 10000);
            assert(pow10(5) == 100000);
            lemma_decimal_len(v as nat, 5);
        }
    }
}

/// The table rows of two lists of runs one after the other are the rows
/// of the first list followed by those of the second; one run gives its
/// own row. So the table holds each run's row, once, in order.
pub proof fn lemma_rows_concat(a: Seq<DriftSummary>, b: Seq<DriftSummary>)
    ensures
        rows_text(a + b) == rows_text(a) + rows_text(b),
    decreases b.len(),
{
    if b.len() == 0 {
        assert(a + b =~= a);
    } else {
        lemma_rows_concat(a, b.drop_last());
        assert((a + b).drop_last() =~= a + b.drop_last());
    }
}

/// One run's table is its row alone.
pub proof fn lemma_rows_single(r: DriftSummary)
    ensures
        rows_text(seq![r]) == row_text(r),
{
    let one = seq![r];
    assert(one.drop_last() =~= Seq::<DriftSummary>::empty());
    assert(rows_text(one.drop_last()) == Seq::<char>::empty());
    assert(one.last() == r);
    assert(rows_text(one) == rows_text(one.drop_last()) + row_text(one.last()));
    assert(Seq::<char>::empty() + row_text(r) =~= row_text(r));
}

/// The detailed descriptions of two lists one after the other are those of
/// the first followed by those of the second, and one description is
/// followed by a blank line of its own.
pub proof fn lemma_details_concat(a: Seq<Seq<char>>, b: Seq<Seq<char>>)
    ensures
        details_text(a + b) == details_text(a) + details_text(b),
    decreases b.len(),
{
    if b.len() == 0 {
        assert(a + b =~= a);
        assert(details_text(a) + Seq::<char>::empty() =~= details_text(a));
    } else {
        lemma_details_concat(a, b.drop_last());
        assert((a + b).drop_last() =~= a + b.drop_last());
        assert(details_text(a) + details_text(b) =~= details_text(a) + details_text(b.drop_last())
            + b.last() + "\n"@);
    }
}

/// One description in the details is followed by a newline.
pub proof fn lemma_details_single(d: Seq<char>)
    ensures
        details_text(seq![d]) == d + "\n"@,
{
    let one = seq![d];
    assert(one.drop_last() =~= Seq::<Seq<char>>::empty());
    assert(details_text(one.drop_last()) == Seq::<char>::empty());
    assert(one.last() == d);
    assert(details_text(one) == details_text(one.drop_last()) + one.last() + "\n"@);
    assert(Seq::<char>::empty() + d + "\n"@ =~= d + "\n"@);
}

/// How a run fared: survived exactly when the constraint never broke; sunk
/// exactly when it broke and the signal died; leaking exactly when it broke
/// and the signal lived on. The three verdicts read `✓ ALL` in green,
/// `✗✗ DEAD` in red and `✗ leak` in yellow, and they differ.
pub proof fn lemma_status_law(s: DriftSummary)
    ensures
        (spec_status(s) == BoatStatus::Survived) <==> (s.first_violation is None),
        (spec_status(s) == BoatStatus::Sunk) <==> (s.first_violation is Some
            && s.signal_destroyed_at is Some),
        (spec_status(s) == BoatStatus::Leaking) <==> (s.first_violation is Some
            && s.signal_destroyed_at is None),
        status_text(BoatStatus::Survived) == GREEN@ + "✓ ALL"@ + RESET@,
        status_text(BoatStatus::Sunk) == RED@ + "✗✗ DEAD"@ + RESET@,
        status_text(BoatStatus::Leaking) == YELLOW@ + "✗ leak"@ + RESET@,
        status_text(BoatStatus::Survived) != status_text(BoatStatus::Sunk),
        status_text(BoatStatus::Survived) != status_text(BoatStatus::Leaking),
        status_text(BoatStatus::Sunk) != status_text(BoatStatus::Leaking),
{
    reveal_strlit("\x1b[31m");
    reveal_strlit("\x1b[32m");
    reveal_strlit("\x1b[33m");
    assert(status_text(BoatStatus::Survived)[3] != status_text(BoatStatus::Sunk)[3]);
    assert(status_text(BoatStatus::Survived)[3] != status_text(BoatStatus::Leaking)[3]);
    assert(status_text(BoatStatus::Sunk)[3] != status_text(BoatStatus::Leaking)[3]);
}

/// Each row of the Narrows table closes on the verdict for its run: `✓ ALL` when
/// the constraint never broke, `✗✗ DEAD` when it broke and the signal died,
/// `✗ leak` when it broke and the signal lived on.
pub proof fn lemma_row_ends_with_verdict(r: DriftSummary)
    ensures
        ends_with(
            row_text(r),
            (if r.first_violation is None {
                GREEN@ + "✓ ALL"@ + RESET@
            } else if r.signal_destroyed_at is Some {
                RED@ + "✗✗ DEAD"@ + RESET@
            } else {
                YELLOW@ + "✗ leak"@ + RESET@
            }) + RESET@ + " │\n"@,
        ),
{
    reveal_strlit("\x1b[31m");
    reveal_strlit("\x1b[32m");
    reveal_strlit("\x1b[33m");
    reveal_strlit("\x1b[0m");
    reveal_strlit("✓ ALL");
    reveal_strlit("✗✗ DEAD");
    reveal_strlit("✗ leak");
    let st = spec_status(r);
    let t = status_text(st);
    assert(t.len() >= 12);
    assert(pad_left(t, 12) == t);
    let c = status_colour(st);
    let label = spec_label(r.precision);
    let a = "  "@ + c + "│ "@ + c + pad_left(label, 7) + RESET@ + " │ "@ + label + " │ "@
        + pad_left(decimal(r.bytes_per_value as nat), 5) + " │ "@ + c + pad_left(
        event_text(r.first_violation),
        22,
    ) + RESET@ + " │ "@ + c + pad_left(event_text(r.signal_destroyed_at), 22) + RESET@
        + " │ "@ + c;
    assert(row_text(r) =~= a + (t + RESET@ + " │\n"@));
    lemma_ends_with_sum(a, t + RESET@ + " │\n"@);
}

/// The description of a run ends with its signal-death line, which depends
/// on the signal death alone: `iteration v` in red when the signal died at
/// `v`, `none` in green otherwise, whatever the first violation.
pub proof fn lemma_description_ends_with_signal_death(s: DriftSummary, tolerance: Seq<char>)
    ensures
        ends_with(
            outcome_text(s, tolerance),
            match s.signal_destroyed_at {
                Some(v) => "  Signal death:    "@ + RED@ + "iteration "@ + decimal(v as nat) + RESET@
                    + "\n"@,
                None => "  Signal death:    "@ + GREEN@ + "none"@ + RESET@ + "\n"@,
            },
        ),
{
    let line = match s.signal_destroyed_at {
        Some(v) => "  Signal death:    "@ + RED@ + "iteration "@ + decimal(v as nat) + RESET@
            + "\n"@,
        None => "  Signal death:    "@ + GREEN@ + "none"@ + RESET@ + "\n"@,
    };
    let fv = match s.first_violation {
        Some(v) => "  First violation: "@ + RED@ + "iteration "@ + decimal(v as nat) + RESET@
            + " (tolerance "@ + tolerance + ")\n"@,
        None => "  First violation: "@ + GREEN@ + "none (survived all)"@ + RESET@ + "\n"@,
    };
    let head = BOLD@ + CYAN@ + "═══ Drift Analysis: "@ + spec_label(s.precision) + " "@ + RESET@
        + BOLD@ + "═══"@ + RESET@ + "\n"@ + "  Iterations:      "@ + decimal(
        s.total_iterations as nat,
    ) + "\n"@ + "  Bytes/value:     "@ + decimal(s.bytes_per_value as nat) + "\n"@;
    assert(outcome_text(s, tolerance) == head + fv + line);
    lemma_ends_with_sum(head + fv, line);
}

/// Before its signal-death line, the description of a run ends with its
/// first-violation line, which depends on the first violation (and the
/// tolerance) alone: `iteration v (tolerance …)` in red when the constraint
/// first broke at `v`, `none (survived all)` in green otherwise.
pub proof fn lemma_description_first_violation(s: DriftSummary, tolerance: Seq<char>)
    ensures
        ({
            let whole = outcome_text(s, tolerance);
            let line = match s.signal_destroyed_at {
                Some(v) => "  Signal death:    "@ + RED@ + "iteration "@ + decimal(v as nat)
                    + RESET@ + "\n"@,
                None => "  Signal death:    "@ + GREEN@ + "none"@ + RESET@ + "\n"@,
            };
            &&& line.len() <= whole.len()
            &&& ends_with(
                whole.subrange(0, whole.len() - line.len()),
                match s.first_violation {
                    Some(v) => "  First violation: "@ + RED@ + "iteration "@ + decimal(v as nat)
                        + RESET@ + " (tolerance "@ + tolerance + ")\n"@,
                    None => "  First violation: "@ + GREEN@ + "none (survived all)"@ + RESET@
                        + "\n"@,
                },
            )
        }),
{
    let line = match s.signal_destroyed_at {
        Some(v) => "  Signal death:    "@ + RED@ + "iteration "@ + decimal(v as nat) + RESET@
            + "\n"@,
        None => "  Signal death:    "@ + GREEN@ + "none"@ + RESET@ + "\n"@,
    };
    let fv = match s.first_violation {
        Some(v) => "  First violation: "@ + RED@ + "iteration "@ + decimal(v as nat) + RESET@
            + " (tolerance "@ + tolerance + ")\n"@,
        None => "  First violation: "@ + GREEN@ + "none (survived all)"@ + RESET@ + "\n"@,
    };
    let head = BOLD@ + CYAN@ + "═══ Drift Analysis: "@ + spec_label(s.precision) + " "@ + RESET@
        + BOLD@ + "═══"@ + RESET@ + "\n"@ + "  Iterations:      "@ + decimal(
        s.total_iterations as nat,
    ) + "\n"@ + "  Bytes/value:     "@ + decimal(s.bytes_per_value as nat) + "\n"@;
    let whole = outcome_text(s, tolerance);
    assert(whole == head + fv + line);
    assert(whole.subrange(0, whole.len() - line.len()) =~= head + fv);
    lemma_ends_with_sum(head, fv);
}

/// The number of iterations the Narrows scenario runs.
pub const NARROWS_ITERATIONS: u64 = 10_000;

/// The tolerance of the Narrows scenario, one millionth, as the report
/// prints it.
pub const NARROWS_TOLERANCE_TEXT: &'static str = "1.0e-6";

/// The title, the scenario and the table head of the Narrows report.
pub open spec fn narrows_heading() -> Seq<char> {
    "\n"@ + BOLD@ + CYAN@ + "╔══════════════════════════════════════════════════════════════╗\n"@
        + "║  "@ + YELLOW@ + "⚓  THE NARROWS — Which Boat Sinks First?"@ + CYAN@ + "  "@ + BOLD@
        + "              ║\n"@
        + "╚══════════════════════════════════════════════════════════════╝"@ + RESET@ + "\n\n"@
        + "  "@ + BOLD@ + "Scenario:"@ + RESET@
        + " Cumulative multiplication (×1.0001), drift from ground truth\n"@ + "  "@ + BOLD@
        + "Tolerance:"@ + RESET@ + " "@ + NARROWS_TOLERANCE_TEXT@ + "\n"@ + "  "@ + BOLD@
        + "Iterations:"@ + RESET@ + " "@ + decimal(NARROWS_ITERATIONS as nat) + "\n\n"@ + "  "@
        + DIM@ + "┌─────────┬───────────┬───────┬────────────┬──────────────┬──────────┐"@ + RESET@
        + "\n"@ + "  "@ + BOLD@
        + "│  Boat   │ Precision │ Bytes │ First Sink │ Signal Death │ Survived │"@ + RESET@
        + "\n"@ + "  "@ + DIM@
        + "├─────────┼───────────┼───────┼────────────┼──────────────┼──────────┤"@ + RESET@
        + "\n"@
}

/// The bottom of the table and the closing line of the Narrows report.
pub open spec fn narrows_footer() -> Seq<char> {
    "  "@ + DIM@ + "└─────────┴───────────┴───────┴────────────┴──────────────┴──────────┘"@
        + RESET@ + "\n"@ + "\n  "@ + BOLD@ + "\"The boat sinks at iteration 28.\""@ + RESET@
        + " — FP32 under cumulative rotation\n\n"@
}

/// The table rows, one per run, in order.
pub open spec fn rows_text(boats: Seq<DriftSummary>) -> Seq<char>
    decreases boats.len(),
{
    if boats.len() == 0 {
        Seq::empty()
    } else {
        rows_text(boats.drop_last()) + row_text(boats.last())
    }
}

/// The detailed descriptions of the runs, each followed by a blank line.
pub open spec fn details_text(details: Seq<Seq<char>>) -> Seq<char>
    decreases details.len(),
{
    if details.len() == 0 {
        Seq::empty()
    } else {
        details_text(details.drop_last()) + details.last() + "\n"@
    }
}

/// The whole Narrows report.
pub open spec fn narrows_text(boats: Seq<DriftSummary>, details: Seq<Seq<char>>) -> Seq<char> {
    narrows_heading() + rows_text(boats) + narrows_footer() + details_text(details)
}

/// The views of a sequence of strings.
pub open spec fn texts(v: Seq<String>) -> Seq<Seq<char>> {
    v.map_values(|d: String| d@)
}

fn narrows_heading_string() -> (r: String)
    ensures
        r@ == narrows_heading(),
{
    let mut out = String::new();
    out.append("\n");
    assert(out@ =~= "\n"@);
    out.append(BOLD);
    out.append(CYAN);
    out.append("╔══════════════════════════════════════════════════════════════╗\n");
    out.append("║  ");
    out.append(YELLOW);
    out.append("⚓  THE NARROWS — Which Boat Sinks First?");
    out.append(CYAN);
    out.append("  ");
    out.append(BOLD);
    out.append("              ║\n");
    out.append("╚══════════════════════════════════════════════════════════════╝");
    out.append(RESET);
    out.append("\n\n");
    out.append("  ");
    out.append(BOLD);
    out.append("Scenario:");
    out.append(RESET);
    out.append(" Cumulative multiplication (×1.0001), drift from ground truth\n");
    out.append("  ");
    out.append(BOLD);
    out.append("Tolerance:");
    out.append(RESET);
    out.append(" ");
    out.append(NARROWS_TOLERANCE_TEXT);
    out.append("\n");
    out.append("  ");
    out.append(BOLD);
    out.append("Iterations:");
    out.append(RESET);
    out.append(" ");
    append_decimal(&mut out, NARROWS_ITERATIONS);
    out.append("\n\n");
    out.append("  ");
    out.append(DIM);
    out.append("┌─────────┬───────────┬───────┬────────────┬──────────────┬──────────┐");
    out.append(RESET);
    out.append("\n");
    out.append("  ");
    out.append(BOLD);
    out.append("│  Boat   │ Precision │ Bytes │ First Sink │ Signal Death │ Survived │");
    out.append(RESET);
    out.append("\n");
    out.append("  ");
    out.append(DIM);
    out.append("├─────────┼───────────┼───────┼────────────┼──────────────┼──────────┤");
    out.append(RESET);
    out.append("\n");
    out
}

fn narrows_footer_string() -> (r: String)
    ensures
        r@ == narrows_footer(),
{
    let mut out = String::new();
    out.append("  ");
    assert(out@ =~= "  "@);
    out.append(DIM);
    out.append("└─────────┴───────────┴───────┴────────────┴──────────────┴──────────┘");
    out.append(RESET);
    out.append("\n");
    out.append("\n  ");
    out.append(BOLD);
    out.append("\"The boat sinks at iteration 28.\"");
    out.append(RESET);
    out.append(" — FP32 under cumulative rotation\n\n");
    out
}

/// The Narrows report, "which boat sinks first?": a table with one row per
/// run (its precision, bytes per value, first violation, signal death and
/// verdict), followed by the detailed description of each run.
pub fn narrows_report(boats: &Vec<DriftSummary>, details: &Vec<String>) -> (r: String)
    ensures
        r@ == narrows_text(boats@, texts(details@)),
{
    let mut rows = String::new();
    let mut i: usize = 0;
    while i < boats.len()
        invariant
            i <= boats@.len(),
            rows@ == rows_text(boats@.take(i as int)),
        decreases boats@.len() - i,
    {
        let row = row_string(&boats[i]);
        rows.append(row.as_str());
        proof {
            let t = boats@.take(i as int + 1);
            assert(t.drop_last() =~= boats@.take(i as int));
            assert(t.last() == boats@[i as int]);
        }
        i += 1;
    }
    assert(boats@.take(boats@.len() as int) =~= boats@);
    let mut tail = String::new();
    let mut k: usize = 0;
    while k < details.len()
        invariant
            k <= details@.len(),
            tail@ == details_text(texts(details@).take(k as int)),
        decreases details@.len() - k,
    {
        tail.append(details[k].as_str());
        tail.append("\n");
        proof {
            let t = texts(details@).take(k as int + 1);
            assert(t.drop_last() =~= texts(details@).take(k as int));
            assert(t.last() == details@[k as int]@);
        }
        k += 1;
    }
    assert(texts(details@).take(details@.len() as int) =~= texts(details@));
    let mut out = narrows_heading_string();
    out.append(rows.as_str());
    out.append(narrows_footer_string().as_str());
    out.append(tail.as_str());
    out
}

} // verus!
