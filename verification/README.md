# drift_analyzer

Precision drift analysis for constraint systems: how far values drift when
the same operation is applied thousands of times in a narrow number format,
and which format breaks the constraint first.

Layout:

- `src/` — the verified library (Verus):
  - `precision.rs` — the precision formats, their sizes, labels and names;
  - `truncation.rs` — half-precision and bfloat16 emulation on binary64 bit
    patterns, and integer saturation;
  - `tracker.rs` — the per-iteration bookkeeping of a run: sampling, first
    violation, signal collapse;
  - `scenario.rs` — the integer parts of the pre-built scenarios;
  - `text.rs` — decimal rendering and column padding;
  - `report.rs` — the text of a run's description and of the Narrows table.
- `app/` — the command-line program and the floating-point side of a run.
- `tests/` — tests of the library.
