//! Precision drift analysis for constraint systems.
//!
//! The verified core: the precision formats and their storage sizes, the
//! bit-level emulation of narrow floating-point formats, the bookkeeping
//! that decides where a constraint first broke and where a signal first
//! collapsed during a run, and the text of the reports.

pub mod precision;
pub mod report;
pub mod scenario;
pub mod text;
pub mod tracker;
pub mod truncation;

pub use precision::{parse_precision, precision_named, Precision};
pub use report::{narrows_report, BoatStatus, NARROWS_ITERATIONS, NARROWS_TOLERANCE_TEXT};
pub use scenario::{comparison_sample_interval, eisenstein_norm, SCENARIO_SAMPLE_INTERVAL};
pub use tracker::{
    is_sample_point, sampling_interval, DriftSummary, DriftTracker, Observation,
    DEFAULT_SAMPLE_INTERVAL,
};
pub use truncation::{bf16_bits, clamp_i32, f16_bits};
