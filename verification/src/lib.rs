//! Remote load-average health check: parse the diagnostic line a remote host
//! returns, evaluate it against CPU-scaled warning/critical thresholds, and
//! render a monitoring status line with its exit code.
//!
//! Load averages and thresholds are held as fixed-point values in hundredths
//! (centi-load), which represents the two-decimal format of the remote
//! metrics exactly.
use vstd::prelude::*;

pub mod evaluate;
pub mod numbers;
pub mod parse;
pub mod report;
pub mod sample;
pub mod tokenize;

verus! {

/// Exit code reserved for "unable to determine status": transport failures,
/// malformed remote output, and configuration defects.
pub const UNKNOWN_EXIT_CODE: i32 = 3;

} // verus!
