//! Data model of the check: a load sample, the threshold configuration, the
//! derived effective bounds, the severity status, and the error taxonomy.
use vstd::prelude::*;

verus! {

/// One load-average measurement of the remote host.
///
/// The three load averages are fixed-point values in hundredths, so a load of
/// `3.6` is stored as `360`.
#[derive(Clone, Copy, Debug, PartialEq, Eq, Structural)]
pub struct LoadSample {
    /// 1-minute load average, in hundredths.
    pub load1: u64,
    /// 5-minute load average, in hundredths.
    pub load5: u64,
    /// 15-minute load average, in hundredths.
    pub load15: u64,
    /// Number of processing cores of the remote host.
    pub cpu_count: i64,
}

impl LoadSample {
    /// A sample is well formed when the host reports at least one core.
    pub open spec fn wf(self) -> bool {
        self.cpu_count >= 1
    }
}

/// Warning and critical thresholds, expressed as per-core multipliers in
/// hundredths: a warning threshold of `0.9` per core is stored as `90`.
#[derive(Clone, Copy, Debug, PartialEq, Eq, Structural)]
pub struct ThresholdSet {
    pub warn1: u64,
    pub warn5: u64,
    pub warn15: u64,
    pub crit1: u64,
    pub crit5: u64,
    pub crit15: u64,
}

impl ThresholdSet {
    /// A threshold set is valid when no critical bound sits below its
    /// corresponding warning bound.
    pub open spec fn valid(self) -> bool {
        self.crit1 >= self.warn1 && self.crit5 >= self.warn5 && self.crit15 >= self.warn15
    }
}

/// Effective comparison bounds for one run: each per-core threshold scaled by
/// the core count, in hundredths. Derived for reporting; never persisted.
#[derive(Clone, Copy, Debug, PartialEq, Eq, Structural)]
pub struct Bounds {
    pub warn1: u128,
    pub warn5: u128,
    pub warn15: u128,
    pub crit1: u128,
    pub crit5: u128,
    pub crit15: u128,
}

/// Operational severity of a check run, with the strict escalation order
/// `Okay < Warning < Critical`; see [`severity`].
#[derive(Clone, Copy, Debug, PartialEq, Eq, Structural)]
pub enum Status {
    Okay,
    Warning,
    Critical,
}

/// Numeric rank of a status under the escalation order.
pub open spec fn severity(s: Status) -> int {
    match s {
        Status::Okay => 0,
        Status::Warning => 1,
        Status::Critical => 2,
    }
}

/// Failure to extract a `LoadSample` from the remote output.
#[derive(Clone, Copy, Debug, PartialEq, Eq, Structural)]
pub enum ParseError {
    /// Fewer fields than the remote diagnostic command is contracted to emit.
    MalformedOutput,
    /// A required field failed numeric conversion, or the core count was
    /// not at least one.
    InvalidNumber,
}

/// Configuration defect, detected before any sample is evaluated.
#[derive(Clone, Copy, Debug, PartialEq, Eq, Structural)]
pub enum ConfigError {
    /// A critical threshold sits below its corresponding warning threshold.
    InvertedThresholds,
}

impl ParseError {
    /// The single diagnostic line reported for this failure.
    pub fn message(&self) -> (m: &'static str)
        ensures
            *self == ParseError::MalformedOutput ==> m@ == spec_malformed_message(),
            *self == ParseError::InvalidNumber ==> m@ == spec_invalid_number_message(),
    {
        match self {
            ParseError::MalformedOutput => "Unknown: malformed remote output, expected at least 6 fields",
            ParseError::InvalidNumber => "Unknown: remote output holds an invalid number",
        }
    }
}

/// Diagnostic line for output with too few fields.
pub open spec fn spec_malformed_message() -> Seq<char> {
    "Unknown: malformed remote output, expected at least 6 fields"@
}

/// Diagnostic line for a field that fails numeric conversion.
pub open spec fn spec_invalid_number_message() -> Seq<char> {
    "Unknown: remote output holds an invalid number"@
}

/// Diagnostic line for inverted thresholds.
pub open spec fn spec_inverted_message() -> Seq<char> {
    "Unknown: critical thresholds must not be lower than warning thresholds, fix -w and -c"@
}

impl ConfigError {
    /// The single diagnostic line reported for this failure.
    pub fn message(&self) -> (m: &'static str)
        ensures
            m@ == spec_inverted_message(),
    {
        match self {
            ConfigError::InvertedThresholds => "Unknown: critical thresholds must not be lower than warning thresholds, fix -w and -c",
        }
    }
}

} // verus!
