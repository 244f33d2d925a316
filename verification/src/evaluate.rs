//! Threshold evaluator: scales the per-core thresholds by the core count and
//! escalates the status over all six comparisons, critical checks last and
//! unconditional.
use vstd::prelude::*;
use crate::sample::{severity, Bounds, ConfigError, LoadSample, Status, ThresholdSet};

verus! {

/// Escalation step: adopt the observed severity only when it is higher.
pub open spec fn escalate(cur: Status, obs: Status) -> Status {
    if severity(obs) > severity(cur) {
        obs
    } else {
        cur
    }
}

/// Severity one period contributes: its load against its two effective
/// bounds.
pub open spec fn period_status(load: u64, warn: u64, crit: u64, cpu: i64) -> Status {
    if load as int >= crit as int * cpu as int {
        Status::Critical
    } else if load as int >= warn as int * cpu as int {
        Status::Warning
    } else {
        Status::Okay
    }
}

/// Final status: the maximum severity observed across the three periods,
/// each compared against both of its effective bounds.
pub open spec fn spec_status(s: LoadSample, t: ThresholdSet) -> Status {
    escalate(
        escalate(
            period_status(s.load1, t.warn1, t.crit1, s.cpu_count),
            period_status(s.load5, t.warn5, t.crit5, s.cpu_count),
        ),
        period_status(s.load15, t.warn15, t.crit15, s.cpu_count),
    )
}

/// The six effective bounds: per-core thresholds scaled by the core count.
pub open spec fn spec_bounds(s: LoadSample, t: ThresholdSet) -> Bounds {
    Bounds {
        warn1: (t.warn1 as int * s.cpu_count as int) as u128,
        warn5: (t.warn5 as int * s.cpu_count as int) as u128,
        warn15: (t.warn15 as int * s.cpu_count as int) as u128,
        crit1: (t.crit1 as int * s.cpu_count as int) as u128,
        crit5: (t.crit5 as int * s.cpu_count as int) as u128,
        crit15: (t.crit15 as int * s.cpu_count as int) as u128,
    }
}

/// A centi threshold scaled by a positive core count stays within `u128`.
proof fn lemma_scale_fits(a: u64, b: i64)
    requires
        1 <= b,
    ensures
        0 <= a as int * b as int,
        (a as int * b as int) < u128::MAX,
{
    assert(1 <= b as int ==> (0 <= a as int * b as int && a as int * b as int <= u64::MAX as int * i64::MAX as int)) by (nonlinear_arith);
}

/// Scaling by a positive core count preserves the order of thresholds.
proof fn lemma_scale_mono(w: u64, c: u64, k: i64)
    requires
        w <= c,
        1 <= k,
    ensures
        w as int * k as int <= c as int * k as int,
{
    assert(w <= c && 1 <= k as int ==> w as int * k as int <= c as int * k as int)
        by (nonlinear_arith);
}

/// Apply the CPU-normalized thresholds to a sample.
///
/// With valid thresholds the result is the final status and the six
/// effective bounds; inverted thresholds are a configuration defect reported
/// before any comparison.
pub fn evaluate(sample: &LoadSample, thresholds: &ThresholdSet) -> (r: Result<
    (Status, Bounds),
    ConfigError,
>)
    requires
        sample.wf(),
    ensures
        thresholds.valid() ==> r == Ok::<(Status, Bounds), ConfigError>(
            (spec_status(*sample, *thresholds), spec_bounds(*sample, *thresholds)),
        ),
        !thresholds.valid() ==> r == Err::<(Status, Bounds), ConfigError>(
            ConfigError::InvertedThresholds,
        ),
{
    if thresholds.crit1 < thresholds.warn1 || thresholds.crit5 < thresholds.warn5
        || thresholds.crit15 < thresholds.warn15 {
        return Err(ConfigError::InvertedThresholds);
    }
    proof {
        lemma_scale_fits(thresholds.warn1, sample.cpu_count);
        lemma_scale_fits(thresholds.warn5, sample.cpu_count);
        lemma_scale_fits(thresholds.warn15, sample.cpu_count);
        lemma_scale_fits(thresholds.crit1, sample.cpu_count);
        lemma_scale_fits(thresholds.crit5, sample.cpu_count);
        lemma_scale_fits(thresholds.crit15, sample.cpu_count);
    }
    let cpu: u128 = sample.cpu_count as u128;
    let w1: u128 = thresholds.warn1 as u128 * cpu;
    let w5: u128 = thresholds.warn5 as u128 * cpu;
    let w15: u128 = thresholds.warn15 as u128 * cpu;
    let c1: u128 = thresholds.crit1 as u128 * cpu;
    let c5: u128 = thresholds.crit5 as u128 * cpu;
    let c15: u128 = thresholds.crit15 as u128 * cpu;
    let mut status = Status::Okay;
    // Warning comparisons first, in period order.
    if sample.load1 as u128 >= w1 {
        status = Status::Warning;
    }
    if sample.load5 as u128 >= w5 {
        status = Status::Warning;
    }
    if sample.load15 as u128 >= w15 {
        status = Status::Warning;
    }
    // Critical comparisons run unconditionally and take precedence.
    if sample.load1 as u128 >= c1 {
        status = Status::Critical;
    }
    if sample.load5 as u128 >= c5 {
        status = Status::Critical;
    }
    if sample.load15 as u128 >= c15 {
        status = Status::Critical;
    }
    assert(status == spec_status(*sample, *thresholds));
    Ok(
        (
            status,
            Bounds { warn1: w1, warn5: w5, warn15: w15, crit1: c1, crit5: c5, crit15: c15 },
        ),
    )
}

/// Law: with valid thresholds, loads strictly below every warning bound
/// evaluate to `Okay`.
pub proof fn lemma_below_warn_is_okay(s: LoadSample, t: ThresholdSet)
    requires
        s.wf(),
        t.valid(),
        (s.load1 as int) < (t.warn1 as int) * (s.cpu_count as int),
        (s.load5 as int) < (t.warn5 as int) * (s.cpu_count as int),
        (s.load15 as int) < (t.warn15 as int) * (s.cpu_count as int),
    ensures
        spec_status(s, t) == Status::Okay,
{
    lemma_scale_mono(t.warn1, t.crit1, s.cpu_count);
    lemma_scale_mono(t.warn5, t.crit5, s.cpu_count);
    lemma_scale_mono(t.warn15, t.crit15, s.cpu_count);
}

/// Law: a load at or above any critical bound makes the final status
/// `Critical`, whatever the other periods hold.
pub proof fn lemma_critical_dominates(s: LoadSample, t: ThresholdSet)
    requires
        s.wf(),
        t.valid(),
        (s.load1 as int) >= (t.crit1 as int) * (s.cpu_count as int) || (s.load5 as int) >= (
        t.crit5 as int) * (s.cpu_count as int) || (s.load15 as int) >= (t.crit15 as int) * (
        s.cpu_count as int),
    ensures
        spec_status(s, t) == Status::Critical,
{
}

/// Law: escalation is monotonic. A later comparison never lowers the
/// severity, and once `Critical` is reached it stays.
pub proof fn lemma_escalation_monotonic(cur: Status, obs: Status)
    ensures
        severity(escalate(cur, obs)) >= severity(cur),
        severity(escalate(cur, obs)) >= severity(obs),
        cur == Status::Critical ==> escalate(cur, obs) == Status::Critical,
{
}

} // verus!
