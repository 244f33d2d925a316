//! Report formatter: the status line with its performance data, the exit
//! code mapping, and the whole check pipeline from remote text to report.
use vstd::prelude::*;
use vstd::string::StringExecFns;
use crate::evaluate::{evaluate, spec_bounds, spec_status};
use crate::numbers::{centi_chars, push_centi};
use crate::parse::{parse_output, spec_parse};
use crate::sample::{
    spec_inverted_message, spec_invalid_number_message, spec_malformed_message, Bounds, LoadSample,
    ParseError, Status, ThresholdSet,
};
use crate::UNKNOWN_EXIT_CODE;

verus! {

/// Severity prefix of the status line.
pub open spec fn spec_prefix(st: Status) -> Seq<char> {
    match st {
        Status::Okay => "Ok: load average is good "@,
        Status::Warning => "Warning: load average is very high "@,
        Status::Critical => "Critical: load average is too high "@,
    }
}

/// One performance-data token: `label = value;warn;crit; `, every number with
/// two decimal places.
pub open spec fn spec_perf_token(label: Seq<char>, value: nat, warn: nat, crit: nat) -> Seq<
    char,
> {
    label + " = "@ + centi_chars(value) + ";"@ + centi_chars(warn) + ";"@ + centi_chars(crit)
        + "; "@
}

/// The full status line: severity prefix, the three loads comma-separated,
/// the `|` separator, and one performance-data token per period.
pub open spec fn spec_report(st: Status, s: LoadSample, b: Bounds) -> Seq<char> {
    spec_prefix(st) + centi_chars(s.load1 as nat) + ","@ + centi_chars(s.load5 as nat) + ","@
        + centi_chars(s.load15 as nat) + " | "@ + spec_perf_token(
        "load1"@,
        s.load1 as nat,
        b.warn1 as nat,
        b.crit1 as nat,
    ) + spec_perf_token("load5"@, s.load5 as nat, b.warn5 as nat, b.crit5 as nat)
        + spec_perf_token("load15"@, s.load15 as nat, b.warn15 as nat, b.crit15 as nat)
}

/// Exit code of a determined severity.
pub open spec fn spec_exit_code(st: Status) -> int {
    match st {
        Status::Okay => 0,
        Status::Warning => 1,
        Status::Critical => 2,
    }
}

fn push_perf(out: &mut String, label: &str, value: u128, warn: u128, crit: u128)
    ensures
        final(out)@ == old(out)@ + spec_perf_token(
            label@,
            value as nat,
            warn as nat,
            crit as nat,
        ),
{
    out.append(label);
    out.append(" = ");
    push_centi(out, value);
    out.append(";");
    push_centi(out, warn);
    out.append(";");
    push_centi(out, crit);
    out.append("; ");
    assert(out@ =~= old(out)@ + spec_perf_token(label@, value as nat, warn as nat, crit as nat));
}

/// Render the status line for a determined severity.
pub fn format_report(status: Status, sample: &LoadSample, bounds: &Bounds) -> (r: String)
    ensures
        r@ == spec_report(status, *sample, *bounds),
{
    let mut out = String::new();
    match status {
        Status::Okay => out.append("Ok: load average is good "),
        Status::Warning => out.append("Warning: load average is very high "),
        Status::Critical => out.append("Critical: load average is too high "),
    }
    push_centi(&mut out, sample.load1 as u128);
    out.append(",");
    push_centi(&mut out, sample.load5 as u128);
    out.append(",");
    push_centi(&mut out, sample.load15 as u128);
    out.append(" | ");
    push_perf(&mut out, "load1", sample.load1 as u128, bounds.warn1, bounds.crit1);
    push_perf(&mut out, "load5", sample.load5 as u128, bounds.warn5, bounds.crit5);
    push_perf(&mut out, "load15", sample.load15 as u128, bounds.warn15, bounds.crit15);
    assert(out@ =~= spec_report(status, *sample, *bounds));
    out
}

/// Map a determined severity to its process exit code.
pub fn exit_code(status: Status) -> (c: i32)
    ensures
        c == spec_exit_code(status),
{
    match status {
        Status::Okay => 0,
        Status::Warning => 1,
        Status::Critical => 2,
    }
}

/// Law: the formatter is deterministic. Equal inputs give byte-identical
/// output and the same exit code.
pub proof fn lemma_format_deterministic(
    st1: Status,
    s1: LoadSample,
    b1: Bounds,
    st2: Status,
    s2: LoadSample,
    b2: Bounds,
)
    requires
        st1 == st2,
        s1 == s2,
        b1 == b2,
    ensures
        spec_report(st1, s1, b1) == spec_report(st2, s2, b2),
        spec_exit_code(st1) == spec_exit_code(st2),
{
}

/// The single line the check run emits for a remote text and a threshold
/// configuration.
pub open spec fn spec_run_line(raw: Seq<char>, t: ThresholdSet) -> Seq<char> {
    match spec_parse(raw) {
        Result::Err(ParseError::MalformedOutput) => spec_malformed_message(),
        Result::Err(ParseError::InvalidNumber) => spec_invalid_number_message(),
        Result::Ok(s) => if t.valid() {
            spec_report(spec_status(s, t), s, spec_bounds(s, t))
        } else {
            spec_inverted_message()
        },
    }
}

/// The exit code the check run ends with.
pub open spec fn spec_run_code(raw: Seq<char>, t: ThresholdSet) -> int {
    match spec_parse(raw) {
        Result::Err(_) => UNKNOWN_EXIT_CODE as int,
        Result::Ok(s) => if t.valid() {
            spec_exit_code(spec_status(s, t))
        } else {
            UNKNOWN_EXIT_CODE as int
        },
    }
}

/// Run the whole evaluation pipeline on the text the remote command
/// returned: parse, evaluate, format. Every failure collapses to a
/// diagnostic line and the unknown exit code; the caller only prints and
/// terminates.
pub fn run_check(raw: &str, thresholds: &ThresholdSet) -> (r: (String, i32))
    ensures
        r.0@ == spec_run_line(raw@, *thresholds),
        r.1 == spec_run_code(raw@, *thresholds),
{
    match parse_output(raw) {
        Result::Err(e) => (e.message().to_owned(), UNKNOWN_EXIT_CODE),
        Result::Ok(sample) => match evaluate(&sample, thresholds) {
            Result::Err(ce) => (ce.message().to_owned(), UNKNOWN_EXIT_CODE),
            Result::Ok((status, bounds)) => {
                let code = exit_code(status);
                (format_report(status, &sample, &bounds), code)
            },
        },
    }
}

/// Diagnostic line for a transport failure, preserving the underlying cause.
pub open spec fn spec_transport_message(detail: Seq<char>) -> Seq<char> {
    "Unknown: transport failure, "@ + detail
}

/// Render the diagnostic line for a transport failure; the check maps it to
/// the unknown exit code.
pub fn transport_diagnostic(detail: &str) -> (r: String)
    ensures
        r@ == spec_transport_message(detail@),
{
    let mut out = String::new();
    out.append("Unknown: transport failure, ");
    out.append(detail);
    assert(out@ =~= spec_transport_message(detail@));
    out
}

} // verus!
