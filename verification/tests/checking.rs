use check_distant_linux::evaluate::evaluate;
use check_distant_linux::report::{exit_code, format_report, run_check, transport_diagnostic};
use check_distant_linux::sample::{Bounds, ConfigError, LoadSample, Status, ThresholdSet};
use check_distant_linux::UNKNOWN_EXIT_CODE;

fn flat_thresholds() -> ThresholdSet {
    ThresholdSet {
        warn1: 90,
        warn5: 90,
        warn15: 90,
        crit1: 150,
        crit5: 150,
        crit15: 150,
    }
}

#[test]
fn all_loads_below_warning_is_okay() {
    // warn bounds 3.60, crit bounds 6.00 on four cores
    let sample = LoadSample { load1: 300, load5: 100, load15: 50, cpu_count: 4 };
    let (status, bounds) = evaluate(&sample, &flat_thresholds()).unwrap();
    assert_eq!(status, Status::Okay);
    assert_eq!(bounds.warn1, 360);
    assert_eq!(bounds.warn5, 360);
    assert_eq!(bounds.warn15, 360);
    assert_eq!(bounds.crit1, 600);
    assert_eq!(bounds.crit5, 600);
    assert_eq!(bounds.crit15, 600);
}

#[test]
fn load_above_warning_only_is_warning() {
    // 4.00 >= 3.60 but 4.00 < 6.00
    let sample = LoadSample { load1: 400, load5: 100, load15: 50, cpu_count: 4 };
    let (status, _) = evaluate(&sample, &flat_thresholds()).unwrap();
    assert_eq!(status, Status::Warning);
}

#[test]
fn load_at_critical_bound_is_critical() {
    // comparisons are inclusive: 6.00 >= 6.00
    let sample = LoadSample { load1: 600, load5: 100, load15: 50, cpu_count: 4 };
    let (status, _) = evaluate(&sample, &flat_thresholds()).unwrap();
    assert_eq!(status, Status::Critical);
}

#[test]
fn critical_on_late_period_dominates_earlier_warning() {
    let sample = LoadSample { load1: 400, load5: 100, load15: 700, cpu_count: 4 };
    let (status, _) = evaluate(&sample, &flat_thresholds()).unwrap();
    assert_eq!(status, Status::Critical);
}

#[test]
fn inverted_thresholds_are_a_config_error() {
    let t = ThresholdSet {
        warn1: 90,
        warn5: 90,
        warn15: 90,
        crit1: 50,
        crit5: 150,
        crit15: 150,
    };
    let sample = LoadSample { load1: 0, load5: 0, load15: 0, cpu_count: 1 };
    assert_eq!(evaluate(&sample, &t), Err(ConfigError::InvertedThresholds));
}

#[test]
fn exit_codes_follow_severity() {
    assert_eq!(exit_code(Status::Okay), 0);
    assert_eq!(exit_code(Status::Warning), 1);
    assert_eq!(exit_code(Status::Critical), 2);
    assert_eq!(UNKNOWN_EXIT_CODE, 3);
}

#[test]
fn report_line_is_exact() {
    let sample = LoadSample { load1: 300, load5: 100, load15: 50, cpu_count: 4 };
    let bounds = Bounds {
        warn1: 360,
        warn5: 360,
        warn15: 360,
        crit1: 600,
        crit5: 600,
        crit15: 600,
    };
    let line = format_report(Status::Okay, &sample, &bounds);
    assert_eq!(
        line,
        "Ok: load average is good 3.00,1.00,0.50 | \
         load1 = 3.00;3.60;6.00; load5 = 1.00;3.60;6.00; load15 = 0.50;3.60;6.00; "
    );
}

#[test]
fn report_formats_zero_and_wide_values() {
    let sample = LoadSample { load1: 0, load5: 12345, load15: 7, cpu_count: 100 };
    let bounds = Bounds {
        warn1: 9000,
        warn5: 9000,
        warn15: 9000,
        crit1: 15000,
        crit5: 15000,
        crit15: 15000,
    };
    let line = format_report(Status::Warning, &sample, &bounds);
    assert_eq!(
        line,
        "Warning: load average is very high 0.00,123.45,0.07 | \
         load1 = 0.00;90.00;150.00; load5 = 123.45;90.00;150.00; load15 = 0.07;90.00;150.00; "
    );
}

#[test]
fn format_is_deterministic() {
    let sample = LoadSample { load1: 123, load5: 45, load15: 6789, cpu_count: 3 };
    let bounds = Bounds {
        warn1: 270,
        warn5: 270,
        warn15: 270,
        crit1: 450,
        crit5: 450,
        crit15: 450,
    };
    let a = format_report(Status::Critical, &sample, &bounds);
    let b = format_report(Status::Critical, &sample, &bounds);
    assert_eq!(a, b);
    assert_eq!(exit_code(Status::Critical), exit_code(Status::Critical));
}

#[test]
fn run_check_okay_scenario() {
    let (line, code) = run_check("3.00 1.00 0.50 1/200 1234 4", &flat_thresholds());
    assert_eq!(
        line,
        "Ok: load average is good 3.00,1.00,0.50 | \
         load1 = 3.00;3.60;6.00; load5 = 1.00;3.60;6.00; load15 = 0.50;3.60;6.00; "
    );
    assert_eq!(code, 0);
}

#[test]
fn run_check_warning_scenario() {
    let (line, code) = run_check("4.00 1.00 0.50 1/200 1234 4", &flat_thresholds());
    assert_eq!(
        line,
        "Warning: load average is very high 4.00,1.00,0.50 | \
         load1 = 4.00;3.60;6.00; load5 = 1.00;3.60;6.00; load15 = 0.50;3.60;6.00; "
    );
    assert_eq!(code, 1);
}

#[test]
fn run_check_critical_scenario() {
    let (line, code) = run_check("7.25 1.00 0.50 1/200 1234 4", &flat_thresholds());
    assert_eq!(
        line,
        "Critical: load average is too high 7.25,1.00,0.50 | \
         load1 = 7.25;3.60;6.00; load5 = 1.00;3.60;6.00; load15 = 0.50;3.60;6.00; "
    );
    assert_eq!(code, 2);
}

#[test]
fn run_check_single_core() {
    let t = flat_thresholds();
    let (line, code) = run_check("0.95 0.10 0.10 1/50 99 1", &t);
    assert_eq!(
        line,
        "Warning: load average is very high 0.95,0.10,0.10 | \
         load1 = 0.95;0.90;1.50; load5 = 0.10;0.90;1.50; load15 = 0.10;0.90;1.50; "
    );
    assert_eq!(code, 1);
}

#[test]
fn run_check_malformed_output() {
    let (line, code) = run_check("0.10 0.20", &flat_thresholds());
    assert_eq!(
        line,
        "Unknown: malformed remote output, expected at least 6 fields"
    );
    assert_eq!(code, UNKNOWN_EXIT_CODE);
}

#[test]
fn run_check_invalid_number() {
    let (line, code) = run_check("a b c d e f", &flat_thresholds());
    assert_eq!(line, "Unknown: remote output holds an invalid number");
    assert_eq!(code, UNKNOWN_EXIT_CODE);
}

#[test]
fn run_check_inverted_thresholds() {
    let t = ThresholdSet {
        warn1: 90,
        warn5: 90,
        warn15: 90,
        crit1: 50,
        crit5: 150,
        crit15: 150,
    };
    let (line, code) = run_check("0.10 0.20 0.30 1/200 1234 4", &t);
    assert_eq!(
        line,
        "Unknown: critical thresholds must not be lower than warning thresholds, fix -w and -c"
    );
    assert_eq!(code, UNKNOWN_EXIT_CODE);
}

#[test]
fn transport_diagnostic_preserves_cause() {
    let line = transport_diagnostic("connection refused");
    assert_eq!(line, "Unknown: transport failure, connection refused");
}
