use check_distant_linux::parse::{parse_load, parse_output, parse_thresholds, parse_triple};
use check_distant_linux::sample::{LoadSample, ParseError, ThresholdSet};
use check_distant_linux::tokenize::tokenize;

#[test]
fn well_formed_line_parses() {
    let r = parse_output("0.10 0.20 0.30 1/200 1234 4");
    assert_eq!(
        r,
        Ok(LoadSample { load1: 10, load5: 20, load15: 30, cpu_count: 4 })
    );
}

#[test]
fn too_few_fields_is_malformed() {
    assert_eq!(parse_output("0.10 0.20"), Err(ParseError::MalformedOutput));
    assert_eq!(parse_output(""), Err(ParseError::MalformedOutput));
    assert_eq!(parse_output("   "), Err(ParseError::MalformedOutput));
}

#[test]
fn non_numeric_fields_are_invalid() {
    assert_eq!(parse_output("a b c d e f"), Err(ParseError::InvalidNumber));
}

#[test]
fn extra_fields_are_tolerated() {
    let r = parse_output("1.50 0.75 0.25 2/300 999 8 trailing junk");
    assert_eq!(
        r,
        Ok(LoadSample { load1: 150, load5: 75, load15: 25, cpu_count: 8 })
    );
}

#[test]
fn surrounding_and_mixed_whitespace() {
    let r = parse_output("  0.10\t0.20  0.30\n1/200 1234\t16\r\n");
    assert_eq!(
        r,
        Ok(LoadSample { load1: 10, load5: 20, load15: 30, cpu_count: 16 })
    );
}

#[test]
fn zero_cpu_count_is_invalid() {
    assert_eq!(
        parse_output("0.10 0.20 0.30 1/200 1234 0"),
        Err(ParseError::InvalidNumber)
    );
}

#[test]
fn negative_cpu_count_is_invalid() {
    assert_eq!(
        parse_output("0.10 0.20 0.30 1/200 1234 -2"),
        Err(ParseError::InvalidNumber)
    );
}

#[test]
fn positive_sign_on_cpu_count_is_accepted() {
    let r = parse_output("0.00 0.00 0.00 1/200 1234 +3");
    assert_eq!(
        r,
        Ok(LoadSample { load1: 0, load5: 0, load15: 0, cpu_count: 3 })
    );
}

#[test]
fn negative_load_is_invalid() {
    assert_eq!(
        parse_output("-0.10 0.20 0.30 1/200 1234 4"),
        Err(ParseError::InvalidNumber)
    );
}

#[test]
fn load_token_shapes() {
    assert_eq!(parse_load("0.10"), Ok(10));
    assert_eq!(parse_load("3"), Ok(300));
    assert_eq!(parse_load("1.5"), Ok(150));
    assert_eq!(parse_load("1."), Ok(100));
    assert_eq!(parse_load(".5"), Ok(50));
    // fraction digits beyond the second are truncated
    assert_eq!(parse_load("1.239"), Ok(123));
    assert_eq!(parse_load(""), Err(ParseError::InvalidNumber));
    assert_eq!(parse_load("."), Err(ParseError::InvalidNumber));
    assert_eq!(parse_load("1..2"), Err(ParseError::InvalidNumber));
    assert_eq!(parse_load("1.2.3"), Err(ParseError::InvalidNumber));
    assert_eq!(parse_load("1e3"), Err(ParseError::InvalidNumber));
    assert_eq!(parse_load("nan"), Err(ParseError::InvalidNumber));
}

#[test]
fn oversized_numbers_are_invalid() {
    // the integer part alone no longer fits the centi representation
    assert_eq!(
        parse_load("999999999999999999999"),
        Err(ParseError::InvalidNumber)
    );
    assert_eq!(
        parse_output("0.10 0.20 0.30 1/200 1234 99999999999999999999"),
        Err(ParseError::InvalidNumber)
    );
}

#[test]
fn tokenizer_splits_on_whitespace_runs() {
    let toks = tokenize(" one  two\tthree ");
    assert_eq!(toks.len(), 3);
    assert_eq!(toks[0], "one");
    assert_eq!(toks[1], "two");
    assert_eq!(toks[2], "three");
    assert_eq!(tokenize("").len(), 0);
}

#[test]
fn threshold_triples_parse() {
    assert_eq!(parse_triple("0.9,0.9,0.9"), Ok((90, 90, 90)));
    assert_eq!(parse_triple("1.5,1.5,1.5"), Ok((150, 150, 150)));
    assert_eq!(parse_triple("1,2,3"), Ok((100, 200, 300)));
    assert_eq!(parse_triple("0.9,0.9"), Err(ParseError::MalformedOutput));
    assert_eq!(
        parse_triple("0.9,0.9,0.9,0.9"),
        Err(ParseError::MalformedOutput)
    );
    assert_eq!(parse_triple("0.9,,0.9"), Err(ParseError::InvalidNumber));
    assert_eq!(parse_triple("a,b,c"), Err(ParseError::InvalidNumber));
}

#[test]
fn threshold_set_from_two_triples() {
    let r = parse_thresholds("0.9,0.8,0.7", "1.5,1.4,1.3");
    assert_eq!(
        r,
        Ok(ThresholdSet {
            warn1: 90,
            warn5: 80,
            warn15: 70,
            crit1: 150,
            crit5: 140,
            crit15: 130,
        })
    );
    assert_eq!(
        parse_thresholds("bad", "1.5,1.4,1.3"),
        Err(ParseError::MalformedOutput)
    );
}
