//! Metric parser: turns the remote diagnostic line into a `LoadSample`, and
//! threshold triples of the form `v1,v5,v15` into per-core centi multipliers.
use vstd::prelude::*;
use vstd::string::StrSliceExecFns;
use crate::numbers::{all_digits_range, digit_val, digits_val, is_digit, lemma_digits_val_mono};
use crate::sample::{LoadSample, ParseError, ThresholdSet};
use crate::tokenize::{spec_tokens, tokenize, views_of};

verus! {

/// Index of the first occurrence of `ch` in `s` at or after `from`;
/// `s.len()` when there is none.
pub open spec fn seek(s: Seq<char>, ch: char, from: int) -> int
    decreases s.len() - from,
{
    if !(0 <= from <= s.len()) {
        s.len() as int
    } else if from == s.len() {
        from
    } else if s[from] == ch {
        from
    } else {
        seek(s, ch, from + 1)
    }
}

/// A scan that stops at `d` on `ch` (or at the end) finds exactly `seek`.
proof fn lemma_seek_of_scan(s: Seq<char>, ch: char, from: int, d: int)
    requires
        0 <= from <= d <= s.len(),
        d == s.len() || s[d] == ch,
        forall|j: int| from <= j < d ==> s[j] != ch,
    ensures
        seek(s, ch, from) == d,
    decreases d - from,
{
    if from < d {
        lemma_seek_of_scan(s, ch, from + 1, d);
    }
}

/// `seek` stays within bounds, lands on `ch`, and skips no occurrence.
pub proof fn lemma_seek_bounds(s: Seq<char>, ch: char, from: int)
    requires
        0 <= from <= s.len(),
    ensures
        from <= seek(s, ch, from) <= s.len(),
        seek(s, ch, from) < s.len() ==> s[seek(s, ch, from)] == ch,
        forall|j: int| from <= j < seek(s, ch, from) ==> s[j] != ch,
    decreases s.len() - from,
{
    if from < s.len() && s[from] != ch {
        lemma_seek_bounds(s, ch, from + 1);
    }
}

fn find_char(s: &str, ch: char, from: usize) -> (d: usize)
    requires
        from <= s@.len(),
    ensures
        d == seek(s@, ch, from as int),
        from <= d <= s@.len(),
{
    let n: usize = s.unicode_len();
    let mut k: usize = from;
    while k < n
        invariant
            from <= k <= n,
            n == s@.len(),
            forall|j: int| from <= j < k ==> s@[j] != ch,
        decreases n - k,
    {
        if s.get_char(k) == ch {
            proof {
                lemma_seek_of_scan(s@, ch, from as int, k as int);
            }
            return k;
        }
        k = k + 1;
    }
    proof {
        lemma_seek_of_scan(s@, ch, from as int, n as int);
    }
    n
}

/// Parse the digit run `s[lo..hi)`; `None` when a character is not a digit or
/// the value does not fit in a `u64`.
fn parse_digits(s: &str, lo: usize, hi: usize) -> (r: Option<u64>)
    requires
        lo <= hi <= s@.len(),
    ensures
        r is Some <==> all_digits_range(s@, lo as int, hi as int) && digits_val(
            s@,
            lo as int,
            hi as int,
        ) <= u64::MAX,
        r is Some ==> r->0 == digits_val(s@, lo as int, hi as int),
{
    let mut acc: u128 = 0;
    let mut k: usize = lo;
    while k < hi
        invariant
            lo <= k <= hi <= s@.len(),
            all_digits_range(s@, lo as int, k as int),
            acc == digits_val(s@, lo as int, k as int),
            acc <= u64::MAX,
        decreases hi - k,
    {
        let c = s.get_char(k);
        let u: u32 = c as u32;
        if u < 48 || u > 57 {
            assert(!is_digit(s@[k as int]));
            return None;
        }
        let d: u128 = (u - 48) as u128;
        let newacc: u128 = acc * 10 + d;
        if newacc > u64::MAX as u128 {
            proof {
                assert(digits_val(s@, lo as int, k as int + 1) == acc * 10 + digit_val(
                    s@[k as int],
                ));
                lemma_digits_val_mono(s@, lo as int, k as int + 1, hi as int);
            }
            return None;
        }
        acc = newacc;
        k = k + 1;
    }
    Some(acc as u64)
}

fn check_digits(s: &str, lo: usize, hi: usize) -> (r: bool)
    requires
        lo <= hi <= s@.len(),
    ensures
        r == all_digits_range(s@, lo as int, hi as int),
{
    let mut k: usize = lo;
    while k < hi
        invariant
            lo <= k <= hi <= s@.len(),
            all_digits_range(s@, lo as int, k as int),
        decreases hi - k,
    {
        let u: u32 = s.get_char(k) as u32;
        if u < 48 || u > 57 {
            assert(!is_digit(s@[k as int]));
            return false;
        }
        k = k + 1;
    }
    true
}

fn digit_at(s: &str, k: usize) -> (d: u64)
    requires
        k < s@.len(),
        is_digit(s@[k as int]),
    ensures
        d == digit_val(s@[k as int]),
{
    let u: u32 = s.get_char(k) as u32;
    (u - 48) as u64
}

/// `t` is a non-negative decimal number: digits with at most one decimal
/// point, and at least one digit.
pub open spec fn valid_load_token(t: Seq<char>) -> bool {
    let d = seek(t, '.', 0);
    if d == t.len() {
        t.len() >= 1 && all_digits_range(t, 0, d)
    } else {
        t.len() >= 2 && all_digits_range(t, 0, d) && all_digits_range(t, d + 1, t.len() as int)
    }
}

/// Centi value of the fraction digits starting at `f`, truncated to two
/// decimal places.
pub open spec fn frac_centi(t: Seq<char>, f: int) -> nat {
    if t.len() - f >= 2 {
        digit_val(t[f]) * 10 + digit_val(t[f + 1])
    } else if t.len() - f == 1 {
        digit_val(t[f]) * 10
    } else {
        0
    }
}

/// Value of a load token in hundredths, truncated beyond two decimal places.
pub open spec fn load_centi(t: Seq<char>) -> nat {
    let d = seek(t, '.', 0);
    if d == t.len() {
        digits_val(t, 0, d) * 100
    } else {
        digits_val(t, 0, d) * 100 + frac_centi(t, d + 1)
    }
}

/// `t` parses as a load value that fits the sample's centi representation.
pub open spec fn ok_load(t: Seq<char>) -> bool {
    valid_load_token(t) && load_centi(t) <= u64::MAX
}

/// Parse one load-average token into hundredths.
pub fn parse_load(t: &str) -> (r: Result<u64, ParseError>)
    ensures
        ok_load(t@) ==> r == Ok::<u64, ParseError>(load_centi(t@) as u64),
        !ok_load(t@) ==> r == Err::<u64, ParseError>(ParseError::InvalidNumber),
{
    let n: usize = t.unicode_len();
    let d: usize = find_char(t, '.', 0);
    proof {
        lemma_seek_bounds(t@, '.', 0);
    }
    if d == n {
        if n < 1 {
            return Err(ParseError::InvalidNumber);
        }
        match parse_digits(t, 0, d) {
            None => {
                proof {
                    if valid_load_token(t@) {
                        assert(load_centi(t@) >= digits_val(t@, 0, d as int));
                    }
                }
                Err(ParseError::InvalidNumber)
            },
            Some(v) => {
                let centi: u128 = v as u128 * 100;
                if centi > u64::MAX as u128 {
                    Err(ParseError::InvalidNumber)
                } else {
                    Ok(centi as u64)
                }
            },
        }
    } else {
        if n < 2 {
            return Err(ParseError::InvalidNumber);
        }
        if !check_digits(t, d + 1, n) {
            return Err(ParseError::InvalidNumber);
        }
        let fc: u64 = if d + 1 < n {
            let first = digit_at(t, d + 1);
            if d + 2 < n {
                first * 10 + digit_at(t, d + 2)
            } else {
                first * 10
            }
        } else {
            0
        };
        assert(fc == frac_centi(t@, d as int + 1));
        match parse_digits(t, 0, d) {
            None => {
                proof {
                    if valid_load_token(t@) {
                        assert(load_centi(t@) >= digits_val(t@, 0, d as int));
                    }
                }
                Err(ParseError::InvalidNumber)
            },
            Some(v) => {
                let centi: u128 = v as u128 * 100 + fc as u128;
                if centi > u64::MAX as u128 {
                    Err(ParseError::InvalidNumber)
                } else {
                    Ok(centi as u64)
                }
            },
        }
    }
}

/// `t` is a signed decimal integer: an optional sign and at least one digit.
pub open spec fn valid_cpu_token(t: Seq<char>) -> bool {
    if t.len() == 0 {
        false
    } else if t[0] == '+' || t[0] == '-' {
        t.len() >= 2 && all_digits_range(t, 1, t.len() as int)
    } else {
        all_digits_range(t, 0, t.len() as int)
    }
}

/// Signed value of a core-count token.
pub open spec fn cpu_val(t: Seq<char>) -> int {
    if t.len() > 0 && t[0] == '-' {
        -(digits_val(t, 1, t.len() as int) as int)
    } else if t.len() > 0 && t[0] == '+' {
        digits_val(t, 1, t.len() as int) as int
    } else {
        digits_val(t, 0, t.len() as int) as int
    }
}

/// `t` parses as a usable core count: at least one core, within `i64`.
pub open spec fn ok_cpu(t: Seq<char>) -> bool {
    valid_cpu_token(t) && 1 <= cpu_val(t) <= i64::MAX
}

/// Parse the core-count token; zero or negative counts are rejected so the
/// threshold scaling never degenerates.
pub fn parse_cpu(t: &str) -> (r: Result<i64, ParseError>)
    ensures
        ok_cpu(t@) ==> r == Ok::<i64, ParseError>(cpu_val(t@) as i64),
        !ok_cpu(t@) ==> r == Err::<i64, ParseError>(ParseError::InvalidNumber),
{
    let n: usize = t.unicode_len();
    if n == 0 {
        return Err(ParseError::InvalidNumber);
    }
    let c0 = t.get_char(0);
    if c0 == '-' {
        return Err(ParseError::InvalidNumber);
    }
    let lo: usize = if c0 == '+' {
        1
    } else {
        0
    };
    if lo == 1 && n < 2 {
        return Err(ParseError::InvalidNumber);
    }
    match parse_digits(t, lo, n) {
        None => Err(ParseError::InvalidNumber),
        Some(v) => {
            if v == 0 || v > i64::MAX as u64 {
                Err(ParseError::InvalidNumber)
            } else {
                Ok(v as i64)
            }
        },
    }
}

/// What parsing a threshold triple `v1,v5,v15` returns: three centi values,
/// or an error naming whether the shape or a number was at fault.
pub open spec fn spec_triple(t: Seq<char>) -> Result<(u64, u64, u64), ParseError> {
    let i = seek(t, ',', 0);
    if i == t.len() {
        Err(ParseError::MalformedOutput)
    } else {
        let j = seek(t, ',', i + 1);
        if j == t.len() {
            Err(ParseError::MalformedOutput)
        } else if seek(t, ',', j + 1) != t.len() {
            Err(ParseError::MalformedOutput)
        } else {
            let a = t.subrange(0, i);
            let b = t.subrange(i + 1, j);
            let c = t.subrange(j + 1, t.len() as int);
            if ok_load(a) && ok_load(b) && ok_load(c) {
                Ok((load_centi(a) as u64, load_centi(b) as u64, load_centi(c) as u64))
            } else {
                Err(ParseError::InvalidNumber)
            }
        }
    }
}

/// Parse a threshold triple `v1,v5,v15` into three per-core centi
/// multipliers.
pub fn parse_triple(s: &str) -> (r: Result<(u64, u64, u64), ParseError>)
    ensures
        r == spec_triple(s@),
{
    let n: usize = s.unicode_len();
    let i: usize = find_char(s, ',', 0);
    if i == n {
        return Err(ParseError::MalformedOutput);
    }
    let j: usize = find_char(s, ',', i + 1);
    if j == n {
        return Err(ParseError::MalformedOutput);
    }
    let k: usize = find_char(s, ',', j + 1);
    if k != n {
        return Err(ParseError::MalformedOutput);
    }
    let a = s.substring_char(0, i);
    let b = s.substring_char(i + 1, j);
    let c = s.substring_char(j + 1, n);
    let va = match parse_load(a) {
        Ok(v) => v,
        Err(_) => {
            return Err(ParseError::InvalidNumber);
        },
    };
    let vb = match parse_load(b) {
        Ok(v) => v,
        Err(_) => {
            return Err(ParseError::InvalidNumber);
        },
    };
    let vc = match parse_load(c) {
        Ok(v) => v,
        Err(_) => {
            return Err(ParseError::InvalidNumber);
        },
    };
    Ok((va, vb, vc))
}

/// What parsing the two threshold triples returns: warning first.
pub open spec fn spec_thresholds(w: Seq<char>, c: Seq<char>) -> Result<ThresholdSet, ParseError> {
    match spec_triple(w) {
        Err(e) => Err(e),
        Ok(wt) => match spec_triple(c) {
            Err(e) => Err(e),
            Ok(ct) => Ok(
                ThresholdSet {
                    warn1: wt.0,
                    warn5: wt.1,
                    warn15: wt.2,
                    crit1: ct.0,
                    crit5: ct.1,
                    crit15: ct.2,
                },
            ),
        },
    }
}

/// Parse the warning and critical threshold triples into a `ThresholdSet`.
/// Inversion of the two is not checked here: the evaluator rejects it as a
/// configuration defect.
pub fn parse_thresholds(warn: &str, crit: &str) -> (r: Result<ThresholdSet, ParseError>)
    ensures
        r == spec_thresholds(warn@, crit@),
{
    let (w1, w5, w15) = match parse_triple(warn) {
        Ok(t) => t,
        Err(e) => {
            return Err(e);
        },
    };
    let (c1, c5, c15) = match parse_triple(crit) {
        Ok(t) => t,
        Err(e) => {
            return Err(e);
        },
    };
    Ok(ThresholdSet { warn1: w1, warn5: w5, warn15: w15, crit1: c1, crit5: c5, crit15: c15 })
}

/// The remote line parses: at least six fields, three leading loads and a
/// sixth field holding a usable core count.
pub open spec fn parse_ok(s: Seq<char>) -> bool {
    let toks = spec_tokens(s);
    &&& toks.len() >= 6
    &&& ok_load(toks[0])
    &&& ok_load(toks[1])
    &&& ok_load(toks[2])
    &&& ok_cpu(toks[5])
}

/// The sample a well-formed remote line denotes.
pub open spec fn parsed_sample(s: Seq<char>) -> LoadSample {
    let toks = spec_tokens(s);
    LoadSample {
        load1: load_centi(toks[0]) as u64,
        load5: load_centi(toks[1]) as u64,
        load15: load_centi(toks[2]) as u64,
        cpu_count: cpu_val(toks[5]) as i64,
    }
}

/// What parsing the remote line returns.
pub open spec fn spec_parse(s: Seq<char>) -> Result<LoadSample, ParseError> {
    if spec_tokens(s).len() < 6 {
        Err(ParseError::MalformedOutput)
    } else if parse_ok(s) {
        Ok(parsed_sample(s))
    } else {
        Err(ParseError::InvalidNumber)
    }
}

/// Parse the remote diagnostic line: three load averages, two ignored
/// positional fields, and the core count, whitespace-separated.
pub fn parse_output(raw: &str) -> (r: Result<LoadSample, ParseError>)
    ensures
        r == spec_parse(raw@),
        r is Ok ==> r->Ok_0.wf(),
{
    let toks = tokenize(raw);
    assert(toks@.len() == views_of(toks@).len());
    if toks.len() < 6 {
        return Err(ParseError::MalformedOutput);
    }
    assert(toks@[0]@ == spec_tokens(raw@)[0]);
    assert(toks@[1]@ == spec_tokens(raw@)[1]);
    assert(toks@[2]@ == spec_tokens(raw@)[2]);
    assert(toks@[5]@ == spec_tokens(raw@)[5]);
    let load1 = match parse_load(toks[0].as_str()) {
        Ok(v) => v,
        Err(_) => {
            return Err(ParseError::InvalidNumber);
        },
    };
    let load5 = match parse_load(toks[1].as_str()) {
        Ok(v) => v,
        Err(_) => {
            return Err(ParseError::InvalidNumber);
        },
    };
    let load15 = match parse_load(toks[2].as_str()) {
        Ok(v) => v,
        Err(_) => {
            return Err(ParseError::InvalidNumber);
        },
    };
    let cpu_count = match parse_cpu(toks[5].as_str()) {
        Ok(v) => v,
        Err(_) => {
            return Err(ParseError::InvalidNumber);
        },
    };
    Ok(LoadSample { load1, load5, load15, cpu_count })
}

} // verus!
