//! Decimal digits: their values, the value of a digit run, and verified
//! rendering of integers and centi (hundredths) fixed-point values.
use vstd::prelude::*;
use vstd::string::StringExecFns;

verus! {

/// `c` is a decimal digit.
pub open spec fn is_digit(c: char) -> bool {
    48 <= c as u32 <= 57
}

/// Numeric value of a digit character; zero for anything else.
pub open spec fn digit_val(c: char) -> nat {
    if is_digit(c) {
        (c as u32 - 48) as nat
    } else {
        0
    }
}

/// Every character of `s` in `[i, j)` is a decimal digit.
pub open spec fn all_digits_range(s: Seq<char>, i: int, j: int) -> bool {
    forall|k: int| i <= k < j ==> is_digit(#[trigger] s[k])
}

/// Value of the digit run `s[i..j)`, most significant digit first.
pub open spec fn digits_val(s: Seq<char>, i: int, j: int) -> nat
    decreases j - i,
{
    if 0 <= i && i < j && j <= s.len() {
        digits_val(s, i, j - 1) * 10 + digit_val(s[j - 1])
    } else {
        0
    }
}

/// Extending a digit run to the right never decreases its value.
pub proof fn lemma_digits_val_mono(s: Seq<char>, i: int, k: int, j: int)
    requires
        0 <= i <= k <= j <= s.len(),
    ensures
        digits_val(s, i, k) <= digits_val(s, i, j),
    decreases j - k,
{
    if k < j {
        lemma_digits_val_mono(s, i, k, j - 1);
    }
}

/// Digit character of a value below ten; `'0'` for anything else.
pub open spec fn digit_char(d: nat) -> char {
    if d == 1 {
        '1'
    } else if d == 2 {
        '2'
    } else if d == 3 {
        '3'
    } else if d == 4 {
        '4'
    } else if d == 5 {
        '5'
    } else if d == 6 {
        '6'
    } else if d == 7 {
        '7'
    } else if d == 8 {
        '8'
    } else if d == 9 {
        '9'
    } else {
        '0'
    }
}

/// Shortest decimal rendering of `n`, most significant digit first.
pub open spec fn dec_digits(n: nat) -> Seq<char>
    decreases n,
{
    if n < 10 {
        seq![digit_char(n)]
    } else {
        dec_digits(n / 10).push(digit_char(n % 10))
    }
}

/// Rendering of a centi (hundredths) fixed-point value with exactly two
/// decimal places: `360` renders as `3.60`.
pub open spec fn centi_chars(v: nat) -> Seq<char> {
    dec_digits(v / 100) + seq!['.', digit_char((v / 10) % 10), digit_char(v % 10)]
}

fn digit_str(d: u128) -> (r: &'static str)
    requires
        d < 10,
    ensures
        r@ == seq![digit_char(d as nat)],
{
    match d {
        0 => {
            proof {
                reveal_strlit("0");
            }
            assert("0"@ =~= seq![digit_char(0)]);
            "0"
        },
        1 => {
            proof {
                reveal_strlit("1");
            }
            assert("1"@ =~= seq![digit_char(1)]);
            "1"
        },
        2 => {
            proof {
                reveal_strlit("2");
            }
            assert("2"@ =~= seq![digit_char(2)]);
            "2"
        },
        3 => {
            proof {
                reveal_strlit("3");
            }
            assert("3"@ =~= seq![digit_char(3)]);
            "3"
        },
        4 => {
            proof {
                reveal_strlit("4");
            }
            assert("4"@ =~= seq![digit_char(4)]);
            "4"
        },
        5 => {
            proof {
                reveal_strlit("5");
            }
            assert("5"@ =~= seq![digit_char(5)]);
            "5"
        },
        6 => {
            proof {
                reveal_strlit("6");
            }
            assert("6"@ =~= seq![digit_char(6)]);
            "6"
        },
        7 => {
            proof {
                reveal_strlit("7");
            }
            assert("7"@ =~= seq![digit_char(7)]);
            "7"
        },
        8 => {
            proof {
                reveal_strlit("8");
            }
            assert("8"@ =~= seq![digit_char(8)]);
            "8"
        },
        _ => {
            assert(d == 9);
            proof {
                reveal_strlit("9");
            }
            assert("9"@ =~= seq![digit_char(9)]);
            "9"
        },
    }
}

/// Append the shortest decimal rendering of `v` to `out`.
pub fn push_u128_dec(out: &mut String, v: u128)
    ensures
        final(out)@ == old(out)@ + dec_digits(v as nat),
    decreases v,
{
    if v < 10 {
        out.append(digit_str(v));
        assert(out@ =~= old(out)@ + dec_digits(v as nat));
    } else {
        push_u128_dec(out, v / 10);
        out.append(digit_str(v % 10));
        assert((v % 10) as nat == (v as nat) % 10);
        assert((v / 10) as nat == (v as nat) / 10);
        assert(out@ =~= old(out)@ + dec_digits(v as nat));
    }
}

/// Append the two-decimal rendering of the centi value `v` to `out`.
pub fn push_centi(out: &mut String, v: u128)
    ensures
        final(out)@ == old(out)@ + centi_chars(v as nat),
{
    push_u128_dec(out, v / 100);
    proof {
        reveal_strlit(".");
    }
    out.append(".");
    out.append(digit_str((v / 10) % 10));
    out.append(digit_str(v % 10));
    assert(out@ =~= old(out)@ + centi_chars(v as nat));
}

} // verus!
