//! Whitespace tokenization of the remote diagnostic line.
use vstd::prelude::*;
use vstd::string::StrSliceExecFns;

verus! {

/// Separators between fields of the remote output.
pub open spec fn is_space(c: char) -> bool {
    c == ' ' || c == '\t' || c == '\n' || c == '\r'
}

/// Tokens of `s` from index `i` on, with a token open since `start`
/// (`start == i` when no token is open).
pub open spec fn tokens_from(s: Seq<char>, i: int, start: int) -> Seq<Seq<char>>
    decreases s.len() - i,
{
    if !(0 <= start <= i <= s.len()) {
        Seq::empty()
    } else if i == s.len() {
        if start < i {
            seq![s.subrange(start, i)]
        } else {
            Seq::empty()
        }
    } else if is_space(s[i]) {
        if start < i {
            seq![s.subrange(start, i)] + tokens_from(s, i + 1, i + 1)
        } else {
            tokens_from(s, i + 1, i + 1)
        }
    } else {
        tokens_from(s, i + 1, start)
    }
}

/// The maximal whitespace-separated tokens of `s`, in order.
pub open spec fn spec_tokens(s: Seq<char>) -> Seq<Seq<char>> {
    tokens_from(s, 0, 0)
}

/// The views of a sequence of owned tokens.
pub open spec fn views_of(toks: Seq<String>) -> Seq<Seq<char>> {
    toks.map_values(|t: String| t@)
}

fn is_space_exec(c: char) -> (r: bool)
    ensures
        r == is_space(c),
{
    c == ' ' || c == '\t' || c == '\n' || c == '\r'
}

/// Split `s` into its maximal whitespace-separated tokens.
pub fn tokenize(s: &str) -> (toks: Vec<String>)
    ensures
        views_of(toks@) == spec_tokens(s@),
{
    let n: usize = s.unicode_len();
    let mut toks: Vec<String> = Vec::new();
    let mut i: usize = 0;
    let mut start: usize = 0;
    while i < n
        invariant
            start <= i <= n,
            n == s@.len(),
            spec_tokens(s@) == views_of(toks@) + tokens_from(s@, i as int, start as int),
        decreases n - i,
    {
        let c = s.get_char(i);
        if is_space_exec(c) {
            if start < i {
                let tok = s.substring_char(start, i);
                let ghost prev = toks@;
                toks.push(tok.to_owned());
                proof {
                    assert(views_of(toks@) =~= views_of(prev) + seq![
                        s@.subrange(start as int, i as int),
                    ]);
                    assert(views_of(prev) + (seq![s@.subrange(start as int, i as int)]
                        + tokens_from(s@, i + 1, i + 1)) =~= views_of(toks@) + tokens_from(
                        s@,
                        i + 1,
                        i + 1,
                    ));
                }
            }
            i = i + 1;
            start = i;
        } else {
            i = i + 1;
        }
    }
    if start < n {
        let tok = s.substring_char(start, n);
        let ghost prev = toks@;
        toks.push(tok.to_owned());
        proof {
            assert(views_of(toks@) =~= views_of(prev) + seq![s@.subrange(start as int, n as int)]);
        }
    }
    proof {
        assert(views_of(toks@) + Seq::<Seq<char>>::empty() =~= views_of(toks@));
    }
    toks
}

} // verus!
