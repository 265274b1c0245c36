use vstd::prelude::*;
use vstd::string::StringExecFns;

use crate::options::Options;

verus! {

/// The character that writes the decimal digit `d`.
pub open spec fn dec_digit(d: nat) -> char {
    if d == 0 {
        '0'
    } else if d == 1 {
        '1'
    } else if d == 2 {
        '2'
    } else if d == 3 {
        '3'
    } else if d == 4 {
        '4'
    } else if d == 5 {
        '5'
    } else if d == 6 {
        '6'
    } else if d == 7 {
        '7'
    } else if d == 8 {
        '8'
    } else {
        '9'
    }
}

/// The decimal writing of `n`, most significant digit first, with no sign
/// and no leading zero (except for `n == 0` itself).
pub open spec fn dec_rep(n: nat) -> Seq<char>
    decreases n,
{
    if n < 10 {
        seq![dec_digit(n)]
    } else {
        dec_rep(n / 10) + seq![dec_digit(n % 10)]
    }
}

/// The argument list handed to the external tailing utility: the follow flag
/// if following is on, then the trailing-line count if one was requested,
/// then the target path last.
pub open spec fn spec_tail_args(opts: Options, path: Seq<char>) -> Seq<Seq<char>> {
    (if opts.follow {
        seq!["-f"@]
    } else {
        Seq::<Seq<char>>::empty()
    }) + (match opts.num_lines {
        Some(n) => seq!["-n"@, dec_rep(n as nat)],
        None => Seq::<Seq<char>>::empty(),
    }) + seq![path]
}

/// The one-character string that writes the decimal digit `d`.
fn digit_str(d: usize) -> (s: &'static str)
    requires
        d < 10,
    ensures
        s@ =~= seq![dec_digit(d as nat)],
{
    proof {
        reveal_strlit("0");
        reveal_strlit("1");
        reveal_strlit("2");
        reveal_strlit("3");
        reveal_strlit("4");
        reveal_strlit("5");
        reveal_strlit("6");
        reveal_strlit("7");
        reveal_strlit("8");
        reveal_strlit("9");
    }
    match d {
        0 => "0",
        1 => "1",
        2 => "2",
        3 => "3",
        4 => "4",
        5 => "5",
        6 => "6",
        7 => "7",
        8 => "8",
        _ => "9",
    }
}

/// Append the decimal writing of `n` to `out`.
fn push_dec(n: usize, out: &mut String)
    ensures
        final(out)@ == old(out)@ + dec_rep(n as nat),
    decreases n,
{
    if n >= 10 {
        proof {
            assert(n / 10 < n) by (nonlinear_arith)
                requires
                    n >= 10,
            ;
        }
        push_dec(n / 10, out);
        let s = digit_str(n % 10);
        out.append(s);
        proof {
            assert(final(out)@ =~= old(out)@ + dec_rep(n as nat));
        }
    } else {
        let s = digit_str(n);
        out.append(s);
    }
}

/// The decimal writing of `n` as a string, exactly as [`dec_rep`] states it.
pub fn decimal_string(n: usize) -> (s: String)
    ensures
        s@ == dec_rep(n as nat),
{
    let mut s = String::new();
    push_dec(n, &mut s);
    proof {
        assert(s@ =~= dec_rep(n as nat));
    }
    s
}

impl Options {
    /// Assemble the exact argument list for the external tailing utility on
    /// `path`: `-f` present if and only if following is on, `-n` with the
    /// decimal count present if and only if a trailing-line count was
    /// requested, and the path last.
    pub fn tail_args(&self, path: &str) -> (args: Vec<String>)
        ensures
            args@.map_values(|a: String| a@) == spec_tail_args(*self, path@),
    {
        let mut args: Vec<String> = Vec::new();
        if self.follow {
            args.push("-f".to_owned());
        }
        if let Some(n) = self.num_lines {
            args.push("-n".to_owned());
            args.push(decimal_string(n));
        }
        args.push(path.to_owned());
        proof {
            assert(args@.map_values(|a: String| a@) =~= spec_tail_args(*self, path@));
        }
        args
    }
}

} // verus!
