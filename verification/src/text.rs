//! Verified decimal formatting used for durations, positions and messages.

use vstd::prelude::*;

verus! {

/// Relies on std's `String::push`, which vstd leaves unspecified: it appends
/// the given character to the end of the string.
pub assume_specification[ String::push ](s: &mut String, c: char)
    ensures
        final(s)@ == old(s)@.push(c),
;

/// The decimal digit character for a value below ten.
pub open spec fn dec_digit(d: nat) -> char
    recommends
        d < 10,
{
    if d == 0 {
        '0'
    } else if d == 1 {
        '1'
    } else if d == 2 {
        '2'
    } else if d == 3 {
        '3'
    } else if d == 4 {
        '4'
    } else if d == 5 {
        '5'
    } else if d == 6 {
        '6'
    } else if d == 7 {
        '7'
    } else if d == 8 {
        '8'
    } else {
        '9'
    }
}

/// The decimal representation of a natural number, most significant digit
/// first, with no leading zeros (a single zero for zero itself).
pub open spec fn dec_rep(n: nat) -> Seq<char>
    decreases n,
{
    if n < 10 {
        seq![dec_digit(n)]
    } else {
        dec_rep(n / 10).push(dec_digit(n % 10))
    }
}

/// The decimal representation padded with a leading zero to two places,
/// as in the seconds half of an `M:SS` clock.
pub open spec fn dec_rep2(n: nat) -> Seq<char> {
    if n < 10 {
        seq!['0'].push(dec_digit(n))
    } else {
        dec_rep(n)
    }
}

/// An `M:SS` clock representation of a number of seconds.
pub open spec fn clock_rep(total_secs: nat) -> Seq<char> {
    dec_rep(total_secs / 60) + seq![':'] + dec_rep2(total_secs % 60)
}

/// One decimal digit as a string slice.
fn dec_digit_str(d: u64) -> (r: &'static str)
    requires
        d < 10,
    ensures
        r@ =~= seq![dec_digit(d as nat)],
{
    proof {
        reveal_strlit("0");
        reveal_strlit("1");
        reveal_strlit("2");
        reveal_strlit("3");
        reveal_strlit("4");
        reveal_strlit("5");
        reveal_strlit("6");
        reveal_strlit("7");
        reveal_strlit("8");
        reveal_strlit("9");
    }
    match d {
        0 => "0",
        1 => "1",
        2 => "2",
        3 => "3",
        4 => "4",
        5 => "5",
        6 => "6",
        7 => "7",
        8 => "8",
        _ => "9",
    }
}

/// Format a number in decimal.
pub fn u64_to_dec(n: u64) -> (s: String)
    ensures
        s@ == dec_rep(n as nat),
    decreases n,
{
    if n < 10 {
        String::from_str(dec_digit_str(n))
    } else {
        proof {
            assert(n / 10 < n) by (nonlinear_arith)
                requires
                    n >= 10,
            ;
        }
        let mut s = u64_to_dec(n / 10);
        s.append(dec_digit_str(n % 10));
        s
    }
}

/// Format a number in decimal, zero-padded to at least two places.
pub fn u64_to_dec2(n: u64) -> (s: String)
    ensures
        s@ == dec_rep2(n as nat),
{
    if n < 10 {
        let mut s = String::from_str("0");
        proof {
            reveal_strlit("0");
            assert(s@ =~= seq!['0']);
        }
        s.append(dec_digit_str(n));
        proof {
            assert(s@ =~= seq!['0'].push(dec_digit(n as nat)));
        }
        s
    } else {
        u64_to_dec(n)
    }
}

/// Format a number of seconds as an `M:SS` clock.
pub fn u64_to_clock(total_secs: u64) -> (s: String)
    ensures
        s@ == clock_rep(total_secs as nat),
{
    let mut s = u64_to_dec(total_secs / 60);
    s.append(":");
    let tail = u64_to_dec2(total_secs % 60);
    s.append(tail.as_str());
    proof {
        reveal_strlit(":");
        assert(":"@ =~= seq![':']);
        assert(s@ =~= clock_rep(total_secs as nat));
    }
    s
}

} // verus!
