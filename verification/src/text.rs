//! Decimal rendering of the numbers that appear in the diagnostic status
//! dump: plain non-negative integers, and fixed-point accumulators shown
//! with two fractional digits.

use vstd::prelude::*;
use vstd::string::StringExecFns;

use crate::cat::{MAX_UNITS, UNITS_PER_POINT};

verus! {

/// The single decimal digit character for `d` in `[0, 9]`.
pub open spec fn digit_str(d: int) -> Seq<char> {
    if d == 0 {
        "0"@
    } else if d == 1 {
        "1"@
    } else if d == 2 {
        "2"@
    } else if d == 3 {
        "3"@
    } else if d == 4 {
        "4"@
    } else if d == 5 {
        "5"@
    } else if d == 6 {
        "6"@
    } else if d == 7 {
        "7"@
    } else if d == 8 {
        "8"@
    } else {
        "9"@
    }
}

/// The usual decimal rendering of a non-negative integer, without leading
/// zeros (and `0` itself as a single digit). Negative inputs render empty.
pub open spec fn dec_str(n: int) -> Seq<char>
    decreases n,
{
    if n < 0 {
        Seq::empty()
    } else if n < 10 {
        digit_str(n)
    } else {
        dec_str(n / 10) + digit_str(n % 10)
    }
}

/// A fixed-point accumulator rendered as points with two fractional digits,
/// truncated: the integer part, a dot, then hundredths.
pub open spec fn units_display(units: int) -> Seq<char> {
    dec_str(units / (UNITS_PER_POINT as int)) + "."@ + frac2_str(
        units % (UNITS_PER_POINT as int),
    )
}

/// Two digits of hundredths for a sub-point remainder in
/// `[0, UNITS_PER_POINT)`.
pub open spec fn frac2_str(rem: int) -> Seq<char> {
    digit_str(rem * 100 / (UNITS_PER_POINT as int) / 10) + digit_str(
        rem * 100 / (UNITS_PER_POINT as int) % 10,
    )
}

fn digit_lit(d: u64) -> (s: &'static str)
    requires
        d < 10,
    ensures
        s@ == digit_str(d as int),
{
    match d {
        0 => "0",
        1 => "1",
        2 => "2",
        3 => "3",
        4 => "4",
        5 => "5",
        6 => "6",
        7 => "7",
        8 => "8",
        _ => "9",
    }
}

/// Render a non-negative integer in decimal.
pub fn u64_dec(n: u64) -> (s: String)
    ensures
        s@ == dec_str(n as int),
    decreases n,
{
    if n < 10 {
        digit_lit(n).to_owned()
    } else {
        let mut s = u64_dec(n / 10);
        s.append(digit_lit(n % 10));
        s
    }
}

/// Render an accumulator as points with two truncated fractional digits.
pub fn units_display_string(units: u64) -> (s: String)
    requires
        units <= MAX_UNITS,
    ensures
        s@ == units_display(units as int),
{
    let whole: u64 = units / UNITS_PER_POINT;
    let rem: u64 = units % UNITS_PER_POINT;
    let frac: u64 = rem * 100 / UNITS_PER_POINT;
    proof {
        assert(rem as int * 100 / (UNITS_PER_POINT as int) < 100) by (nonlinear_arith)
            requires
                0 <= rem < UNITS_PER_POINT as int,
        ;
    }
    let mut s = u64_dec(whole);
    s.append(".");
    s.append(digit_lit(frac / 10));
    s.append(digit_lit(frac % 10));
    proof {
        assert(s@ =~= units_display(units as int));
    }
    s
}

} // verus!
