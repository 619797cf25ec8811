//! Numbers as text.

use crate::point::Fixed;
use vstd::prelude::*;

verus! {

/// The numeral of a single digit.
pub open spec fn digit_text(d: nat) -> Seq<char>
    recommends
        d < 10,
{
    if d == 0 {
        "0"@
    } else if d == 1 {
        "1"@
    } else if d == 2 {
        "2"@
    } else if d == 3 {
        "3"@
    } else if d == 4 {
        "4"@
    } else if d == 5 {
        "5"@
    } else if d == 6 {
        "6"@
    } else if d == 7 {
        "7"@
    } else if d == 8 {
        "8"@
    } else {
        "9"@
    }
}

/// The decimal numeral of `n`, without leading zeros.
pub open spec fn decimal(n: nat) -> Seq<char>
    decreases n,
{
    if n < 10 {
        digit_text(n)
    } else {
        decimal(n / 10) + digit_text(n % 10)
    }
}

/// The size of `milli` thousandths in tenths, halves rounded up.
pub open spec fn tenths(milli: int) -> nat {
    if milli < 0 {
        ((-milli + 50) / 100) as nat
    } else {
        ((milli + 50) / 100) as nat
    }
}

/// A real number with one digit after the point: a minus sign if it lies
/// below zero, its whole part, a point, and its tenths.
pub open spec fn one_decimal(value: Fixed) -> Seq<char> {
    let sign = if value.milli < 0 {
        "-"@
    } else {
        Seq::<char>::empty()
    };
    sign + decimal(tenths(value.milli as int) / 10) + "."@ + digit_text(tenths(value.milli as int) % 10)
}

/// The numeral of the digit `d`.
pub fn digit_str(d: u64) -> (text: &'static str)
    requires
        d < 10,
    ensures
        text@ == digit_text(d as nat),
{
    if d == 0 {
        "0"
    } else if d == 1 {
        "1"
    } else if d == 2 {
        "2"
    } else if d == 3 {
        "3"
    } else if d == 4 {
        "4"
    } else if d == 5 {
        "5"
    } else if d == 6 {
        "6"
    } else if d == 7 {
        "7"
    } else if d == 8 {
        "8"
    } else {
        "9"
    }
}

/// Appends the decimal numeral of `n` to `out`.
pub fn push_decimal(out: &mut String, n: u64)
    ensures
        final(out)@ == old(out)@ + decimal(n as nat),
    decreases n,
{
    if n >= 10 {
        push_decimal(out, n / 10);
    }
    out.append(digit_str(n % 10));
    assert(old(out)@ + decimal((n / 10) as nat) + digit_text((n % 10) as nat) == old(out)@ + (decimal(
        (n / 10) as nat,
    ) + digit_text((n % 10) as nat)));
}

/// Appends `value` with one digit after the point to `out`.
pub fn push_one_decimal(out: &mut String, value: Fixed)
    ensures
        final(out)@ == old(out)@ + one_decimal(value),
{
    let wide: i64 = value.milli as i64;
    let size: u64 = if wide < 0 {
        out.append("-");
        (-wide) as u64
    } else {
        wide as u64
    };
    let rounded: u64 = (size + 50) / 100;
    push_decimal(out, rounded / 10);
    out.append(".");
    out.append(digit_str(rounded % 10));
}

} // verus!
