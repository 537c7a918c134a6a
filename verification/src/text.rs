//! Text of numbers and durations, as error messages show them.

use vstd::prelude::*;

use crate::time::{Duration, NANOS_PER_MILLI, NANOS_PER_SEC};

verus! {

/// The character of a decimal digit.
pub open spec fn digit(value: nat) -> char {
    if value == 0 {
        '0'
    } else if value == 1 {
        '1'
    } else if value == 2 {
        '2'
    } else if value == 3 {
        '3'
    } else if value == 4 {
        '4'
    } else if value == 5 {
        '5'
    } else if value == 6 {
        '6'
    } else if value == 7 {
        '7'
    } else if value == 8 {
        '8'
    } else {
        '9'
    }
}

/// A number in decimal, without leading zeros.
pub open spec fn decimal(value: nat) -> Seq<char>
    decreases value,
{
    if value < 10 {
        seq![digit(value)]
    } else {
        decimal(value / 10).push(digit(value % 10))
    }
}

/// A number in decimal, with a minus sign in front of a negative one.
pub open spec fn signed_decimal(value: int) -> Seq<char> {
    if value < 0 {
        "-"@ + decimal((-value) as nat)
    } else {
        decimal(value as nat)
    }
}

/// An optional number in the form `None` or `Some(-1)`.
pub open spec fn optional_decimal(value: Option<i32>) -> Seq<char> {
    match value {
        Some(number) => "Some("@ + signed_decimal(number as int) + ")"@,
        None => "None"@,
    }
}

/// The digits after the decimal point of `fraction / (10 * unit)`, without
/// trailing zeros.
pub open spec fn fraction_digits(fraction: nat, unit: nat) -> Seq<char>
    decreases unit,
{
    if fraction == 0 || unit == 0 {
        seq![]
    } else {
        seq![digit(fraction / unit)] + fraction_digits(fraction % unit, unit / 10)
    }
}

/// A decimal number with the fraction `fraction / (10 * unit)`.
pub open spec fn fixed_point(whole: nat, fraction: nat, unit: nat) -> Seq<char> {
    if fraction == 0 {
        decimal(whole)
    } else {
        decimal(whole) + "."@ + fraction_digits(fraction, unit)
    }
}

/// A duration in the largest unit of which it holds at least one, such as
/// `1.5s`, `20ms`, `7.25\u{b5}s` or `3ns`.
pub open spec fn duration_text(nanos: nat) -> Seq<char> {
    if nanos >= NANOS_PER_SEC {
        fixed_point(
            nanos / (NANOS_PER_SEC as nat),
            nanos % (NANOS_PER_SEC as nat),
            100_000_000,
        ) + "s"@
    } else if nanos >= NANOS_PER_MILLI {
        fixed_point(
            nanos / (NANOS_PER_MILLI as nat),
            nanos % (NANOS_PER_MILLI as nat),
            100_000,
        ) + "ms"@
    } else if nanos >= 1000 {
        fixed_point(nanos / 1000, nanos % 1000, 100) + "\u{b5}s"@
    } else {
        decimal(nanos) + "ns"@
    }
}

/// The text of one decimal digit.
fn digit_text(value: u64) -> (text: &'static str)
    requires
        value < 10,
    ensures
        text@ == seq![digit(value as nat)],
{
    proof {
        reveal_strlit("0");
        reveal_strlit("1");
        reveal_strlit("2");
        reveal_strlit("3");
        reveal_strlit("4");
        reveal_strlit("5");
        reveal_strlit("6");
        reveal_strlit("7");
        reveal_strlit("8");
        reveal_strlit("9");
    }
    let text = if value == 0 {
        "0"
    } else if value == 1 {
        "1"
    } else if value == 2 {
        "2"
    } else if value == 3 {
        "3"
    } else if value == 4 {
        "4"
    } else if value == 5 {
        "5"
    } else if value == 6 {
        "6"
    } else if value == 7 {
        "7"
    } else if value == 8 {
        "8"
    } else {
        "9"
    };
    assert(text@ =~= seq![digit(value as nat)]);
    text
}

/// Appends a number in decimal.
pub fn push_decimal(out: &mut String, value: u64)
    ensures
        final(out)@ == old(out)@ + decimal(value as nat),
    decreases value,
{
    if value >= 10 {
        push_decimal(out, value / 10);
    }
    out.append(digit_text(value % 10));
    assert(out@ =~= old(out)@ + decimal(value as nat));
}

/// Appends a number in decimal, with a minus sign if it is negative.
pub fn push_signed(out: &mut String, value: i32)
    ensures
        final(out)@ == old(out)@ + signed_decimal(value as int),
{
    if value < 0 {
        out.append("-");
        push_decimal(out, (-(value as i64)) as u64);
        assert(out@ =~= old(out)@ + signed_decimal(value as int));
    } else {
        push_decimal(out, value as u64);
    }
}

/// Appends an optional number.
pub fn push_optional(out: &mut String, value: Option<i32>)
    ensures
        final(out)@ == old(out)@ + optional_decimal(value),
{
    match value {
        Some(number) => {
            out.append("Some(");
            push_signed(out, number);
            out.append(")");
            assert(out@ =~= old(out)@ + optional_decimal(value));
        },
        None => out.append("None"),
    }
}

/// One, ten, a hundred, and so on.
spec fn power_of_ten(unit: nat) -> bool
    decreases unit,
{
    unit == 1 || (unit >= 10 && unit % 10 == 0 && power_of_ten(unit / 10))
}

/// Appends the digits of a fraction.
fn push_fraction(out: &mut String, fraction: u32, unit: u32)
    requires
        fraction == 0 || (fraction < 10 * unit && power_of_ten(unit as nat)),
    ensures
        final(out)@ == old(out)@ + fraction_digits(fraction as nat, unit as nat),
    decreases unit,
{
    if fraction == 0 {
        assert(out@ =~= old(out)@ + fraction_digits(fraction as nat, unit as nat));
    } else {
        let (leading, rest): (u32, u32) = (fraction / unit, fraction % unit);
        proof {
            let (f, u) = (fraction as int, unit as int);
            assert(f / u < 10 && 0 <= f % u < u) by (nonlinear_arith)
                requires
                    0 <= f < 10 * u,
            ;
        }
        out.append(digit_text(leading as u64));
        push_fraction(out, rest, unit / 10);
        assert(out@ =~= old(out)@ + fraction_digits(fraction as nat, unit as nat));
    }
}

/// Appends a decimal number with a fraction.
fn push_fixed_point(out: &mut String, whole: u64, fraction: u32, unit: u32)
    requires
        fraction == 0 || (fraction < 10 * unit && power_of_ten(unit as nat)),
    ensures
        final(out)@ == old(out)@ + fixed_point(whole as nat, fraction as nat, unit as nat),
{
    push_decimal(out, whole);
    if fraction != 0 {
        out.append(".");
        push_fraction(out, fraction, unit);
        assert(out@ =~= old(out)@ + fixed_point(whole as nat, fraction as nat, unit as nat));
    }
}

/// Appends the text of a duration.
pub fn push_duration(out: &mut String, duration: Duration)
    ensures
        final(out)@ == old(out)@ + duration_text(duration@),
{
    proof {
        reveal_with_fuel(power_of_ten, 9);
    }
    let (secs, nanos): (u64, u32) = (duration.as_secs(), duration.subsec_nanos());
    assert(duration@ == secs * NANOS_PER_SEC + nanos);
    if secs > 0 {
        push_fixed_point(out, secs, nanos, 100_000_000);
        out.append("s");
    } else if nanos >= NANOS_PER_MILLI {
        push_fixed_point(out, (nanos / NANOS_PER_MILLI) as u64, nanos % NANOS_PER_MILLI, 100_000);
        out.append("ms");
    } else if nanos >= 1000 {
        push_fixed_point(out, (nanos / 1000) as u64, nanos % 1000, 100);
        out.append("\u{b5}s");
    } else {
        push_decimal(out, nanos as u64);
        out.append("ns");
    }
    assert(out@ =~= old(out)@ + duration_text(duration@));
}

} // verus!
