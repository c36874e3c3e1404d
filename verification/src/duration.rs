//! Elapsed time as a short text: seconds below one minute, minutes above,
//! with fewer decimals as the number grows.

use vstd::prelude::*;
use vstd::string::*;
use vstd::arithmetic::div_mod::lemma_div_is_ordered_by_denominator;
use crate::text::{decimal, decimal_text, digit_char};

verus! {

/// The precision bands of an elapsed time. Every duration lies in exactly
/// one of them.
#[derive(Clone, Copy, Debug, PartialEq, Eq, Structural)]
pub enum DurationBand {
    /// Below ten seconds: seconds with two decimals.
    ShortSeconds,
    /// From ten seconds up to one minute: seconds with one decimal.
    Seconds,
    /// From one minute up to ten minutes: minutes with two decimals.
    ShortMinutes,
    /// From ten minutes up to a hundred minutes: minutes with one decimal.
    Minutes,
    /// A hundred minutes and more: whole minutes.
    WholeMinutes,
}

/// The half-open range of milliseconds that a band covers.
pub open spec fn in_band(millis: nat, band: DurationBand) -> bool {
    match band {
        DurationBand::ShortSeconds => millis < 10_000,
        DurationBand::Seconds => 10_000 <= millis < 60_000,
        DurationBand::ShortMinutes => 60_000 <= millis < 600_000,
        DurationBand::Minutes => 600_000 <= millis < 6_000_000,
        DurationBand::WholeMinutes => 6_000_000 <= millis,
    }
}

/// The band of a duration.
pub open spec fn duration_band(millis: nat) -> DurationBand {
    if millis < 10_000 {
        DurationBand::ShortSeconds
    } else if millis < 60_000 {
        DurationBand::Seconds
    } else if millis < 600_000 {
        DurationBand::ShortMinutes
    } else if millis < 6_000_000 {
        DurationBand::Minutes
    } else {
        DurationBand::WholeMinutes
    }
}

/// The bands partition the durations: each duration lies in its band and in
/// no other.
pub proof fn lemma_bands_partition(millis: nat)
    ensures
        in_band(millis, duration_band(millis)),
        forall|band: DurationBand| in_band(millis, band) ==> band == duration_band(millis),
{
}

/// `numerator / denominator` rounded to the nearest whole number, a tie
/// going to the even neighbour.
pub open spec fn round_half_even(numerator: nat, denominator: nat) -> nat
    recommends
        denominator > 0,
{
    let quotient = numerator / denominator;
    let twice_rest = 2 * (numerator % denominator);
    if twice_rest < denominator {
        quotient
    } else if twice_rest > denominator {
        quotient + 1
    } else if quotient % 2 == 0 {
        quotient
    } else {
        quotient + 1
    }
}

/// A count of hundredths written with two decimals.
pub open spec fn two_decimals(hundredths: nat) -> Seq<char> {
    decimal(hundredths / 100) + seq![
        '.',
        digit_char(hundredths / 10 % 10),
        digit_char(hundredths % 10),
    ]
}

/// A count of tenths written with one decimal.
pub open spec fn one_decimal(tenths: nat) -> Seq<char> {
    decimal(tenths / 10) + seq!['.', digit_char(tenths % 10)]
}

/// The text of a duration of `millis` milliseconds: the number in the
/// precision of its band, rounded half to even, then `s` or `m`.
pub open spec fn duration_text(millis: nat) -> Seq<char> {
    match duration_band(millis) {
        DurationBand::ShortSeconds => two_decimals(round_half_even(millis, 10)) + seq!['s'],
        DurationBand::Seconds => one_decimal(round_half_even(millis, 100)) + seq!['s'],
        DurationBand::ShortMinutes => two_decimals(round_half_even(millis, 600)) + seq!['m'],
        DurationBand::Minutes => one_decimal(round_half_even(millis, 6_000)) + seq!['m'],
        DurationBand::WholeMinutes => decimal(round_half_even(millis, 60_000)) + seq!['m'],
    }
}

/// The band of a duration.
pub fn band_of(millis: u64) -> (band: DurationBand)
    ensures
        band == duration_band(millis as nat),
{
    if millis < 10_000 {
        DurationBand::ShortSeconds
    } else if millis < 60_000 {
        DurationBand::Seconds
    } else if millis < 600_000 {
        DurationBand::ShortMinutes
    } else if millis < 6_000_000 {
        DurationBand::Minutes
    } else {
        DurationBand::WholeMinutes
    }
}

fn rounded_quotient(numerator: u64, denominator: u64) -> (out: u64)
    requires
        2 <= denominator <= 60_000,
    ensures
        out == round_half_even(numerator as nat, denominator as nat),
{
    proof {
        lemma_div_is_ordered_by_denominator(numerator as int, 2, denominator as int);
    }
    let quotient: u64 = numerator / denominator;
    let twice_rest: u64 = 2 * (numerator % denominator);
    if twice_rest < denominator {
        quotient
    } else if twice_rest > denominator {
        quotient + 1
    } else if quotient % 2 == 0 {
        quotient
    } else {
        quotient + 1
    }
}

fn two_decimals_text(hundredths: u64) -> (out: String)
    ensures
        out@ == two_decimals(hundredths as nat),
{
    let mut out = decimal_text(hundredths / 100);
    out.append(".");
    let tens = decimal_text(hundredths / 10 % 10);
    out.append(tens.as_str());
    let units = decimal_text(hundredths % 10);
    out.append(units.as_str());
    proof {
        reveal_strlit(".");
        assert(out@ =~= two_decimals(hundredths as nat));
    }
    out
}

fn one_decimal_text(tenths: u64) -> (out: String)
    ensures
        out@ == one_decimal(tenths as nat),
{
    let mut out = decimal_text(tenths / 10);
    out.append(".");
    let units = decimal_text(tenths % 10);
    out.append(units.as_str());
    proof {
        reveal_strlit(".");
        assert(out@ =~= one_decimal(tenths as nat));
    }
    out
}

/// Writes a duration given in whole milliseconds.
pub fn format_duration(millis: u64) -> (out: String)
    ensures
        out@ == duration_text(millis as nat),
{
    proof {
        reveal_strlit("s");
        reveal_strlit("m");
    }
    let mut out;
    match band_of(millis) {
        DurationBand::ShortSeconds => {
            out = two_decimals_text(rounded_quotient(millis, 10));
            out.append("s");
        },
        DurationBand::Seconds => {
            out = one_decimal_text(rounded_quotient(millis, 100));
            out.append("s");
        },
        DurationBand::ShortMinutes => {
            out = two_decimals_text(rounded_quotient(millis, 600));
            out.append("m");
        },
        DurationBand::Minutes => {
            out = one_decimal_text(rounded_quotient(millis, 6_000));
            out.append("m");
        },
        DurationBand::WholeMinutes => {
            out = decimal_text(rounded_quotient(millis, 60_000));
            out.append("m");
        },
    }
    assert(out@ =~= duration_text(millis as nat));
    out
}

} // verus!
