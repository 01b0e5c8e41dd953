//! The texts written on a frame.

use vstd::prelude::*;
use vstd::string::*;

use super::converter::two_digits;
use super::digits::{decimal, digit_char, digit_str, push_decimal};

verus! {

/// The words before a pace.
pub open spec fn pace_prefix() -> Seq<char> {
    seq!['P', 'a', 'c', 'e', ':', ' ']
}

/// The unit after a pace.
pub open spec fn pace_suffix() -> Seq<char> {
    seq![' ', 'm', 'i', 'n', '/', 'k', 'm']
}

/// The words before a distance.
pub open spec fn distance_prefix() -> Seq<char> {
    seq!['D', 'i', 's', 't', ':', ' ']
}

/// The unit after a distance.
pub open spec fn distance_suffix() -> Seq<char> {
    seq![' ', 'k', 'm']
}

/// The caption of the pace `pace`.
pub open spec fn pace_caption(pace: Seq<char>) -> Seq<char> {
    pace_prefix() + pace + pace_suffix()
}

/// The magnitude of `v`.
pub open spec fn magnitude(v: int) -> nat {
    if v < 0 {
        (-v) as nat
    } else {
        v as nat
    }
}

/// A minus sign where `v` is negative, nothing otherwise.
pub open spec fn sign(v: int) -> Seq<char> {
    if v < 0 {
        seq!['-']
    } else {
        Seq::<char>::empty()
    }
}

/// A length of `millimetres` in hundredths of a kilometre, rounded to the
/// nearest, halves upwards.
pub open spec fn km_hundredths(millimetres: nat) -> nat {
    (millimetres + 5_000) / 10_000
}

/// `hundredths` as a number with two decimal places.
pub open spec fn two_places(hundredths: nat) -> Seq<char> {
    decimal(hundredths / 100) + seq!['.'] + two_digits(hundredths % 100)
}

/// The caption of a distance given in thousandths of a metre: the distance
/// in kilometres with two decimal places.
pub open spec fn distance_caption(distance: int) -> Seq<char> {
    distance_prefix() + sign(distance) + two_places(km_hundredths(magnitude(distance)))
        + distance_suffix()
}

/// The decimal places of `fraction` ten-thousandths, without zeros at the
/// end; nothing for zero.
pub open spec fn trimmed_places(fraction: nat) -> Seq<char>
    recommends
        fraction < 10_000,
{
    let d1 = digit_char((fraction / 1000) as int);
    let d2 = digit_char((fraction / 100 % 10) as int);
    let d3 = digit_char((fraction / 10 % 10) as int);
    let d4 = digit_char((fraction % 10) as int);
    if fraction % 10 != 0 {
        seq![d1, d2, d3, d4]
    } else if fraction % 100 != 0 {
        seq![d1, d2, d3]
    } else if fraction % 1000 != 0 {
        seq![d1, d2]
    } else if fraction != 0 {
        seq![d1]
    } else {
        Seq::<char>::empty()
    }
}

/// A tenth of a step length given in thousandths of its unit, written with
/// as many decimal places as it has and no more: `105.23`, `105.2`, `105`.
pub open spec fn stride_caption(step: int) -> Seq<char> {
    let whole = magnitude(step) / 10_000;
    let fraction = magnitude(step) % 10_000;
    sign(step) + decimal(whole) + if fraction != 0 {
        seq!['.'] + trimmed_places(fraction)
    } else {
        Seq::<char>::empty()
    }
}

/// The caption of a pace: `Pace: 5:30 min/km`.
pub fn pace_text(pace: &str) -> (text: String)
    ensures
        text@ == pace_caption(pace@),
{
    proof {
        reveal_strlit("Pace: ");
        reveal_strlit(" min/km");
    }
    let mut text = "Pace: ".to_owned();
    text.append(pace);
    text.append(" min/km");
    assert(text@ =~= pace_caption(pace@));
    text
}

/// The caption of a distance given in thousandths of a metre:
/// `Dist: 12.35 km`.
pub fn distance_text(distance: i64) -> (text: String)
    ensures
        text@ == distance_caption(distance as int),
{
    proof {
        reveal_strlit("Dist: ");
        reveal_strlit(" km");
        reveal_strlit("-");
        reveal_strlit(".");
        reveal_strlit("0");
    }
    let mut text = "Dist: ".to_owned();
    if distance < 0 {
        text.append("-");
    }
    let size: u128 = if distance < 0 { (-(distance as i128)) as u128 } else { distance as u128 };
    let hundredths: u128 = (size + 5_000) / 10_000;
    let places: u128 = hundredths % 100;
    push_decimal(&mut text, (hundredths / 100) as u64);
    text.append(".");
    if places < 10 {
        text.append("0");
    }
    push_decimal(&mut text, places as u64);
    text.append(" km");
    assert(text@ =~= distance_caption(distance as int));
    text
}

/// A heart rate in beats per minute, in decimal.
pub fn heart_rate_text(rate: u8) -> (text: String)
    ensures
        text@ == decimal(rate as nat),
{
    let mut text = String::new();
    push_decimal(&mut text, rate as u64);
    assert(text@ =~= decimal(rate as nat));
    text
}

/// A tenth of a step length given in thousandths of its unit, with as many
/// decimal places as it has.
pub fn stride_text(step: i64) -> (text: String)
    ensures
        text@ == stride_caption(step as int),
{
    proof {
        reveal_strlit("-");
        reveal_strlit(".");
    }
    let mut text = String::new();
    if step < 0 {
        text.append("-");
    }
    let size: u128 = if step < 0 { (-(step as i128)) as u128 } else { step as u128 };
    let whole: u128 = size / 10_000;
    let fraction: u128 = size % 10_000;
    push_decimal(&mut text, whole as u64);
    if fraction != 0 {
        text.append(".");
        text.append(digit_str((fraction / 1000) as u8));
        if fraction % 1000 != 0 {
            text.append(digit_str((fraction / 100 % 10) as u8));
            if fraction % 100 != 0 {
                text.append(digit_str((fraction / 10 % 10) as u8));
                if fraction % 10 != 0 {
                    text.append(digit_str((fraction % 10) as u8));
                }
            }
        }
    }
    assert(text@ =~= stride_caption(step as int));
    text
}

} // verus!
