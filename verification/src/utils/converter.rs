//! Conversions between recorded quantities, their labels and the numbers the
//! layout works with.

use vstd::prelude::*;
use vstd::string::*;

pub use super::digits::count_digits_iterative;
use super::digits::{
    all_digits, decimal, digit_value, digits_value, is_digit, lemma_decimal, push_decimal,
    push_spaces, spaces,
};
use super::fixed::{clamp_i32, div_toward_zero, saturate, trunc_div};
use crate::types::error::InputError;

verus! {

/// The label of a pace of zero.
pub open spec fn zero_pace() -> Seq<char> {
    seq!['0', ':', '0', '0']
}

/// `n` written with at least two digits.
pub open spec fn two_digits(n: nat) -> Seq<char> {
    if n < 10 {
        seq!['0'] + decimal(n)
    } else {
        decimal(n)
    }
}

/// The label of a pace: minutes, a colon, and the seconds in two digits.
pub open spec fn pace_label(minutes: nat, seconds: nat) -> Seq<char> {
    decimal(minutes) + seq![':'] + two_digits(seconds)
}

/// The whole minutes of the pace at `speed`, for a positive speed in
/// millimetres per second: the pace is `1_000_000 / speed` seconds per
/// kilometre.
pub open spec fn pace_minutes(speed: int) -> nat {
    ((1_000_000int / speed) / 60) as nat
}

/// The seconds beyond the whole minutes of the pace at `speed`, rounded to
/// the nearest whole second, halves upwards. The result lies in `0..=60`.
pub open spec fn pace_rounded_seconds(speed: int) -> nat {
    ((1_000_000int / speed) % 60 + if 2 * (1_000_000int % speed) >= speed {
        1int
    } else {
        0int
    }) as nat
}

/// The pace label of a speed in millimetres per second.
pub open spec fn speed_pace_label(speed: int) -> Seq<char> {
    if speed <= 0 {
        zero_pace()
    } else {
        pace_label(pace_minutes(speed), pace_rounded_seconds(speed))
    }
}

/// The pace label, in minutes and seconds per kilometre, of a speed given in
/// thousandths of a metre per second. A speed of zero or less has the label
/// `0:00`.
pub fn speed_to_pace(speed: i64) -> (label: String)
    ensures
        label@ == speed_pace_label(speed as int),
{
    if speed <= 0 {
        proof {
            reveal_strlit("0:00");
        }
        let label = "0:00".to_owned();
        assert(label@ =~= zero_pace());
        return label;
    }
    let whole: i64 = 1_000_000 / speed;
    let rest: i64 = 1_000_000 % speed;
    let minutes: i64 = whole / 60;
    assert(0 <= rest <= 1_000_000 && 0 <= whole <= 1_000_000) by (nonlinear_arith)
        requires
            speed > 0,
            whole == 1_000_000int / (speed as int),
            rest == 1_000_000int % (speed as int),
    ;
    let carry: i64 = if 2 * rest >= speed { 1 } else { 0 };
    let seconds: i64 = whole % 60 + carry;
    let mut label = String::new();
    push_decimal(&mut label, minutes as u64);
    proof {
        reveal_strlit(":");
        reveal_strlit("0");
    }
    label.append(":");
    if seconds < 10 {
        label.append("0");
    }
    push_decimal(&mut label, seconds as u64);
    assert(label@ =~= speed_pace_label(speed as int));
    label
}

/// One degree in the unit in which `semicircles_to_degrees` gives angles:
/// 2^-31 degree.
pub const DEGREE: i64 = 0x8000_0000;

/// An angle given in semicircles, in units of 2^-31 degree. 2^31 semicircles
/// are 180 degrees, so the angle is `semicircles * 180 / 2^31` degrees, and
/// in this unit it is a whole number: nothing is rounded.
pub open spec fn semicircle_degrees(semicircles: int) -> int {
    180 * semicircles
}

/// Converts an angle from semicircles to degrees, in units of 2^-31 degree.
/// The conversion is exact: the result lies between -180 degrees and, short
/// of it, 180 degrees, and is zero for no angle but zero.
pub fn semicircles_to_degrees(semicircles: i32) -> (degrees: i64)
    ensures
        degrees == semicircle_degrees(semicircles as int),
        -180 * DEGREE <= degrees < 180 * DEGREE,
        degrees == 0 <==> semicircles == 0,
{
    180 * (semicircles as i64)
}

/// The conversion from semicircles to degrees keeps the order of angles: a
/// greater count of semicircles is a greater angle, so no two positions
/// fall together.
pub proof fn lemma_degrees_increase(a: int, b: int)
    requires
        a < b,
    ensures
        semicircle_degrees(a) < semicircle_degrees(b),
{
}

/// Whether `bounds`, as ((least latitude, greatest latitude), (least
/// longitude, greatest longitude)), is the bounding box of `points`, each a
/// (latitude, longitude): every point lies inside, and each side is touched
/// by some point.
pub open spec fn is_bounds_of(points: Seq<(i32, i32)>, bounds: ((i32, i32), (i32, i32))) -> bool {
    &&& forall|i: int|
        0 <= i < points.len() ==> bounds.0.0 <= (#[trigger] points[i]).0 <= bounds.0.1
    &&& forall|i: int|
        0 <= i < points.len() ==> bounds.1.0 <= (#[trigger] points[i]).1 <= bounds.1.1
    &&& exists|i: int| 0 <= i < points.len() && (#[trigger] points[i]).0 == bounds.0.0
    &&& exists|i: int| 0 <= i < points.len() && (#[trigger] points[i]).0 == bounds.0.1
    &&& exists|i: int| 0 <= i < points.len() && (#[trigger] points[i]).1 == bounds.1.0
    &&& exists|i: int| 0 <= i < points.len() && (#[trigger] points[i]).1 == bounds.1.1
}

/// A track has one bounding box at most.
pub proof fn lemma_bounds_unique(
    points: Seq<(i32, i32)>,
    a: ((i32, i32), (i32, i32)),
    b: ((i32, i32), (i32, i32)),
)
    requires
        is_bounds_of(points, a),
        is_bounds_of(points, b),
    ensures
        a == b,
{
    let a0 = choose|i: int| 0 <= i < points.len() && (#[trigger] points[i]).0 == a.0.0;
    let a1 = choose|i: int| 0 <= i < points.len() && (#[trigger] points[i]).0 == a.0.1;
    let a2 = choose|i: int| 0 <= i < points.len() && (#[trigger] points[i]).1 == a.1.0;
    let a3 = choose|i: int| 0 <= i < points.len() && (#[trigger] points[i]).1 == a.1.1;
    let b0 = choose|i: int| 0 <= i < points.len() && (#[trigger] points[i]).0 == b.0.0;
    let b1 = choose|i: int| 0 <= i < points.len() && (#[trigger] points[i]).0 == b.0.1;
    let b2 = choose|i: int| 0 <= i < points.len() && (#[trigger] points[i]).1 == b.1.0;
    let b3 = choose|i: int| 0 <= i < points.len() && (#[trigger] points[i]).1 == b.1.1;
    assert(b.0.0 <= points[a0].0 && a.0.0 <= points[b0].0);
    assert(b.0.1 >= points[a1].0 && a.0.1 >= points[b1].0);
    assert(b.1.0 <= points[a2].1 && a.1.0 <= points[b2].1);
    assert(b.1.1 >= points[a3].1 && a.1.1 >= points[b3].1);
}

/// The bounding box of the track `points`, which must not be empty.
pub open spec fn bounds_of(points: Seq<(i32, i32)>) -> ((i32, i32), (i32, i32))
    recommends
        points.len() > 0,
{
    choose|bounds: ((i32, i32), (i32, i32))| is_bounds_of(points, bounds)
}

/// The bounding box of a track: the least and greatest latitude, then the
/// least and greatest longitude, over all of its points. A track without
/// points has no bounding box and is refused.
pub fn get_bounds(points: &Vec<(i32, i32)>) -> (bounds: Result<((i32, i32), (i32, i32)), InputError>)
    ensures
        points.len() == 0 ==> bounds == Err::<((i32, i32), (i32, i32)), InputError>(
            InputError::EmptyTrack,
        ),
        points.len() > 0 ==> bounds is Ok && is_bounds_of(points@, bounds->Ok_0) && bounds->Ok_0
            == bounds_of(points@),
{
    if points.len() == 0 {
        return Err(InputError::EmptyTrack);
    }
    let first: (i32, i32) = points[0];
    let mut lat_min: i32 = first.0;
    let mut lat_max: i32 = first.0;
    let mut lon_min: i32 = first.1;
    let mut lon_max: i32 = first.1;
    let mut i: usize = 1;
    proof {
        let one = points@.take(1);
        assert(one[0] == first);
    }
    while i < points.len()
        invariant
            1 <= i <= points.len(),
            is_bounds_of(points@.take(i as int), ((lat_min, lat_max), (lon_min, lon_max))),
        decreases points.len() - i,
    {
        let p: (i32, i32) = points[i];
        let ghost before = points@.take(i as int);
        let ghost after = points@.take(i + 1);
        proof {
            let b = ((lat_min, lat_max), (lon_min, lon_max));
            let k0 = choose|k: int| 0 <= k < before.len() && (#[trigger] before[k]).0 == b.0.0;
            let k1 = choose|k: int| 0 <= k < before.len() && (#[trigger] before[k]).0 == b.0.1;
            let k2 = choose|k: int| 0 <= k < before.len() && (#[trigger] before[k]).1 == b.1.0;
            let k3 = choose|k: int| 0 <= k < before.len() && (#[trigger] before[k]).1 == b.1.1;
            assert(after[k0] == before[k0]);
            assert(after[k1] == before[k1]);
            assert(after[k2] == before[k2]);
            assert(after[k3] == before[k3]);
            assert(after[i as int] == p);
            assert forall|j: int| 0 <= j < after.len() && j != i implies after[j] == before[j] by {}
        }
        if p.0 < lat_min {
            lat_min = p.0;
        }
        if p.0 > lat_max {
            lat_max = p.0;
        }
        if p.1 < lon_min {
            lon_min = p.1;
        }
        if p.1 > lon_max {
            lon_max = p.1;
        }
        i = i + 1;
        proof {
            let b = ((lat_min, lat_max), (lon_min, lon_max));
            assert forall|j: int| 0 <= j < after.len() implies b.0.0 <= (#[trigger] after[j]).0
                <= b.0.1 by {
                if j != i - 1 {
                    assert(after[j] == before[j]);
                }
            }
            assert forall|j: int| 0 <= j < after.len() implies b.1.0 <= (#[trigger] after[j]).1
                <= b.1.1 by {
                if j != i - 1 {
                    assert(after[j] == before[j]);
                }
            }
        }
    }
    proof {
        assert(points@.take(points.len() as int) =~= points@);
        lemma_bounds_unique(points@, ((lat_min, lat_max), (lon_min, lon_max)), bounds_of(points@));
    }
    Ok(((lat_min, lat_max), (lon_min, lon_max)))
}

/// The text of a lap row: the lap's number, then as many spaces as bring the
/// pace to the column it has in the row of the lap numbered `size`, then the
/// pace. Three spaces part the longest number from the pace. The number has
/// no more digits than `size`.
pub open spec fn lap_row_text(size: nat, index: nat, pace: Seq<char>) -> Seq<char>
    recommends
        decimal(index).len() <= decimal(size).len(),
{
    decimal(index) + spaces((decimal(size).len() - decimal(index).len() + 3) as nat) + pace
}

/// The text of the row of lap `index` out of `size` laps: the lap's number,
/// padded on the right so that the pace starts at the same column in every
/// row, then the pace. The number must not have more digits than `size`.
pub fn string_space(size: usize, index: usize, pace: &str) -> (row: String)
    requires
        decimal(index as nat).len() <= decimal(size as nat).len(),
    ensures
        row@ == lap_row_text(size as nat, index as nat, pace@),
        row@.len() == decimal(size as nat).len() + 3 + pace@.len(),
        row@.subrange(decimal(size as nat).len() as int + 3, row@.len() as int) == pace@,
{
    let max_digits: usize = count_digits_iterative(size);
    let current_digits: usize = count_digits_iterative(index);
    let padding: usize = max_digits - current_digits + 3;
    let mut row = String::new();
    push_decimal(&mut row, index as u64);
    push_spaces(&mut row, padding);
    row.append(pace);
    proof {
        assert(row@ =~= lap_row_text(size as nat, index as nat, pace@));
        assert(row@.subrange(decimal(size as nat).len() as int + 3, row@.len() as int) =~= pace@);
    }
    row
}

/// The position of the first colon in `s`; the length of `s` if it holds none.
pub open spec fn colon_index(s: Seq<char>) -> int
    decreases s.len(),
{
    if s.len() == 0 || s[0] == ':' {
        0
    } else {
        1 + colon_index(s.drop_first())
    }
}

/// The seconds that a pace label stands for: sixty times the number before
/// its first colon plus the number after it. Both numbers must be written
/// in decimal digits, at least one each; any other text stands for nothing.
pub open spec fn pace_seconds(s: Seq<char>) -> Option<nat> {
    let at = colon_index(s);
    if 0 < at && at + 1 < s.len() {
        let minutes = s.subrange(0, at);
        let seconds = s.subrange(at + 1, s.len() as int);
        if all_digits(minutes) && all_digits(seconds) {
            Some(digits_value(minutes) * 60 + digits_value(seconds))
        } else {
            None
        }
    } else {
        None
    }
}

/// The first colon of `s` is at `at` if `s` holds a colon there and none
/// before; `s` has no first colon if it holds none.
pub proof fn lemma_colon_index(s: Seq<char>, at: int)
    requires
        0 <= at <= s.len(),
        forall|j: int| 0 <= j < at ==> s[j] != ':',
        at < s.len() ==> s[at] == ':',
    ensures
        colon_index(s) == at,
    decreases at,
{
    if at > 0 {
        let t = s.drop_first();
        assert(s[0] != ':');
        assert forall|j: int| 0 <= j < at - 1 implies t[j] != ':' by {
            assert(t[j] == s[j + 1]);
        }
        lemma_colon_index(t, at - 1);
    }
}

/// The first colon of `s` lies within `s` or at its end, with no colon
/// before it.
pub proof fn lemma_colon_index_first(s: Seq<char>)
    ensures
        0 <= colon_index(s) <= s.len(),
        colon_index(s) < s.len() ==> s[colon_index(s)] == ':',
        forall|j: int| 0 <= j < colon_index(s) ==> s[j] != ':',
    decreases s.len(),
{
    if !(s.len() == 0 || s[0] == ':') {
        let t = s.drop_first();
        lemma_colon_index_first(t);
        assert forall|j: int| 0 <= j < colon_index(s) implies s[j] != ':' by {
            if j > 0 {
                assert(t[j - 1] == s[j]);
            }
        }
    }
}

/// Whether `bytes` holds, one for one, the codes of the ASCII characters `s`.
pub open spec fn mirrors(s: Seq<char>, bytes: Seq<u8>) -> bool {
    &&& s.len() == bytes.len()
    &&& forall|i: int|
        0 <= i < s.len() ==> (#[trigger] s[i]) as int == bytes[i] as int && (s[i] as int) < 128
}

/// The value of ASCII digits `bytes[from..to]`, or `limit` if the value is
/// greater; `None` if a byte in that range is no digit.
fn digits_capped(bytes: &[u8], from: usize, to: usize, Ghost(s): Ghost<Seq<char>>) -> (r: Option<
    u64,
>)
    requires
        from <= to <= bytes@.len(),
        mirrors(s, bytes@),
    ensures
        r is Some <==> all_digits(s.subrange(from as int, to as int)),
        r matches Some(v) ==> v == if digits_value(s.subrange(from as int, to as int))
            > 0x1_0000_0000 {
            0x1_0000_0000
        } else {
            digits_value(s.subrange(from as int, to as int))
        },
{
    let mut value: u64 = 0;
    let mut i: usize = from;
    proof {
        assert(s.subrange(from as int, from as int) =~= Seq::<char>::empty());
    }
    while i < to
        invariant
            from <= i <= to <= bytes@.len(),
            mirrors(s, bytes@),
            all_digits(s.subrange(from as int, i as int)),
            value <= 0x1_0000_0000,
            value == if digits_value(s.subrange(from as int, i as int)) > 0x1_0000_0000 {
                0x1_0000_0000
            } else {
                digits_value(s.subrange(from as int, i as int))
            },
        decreases to - i,
    {
        let b: u8 = bytes[i];
        let ghost c = s[i as int];
        let ghost before = s.subrange(from as int, i as int);
        let ghost after = s.subrange(from as int, i + 1);
        proof {
            assert(after.drop_last() =~= before);
            assert(after.last() == c);
            assert(c as int == b as int);
        }
        if b < 48 || b > 57 {
            proof {
                let whole = s.subrange(from as int, to as int);
                assert(whole[i - from] == c);
                assert(!is_digit(c));
            }
            return None;
        }
        proof {
            assert(is_digit(c));
            assert forall|k: int| 0 <= k < after.len() implies is_digit(#[trigger] after[k]) by {
                if k < before.len() {
                    assert(after[k] == before[k]);
                }
            }
        }
        let next: u64 = value * 10 + (b - 48) as u64;
        value = if next > 0x1_0000_0000 { 0x1_0000_0000 } else { next };
        i = i + 1;
    }
    Some(value)
}

/// The seconds that a pace label stands for, if it is one and they fit in 32
/// bits.
pub fn parse_pace(pace: &str) -> (seconds: Option<u32>)
    ensures
        seconds == match pace_seconds(pace@) {
            Some(v) => if v <= u32::MAX {
                Some(v as u32)
            } else {
                None
            },
            None => None,
        },
{
    broadcast use vstd::string::is_ascii_spec_bytes;

    let ghost s = pace@;
    proof {
        lemma_colon_index_first(s);
    }
    if !pace.is_ascii() {
        proof {
            let k = choose|k: int| 0 <= k < s.len() && !('\0' <= #[trigger] s[k] <= '\u{7f}');
            let at = colon_index(s);
            if 0 < at && at + 1 < s.len() {
                let minutes = s.subrange(0, at);
                let seconds = s.subrange(at + 1, s.len() as int);
                if k < at {
                    assert(minutes[k] == s[k]);
                } else if k > at {
                    assert(seconds[k - at - 1] == s[k]);
                }
            }
        }
        return None;
    }
    let bytes = pace.as_bytes();
    let n: usize = bytes.len();
    proof {
        assert forall|i: int| 0 <= i < s.len() implies (#[trigger] s[i]) as int == bytes@[i] as int
            && (s[i] as int) < 128 by {
            assert('\0' <= s[i] <= '\u{7f}');
            assert(bytes@[i] == s[i] as u8);
        }
    }
    let mut at: usize = 0;
    while at < n && bytes[at] != 58
        invariant
            at <= n == s.len(),
            mirrors(s, bytes@),
            forall|j: int| 0 <= j < at ==> s[j] != ':',
        decreases n - at,
    {
        at = at + 1;
    }
    proof {
        lemma_colon_index(s, at as int);
    }
    if at == n || at == 0 || at + 1 == n {
        return None;
    }
    let minutes = digits_capped(bytes, 0, at, Ghost(s));
    let seconds = digits_capped(bytes, at + 1, n, Ghost(s));
    match (minutes, seconds) {
        (Some(m), Some(sec)) => {
            let total: u64 = m * 60 + sec;
            if total > 0xffff_ffff {
                None
            } else {
                Some(total as u32)
            }
        },
        _ => None,
    }
}

/// The seconds that the pace label `pace` stands for.
pub fn convert_pace_to_sec(pace: &str) -> (seconds: u32)
    requires
        pace_seconds(pace@) is Some,
        pace_seconds(pace@)->0 <= u32::MAX,
    ensures
        seconds == pace_seconds(pace@)->0,
{
    match parse_pace(pace) {
        Some(seconds) => seconds,
        None => 0,
    }
}

/// Every label of minutes and seconds reads back as sixty times the minutes
/// plus the seconds.
pub proof fn lemma_pace_label_parses(minutes: nat, seconds: nat)
    ensures
        pace_seconds(pace_label(minutes, seconds)) == Some(minutes * 60 + seconds),
{
    let m = decimal(minutes);
    let t = two_digits(seconds);
    let s = pace_label(minutes, seconds);
    lemma_decimal(minutes);
    lemma_decimal(seconds);
    assert forall|j: int| 0 <= j < m.len() implies s[j] != ':' by {
        assert(s[j] == m[j]);
        assert(is_digit(m[j]));
    }
    assert(s[m.len() as int] == ':');
    lemma_colon_index(s, m.len() as int);
    assert(s.subrange(0, m.len() as int) =~= m);
    assert(s.subrange(m.len() as int + 1, s.len() as int) =~= t);
    if seconds < 10 {
        let d = decimal(seconds);
        assert(d.len() == 1);
        assert(t.drop_last() =~= seq!['0']);
        assert(seq!['0'].drop_last() =~= Seq::<char>::empty());
        assert(digits_value(Seq::<char>::empty()) == 0);
        assert(digits_value(seq!['0']) == 0);
        assert(t.last() == d[0]);
        assert(d.drop_last() =~= Seq::<char>::empty());
        assert(digits_value(d) == digit_value(d[0]));
        assert(all_digits(t)) by {
            assert forall|k: int| 0 <= k < t.len() implies is_digit(#[trigger] t[k]) by {
                if k == 1 {
                    assert(t[k] == d[0]);
                }
            }
        }
    }
}

/// The seconds that the label of a speed reads back as: the pace of that
/// speed rounded to a whole second.
pub open spec fn speed_pace_seconds(speed: int) -> nat {
    if speed <= 0 {
        0
    } else {
        pace_minutes(speed) * 60 + pace_rounded_seconds(speed)
    }
}

/// Writing the pace of a speed as a label and reading the label back loses
/// at most half a second: the label of `speed` stands for a whole number of
/// seconds `v`, and `v` differs from the exact pace `1_000_000 / speed` by no
/// more than one half.
pub proof fn lemma_pace_round_trip(speed: int)
    ensures
        pace_seconds(speed_pace_label(speed)) == Some(speed_pace_seconds(speed)),
        speed > 0 ==> -speed <= 2 * (speed_pace_seconds(speed) * speed - 1_000_000) <= speed,
        speed <= 0 ==> speed_pace_seconds(speed) == 0,
{
    if speed <= 0 {
        assert(zero_pace() =~= pace_label(0, 0)) by {
            reveal_with_fuel(decimal, 2);
        }
        lemma_pace_label_parses(0, 0);
    } else {
        lemma_pace_label_parses(pace_minutes(speed), pace_rounded_seconds(speed));
        let whole = 1_000_000int / speed;
        let rest = 1_000_000int % speed;
        assert(whole * speed + rest == 1_000_000 && 0 <= rest < speed && whole >= 0)
            by (nonlinear_arith)
            requires
                speed > 0,
                whole == 1_000_000int / speed,
                rest == 1_000_000int % speed,
        ;
        let v = speed_pace_seconds(speed) as int;
        assert(v == whole + if 2 * rest >= speed { 1int } else { 0int });
        assert(v * speed == whole * speed + if 2 * rest >= speed { speed } else { 0int })
            by (nonlinear_arith)
            requires
                v == whole + if 2 * rest >= speed { 1int } else { 0int },
        ;
    }
}

/// The least of the paces `paces`, which must not be empty.
pub open spec fn min_pace(paces: Seq<u32>) -> int
    recommends
        paces.len() > 0,
    decreases paces.len(),
{
    if paces.len() <= 1 {
        paces[0] as int
    } else {
        let rest = min_pace(paces.drop_last());
        if paces.last() < rest {
            paces.last() as int
        } else {
            rest
        }
    }
}

/// The least pace is one of the paces, and none is less.
pub proof fn lemma_min_pace(paces: Seq<u32>)
    requires
        paces.len() > 0,
    ensures
        exists|i: int| 0 <= i < paces.len() && #[trigger] paces[i] == min_pace(paces),
        forall|i: int| 0 <= i < paces.len() ==> min_pace(paces) <= #[trigger] paces[i],
    decreases paces.len(),
{
    if paces.len() <= 1 {
        assert(paces[0] == min_pace(paces));
    } else {
        let front = paces.drop_last();
        lemma_min_pace(front);
        let k = choose|i: int| 0 <= i < front.len() && #[trigger] front[i] == min_pace(front);
        assert(paces[k] == front[k]);
        assert(paces[paces.len() - 1] == paces.last());
        assert forall|i: int| 0 <= i < paces.len() implies min_pace(paces) <= #[trigger] paces[i] by {
            if i < front.len() {
                assert(paces[i] == front[i]);
            }
        }
    }
}

/// The baseline of the paces `paces`: the least of them, rounded down to a
/// multiple of thirty seconds.
pub open spec fn baseline_of(paces: Seq<u32>) -> int {
    (min_pace(paces) / 30) * 30
}

/// The pace that a bar of full length stands for: the fastest lap's pace,
/// rounded down to a multiple of thirty seconds.
pub fn pace_baseline(paces: &Vec<u32>) -> (baseline: u32)
    requires
        paces.len() > 0,
    ensures
        baseline == baseline_of(paces@),
        baseline % 30 == 0,
        baseline <= min_pace(paces@),
        forall|i: int| 0 <= i < paces.len() ==> baseline <= #[trigger] paces[i],
{
    let mut least: u32 = paces[0];
    let mut i: usize = 1;
    proof {
        assert(paces@.take(1).len() == 1);
    }
    while i < paces.len()
        invariant
            1 <= i <= paces.len(),
            least == min_pace(paces@.take(i as int)),
        decreases paces.len() - i,
    {
        proof {
            assert(paces@.take(i + 1).drop_last() =~= paces@.take(i as int));
        }
        if paces[i] < least {
            least = paces[i];
        }
        i = i + 1;
    }
    proof {
        assert(paces@.take(paces.len() as int) =~= paces@);
        lemma_min_pace(paces@);
    }
    (least / 30) * 30
}

/// The ratio of `numer` to `denum` in millionths, rounded down; `None` where
/// the denominator is zero and the ratio has no finite value.
pub fn pace_percentage(numer: u32, denum: u32) -> (ratio: Option<u64>)
    ensures
        denum == 0 ==> ratio is None,
        denum != 0 ==> ratio == Some(((numer * 1_000_000) / (denum as int)) as u64),
{
    if denum == 0 {
        None
    } else {
        let scaled: u64 = (numer as u64) * 1_000_000;
        Some(scaled / (denum as u64))
    }
}

/// The length in pixels of the bar of a lap run at `pace`, where a bar of
/// `bar_max_width` pixels stands for the pace `baseline`: the ratio of
/// baseline to pace times the full length, rounded towards zero. The ratio
/// is not capped. A pace of zero has no finite ratio: its bar is as long as
/// a pixel count can say, in the direction of `bar_max_width`, and empty
/// where the baseline or the full length is zero too.
pub open spec fn bar_length(baseline: int, pace: int, bar_max_width: int) -> int {
    if pace != 0 {
        clamp_i32(trunc_div(baseline * bar_max_width, pace))
    } else if baseline == 0 || bar_max_width == 0 {
        0
    } else if bar_max_width > 0 {
        i32::MAX as int
    } else {
        i32::MIN as int
    }
}

/// The length in pixels of the pace bar of a lap.
pub fn bar_width(baseline: u32, pace: u32, bar_max_width: i32) -> (width: i32)
    ensures
        width == bar_length(baseline as int, pace as int, bar_max_width as int),
{
    if pace != 0 {
        assert(-0x1_0000_0000 * 0x1_0000_0000 <= baseline * bar_max_width <= 0x1_0000_0000
            * 0x1_0000_0000) by (nonlinear_arith)
            requires
                0 <= baseline < 0x1_0000_0000,
                -0x8000_0000 <= bar_max_width < 0x8000_0000,
        ;
        let product: i128 = (baseline as i128) * (bar_max_width as i128);
        saturate(div_toward_zero(product, pace as i128))
    } else if baseline == 0 || bar_max_width == 0 {
        0
    } else if bar_max_width > 0 {
        2147483647
    } else {
        -2147483648
    }
}

/// No bar is longer than the full length, and the bar of a lap run at the
/// baseline pace has exactly the full length: for a baseline that is no
/// greater than the pace and a full length that is not negative, the bar's
/// length lies between zero and the full length.
pub proof fn lemma_bar_within_full_length(baseline: int, pace: int, bar_max_width: int)
    requires
        0 <= baseline <= pace,
        0 <= bar_max_width <= i32::MAX,
    ensures
        0 <= bar_length(baseline, pace, bar_max_width) <= bar_max_width,
        baseline == pace && pace > 0 ==> bar_length(baseline, pace, bar_max_width) == bar_max_width,
{
    if pace > 0 {
        let product = baseline * bar_max_width;
        let q = product / pace;
        assert(0 <= product <= pace * bar_max_width) by (nonlinear_arith)
            requires
                0 <= baseline <= pace,
                0 <= bar_max_width,
                product == baseline * bar_max_width,
        ;
        assert(0 <= q <= bar_max_width) by (nonlinear_arith)
            requires
                0 <= product <= pace * bar_max_width,
                pace > 0,
                q == product / pace,
        ;
        if baseline == pace {
            assert(q == bar_max_width) by (nonlinear_arith)
                requires
                    product == pace * bar_max_width,
                    pace > 0,
                    q == product / pace,
            ;
        }
    }
}

/// The number of frames shown per second, for a video of `point_count`
/// frames that is to play for about fifteen seconds: a fifteenth of the
/// count, rounded down. A track of fewer than fifteen points has the rate 0.
pub fn frame_rate(point_count: usize) -> (rate: usize)
    ensures
        rate == point_count / 15,
{
    point_count / 15
}

/// The label of a speed stands for no more than 1_000_001 seconds.
pub proof fn lemma_speed_pace_bound(speed: int)
    ensures
        speed_pace_seconds(speed) <= 1_000_001,
{
    if speed > 0 {
        let whole = 1_000_000int / speed;
        assert(0 <= whole <= 1_000_000) by (nonlinear_arith)
            requires
                speed > 0,
                whole == 1_000_000int / speed,
        ;
    }
}

/// In the rows of one panel every pace starts at the same column: whatever
/// the number of a lap, its pace follows the column of the longest number
/// and three spaces.
pub proof fn lemma_rows_align(size: nat, a: nat, b: nat, pace_a: Seq<char>, pace_b: Seq<char>)
    requires
        decimal(a).len() <= decimal(size).len(),
        decimal(b).len() <= decimal(size).len(),
    ensures
        lap_row_text(size, a, pace_a).len() == decimal(size).len() + 3 + pace_a.len(),
        lap_row_text(size, b, pace_b).len() == decimal(size).len() + 3 + pace_b.len(),
        lap_row_text(size, a, pace_a).subrange(
            decimal(size).len() as int + 3,
            lap_row_text(size, a, pace_a).len() as int,
        ) == pace_a,
        lap_row_text(size, b, pace_b).subrange(
            decimal(size).len() as int + 3,
            lap_row_text(size, b, pace_b).len() as int,
        ) == pace_b,
{
    let column = decimal(size).len() + 3;
    let row_a = lap_row_text(size, a, pace_a);
    let row_b = lap_row_text(size, b, pace_b);
    assert(row_a.subrange(column as int, row_a.len() as int) =~= pace_a);
    assert(row_b.subrange(column as int, row_b.len() as int) =~= pace_b);
}

} // verus!
