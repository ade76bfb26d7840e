//! Calendar timestamps read with chrono, held as plain values.
use vstd::prelude::*;
use chrono::{Datelike, Timelike};
use crate::text::{decimal, digit_char, extend_chars, u64_digits};

verus! {

/// A date and time of day as chrono's `NaiveDateTime` reports them.
/// `nanosecond` runs past 999_999_999 only during a leap second.
#[derive(Debug, Clone, Copy, PartialEq, Eq, Structural)]
pub struct Timestamp {
    pub year: i32,
    pub month: u32,
    pub day: u32,
    pub hour: u32,
    pub minute: u32,
    pub second: u32,
    pub nanosecond: u32,
}

/// The fields within the ranges that chrono documents for them.
pub open spec fn timestamp_in_range(t: Timestamp) -> bool {
    &&& 1 <= t.month <= 12
    &&& 1 <= t.day <= 31
    &&& t.hour <= 23
    &&& t.minute <= 59
    &&& t.second <= 59
    &&& t.nanosecond < 2_000_000_000
}

/// What `NaiveDateTime::parse_from_str(text, format)` gives, as plain values.
pub uninterp spec fn parsed_timestamp(text: Seq<char>, format: Seq<char>) -> Option<Timestamp>;

/// Parses `text` with the strftime-style `format` by calling chrono's
/// `NaiveDateTime::parse_from_str`.
///
/// The contract says that the result is `parsed_timestamp` of the two
/// arguments, and, as chrono's `Datelike` and `Timelike` documentation gives
/// it, that each field lies in its range. Which texts a format accepts is not
/// stated.
#[verifier::external_body]
pub(crate) fn parse_timestamp(text: &str, format: &str) -> (r: Option<Timestamp>)
    ensures
        r == parsed_timestamp(text@, format@),
        r matches Some(t) ==> timestamp_in_range(t),
{
    match chrono::NaiveDateTime::parse_from_str(text, format) {
        Ok(dt) => Some(Timestamp {
            year: dt.year(),
            month: dt.month(),
            day: dt.day(),
            hour: dt.hour(),
            minute: dt.minute(),
            second: dt.second(),
            nanosecond: dt.nanosecond(),
        }),
        Err(_) => None,
    }
}

/// Whole seconds from the local time `text` (read with `format` by chrono's
/// `NaiveDateTime::parse_from_str`) until now by the machine's local clock
/// (`Local::now().naive_local()`, `signed_duration_since`, `num_seconds`).
///
/// The contract says only that a number comes back exactly when the text
/// parses; the number depends on the clock and is not stated.
#[verifier::external_body]
pub(crate) fn seconds_since_local_time(text: &str, format: &str) -> (r: Option<i64>)
    ensures
        r is Some <==> parsed_timestamp(text@, format@) is Some,
{
    match chrono::NaiveDateTime::parse_from_str(text, format) {
        Ok(dt) => Some(chrono::Local::now().naive_local().signed_duration_since(dt).num_seconds()),
        Err(_) => None,
    }
}

/// Decimal digits of `n`, with zeros in front up to `width` characters.
pub open spec fn padded(n: nat, width: nat) -> Seq<char> {
    let d = decimal(n);
    if d.len() < width {
        Seq::new((width - d.len()) as nat, |i: int| '0') + d
    } else {
        d
    }
}

/// chrono's `%Y`: four digits for years 0 to 9999, else a sign and at least
/// four digits.
pub open spec fn year_text(y: int) -> Seq<char> {
    if 0 <= y <= 9999 {
        padded(y as nat, 4)
    } else if y < 0 {
        seq!['-'] + padded((-y) as nat, 4)
    } else {
        seq!['+'] + padded(y as nat, 4)
    }
}

/// Two decimal digits of a number below 100.
pub open spec fn two_digits(v: nat) -> Seq<char> {
    seq![digit_char(v / 10), digit_char(v % 10)]
}

/// The second shown by `%S`, 60 during a leap second.
pub open spec fn shown_second(t: Timestamp) -> nat {
    (t.second + t.nanosecond / 1_000_000_000) as nat
}

/// The text chrono writes for the format `%Y-%m-%d %H:%M:%S`.
pub open spec fn timestamp_text(t: Timestamp) -> Seq<char> {
    year_text(t.year as int) + seq!['-'] + two_digits(t.month as nat) + seq!['-'] + two_digits(
        t.day as nat,
    ) + seq![' '] + two_digits(t.hour as nat) + seq![':'] + two_digits(t.minute as nat) + seq![':']
        + two_digits(shown_second(t))
}

// ---------------------------------------------------------------------------
// The Gregorian calendar
// ---------------------------------------------------------------------------

pub open spec fn is_leap_year(y: int) -> bool {
    (y % 4 == 0 && y % 100 != 0) || y % 400 == 0
}

pub open spec fn days_in_month(y: int, m: int) -> int {
    if m == 2 {
        if is_leap_year(y) {
            29
        } else {
            28
        }
    } else if m == 4 || m == 6 || m == 9 || m == 11 {
        30
    } else {
        31
    }
}

/// Leap days in the years 1 to `y - 1`, for `y >= 1`.
pub open spec fn leap_days_before(y: int) -> int {
    (y - 1) / 4 - (y - 1) / 100 + (y - 1) / 400
}

/// Days from 1970-01-01 to the first of January of year `y`.
pub open spec fn days_before_year(y: int) -> int {
    365 * (y - 1970) + leap_days_before(y) - leap_days_before(1970)
}

/// Days from the first of January to the first of month `m` in year `y`.
pub open spec fn days_before_month(y: int, m: int) -> int
    decreases m,
{
    if m <= 1 {
        0
    } else {
        days_before_month(y, m - 1) + days_in_month(y, m - 1)
    }
}

/// `y-m-d` is a valid date and falls `day` days after 1970-01-01.
pub open spec fn is_date_at(y: int, m: int, d: int, day: int) -> bool {
    &&& y >= 1
    &&& 1 <= m <= 12
    &&& 1 <= d <= days_in_month(y, m)
    &&& days_before_year(y) + days_before_month(y, m) + d - 1 == day
}

/// The day, counted from 1970-01-01, of the moment `secs + off` seconds
/// after 1970-01-01 00:00.
pub open spec fn day_number(secs: int, off: int) -> int {
    (secs + off) / 86400
}

/// chrono's `%Y-%m-%d`.
pub open spec fn date_text(y: int, m: int, d: int) -> Seq<char> {
    year_text(y) + seq!['-'] + two_digits(m as nat) + seq!['-'] + two_digits(d as nat)
}

/// `t` is the `%Y-%m-%d` text of the local date of the moment `secs`
/// seconds after 1970-01-01 00:00 UTC, in some time zone whose offset from
/// UTC is under a day (chrono's `FixedOffset` bound).
pub open spec fn is_local_date_text(t: Seq<char>, secs: int) -> bool {
    exists|off: int, y: int, m: int, d: int|
        #![trigger is_date_at(y, m, d, day_number(secs, off))]
        -86400 < off < 86400 && is_date_at(y, m, d, day_number(secs, off)) && t == date_text(
            y,
            m,
            d,
        )
}

fn padded_chars(n: u64, width: usize) -> (r: Vec<char>)
    ensures
        r@ == padded(n as nat, width as nat),
{
    let d = u64_digits(n);
    if d.len() < width {
        let mut r: Vec<char> = Vec::new();
        let zeros = width - d.len();
        let mut i: usize = 0;
        while i < zeros
            invariant
                0 <= i <= zeros,
                r@ == Seq::new(i as nat, |j: int| '0'),
            decreases zeros - i,
        {
            r.push('0');
            assert(r@ =~= Seq::new((i + 1) as nat, |j: int| '0'));
            i += 1;
        }
        extend_chars(&mut r, d.as_slice());
        r
    } else {
        d
    }
}

fn push_two_digits(out: &mut Vec<char>, v: u32)
    requires
        v < 100,
    ensures
        final(out)@ == old(out)@ + two_digits(v as nat),
{
    let tens = (v / 10) as u8;
    let ones = (v % 10) as u8;
    out.push((48u8 + tens) as char);
    out.push((48u8 + ones) as char);
    assert(final(out)@ =~= old(out)@ + two_digits(v as nat));
}

/// `format("%Y-%m-%d %H:%M:%S")` of a timestamp.
pub fn format_timestamp(t: &Timestamp) -> (r: Vec<char>)
    requires
        timestamp_in_range(*t),
    ensures
        r@ == timestamp_text(*t),
{
    let y = t.year as i64;
    let mut r: Vec<char> = if 0 <= y && y <= 9999 {
        padded_chars(y as u64, 4)
    } else if y < 0 {
        let mut s: Vec<char> = Vec::new();
        s.push('-');
        let mag = padded_chars((0 - y) as u64, 4);
        extend_chars(&mut s, mag.as_slice());
        s
    } else {
        let mut s: Vec<char> = Vec::new();
        s.push('+');
        let mag = padded_chars(y as u64, 4);
        extend_chars(&mut s, mag.as_slice());
        s
    };
    assert(r@ =~= year_text(t.year as int));
    r.push('-');
    push_two_digits(&mut r, t.month);
    r.push('-');
    push_two_digits(&mut r, t.day);
    r.push(' ');
    push_two_digits(&mut r, t.hour);
    r.push(':');
    push_two_digits(&mut r, t.minute);
    r.push(':');
    push_two_digits(&mut r, t.second + t.nanosecond / 1_000_000_000);
    assert(r@ =~= timestamp_text(*t));
    r
}

} // verus!
