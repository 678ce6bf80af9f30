//! Calendar codec: millisecond Unix timestamps to civil dates and back to
//! fixed-width text, on the proleptic Gregorian calendar (UTC only).
//!
//! The year is resolved by iteratively subtracting whole-year lengths
//! starting from 1970, the month by walking the standard month-length
//! table; no date/time library stands behind any of it. Formatting
//! produces exactly the 19 bytes `YYYY-MM-DD HH:MM:SS`.

use vstd::arithmetic::div_mod::lemma_div_is_ordered;
use vstd::prelude::*;

verus! {

/// A civil date/time (UTC), derived from a timestamp and never persisted.
#[derive(Clone, Copy, Debug, PartialEq, Eq, Structural)]
pub struct DateTime {
    pub year: u32,
    pub month: u8,
    pub day: u8,
    pub hour: u8,
    pub minute: u8,
    pub second: u8,
}

impl DateTime {
    /// Field ranges that every value produced by the codec satisfies.
    pub open spec fn wf(self) -> bool {
        &&& 1970 <= self.year
        &&& 1 <= self.month <= 12
        &&& 1 <= self.day <= 31
        &&& self.hour < 24
        &&& self.minute < 60
        &&& self.second < 60
    }
}

/// The Gregorian leap-year rule: every fourth year, except centuries not
/// divisible by 400.
pub open spec fn spec_is_leap_year(year: u32) -> bool {
    (year % 4 == 0 && year % 100 != 0) || year % 400 == 0
}

/// How many days the given year has.
pub open spec fn spec_days_in_year(year: u32) -> int {
    if spec_is_leap_year(year) {
        366
    } else {
        365
    }
}

/// Resolves a day count relative to January 1 of `year` into the calendar
/// year it falls in and the 0-indexed day within that year, by peeling
/// off whole years one at a time.
pub open spec fn spec_resolve_year(year: u32, days: int) -> (u32, int)
    decreases days,
{
    if days < spec_days_in_year(year) {
        (year, days)
    } else {
        spec_resolve_year(((year + 1) as u32), days - spec_days_in_year(year))
    }
}

/// The standard month-length table; `month` is 1-indexed.
pub open spec fn spec_days_in_month(month: int, leap: bool) -> int {
    if month == 2 {
        if leap {
            29
        } else {
            28
        }
    } else if month == 4 || month == 6 || month == 9 || month == 11 {
        30
    } else {
        31
    }
}

/// Resolves a remaining day count against the months from `month` on:
/// the result is the 1-indexed month and day it lands on, or the
/// defensive December 31 fallback when the count outruns the year.
pub open spec fn spec_month_day_from(month: int, remaining: int, leap: bool) -> (int, int)
    decreases 13 - month,
{
    if month > 12 {
        (12, 31)
    } else if remaining < spec_days_in_month(month, leap) {
        (month, remaining + 1)
    } else {
        spec_month_day_from(month + 1, remaining - spec_days_in_month(month, leap), leap)
    }
}

/// Month and day (both 1-indexed) for a 0-indexed day of the given year.
pub open spec fn spec_month_day(day_of_year: int, year: u32) -> (int, int) {
    spec_month_day_from(1, day_of_year, spec_is_leap_year(year))
}

/// The civil date/time for a millisecond timestamp: seconds are taken by
/// integer division (sub-second part discarded), the clock fields by
/// modular arithmetic, and the date by the iterative year and month
/// resolution above.
pub open spec fn spec_timestamp_to_datetime(timestamp_ms: u64) -> DateTime {
    let timestamp = timestamp_ms as int / 1000;
    let second = timestamp % 60;
    let minutes_total = timestamp / 60;
    let minute = minutes_total % 60;
    let hours_total = minutes_total / 60;
    let hour = hours_total % 24;
    let days_total = hours_total / 24;
    let yr = spec_resolve_year(1970, days_total);
    let md = spec_month_day(yr.1, yr.0);
    DateTime {
        year: yr.0,
        month: md.0 as u8,
        day: md.1 as u8,
        hour: hour as u8,
        minute: minute as u8,
        second: second as u8,
    }
}

/// Whether `year` is a leap year under the Gregorian rule.
pub fn is_leap_year(year: u32) -> (r: bool)
    ensures
        r == spec_is_leap_year(year),
{
    (year % 4 == 0 && year % 100 != 0) || year % 400 == 0
}

/// The number of days in a month (1-indexed) of a common or leap year.
pub fn days_in_month(month: u32, leap: bool) -> (d: u32)
    ensures
        d as int == spec_days_in_month(month as int, leap),
        1 <= d <= 31,
{
    if month == 2 {
        if leap {
            29
        } else {
            28
        }
    } else if month == 4 || month == 6 || month == 9 || month == 11 {
        30
    } else {
        31
    }
}

/// Convert a 0-indexed day of year to a 1-indexed (month, day) pair by
/// walking the months in order. A day count that outruns the year (which
/// the year resolution never hands over) falls back to December 31
/// rather than failing.
pub fn days_to_month_day(day_of_year: u32, year: u32) -> (r: (u8, u8))
    ensures
        r.0 as int == spec_month_day(day_of_year as int, year).0,
        r.1 as int == spec_month_day(day_of_year as int, year).1,
        1 <= r.0 <= 12,
        1 <= r.1,
        r.1 as int <= spec_days_in_month(r.0 as int, spec_is_leap_year(year)),
{
    let is_leap = is_leap_year(year);
    let mut remaining = day_of_year;
    let mut month: u32 = 1;
    while month <= 12
        invariant
            1 <= month <= 13,
            is_leap == spec_is_leap_year(year),
            spec_month_day(day_of_year as int, year) == spec_month_day_from(
                month as int,
                remaining as int,
                is_leap,
            ),
        decreases 13 - month,
    {
        let days = days_in_month(month, is_leap);
        if remaining < days {
            return ((month as u8), ((remaining + 1) as u8));
        }
        remaining -= days;
        month += 1;
    }
    (12, 31)
}

/// Convert a Unix timestamp in milliseconds to a civil [`DateTime`],
/// resolving the year by iteratively subtracting whole-year lengths
/// starting from 1970. Total for every `u64` input; the result always
/// has its fields in range.
pub fn timestamp_to_datetime(timestamp_ms: u64) -> (dt: DateTime)
    ensures
        dt == spec_timestamp_to_datetime(timestamp_ms),
        dt.wf(),
        dt.day as int <= spec_days_in_month(dt.month as int, spec_is_leap_year(dt.year)),
{
    let timestamp = timestamp_ms / 1000;
    let second = (timestamp % 60) as u8;
    let minutes_total = timestamp / 60;
    let minute = (minutes_total % 60) as u8;
    let hours_total = minutes_total / 60;
    let hour = (hours_total % 24) as u8;
    let days_total = hours_total / 24;

    proof {
        lemma_div_is_ordered(timestamp_ms as int, u64::MAX as int, 1000);
        lemma_div_is_ordered(timestamp as int, u64::MAX as int / 1000, 60);
        lemma_div_is_ordered(minutes_total as int, u64::MAX as int / 1000 / 60, 60);
        lemma_div_is_ordered(hours_total as int, u64::MAX as int / 1000 / 60 / 60, 24);
        assert(days_total <= 213503982334);
    }

    let mut year: u32 = 1970;
    let mut remaining_days = days_total;

    loop
        invariant
            1970 <= year,
            days_total <= 213503982334,
            365 * (year as int - 1970) + remaining_days as int <= days_total as int,
            spec_resolve_year(1970, days_total as int) == spec_resolve_year(
                year,
                remaining_days as int,
            ),
        ensures
            1970 <= year,
            spec_days_in_year(year) > remaining_days as int,
            spec_resolve_year(1970, days_total as int) == spec_resolve_year(
                year,
                remaining_days as int,
            ),
        decreases remaining_days,
    {
        if remaining_days < 365 {
            break;
        }
        let year_len: u64 = if is_leap_year(year) {
            366
        } else {
            365
        };
        if remaining_days < year_len {
            break;
        }
        remaining_days = remaining_days - year_len;
        year = year + 1;
    }

    let md = days_to_month_day(remaining_days as u32, year);

    DateTime { year, month: md.0, day: md.1, hour, minute, second }
}

/// One ASCII decimal digit: `'0'` plus the value's last digit.
pub open spec fn spec_ascii_digit(v: int) -> u8 {
    (48 + v % 10) as u8
}

/// Two zero-padded ASCII digits for a clock or date field.
pub open spec fn spec_two_digits(v: int) -> Seq<u8> {
    seq![(48 + v / 10) as u8, spec_ascii_digit(v)]
}

/// The low four decimal digits of a year, most significant first.
pub open spec fn spec_year_digits(y: int) -> Seq<u8> {
    seq![
        spec_ascii_digit(y / 1000),
        spec_ascii_digit(y / 100),
        spec_ascii_digit(y / 10),
        spec_ascii_digit(y),
    ]
}

/// The 19-byte `YYYY-MM-DD HH:MM:SS` rendering of a civil date/time:
/// four year digits (years at or above 10000 silently truncate to their
/// low four digits), then zero-padded two-digit fields with `-`, a space
/// and `:` separators at fixed offsets.
pub open spec fn spec_format_datetime(dt: DateTime) -> Seq<u8> {
    spec_year_digits(dt.year as int) + seq![45u8] + spec_two_digits(dt.month as int) + seq![45u8]
        + spec_two_digits(dt.day as int) + seq![32u8] + spec_two_digits(dt.hour as int)
        + seq![58u8] + spec_two_digits(dt.minute as int) + seq![58u8] + spec_two_digits(
        dt.second as int,
    )
}

/// Write the low four decimal digits of `val` into `buf[0..4]`, most
/// significant first, leaving the rest of the buffer untouched.
pub fn write_u32(buf: &mut [u8; 19], val: u32)
    ensures
        final(buf)@.subrange(0, 4) == spec_year_digits(val as int),
        forall|i: int| 4 <= i < 19 ==> final(buf)@[i] == old(buf)@[i],
{
    buf[0] = 48 + ((val / 1000) % 10) as u8;
    buf[1] = 48 + ((val / 100) % 10) as u8;
    buf[2] = 48 + ((val / 10) % 10) as u8;
    buf[3] = 48 + (val % 10) as u8;
    proof {
        assert(buf@.subrange(0, 4) =~= spec_year_digits(val as int));
    }
}

/// Write `val` as two zero-padded ASCII digits at `buf[offset]` and
/// `buf[offset + 1]`, leaving the rest of the buffer untouched.
pub fn write_u8(buf: &mut [u8; 19], offset: usize, val: u8)
    requires
        offset + 2 <= 19,
    ensures
        final(buf)@.subrange(offset as int, offset as int + 2) == spec_two_digits(val as int),
        forall|i: int|
            0 <= i < 19 && !(offset <= i < offset + 2) ==> final(buf)@[i] == old(buf)@[i],
{
    buf[offset] = 48 + val / 10;
    buf[offset + 1] = 48 + val % 10;
    proof {
        assert(buf@.subrange(offset as int, offset as int + 2) =~= spec_two_digits(val as int));
    }
}

/// Format a civil date/time as the fixed 19-byte ASCII buffer
/// `YYYY-MM-DD HH:MM:SS`. Fields are not re-validated here: a field out
/// of range simply renders as its two low-order decimal positions, as
/// [`spec_format_datetime`] states.
pub fn format_datetime(dt: DateTime) -> (r: [u8; 19])
    ensures
        r@ == spec_format_datetime(dt),
{
    let mut result: [u8; 19] = [48u8; 19];
    write_u32(&mut result, dt.year);
    result[4] = 45;
    write_u8(&mut result, 5, dt.month);
    result[7] = 45;
    write_u8(&mut result, 8, dt.day);
    result[10] = 32;
    write_u8(&mut result, 11, dt.hour);
    result[13] = 58;
    write_u8(&mut result, 14, dt.minute);
    result[16] = 58;
    write_u8(&mut result, 17, dt.second);
    proof {
        assert(result@ =~= spec_format_datetime(dt));
    }
    result
}

} // verus!
