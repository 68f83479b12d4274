//! Reading the start time that the process-status utility prints, such as
//! `Wed Oct 28 19:55:12 2026`, as seconds since the epoch. The utility is
//! asked for the time in UTC, so no time zone enters.

use vstd::prelude::*;
use vstd::slice::slice_subrange;
use crate::number::{parse_unsigned, parsed_unsigned};
use crate::text::{
    chars_of,
    count_leading,
    fields_of,
    leading,
    split_whitespace,
    str_equal,
    CharClass,
};

verus! {

/// Whether the year `y` has a 29th of February.
pub open spec fn is_leap_year(y: nat) -> bool {
    (y % 4 == 0 && y % 100 != 0) || y % 400 == 0
}

/// The number of days of the year `y`.
pub open spec fn days_in_year(y: nat) -> nat {
    if is_leap_year(y) {
        366
    } else {
        365
    }
}

/// The number of days of month `m` (1 to 12) in the year `y`.
pub open spec fn days_in_month(y: nat, m: nat) -> nat {
    if m == 2 {
        if is_leap_year(y) {
            29
        } else {
            28
        }
    } else if m == 4 || m == 6 || m == 9 || m == 11 {
        30
    } else {
        31
    }
}

/// The number of days from 1 January 1970 to 1 January of the year `y`.
pub open spec fn days_before_year(y: nat) -> nat
    decreases y,
{
    if y <= 1970 {
        0
    } else {
        days_before_year((y - 1) as nat) + days_in_year((y - 1) as nat)
    }
}

/// The number of days from 1 January of the year `y` to the first of its
/// month `m`.
pub open spec fn days_before_month(y: nat, m: nat) -> nat
    decreases m,
{
    if m <= 1 {
        0
    } else {
        days_before_month(y, (m - 1) as nat) + days_in_month(y, (m - 1) as nat)
    }
}

/// A date and a time of day.
pub struct Moment {
    pub year: nat,
    pub month: nat,
    pub day: nat,
    pub hour: nat,
    pub minute: nat,
    pub second: nat,
}

impl Moment {
    /// Whether the date is one of the calendar from 1970 to 9999 and the
    /// time one of the clock.
    pub open spec fn is_valid(self) -> bool {
        &&& 1970 <= self.year <= 9999
        &&& 1 <= self.month <= 12
        &&& 1 <= self.day <= days_in_month(self.year, self.month)
        &&& self.hour <= 23
        &&& self.minute <= 59
        &&& self.second <= 59
    }

    /// The seconds from the start of 1970 to this moment.
    pub open spec fn epoch_seconds(self) -> nat {
        ((days_before_year(self.year) + days_before_month(self.year, self.month) + self.day - 1)
            * 86400 + self.hour * 3600 + self.minute * 60 + self.second) as nat
    }
}

/// The number of the month that `name` abbreviates in English.
pub open spec fn month_number(name: Seq<char>) -> Option<nat> {
    if name == "Jan"@ {
        Some(1)
    } else if name == "Feb"@ {
        Some(2)
    } else if name == "Mar"@ {
        Some(3)
    } else if name == "Apr"@ {
        Some(4)
    } else if name == "May"@ {
        Some(5)
    } else if name == "Jun"@ {
        Some(6)
    } else if name == "Jul"@ {
        Some(7)
    } else if name == "Aug"@ {
        Some(8)
    } else if name == "Sep"@ {
        Some(9)
    } else if name == "Oct"@ {
        Some(10)
    } else if name == "Nov"@ {
        Some(11)
    } else if name == "Dec"@ {
        Some(12)
    } else {
        None
    }
}

/// The three parts of a time of day written as `hh:mm:ss`: what stands
/// before the first colon, between the first and the second, and after the
/// second. `None` where `s` has fewer than two colons.
pub open spec fn clock_parts(s: Seq<char>) -> Option<(Seq<char>, Seq<char>, Seq<char>)> {
    let a = leading(s, CharClass::Not(':'));
    if a >= s.len() {
        None
    } else {
        let rest = s.skip(a as int + 1);
        let b = leading(rest, CharClass::Not(':'));
        if b >= rest.len() {
            None
        } else {
            Some((s.take(a as int), rest.take(b as int), rest.skip(b as int + 1)))
        }
    }
}

/// The moment that a start time writes: five fields, of which the first
/// (the day of the week) is not read, the second is the month's name, the
/// third the day, the fourth the time of day and the fifth the year.
pub open spec fn parsed_moment(text: Seq<char>) -> Option<Moment> {
    let fields = fields_of(text);
    if fields.len() != 5 {
        None
    } else {
        match (
            month_number(fields[1]),
            parsed_unsigned(fields[2], 31),
            clock_parts(fields[3]),
            parsed_unsigned(fields[4], 9999),
        ) {
            (Some(month), Some(day), Some(parts), Some(year)) => {
                match (
                    parsed_unsigned(parts.0, 23),
                    parsed_unsigned(parts.1, 59),
                    parsed_unsigned(parts.2, 59),
                ) {
                    (Some(hour), Some(minute), Some(second)) => Some(
                        Moment { year, month, day, hour, minute, second },
                    ),
                    _ => None,
                }
            },
            _ => None,
        }
    }
}

/// The start time that `text` writes, in seconds since the epoch; `None`
/// where it writes no valid moment.
pub open spec fn parsed_start_time(text: Seq<char>) -> Option<nat> {
    match parsed_moment(text) {
        Some(moment) if moment.is_valid() => Some(moment.epoch_seconds()),
        _ => None,
    }
}

/// Tests a year for a 29th of February.
fn leap_year(y: u64) -> (leap: bool)
    ensures
        leap == is_leap_year(y as nat),
{
    (y % 4 == 0 && y % 100 != 0) || y % 400 == 0
}

/// The number of days of a month.
fn month_length(y: u64, m: u64) -> (days: u64)
    ensures
        days == days_in_month(y as nat, m as nat),
        28 <= days <= 31,
{
    if m == 2 {
        if leap_year(y) {
            29
        } else {
            28
        }
    } else if m == 4 || m == 6 || m == 9 || m == 11 {
        30
    } else {
        31
    }
}

/// Counts the days from the start of 1970 to the first of a month.
fn days_before(year: u64, month: u64) -> (days: u64)
    requires
        1970 <= year <= 9999,
        1 <= month <= 12,
    ensures
        days == days_before_year(year as nat) + days_before_month(year as nat, month as nat),
        days <= 366 * 8030 + 31 * 12,
{
    let mut days: u64 = 0;
    let mut y: u64 = 1970;
    while y < year
        invariant
            1970 <= y <= year <= 9999,
            days == days_before_year(y as nat),
            days <= 366 * (y - 1970),
        decreases year - y,
    {
        days = days + if leap_year(y) {
            366
        } else {
            365
        };
        y += 1;
    }
    let ghost in_years = days;
    let mut m: u64 = 1;
    while m < month
        invariant
            1 <= m <= month <= 12,
            in_years == days_before_year(year as nat),
            in_years <= 366 * 8030,
            days == in_years + days_before_month(year as nat, m as nat),
            days <= in_years + 31 * (m - 1),
        decreases month - m,
    {
        days = days + month_length(year, m);
        m += 1;
    }
    days
}

/// Reads the name of a month.
fn parse_month(name: &String) -> (month: Option<u64>)
    ensures
        match month_number(name@) {
            Some(m) => month == Some(m as u64) && 1 <= m <= 12,
            None => month is None,
        },
{
    let name = name.as_str();
    if str_equal(name, "Jan") {
        Some(1)
    } else if str_equal(name, "Feb") {
        Some(2)
    } else if str_equal(name, "Mar") {
        Some(3)
    } else if str_equal(name, "Apr") {
        Some(4)
    } else if str_equal(name, "May") {
        Some(5)
    } else if str_equal(name, "Jun") {
        Some(6)
    } else if str_equal(name, "Jul") {
        Some(7)
    } else if str_equal(name, "Aug") {
        Some(8)
    } else if str_equal(name, "Sep") {
        Some(9)
    } else if str_equal(name, "Oct") {
        Some(10)
    } else if str_equal(name, "Nov") {
        Some(11)
    } else if str_equal(name, "Dec") {
        Some(12)
    } else {
        None
    }
}

/// Reads a time of day as seconds since midnight.
fn parse_clock(s: &[char]) -> (seconds: Option<u64>)
    ensures
        match clock_parts(s@) {
            Some(parts) => match (
                parsed_unsigned(parts.0, 23),
                parsed_unsigned(parts.1, 59),
                parsed_unsigned(parts.2, 59),
            ) {
                (Some(h), Some(m), Some(sec)) => seconds == Some(
                    (h * 3600 + m * 60 + sec) as u64,
                ),
                _ => seconds is None,
            },
            None => seconds is None,
        },
{
    let a: usize = count_leading(s, CharClass::Not(':'));
    if a >= s.len() {
        return None;
    }
    let rest = slice_subrange(s, a + 1, s.len());
    let b: usize = count_leading(rest, CharClass::Not(':'));
    if b >= rest.len() {
        return None;
    }
    let hours = parse_unsigned(slice_subrange(s, 0, a), 23);
    let minutes = parse_unsigned(slice_subrange(rest, 0, b), 59);
    let seconds = parse_unsigned(slice_subrange(rest, b + 1, rest.len()), 59);
    match (hours, minutes, seconds) {
        (Some(h), Some(m), Some(sec)) => Some(h * 3600 + m * 60 + sec),
        _ => None,
    }
}

/// Reads a start time as seconds since the epoch.
pub fn parse_start_time(text: &str) -> (start: Option<u64>)
    ensures
        match parsed_start_time(text@) {
            Some(t) => start == Some(t as u64),
            None => start is None,
        },
{
    let chars = chars_of(text);
    let fields = split_whitespace(chars.as_slice());
    if fields.len() != 5 {
        return None;
    }
    let day_chars = chars_of(fields[2].as_str());
    let clock_chars = chars_of(fields[3].as_str());
    let year_chars = chars_of(fields[4].as_str());
    let month = parse_month(&fields[1]);
    let day = parse_unsigned(day_chars.as_slice(), 31);
    let clock = parse_clock(clock_chars.as_slice());
    let year = parse_unsigned(year_chars.as_slice(), 9999);
    match (month, day, clock, year) {
        (Some(m), Some(d), Some(in_day), Some(y)) => {
            if y >= 1970 && d >= 1 && d <= month_length(y, m) {
                Some((days_before(y, m) + d - 1) * 86400 + in_day)
            } else {
                None
            }
        },
        _ => None,
    }
}

} // verus!
