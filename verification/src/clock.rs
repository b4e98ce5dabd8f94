//! Times of day and calendar dates as plain values, with verified
//! parsers for the three textual forms the weather report uses:
//! 12-hour clock times ("06:59 AM"), military times ("0", "300",
//! "2100"), and ISO-style dates ("2024-02-29").

use vstd::prelude::*;

use crate::text::{all_dec_digits, dec_val, digit_val, is_dec_digit, lemma_dec_val_upper, parse_dec, pow10};

verus! {

/// A wall-clock time of day.
#[derive(Clone, Copy, PartialEq, Eq, Structural, Debug)]
pub struct TimeOfDay {
    pub hour: u8,
    pub minute: u8,
    pub second: u8,
}

impl TimeOfDay {
    /// A well-formed time of day.
    pub open spec fn wf(self) -> bool {
        self.hour < 24 && self.minute < 60 && self.second < 60
    }

    /// The time as seconds since midnight; times of day compare by it.
    pub open spec fn seconds_of_day(self) -> int {
        self.hour * 3600 + self.minute * 60 + self.second
    }

    /// The time as seconds since midnight.
    pub fn seconds(&self) -> (r: u32)
        ensures
            r == self.seconds_of_day(),
    {
        self.hour as u32 * 3600 + self.minute as u32 * 60 + self.second as u32
    }
}

/// Whether `now` falls outside daylight: before sunrise or after
/// sunset.
pub open spec fn spec_is_night(now: TimeOfDay, sunrise: TimeOfDay, sunset: TimeOfDay) -> bool {
    now.seconds_of_day() < sunrise.seconds_of_day() || now.seconds_of_day()
        > sunset.seconds_of_day()
}

/// Whether `now` falls outside daylight: before sunrise or after
/// sunset.
pub fn is_night(now: TimeOfDay, sunrise: TimeOfDay, sunset: TimeOfDay) -> (r: bool)
    ensures
        r == spec_is_night(now, sunrise, sunset),
{
    let n = now.seconds();
    n < sunrise.seconds() || n > sunset.seconds()
}

/// The shape of a 12-hour clock time: "hh:mm AM" or "hh:mm PM", with
/// an hour between 1 and 12 and a minute below 60.
pub open spec fn is_time_12h(s: Seq<char>) -> bool {
    &&& s.len() == 8
    &&& is_dec_digit(s[0])
    &&& is_dec_digit(s[1])
    &&& s[2] == ':'
    &&& is_dec_digit(s[3])
    &&& is_dec_digit(s[4])
    &&& s[5] == ' '
    &&& (s[6] == 'A' || s[6] == 'P')
    &&& s[7] == 'M'
    &&& 1 <= hour12_of(s) <= 12
    &&& minute_of_12h(s) < 60
}

/// The 12-hour clock hour the string writes.
pub open spec fn hour12_of(s: Seq<char>) -> int {
    digit_val(s[0]) * 10 + digit_val(s[1])
}

/// The minute the string writes.
pub open spec fn minute_of_12h(s: Seq<char>) -> int {
    digit_val(s[3]) * 10 + digit_val(s[4])
}

/// The time a well-formed 12-hour clock string denotes, on the 24-hour
/// clock: 12 AM is hour 0 and 12 PM is hour 12.
pub open spec fn time_12h_value(s: Seq<char>) -> TimeOfDay {
    let h = if s[6] == 'A' {
        hour12_of(s) % 12
    } else {
        hour12_of(s) % 12 + 12
    };
    TimeOfDay { hour: h as u8, minute: minute_of_12h(s) as u8, second: 0 }
}

/// Parses a 12-hour clock time such as "06:59 AM".  Returns `None`
/// exactly when the string is not of that shape.
pub fn parse_time_12h(s: &str) -> (r: Option<TimeOfDay>)
    ensures
        r is Some <==> is_time_12h(s@),
        r matches Some(t) ==> t == time_12h_value(s@) && t.wf(),
{
    if s.unicode_len() != 8 {
        return None;
    }
    let d0 = digit_at(s, 0);
    let d1 = digit_at(s, 1);
    let d3 = digit_at(s, 3);
    let d4 = digit_at(s, 4);
    let (d0, d1, d3, d4) = match (d0, d1, d3, d4) {
        (Some(a), Some(b), Some(c), Some(d)) => (a, b, c, d),
        _ => {
            return None;
        },
    };
    if s.get_char(2) != ':' || s.get_char(5) != ' ' || s.get_char(7) != 'M' {
        return None;
    }
    let meridiem = s.get_char(6);
    if meridiem != 'A' && meridiem != 'P' {
        return None;
    }
    let h12 = d0 as u32 * 10 + d1 as u32;
    let m = d3 as u32 * 10 + d4 as u32;
    if h12 < 1 || h12 > 12 || m >= 60 {
        return None;
    }
    let h = if meridiem == 'A' {
        h12 % 12
    } else {
        h12 % 12 + 12
    };
    Some(TimeOfDay { hour: h as u8, minute: m as u8, second: 0 })
}

/// The digit at one position of the string, or `None` where another
/// character stands.
fn digit_at(s: &str, i: usize) -> (r: Option<u8>)
    requires
        i < s@.len(),
    ensures
        r is Some <==> is_dec_digit(s@[i as int]),
        r matches Some(d) ==> d == digit_val(s@[i as int]),
{
    let c = s.get_char(i);
    let cu = c as u32;
    if 48 <= cu && cu <= 57 {
        Some((cu - 48) as u8)
    } else {
        None
    }
}

/// The shape of a military-style time: up to four digits, read as
/// hhmm, with the hour below 24 and the minute below 60.  The empty
/// string reads as midnight, as zero-padding makes it "0000".
pub open spec fn is_military_time(s: Seq<char>) -> bool {
    &&& all_dec_digits(s)
    &&& s.len() <= 4
    &&& dec_val(s) / 100 < 24
    &&& dec_val(s) % 100 < 60
}

/// The time a well-formed military-style string denotes.
pub open spec fn military_time_value(s: Seq<char>) -> TimeOfDay {
    TimeOfDay { hour: (dec_val(s) / 100) as u8, minute: (dec_val(s) % 100) as u8, second: 0 }
}

/// Parses a military-style time such as "0", "300" or "2100", the
/// string being the decimal value of hour * 100 + minute.  Returns
/// `None` exactly when the string is not of that shape.
pub fn parse_military_time(s: &str) -> (r: Option<TimeOfDay>)
    ensures
        r is Some <==> is_military_time(s@),
        r matches Some(t) ==> t == military_time_value(s@) && t.wf(),
{
    let len = s.unicode_len();
    if len > 4 {
        return None;
    }
    let v: u32;
    if len == 0 {
        proof {
            assert(s@ =~= Seq::<char>::empty());
        }
        v = 0;
    } else {
        match parse_dec(s, 9999) {
            Some(x) => {
                v = x;
            },
            None => {
                proof {
                    if all_dec_digits(s@) {
                        lemma_dec_val_upper(s@);
                        assert(pow10(0) == 1);
                        assert(pow10(1) == 10);
                        assert(pow10(2) == 100);
                        assert(pow10(3) == 1000);
                        assert(pow10(4) == 10000);
                    }
                }
                return None;
            },
        }
    }
    let h = v / 100;
    let m = v % 100;
    if h >= 24 || m >= 60 {
        return None;
    }
    Some(TimeOfDay { hour: h as u8, minute: m as u8, second: 0 })
}

/// A calendar date.
#[derive(Clone, Copy, PartialEq, Eq, Structural, Debug)]
pub struct Date {
    pub year: u16,
    pub month: u8,
    pub day: u8,
}

impl Date {
    /// A well-formed date of the proleptic Gregorian calendar.
    pub open spec fn wf(self) -> bool {
        1 <= self.month <= 12 && 1 <= self.day <= spec_days_in_month(
            self.year as int,
            self.month as int,
        )
    }
}

/// A leap year of the Gregorian calendar.
pub open spec fn spec_is_leap_year(y: int) -> bool {
    y % 4 == 0 && (y % 100 != 0 || y % 400 == 0)
}

/// How many days the month has in the given year.
pub open spec fn spec_days_in_month(y: int, m: int) -> int {
    if m == 2 {
        if spec_is_leap_year(y) {
            29
        } else {
            28
        }
    } else if m == 4 || m == 6 || m == 9 || m == 11 {
        30
    } else {
        31
    }
}

/// A leap year of the Gregorian calendar.
pub fn is_leap_year(y: u16) -> (r: bool)
    ensures
        r == spec_is_leap_year(y as int),
{
    y % 4 == 0 && (y % 100 != 0 || y % 400 == 0)
}

/// How many days the month has in the given year.
pub fn days_in_month(y: u16, m: u8) -> (r: u8)
    requires
        1 <= m <= 12,
    ensures
        r == spec_days_in_month(y as int, m as int),
{
    if m == 2 {
        if is_leap_year(y) {
            29
        } else {
            28
        }
    } else if m == 4 || m == 6 || m == 9 || m == 11 {
        30
    } else {
        31
    }
}

/// The shape of a date string: "yyyy-mm-dd", naming a day that exists
/// in the Gregorian calendar.
pub open spec fn is_date_str(s: Seq<char>) -> bool {
    &&& s.len() == 10
    &&& is_dec_digit(s[0])
    &&& is_dec_digit(s[1])
    &&& is_dec_digit(s[2])
    &&& is_dec_digit(s[3])
    &&& s[4] == '-'
    &&& is_dec_digit(s[5])
    &&& is_dec_digit(s[6])
    &&& s[7] == '-'
    &&& is_dec_digit(s[8])
    &&& is_dec_digit(s[9])
    &&& 1 <= month_of_date(s) <= 12
    &&& 1 <= day_of_date(s) <= spec_days_in_month(year_of_date(s), month_of_date(s))
}

/// The year the date string writes.
pub open spec fn year_of_date(s: Seq<char>) -> int {
    ((digit_val(s[0]) * 10 + digit_val(s[1])) * 10 + digit_val(s[2])) * 10 + digit_val(s[3])
}

/// The month the date string writes.
pub open spec fn month_of_date(s: Seq<char>) -> int {
    digit_val(s[5]) * 10 + digit_val(s[6])
}

/// The day the date string writes.
pub open spec fn day_of_date(s: Seq<char>) -> int {
    digit_val(s[8]) * 10 + digit_val(s[9])
}

/// The date a well-formed date string denotes.
pub open spec fn date_value(s: Seq<char>) -> Date {
    Date {
        year: year_of_date(s) as u16,
        month: month_of_date(s) as u8,
        day: day_of_date(s) as u8,
    }
}

/// Parses a date such as "2024-02-29".  Returns `None` exactly when
/// the string is not of that shape or names a day the calendar does
/// not have.
pub fn parse_date(s: &str) -> (r: Option<Date>)
    ensures
        r is Some <==> is_date_str(s@),
        r matches Some(d) ==> d == date_value(s@) && d.wf(),
{
    if s.unicode_len() != 10 {
        return None;
    }
    if s.get_char(4) != '-' || s.get_char(7) != '-' {
        return None;
    }
    let y = match (digit_at(s, 0), digit_at(s, 1), digit_at(s, 2), digit_at(s, 3)) {
        (Some(a), Some(b), Some(c), Some(d)) => {
            ((a as u32 * 10 + b as u32) * 10 + c as u32) * 10 + d as u32
        },
        _ => {
            return None;
        },
    };
    let m = match (digit_at(s, 5), digit_at(s, 6)) {
        (Some(a), Some(b)) => a as u32 * 10 + b as u32,
        _ => {
            return None;
        },
    };
    let d = match (digit_at(s, 8), digit_at(s, 9)) {
        (Some(a), Some(b)) => a as u32 * 10 + b as u32,
        _ => {
            return None;
        },
    };
    if m < 1 || m > 12 {
        return None;
    }
    if d < 1 || d > days_in_month(y as u16, m as u8) as u32 {
        return None;
    }
    Some(Date { year: y as u16, month: m as u8, day: d as u8 })
}

} // verus!
