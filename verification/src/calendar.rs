//! Calendar values: a date, a time of day, and the two together.
//!
//! The values are plain fields. Which of them name a day or a time that exists
//! is decided by the `time` crate.

use vstd::prelude::*;

verus! {

/// Whether `year` is a leap year of the proleptic Gregorian calendar.
pub open spec fn is_leap_year(year: int) -> bool {
    year % 4 == 0 && (year % 100 != 0 || year % 400 == 0)
}

/// Number of days of `month`, a number from 1 to 12, in `year`.
pub open spec fn days_in_month(year: int, month: int) -> int {
    if month == 2 {
        if is_leap_year(year) {
            29
        } else {
            28
        }
    } else if month == 4 || month == 6 || month == 9 || month == 11 {
        30
    } else {
        31
    }
}

/// Whether `year`, `month`, `day` name a day of the calendar, in the years
/// from -9999 to 9999.
pub open spec fn is_calendar_date(year: int, month: int, day: int) -> bool {
    &&& -9999 <= year <= 9999
    &&& 1 <= month <= 12
    &&& 1 <= day <= days_in_month(year, month)
}

/// Whether `hour`, `minute`, `second` name a time of day on the 24-hour clock.
pub open spec fn is_clock_time(hour: int, minute: int, second: int) -> bool {
    &&& 0 <= hour <= 23
    &&& 0 <= minute <= 59
    &&& 0 <= second <= 59
}

/// Asks `time::Month::try_from` for the month of number `month` and
/// `time::Date::from_calendar_date` for the date. Both succeed exactly where
/// the month is one of 1 to 12, the year lies within the crate's range of
/// -9999 to 9999 (the one it has without its `large-dates` feature), and the
/// day exists in that month of that year.
#[verifier::external_body]
fn calendar_date_exists(year: i32, month: u8, day: u8) -> (is_date: bool)
    ensures
        is_date == is_calendar_date(year as int, month as int, day as int),
{
    match time::Month::try_from(month) {
        Ok(month) => time::Date::from_calendar_date(year, month, day).is_ok(),
        Err(_) => false,
    }
}

/// Asks `time::Time::from_hms` for the time of day. It succeeds exactly where
/// the hour is at most 23 and the minute and the second are at most 59.
#[verifier::external_body]
fn clock_time_exists(hour: u8, minute: u8, second: u8) -> (is_time: bool)
    ensures
        is_time == is_clock_time(hour as int, minute as int, second as int),
{
    time::Time::from_hms(hour, minute, second).is_ok()
}

/// A day of the calendar.
#[derive(Debug, Clone, Copy, PartialEq, Eq, Structural)]
pub struct Date {
    /// Year, in astronomical numbering.
    pub year: i32,
    /// Month of the year, from 1.
    pub month: u8,
    /// Day of the month, from 1.
    pub day: u8,
}

/// A time of day, to the second.
#[derive(Debug, Clone, Copy, PartialEq, Eq, Structural)]
pub struct Time {
    /// Hour on the 24-hour clock.
    pub hour: u8,
    /// Minute of the hour.
    pub minute: u8,
    /// Second of the minute.
    pub second: u8,
}

/// A date and a time of day, without a time zone.
#[derive(Debug, Clone, Copy, PartialEq, Eq, Structural)]
pub struct PrimitiveDateTime {
    /// The day.
    pub date: Date,
    /// The time on that day.
    pub time: Time,
}

impl Date {
    /// Whether the fields name a day that exists.
    pub open spec fn valid(self) -> bool {
        is_calendar_date(self.year as int, self.month as int, self.day as int)
    }

    /// Whether the fields name a day that exists.
    pub fn is_valid(&self) -> (valid: bool)
        ensures
            valid == self.valid(),
    {
        calendar_date_exists(self.year, self.month, self.day)
    }
}

impl Time {
    /// Whether the fields name a time of day.
    pub open spec fn valid(self) -> bool {
        is_clock_time(self.hour as int, self.minute as int, self.second as int)
    }

    /// Whether the fields name a time of day.
    pub fn is_valid(&self) -> (valid: bool)
        ensures
            valid == self.valid(),
    {
        clock_time_exists(self.hour, self.minute, self.second)
    }
}

impl PrimitiveDateTime {
    /// Whether the day exists and the time is a time of day.
    pub open spec fn valid(self) -> bool {
        self.date.valid() && self.time.valid()
    }

    /// Whether the day exists and the time is a time of day.
    pub fn is_valid(&self) -> (valid: bool)
        ensures
            valid == self.valid(),
    {
        self.date.is_valid() && self.time.is_valid()
    }
}

} // verus!
