//! Calendar dates and times as the real-time clock reports them, and the
//! seconds since 1970-01-01 00:00:00 they stand for.
use vstd::prelude::*;

verus! {

/// A calendar date.
pub struct Date {
    pub year: u16,
    pub month: u8,
    pub day: u8,
}

/// A time of day, to the second.
pub struct Time {
    pub hour: u8,
    pub minute: u8,
    pub second: u8,
}

/// A date together with a time of day.
pub struct DateTime {
    date: Date,
    time: Time,
}

/// Leap years of the Gregorian calendar.
pub open spec fn leap(year: int) -> bool {
    year % 4 == 0 && (year % 100 != 0 || year % 400 == 0)
}

/// Days in `year`.
pub open spec fn year_days(year: int) -> nat {
    if leap(year) {
        366
    } else {
        365
    }
}

/// Days in the years from 1970 up to, not including, `year`.
pub open spec fn days_before(year: int) -> nat
    decreases year - 1970,
{
    if year <= 1970 {
        0
    } else {
        days_before(year - 1) + year_days(year - 1)
    }
}

/// Days of a common year before the first of `month`, for months 1 to 13
/// (13 standing for the end of the year).
pub open spec fn common_days_before_month(month: int) -> nat {
    if month <= 1 {
        0
    } else if month == 2 {
        31
    } else if month == 3 {
        59
    } else if month == 4 {
        90
    } else if month == 5 {
        120
    } else if month == 6 {
        151
    } else if month == 7 {
        181
    } else if month == 8 {
        212
    } else if month == 9 {
        243
    } else if month == 10 {
        273
    } else if month == 11 {
        304
    } else if month == 12 {
        334
    } else {
        365
    }
}

/// Days of `year` before the first of `month`.
pub open spec fn days_before_month_of(year: int, month: int) -> nat {
    common_days_before_month(month) + if leap(year) && month > 2 {
        1nat
    } else {
        0nat
    }
}

pub fn is_leap_year(year: u64) -> (r: bool)
    ensures
        r == leap(year as int),
{
    if year % 4 != 0 {
        false
    } else if year % 100 != 0 {
        true
    } else if year % 400 != 0 {
        false
    } else {
        true
    }
}

/// Days from 1970-01-01 to January 1st of `year`; 0 for years up to 1970.
pub fn days_before_year(year: u64) -> (r: u64)
    requires
        year <= 1970 || 366 * (year - 1970) <= u64::MAX,
    ensures
        r == days_before(year as int),
        year > 1970 ==> r <= 366 * (year - 1970),
{
    let mut days: u64 = 0;
    let mut y: u64 = 1970;
    while y < year
        invariant
            1970 <= y,
            year >= 1970 ==> y <= year,
            year < 1970 ==> y == 1970,
            year <= 1970 || 366 * (year - 1970) <= u64::MAX,
            days == days_before(y as int),
            days <= 366 * (y - 1970),
        decreases year - y,
    {
        let len: u64 = if is_leap_year(y) {
            366
        } else {
            365
        };
        days = days + len;
        y = y + 1;
    }
    days
}

/// Days of `year` before the first of `month` (1 to 13).
pub fn days_before_month(year: u64, month: u64) -> (r: u64)
    requires
        1 <= month <= 13,
    ensures
        r == days_before_month_of(year as int, month as int),
{
    let common: u64 = match month {
        1 => 0,
        2 => 31,
        3 => 59,
        4 => 90,
        5 => 120,
        6 => 151,
        7 => 181,
        8 => 212,
        9 => 243,
        10 => 273,
        11 => 304,
        12 => 334,
        _ => 365,
    };
    let leap_day = is_leap_year(year) && month > 2;
    common + if leap_day {
        1
    } else {
        0
    }
}

/// Combines a date and a time of day.
pub fn date_time(date: Date, time: Time) -> (r: DateTime)
    ensures
        r.date() == date,
        r.time() == time,
{
    DateTime { date, time }
}

impl DateTime {
    pub closed spec fn date(&self) -> Date {
        self.date
    }

    pub closed spec fn time(&self) -> Time {
        self.time
    }

    /// Seconds from 1970-01-01 00:00:00 to this date and time, read as UTC.
    pub open spec fn seconds_since_epoch(&self) -> int {
        86400 * days_before(self.date().year as int) + 86400 * days_before_month_of(
            self.date().year as int,
            self.date().month as int,
        ) + 86400 * (self.date().day - 1) + 3600 * self.time().hour + 60 * self.time().minute
            + self.time().second
    }

    /// The number of seconds since 1970-01-01 00:00:00 (UTC) this date and
    /// time stand for.
    pub fn timestamp(&self) -> (r: u64)
        requires
            1 <= self.date().month <= 13,
            1 <= self.date().day,
        ensures
            r == self.seconds_since_epoch(),
    {
        let year = self.date.year as u64;
        let days_y = days_before_year(year);
        let days_m = days_before_month(year, self.date.month as u64);
        assert(days_y <= 366 * 0x10000);
        86400 * days_y + 86400 * days_m + 86400 * ((self.date.day - 1) as u64) + 3600
            * (self.time.hour as u64) + 60 * (self.time.minute as u64) + (self.time.second as u64)
    }
}

} // verus!
