//! The calendar timestamp, what makes one valid, and how two are ordered.

use vstd::prelude::*;

verus! {

/// The largest year that the four-digit text form can hold.
pub const MAX_YEAR: i32 = 9999;

/// Why a timestamp could not be read or moved.
#[derive(Debug, PartialEq, Eq, Clone, Copy, Structural)]
pub enum CalendarError {
    /// The text is not of the shape `YYYY-MM-DD HH:MM:SS`.
    FormatError,
    /// The text has the right shape but names a day or time that does not exist.
    InvalidCalendarDate,
    /// The amount makes no sense for the unit. Every whole number is an amount
    /// of each of the seven units, so no operation of this library gives it.
    InvalidAmount,
    /// The result would lie before year 0 or after year 9999.
    OutOfRange,
}

/// A calendar date and time of day, without a time zone.
#[derive(Debug, PartialEq, Eq, Clone, Copy, Structural)]
pub struct StrDateTime {
    pub year: i32,
    pub month: u32,
    pub day: u32,
    pub hour: u32,
    pub minute: u32,
    pub second: u32,
}

/// Whether `year` has a 29th of February in the proleptic Gregorian calendar.
pub open spec fn is_leap_year(year: int) -> bool {
    year % 4 == 0 && (year % 100 != 0 || year % 400 == 0)
}

/// The number of days in `month` of `year`, and 0 where `month` is not 1 to 12.
pub open spec fn days_in_month(year: int, month: int) -> int {
    if month == 2 {
        if is_leap_year(year) { 29 } else { 28 }
    } else if month == 4 || month == 6 || month == 9 || month == 11 {
        30
    } else if 1 <= month <= 12 {
        31
    } else {
        0
    }
}

/// Whether the calendar has a day `day` in `month` of `year`.
pub open spec fn date_exists(year: int, month: int, day: int) -> bool {
    1 <= month <= 12 && 1 <= day <= days_in_month(year, month)
}

/// Whether the first date comes before the second or is the same day.
pub open spec fn date_at_or_before(first: (int, int, int), second: (int, int, int)) -> bool {
    first.0 < second.0 || (first.0 == second.0 && (first.1 < second.1 || (first.1 == second.1
        && first.2 <= second.2)))
}

impl StrDateTime {
    /// A timestamp is valid when its year has four digits at most, its day
    /// exists in the calendar and its time is a time of day.
    pub open spec fn valid(self) -> bool {
        &&& 0 <= self.year <= MAX_YEAR
        &&& date_exists(self.year as int, self.month as int, self.day as int)
        &&& self.hour < 24
        &&& self.minute < 60
        &&& self.second < 60
    }

    /// Year, month and day.
    pub open spec fn date(self) -> (int, int, int) {
        (self.year as int, self.month as int, self.day as int)
    }

    /// Whether `self` is an earlier instant than `other`: the fields compared
    /// in turn, from the year down to the second.
    pub open spec fn precedes(self, other: StrDateTime) -> bool {
        if self.year != other.year {
            self.year < other.year
        } else if self.month != other.month {
            self.month < other.month
        } else if self.day != other.day {
            self.day < other.day
        } else if self.hour != other.hour {
            self.hour < other.hour
        } else if self.minute != other.minute {
            self.minute < other.minute
        } else {
            self.second < other.second
        }
    }

    /// Puts the six fields together. Nothing is checked: see [`StrDateTime::is_valid`].
    pub fn new(year: i32, month: u32, day: u32, hour: u32, minute: u32, second: u32) -> (t: Self)
        ensures
            t == (StrDateTime { year, month, day, hour, minute, second }),
    {
        StrDateTime { year, month, day, hour, minute, second }
    }

    /// Tests validity.
    pub fn is_valid(&self) -> (ok: bool)
        ensures
            ok == self.valid(),
    {
        0 <= self.year && self.year <= MAX_YEAR && 1 <= self.month && self.month <= 12 && 1
            <= self.day && self.day <= month_length(self.year, self.month) && self.hour < 24
            && self.minute < 60 && self.second < 60
    }

    /// Tests whether `self` is an earlier instant than `other`.
    pub fn is_before(&self, other: &StrDateTime) -> (earlier: bool)
        ensures
            earlier == self.precedes(*other),
    {
        if self.year != other.year {
            self.year < other.year
        } else if self.month != other.month {
            self.month < other.month
        } else if self.day != other.day {
            self.day < other.day
        } else if self.hour != other.hour {
            self.hour < other.hour
        } else if self.minute != other.minute {
            self.minute < other.minute
        } else {
            self.second < other.second
        }
    }
}

/// Tests whether `year` is a leap year.
pub fn leap_year(year: i32) -> (leap: bool)
    ensures
        leap == is_leap_year(year as int),
{
    year % 4 == 0 && (year % 100 != 0 || year % 400 == 0)
}

/// The number of days in `month` of `year`, and 0 where `month` is not 1 to 12.
pub fn month_length(year: i32, month: u32) -> (days: u32)
    ensures
        days == days_in_month(year as int, month as int),
{
    if month == 2 {
        if leap_year(year) { 29 } else { 28 }
    } else if month == 4 || month == 6 || month == 9 || month == 11 {
        30
    } else if 1 <= month && month <= 12 {
        31
    } else {
        0
    }
}

} // verus!
