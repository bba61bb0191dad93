//! Moving a timestamp by a signed amount of one of seven units.
//!
//! Seconds, minutes, hours, days and weeks are spans of a fixed length: the
//! timestamp moves by that many seconds on the time line. Months and years
//! are steps along the calendar: the day of the month stays, or becomes the
//! last day of the month that is reached where that month is shorter.

use vstd::prelude::*;
use crate::civil::{minus_months, plus_months, shift_seconds, shifted, with_year};
use crate::timestamp::{days_in_month, month_length, CalendarError, StrDateTime, MAX_YEAR};

verus! {

/// The timestamp `months` months after `t`, or before it where `months` is
/// negative: the same day of the month at the same time of day, or the last
/// day of the month where it has no such day.
pub open spec fn months_later(t: StrDateTime, months: int) -> StrDateTime {
    let total = t.year * 12 + (t.month - 1) + months;
    let last = days_in_month(total / 12, total % 12 + 1);
    StrDateTime {
        year: (total / 12) as i32,
        month: (total % 12 + 1) as u32,
        day: if t.day > last { last as u32 } else { t.day },
        ..t
    }
}

/// The timestamp `years` years after `t`: the same day of the same month at
/// the same time of day, or the 28th where the 29th of February is not there.
pub open spec fn years_later(t: StrDateTime, years: int) -> StrDateTime {
    let last = days_in_month(t.year + years, t.month as int);
    StrDateTime {
        year: (t.year + years) as i32,
        day: if t.day > last { last as u32 } else { t.day },
        ..t
    }
}

/// What moving `t` by `seconds` seconds gives.
pub open spec fn moved_by_seconds(t: StrDateTime, seconds: int) -> Result<
    StrDateTime,
    CalendarError,
> {
    if i64::MIN <= seconds <= i64::MAX {
        match shifted(t, seconds as i64) {
            Some(u) if u.valid() => Ok(u),
            _ => Err(CalendarError::OutOfRange),
        }
    } else {
        Err(CalendarError::OutOfRange)
    }
}

/// What moving `t` by `months` months gives.
pub open spec fn moved_by_months(t: StrDateTime, months: int) -> Result<
    StrDateTime,
    CalendarError,
> {
    let total = t.year * 12 + (t.month - 1) + months;
    if total < 0 || total / 12 > MAX_YEAR {
        Err(CalendarError::OutOfRange)
    } else {
        Ok(months_later(t, months))
    }
}

/// What moving `t` by `years` years gives.
pub open spec fn moved_by_years(t: StrDateTime, years: int) -> Result<StrDateTime, CalendarError> {
    if 0 <= t.year + years <= MAX_YEAR {
        Ok(years_later(t, years))
    } else {
        Err(CalendarError::OutOfRange)
    }
}

impl StrDateTime {
    /// Moves a valid timestamp by `amount` spans of `unit` seconds each.
    fn add_spans(self, amount: i64, unit: i64) -> (r: Result<StrDateTime, CalendarError>)
        requires
            self.valid(),
        ensures
            r == moved_by_seconds(self, amount * unit),
            r matches Ok(u) ==> u.valid(),
            amount == 0 ==> r == Ok::<StrDateTime, CalendarError>(self),
    {
        match amount.checked_mul(unit) {
            Some(seconds) => self.add_seconds(seconds),
            None => Err(CalendarError::OutOfRange),
        }
    }

    /// Adds `seconds` seconds to a valid timestamp; a negative number goes back in time.
    ///
    /// Fails with `OutOfRange` where the result is not a valid timestamp:
    /// where it would lie before year 0 or after year 9999.
    pub fn add_seconds(self, seconds: i64) -> (r: Result<StrDateTime, CalendarError>)
        requires
            self.valid(),
        ensures
            r == moved_by_seconds(self, seconds as int),
            r matches Ok(u) ==> u.valid(),
            seconds == 0 ==> r == Ok::<StrDateTime, CalendarError>(self),
    {
        match shift_seconds(&self, seconds) {
            Some(moved) => {
                if moved.is_valid() {
                    Ok(moved)
                } else {
                    Err(CalendarError::OutOfRange)
                }
            },
            None => Err(CalendarError::OutOfRange),
        }
    }

    /// Adds `minutes` minutes of 60 seconds to a valid timestamp.
    ///
    /// Fails with `OutOfRange` as [`StrDateTime::add_seconds`] does.
    pub fn add_minutes(self, minutes: i64) -> (r: Result<StrDateTime, CalendarError>)
        requires
            self.valid(),
        ensures
            r == moved_by_seconds(self, minutes * 60),
            r matches Ok(u) ==> u.valid(),
            minutes == 0 ==> r == Ok::<StrDateTime, CalendarError>(self),
    {
        self.add_spans(minutes, 60)
    }

    /// Adds `hours` hours of 3600 seconds to a valid timestamp.
    ///
    /// Fails with `OutOfRange` as [`StrDateTime::add_seconds`] does.
    pub fn add_hours(self, hours: i64) -> (r: Result<StrDateTime, CalendarError>)
        requires
            self.valid(),
        ensures
            r == moved_by_seconds(self, hours * 3_600),
            r matches Ok(u) ==> u.valid(),
            hours == 0 ==> r == Ok::<StrDateTime, CalendarError>(self),
    {
        self.add_spans(hours, 3_600)
    }

    /// Adds `days` days of 86400 seconds to a valid timestamp.
    ///
    /// Fails with `OutOfRange` as [`StrDateTime::add_seconds`] does.
    pub fn add_days(self, days: i64) -> (r: Result<StrDateTime, CalendarError>)
        requires
            self.valid(),
        ensures
            r == moved_by_seconds(self, days * 86_400),
            r matches Ok(u) ==> u.valid(),
            days == 0 ==> r == Ok::<StrDateTime, CalendarError>(self),
    {
        self.add_spans(days, 86_400)
    }

    /// Adds `months` months to a valid timestamp, keeping the day of the
    /// month, or taking the last day of the month reached where it is
    /// shorter; a negative number goes back in time.
    ///
    /// Fails with `OutOfRange` where the result would lie before year 0 or
    /// after year 9999.
    pub fn add_months(self, months: i32) -> (r: Result<StrDateTime, CalendarError>)
        requires
            self.valid(),
        ensures
            r == moved_by_months(self, months as int),
            r matches Ok(u) ==> u.valid(),
            months == 0 ==> r == Ok::<StrDateTime, CalendarError>(self),
    {
        let moved = if months < 0 {
            minus_months(&self, (0 - months as i64) as u32)
        } else {
            plus_months(&self, months as u32)
        };
        match moved {
            Some(moved) => {
                if 0 <= moved.year && moved.year <= MAX_YEAR {
                    Ok(moved)
                } else {
                    Err(CalendarError::OutOfRange)
                }
            },
            None => Err(CalendarError::OutOfRange),
        }
    }

    /// Adds `weeks` weeks of seven days to a valid timestamp.
    ///
    /// Fails with `OutOfRange` as [`StrDateTime::add_seconds`] does.
    pub fn add_weeks(self, weeks: i64) -> (r: Result<StrDateTime, CalendarError>)
        requires
            self.valid(),
        ensures
            r == moved_by_seconds(self, weeks * 604_800),
            r matches Ok(u) ==> u.valid(),
            weeks == 0 ==> r == Ok::<StrDateTime, CalendarError>(self),
    {
        self.add_spans(weeks, 604_800)
    }

    /// Adds `years` years to a valid timestamp, keeping month and day; the
    /// 29th of February becomes the 28th in a year that has none.
    ///
    /// Fails with `OutOfRange` where the year reached is below 0 or above 9999.
    pub fn add_years(self, years: i32) -> (r: Result<StrDateTime, CalendarError>)
        requires
            self.valid(),
        ensures
            r == moved_by_years(self, years as int),
            r matches Ok(u) ==> u.valid(),
            years == 0 ==> r == Ok::<StrDateTime, CalendarError>(self),
    {
        let year = match self.year.checked_add(years) {
            Some(year) => year,
            None => {
                return Err(CalendarError::OutOfRange);
            },
        };
        if year < 0 || year > MAX_YEAR {
            return Err(CalendarError::OutOfRange);
        }
        match with_year(&self, year) {
            Some(moved) => Ok(moved),
            None => Ok(StrDateTime { year, day: month_length(year, self.month), ..self }),
        }
    }
}

} // verus!
