//! What this library takes from `chrono`: elapsed time, the day of the week,
//! and steps along the calendar.
//!
//! Every function here is believed, not proved. Each builds `chrono` values
//! from the fields of a valid [`StrDateTime`], makes one calculation, and
//! hands plain values back.

use chrono::{Datelike, Months, NaiveDate, TimeDelta, Timelike};
use vstd::prelude::*;
use crate::shift::months_later;
use crate::timestamp::{date_at_or_before, date_exists, StrDateTime, MAX_YEAR};
use crate::weekday::Weekday;

verus! {

/// The whole seconds that `chrono` counts from the instant `from` to the instant `to`.
pub uninterp spec fn elapsed_seconds(from: StrDateTime, to: StrDateTime) -> i64;

/// The days that `chrono` counts from the date `from` to the date `to`,
/// each given as year, month and day.
pub uninterp spec fn day_span(from: (int, int, int), to: (int, int, int)) -> i64;

/// The day of the week on which `chrono` places the date given as year, month and day.
pub uninterp spec fn weekday_on(date: (int, int, int)) -> Weekday;

/// The timestamp that `chrono` reaches `seconds` seconds after `t`, or
/// `None` where it cannot represent the span or the sum.
pub uninterp spec fn shifted(t: StrDateTime, seconds: i64) -> Option<StrDateTime>;

/// Calls `NaiveDateTime::signed_duration_since` and `TimeDelta::num_seconds`.
///
/// The result is named, not computed here. Assumed besides: the count is not
/// negative where `to` is not the earlier of the two.
#[verifier::external_body]
pub(crate) fn seconds_between(from: &StrDateTime, to: &StrDateTime) -> (seconds: i64)
    requires
        from.valid(),
        to.valid(),
    ensures
        seconds == elapsed_seconds(*from, *to),
        !to.precedes(*from) ==> seconds >= 0,
{
    let start = NaiveDate::from_ymd_opt(from.year, from.month, from.day).unwrap()
        .and_hms_opt(from.hour, from.minute, from.second).unwrap();
    let end = NaiveDate::from_ymd_opt(to.year, to.month, to.day).unwrap()
        .and_hms_opt(to.hour, to.minute, to.second).unwrap();
    end.signed_duration_since(start).num_seconds()
}

/// Calls `NaiveDate::signed_duration_since` and `TimeDelta::num_days` on the
/// dates of the two timestamps; the times of day play no part.
///
/// The result is named, not computed here. Assumed besides: the count is not
/// negative where the date of `to` is not the earlier of the two.
#[verifier::external_body]
pub(crate) fn days_between(from: &StrDateTime, to: &StrDateTime) -> (days: i64)
    requires
        from.valid(),
        to.valid(),
    ensures
        days == day_span(from.date(), to.date()),
        date_at_or_before(from.date(), to.date()) ==> days >= 0,
{
    let start = NaiveDate::from_ymd_opt(from.year, from.month, from.day).unwrap();
    let end = NaiveDate::from_ymd_opt(to.year, to.month, to.day).unwrap();
    end.signed_duration_since(start).num_days()
}

/// Calls `Datelike::weekday` on the date of `t`. The result is named, not computed here.
#[verifier::external_body]
pub(crate) fn weekday_of(t: &StrDateTime) -> (day: Weekday)
    requires
        t.valid(),
    ensures
        day == weekday_on(t.date()),
{
    match NaiveDate::from_ymd_opt(t.year, t.month, t.day).unwrap().weekday() {
        chrono::Weekday::Mon => Weekday::Mon,
        chrono::Weekday::Tue => Weekday::Tue,
        chrono::Weekday::Wed => Weekday::Wed,
        chrono::Weekday::Thu => Weekday::Thu,
        chrono::Weekday::Fri => Weekday::Fri,
        chrono::Weekday::Sat => Weekday::Sat,
        chrono::Weekday::Sun => Weekday::Sun,
    }
}

/// Calls `TimeDelta::try_seconds` and `NaiveDateTime::checked_add_signed`.
///
/// The result is named, not computed here. Assumed besides: a span of zero
/// seconds leaves the timestamp as it is.
#[verifier::external_body]
pub(crate) fn shift_seconds(t: &StrDateTime, seconds: i64) -> (moved: Option<StrDateTime>)
    requires
        t.valid(),
    ensures
        moved == shifted(*t, seconds),
        seconds == 0 ==> moved == Some(*t),
{
    let start = NaiveDate::from_ymd_opt(t.year, t.month, t.day).unwrap()
        .and_hms_opt(t.hour, t.minute, t.second).unwrap();
    let end = start.checked_add_signed(TimeDelta::try_seconds(seconds)?)?;
    Some(StrDateTime {
        year: end.year(),
        month: end.month(),
        day: end.day(),
        hour: end.hour(),
        minute: end.minute(),
        second: end.second(),
    })
}

/// Calls `NaiveDateTime::checked_add_months`.
///
/// Assumed: where `chrono` gives a result, it is the same day of the month
/// `months` months on, or the last day of that month where it has no such
/// day, at the same time of day; and it gives one at least as long as the
/// year does not pass 9999.
#[verifier::external_body]
pub(crate) fn plus_months(t: &StrDateTime, months: u32) -> (moved: Option<StrDateTime>)
    requires
        t.valid(),
    ensures
        moved matches Some(u) ==> u == months_later(*t, months as int),
        months_later(*t, months as int).year <= MAX_YEAR ==> moved is Some,
{
    let start = NaiveDate::from_ymd_opt(t.year, t.month, t.day).unwrap()
        .and_hms_opt(t.hour, t.minute, t.second).unwrap();
    let end = start.checked_add_months(Months::new(months))?;
    Some(StrDateTime {
        year: end.year(),
        month: end.month(),
        day: end.day(),
        hour: end.hour(),
        minute: end.minute(),
        second: end.second(),
    })
}

/// Calls `NaiveDateTime::checked_sub_months`.
///
/// Assumed: where `chrono` gives a result, it is the same day of the month
/// `months` months back, or the last day of that month where it has no such
/// day, at the same time of day; and it gives one at least as long as the
/// year does not fall below 0.
#[verifier::external_body]
pub(crate) fn minus_months(t: &StrDateTime, months: u32) -> (moved: Option<StrDateTime>)
    requires
        t.valid(),
    ensures
        moved matches Some(u) ==> u == months_later(*t, -(months as int)),
        months_later(*t, -(months as int)).year >= 0 ==> moved is Some,
{
    let start = NaiveDate::from_ymd_opt(t.year, t.month, t.day).unwrap()
        .and_hms_opt(t.hour, t.minute, t.second).unwrap();
    let end = start.checked_sub_months(Months::new(months))?;
    Some(StrDateTime {
        year: end.year(),
        month: end.month(),
        day: end.day(),
        hour: end.hour(),
        minute: end.minute(),
        second: end.second(),
    })
}

/// Calls `Datelike::with_year`.
///
/// Assumed: `chrono` changes the year and nothing else where the target
/// year has that day, and gives `None` where it has not, which is the 29th
/// of February in a year that is no leap year.
#[verifier::external_body]
pub(crate) fn with_year(t: &StrDateTime, year: i32) -> (moved: Option<StrDateTime>)
    requires
        t.valid(),
        0 <= year <= MAX_YEAR,
    ensures
        moved == if date_exists(year as int, t.month as int, t.day as int) {
            Some(StrDateTime { year, ..*t })
        } else {
            None
        },
{
    let start = NaiveDate::from_ymd_opt(t.year, t.month, t.day).unwrap()
        .and_hms_opt(t.hour, t.minute, t.second).unwrap();
    let end = start.with_year(year)?;
    Some(StrDateTime {
        year: end.year(),
        month: end.month(),
        day: end.day(),
        hour: end.hour(),
        minute: end.minute(),
        second: end.second(),
    })
}

} // verus!
