//! The distance between two timestamps: the elapsed time in several units,
//! and the Sundays, Saturdays and working days in the span.

use vstd::prelude::*;
use vstd::string::*;
use crate::civil::{day_span, days_between, elapsed_seconds, seconds_between, weekday_of,
    weekday_on};
use crate::text::{digit_char, digit_text};
use crate::timestamp::StrDateTime;
use crate::weekday::{count_occurrences, occurrences, trunc_div};

verus! {

/// The time between two instants, in several units.
///
/// `seconds` is the elapsed time. The fields from `minutes` to `years` are
/// the whole units in it, where a month counts as 30 days and a year as 365:
/// both are rough measures, not steps along the calendar. A working day is a
/// day that is not counted as a Sunday.
#[derive(Debug, PartialEq, Eq, Clone, Copy, Structural)]
pub struct Distance {
    pub seconds: i64,
    pub minutes: i64,
    pub hours: i64,
    pub days: i64,
    pub weeks: i64,
    pub months: i64,
    pub years: i64,
    pub sundays: i64,
    pub saturdays: i64,
    pub working_days: i64,
}

/// The digits of `n` in base ten, without leading zeros.
pub open spec fn natural_text(n: nat) -> Seq<char>
    decreases n,
{
    if n < 10 {
        seq![digit_char(n as int)]
    } else {
        natural_text(n / 10) + seq![digit_char((n % 10) as int)]
    }
}

/// `n` in base ten, with a minus sign in front where it is negative.
pub open spec fn integer_text(n: int) -> Seq<char> {
    if n < 0 {
        seq!['-'] + natural_text((-n) as nat)
    } else {
        natural_text(n as nat)
    }
}

/// One line of the rendered block: the key, a colon, the value and a comma.
pub open spec fn line_text(key: Seq<char>, value: int) -> Seq<char> {
    "                "@ + key + ": "@ + integer_text(value) + ",\n"@
}

/// The number of Sundays counted from the day of `first` to the day of `last`.
pub open spec fn sundays_spec(first: StrDateTime, last: StrDateTime) -> int {
    occurrences(
        day_span(first.date(), last.date()) as int,
        weekday_on(first.date()).days_to_sunday(),
    )
}

/// The number of Saturdays counted from the day of `first` to the day of `last`.
pub open spec fn saturdays_spec(first: StrDateTime, last: StrDateTime) -> int {
    occurrences(
        day_span(first.date(), last.date()) as int,
        weekday_on(first.date()).days_to_saturday(),
    )
}

/// The distance between `a` and `b`, in whichever order they are given.
///
/// Two equal timestamps are at distance zero. Otherwise the earlier of the
/// two is the start of the span and the later its end.
pub open spec fn distance_spec(a: StrDateTime, b: StrDateTime) -> Distance {
    if a == b {
        Distance::zero()
    } else {
        let first = if b.precedes(a) { b } else { a };
        let last = if b.precedes(a) { a } else { b };
        Distance::from_parts(
            elapsed_seconds(first, last),
            sundays_spec(first, last) as i64,
            saturdays_spec(first, last) as i64,
        )
    }
}

impl Distance {
    /// The distance in which every field is zero.
    pub open spec fn zero() -> Distance {
        Distance {
            seconds: 0,
            minutes: 0,
            hours: 0,
            days: 0,
            weeks: 0,
            months: 0,
            years: 0,
            sundays: 0,
            saturdays: 0,
            working_days: 0,
        }
    }

    /// What holds the fields together: each unit is the whole number of its
    /// kind in the elapsed seconds, rounded towards zero, and the working
    /// days are the days less the Sundays.
    pub open spec fn consistent(self) -> bool {
        &&& self.minutes == trunc_div(self.seconds as int, 60)
        &&& self.hours == trunc_div(self.seconds as int, 3_600)
        &&& self.days == trunc_div(self.seconds as int, 86_400)
        &&& self.weeks == trunc_div(self.days as int, 7)
        &&& self.months == trunc_div(self.days as int, 30)
        &&& self.years == trunc_div(self.days as int, 365)
        &&& self.working_days == self.days - self.sundays
    }

    /// The distance that has the given seconds, Sundays and Saturdays, and
    /// the other fields derived from them.
    pub open spec fn from_parts(seconds: i64, sundays: i64, saturdays: i64) -> Distance {
        let days = trunc_div(seconds as int, 86_400);
        Distance {
            seconds,
            minutes: trunc_div(seconds as int, 60) as i64,
            hours: trunc_div(seconds as int, 3_600) as i64,
            days: days as i64,
            weeks: trunc_div(days, 7) as i64,
            months: trunc_div(days, 30) as i64,
            years: trunc_div(days, 365) as i64,
            sundays,
            saturdays,
            working_days: (days - sundays) as i64,
        }
    }

    /// The text of the distance: a block in braces with one line for each field.
    pub open spec fn render_spec(self) -> Seq<char> {
        "\n            {\n"@ + line_text("seconds"@, self.seconds as int) + line_text(
            "minutes"@,
            self.minutes as int,
        ) + line_text("hours"@, self.hours as int) + line_text("days"@, self.days as int)
            + line_text("weeks"@, self.weeks as int) + line_text("months"@, self.months as int)
            + line_text("years"@, self.years as int) + line_text("sundays"@, self.sundays as int)
            + line_text("saturdays"@, self.saturdays as int) + line_text(
            "working_days"@,
            self.working_days as int,
        ) + "            }\n            "@
    }

    /// Builds the distance from the elapsed seconds and the two counts of days.
    ///
    /// The days less the Sundays have to fit the field that holds them.
    pub fn new(seconds: i64, sundays: i64, saturdays: i64) -> (d: Distance)
        requires
            i64::MIN <= trunc_div(seconds as int, 86_400) - sundays <= i64::MAX,
        ensures
            d == Distance::from_parts(seconds, sundays, saturdays),
            d.consistent(),
            d.seconds == seconds,
            d.sundays == sundays,
            d.saturdays == saturdays,
    {
        let days = seconds / 86_400;
        Distance {
            seconds,
            minutes: seconds / 60,
            hours: seconds / 3_600,
            days,
            weeks: days / 7,
            months: days / 30,
            years: days / 365,
            sundays,
            saturdays,
            working_days: days - sundays,
        }
    }

    /// Renders the distance for a reader: a block in braces, one `key: value,` line a field.
    pub fn render(&self) -> (text: String)
        ensures
            text@ == self.render_spec(),
    {
        let mut out = String::new();
        out.append("\n            {\n");
        let ghost opening = out@;
        push_line(&mut out, "seconds", self.seconds);
        push_line(&mut out, "minutes", self.minutes);
        push_line(&mut out, "hours", self.hours);
        push_line(&mut out, "days", self.days);
        push_line(&mut out, "weeks", self.weeks);
        push_line(&mut out, "months", self.months);
        push_line(&mut out, "years", self.years);
        push_line(&mut out, "sundays", self.sundays);
        push_line(&mut out, "saturdays", self.saturdays);
        push_line(&mut out, "working_days", self.working_days);
        out.append("            }\n            ");
        assert(out@ =~= self.render_spec());
        out
    }
}

/// Writes `n` in base ten at the end of `out`.
fn push_natural(out: &mut String, n: u64)
    ensures
        final(out)@ == old(out)@ + natural_text(n as nat),
    decreases n,
{
    if n < 10 {
        out.append(digit_text(n as u32));
    } else {
        push_natural(out, n / 10);
        out.append(digit_text((n % 10) as u32));
        assert(out@ =~= old(out)@ + natural_text(n as nat));
    }
}

/// Writes `n` in base ten at the end of `out`, with its sign where it is negative.
fn push_integer(out: &mut String, n: i64)
    ensures
        final(out)@ == old(out)@ + integer_text(n as int),
{
    if n < 0 {
        proof {
            reveal_strlit("-");
        }
        out.append("-");
        push_natural(out, (-(n + 1)) as u64 + 1);
        assert(out@ =~= old(out)@ + integer_text(n as int));
    } else {
        push_natural(out, n as u64);
    }
}

/// Writes one line of the rendered block at the end of `out`.
fn push_line(out: &mut String, key: &str, value: i64)
    ensures
        final(out)@ == old(out)@ + line_text(key@, value as int),
{
    out.append("                ");
    out.append(key);
    out.append(": ");
    push_integer(out, value);
    out.append(",\n");
    assert(out@ =~= old(out)@ + line_text(key@, value as int));
}

impl StrDateTime {
    /// Counts the Sundays from the day of `date1` to the day of `date2`, which is not the earlier.
    ///
    /// The count is the closed form on the whole days between the two dates
    /// and on the days from `date1` to its next Sunday. It is never below one.
    pub fn num_sundays(date1: StrDateTime, date2: StrDateTime) -> (count: i64)
        requires
            date1.valid(),
            date2.valid(),
            !date2.precedes(date1),
        ensures
            count == sundays_spec(date1, date2),
            count >= 1,
    {
        let days = days_between(&date1, &date2);
        let today = weekday_of(&date1).until_sunday();
        count_occurrences(days, today)
    }

    /// Counts the Saturdays from the day of `date1` to the day of `date2`, which is not the earlier.
    ///
    /// The count is the closed form on the whole days between the two dates
    /// and on the days from `date1` to its next Saturday. It is never below one.
    pub fn num_saturdays(date1: StrDateTime, date2: StrDateTime) -> (count: i64)
        requires
            date1.valid(),
            date2.valid(),
            !date2.precedes(date1),
        ensures
            count == saturdays_spec(date1, date2),
            count >= 1,
    {
        let days = days_between(&date1, &date2);
        let today = weekday_of(&date1).until_saturday();
        count_occurrences(days, today)
    }

    /// The distance between two valid timestamps, whichever of them is the earlier.
    pub fn distance_between(self, second: StrDateTime) -> (d: Distance)
        requires
            self.valid(),
            second.valid(),
        ensures
            d == distance_spec(self, second),
            self == second ==> d == Distance::zero(),
            d.consistent(),
            d.seconds >= 0,
            d.sundays >= 0,
            d.saturdays >= 0,
            d.minutes == d.seconds / 60,
            d.hours == d.seconds / 3_600,
            d.days == d.seconds / 86_400,
            d.weeks == d.days / 7,
            d.months == d.days / 30,
            d.years == d.days / 365,
    {
        if self == second {
            return Distance::new(0, 0, 0);
        }
        let mut date1 = self;
        let mut date2 = second;
        if date2.is_before(&date1) {
            date1 = second;
            date2 = self;
        }
        let seconds = seconds_between(&date1, &date2);
        let sundays = Self::num_sundays(date1, date2);
        let saturdays = Self::num_saturdays(date1, date2);
        Distance::new(seconds, sundays, saturdays)
    }
}

} // verus!
