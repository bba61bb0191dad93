//! Laws that relate the public operations to one another.

use vstd::prelude::*;
use crate::distance::{distance_spec, Distance};
use crate::shift::{moved_by_months, moved_by_years};
use crate::text::{digit_char, digit_value, fields_of, format_spec, has_shape, is_digit, pair_text,
    pair_value, parse_spec};
use crate::timestamp::{CalendarError, StrDateTime};
use crate::weekday::{days_counted, days_until, occurrences, Weekday};

verus! {

/// The two digits written for a number below one hundred are digits, and
/// they write that number.
proof fn lemma_pair_reads_back(s: Seq<char>, at: int, n: int)
    requires
        0 <= n < 100,
        0 <= at,
        at + 1 < s.len(),
        s[at] == digit_char(n / 10),
        s[at + 1] == digit_char(n % 10),
    ensures
        is_digit(s[at]),
        is_digit(s[at + 1]),
        pair_value(s, at) == n,
{
    assert(digit_value(digit_char(n / 10)) == n / 10);
    assert(digit_value(digit_char(n % 10)) == n % 10);
}

/// Reading the text form of a valid timestamp gives the timestamp back.
pub proof fn lemma_parse_inverts_format(t: StrDateTime)
    requires
        t.valid(),
    ensures
        parse_spec(format_spec(t)) == Ok::<StrDateTime, CalendarError>(t),
{
    let s = format_spec(t);
    let year = t.year as int;
    assert(s.len() == 19);
    assert(s[0] == pair_text(year / 100)[0] && s[1] == pair_text(year / 100)[1]);
    assert(s[2] == pair_text(year % 100)[0] && s[3] == pair_text(year % 100)[1]);
    assert(s[4] == '-');
    assert(s[5] == pair_text(t.month as int)[0] && s[6] == pair_text(t.month as int)[1]);
    assert(s[7] == '-');
    assert(s[8] == pair_text(t.day as int)[0] && s[9] == pair_text(t.day as int)[1]);
    assert(s[10] == ' ');
    assert(s[11] == pair_text(t.hour as int)[0] && s[12] == pair_text(t.hour as int)[1]);
    assert(s[13] == ':');
    assert(s[14] == pair_text(t.minute as int)[0] && s[15] == pair_text(t.minute as int)[1]);
    assert(s[16] == ':');
    assert(s[17] == pair_text(t.second as int)[0] && s[18] == pair_text(t.second as int)[1]);
    lemma_pair_reads_back(s, 0, year / 100);
    lemma_pair_reads_back(s, 2, year % 100);
    lemma_pair_reads_back(s, 5, t.month as int);
    lemma_pair_reads_back(s, 8, t.day as int);
    lemma_pair_reads_back(s, 11, t.hour as int);
    lemma_pair_reads_back(s, 14, t.minute as int);
    lemma_pair_reads_back(s, 17, t.second as int);
    assert(has_shape(s));
    assert(fields_of(s) == t);
}

/// The distance between two timestamps does not depend on the order in
/// which they are given.
pub proof fn lemma_distance_is_symmetric(a: StrDateTime, b: StrDateTime)
    ensures
        distance_spec(a, b) == distance_spec(b, a),
{
    if a != b {
        assert(a.precedes(b) != b.precedes(a));
    }
}

/// A timestamp is at distance zero from itself: every field is zero.
pub proof fn lemma_distance_to_itself_is_zero(t: StrDateTime)
    ensures
        distance_spec(t, t) == Distance::zero(),
{
}

/// In the distance between two timestamps every unit is the whole number of
/// its kind in the next smaller one, rounded towards zero; where the seconds
/// are not negative, that is the quotient.
pub proof fn lemma_units_are_consistent(a: StrDateTime, b: StrDateTime)
    ensures
        distance_spec(a, b).consistent(),
        distance_spec(a, b).seconds >= 0 ==> {
            let d = distance_spec(a, b);
            &&& d.minutes == d.seconds / 60
            &&& d.hours == d.seconds / 3_600
            &&& d.days == d.seconds / 86_400
            &&& d.weeks == d.days / 7
        },
{
}

/// Adding no months and adding no years leave a valid timestamp as it is.
pub proof fn lemma_adding_nothing_changes_nothing(t: StrDateTime)
    requires
        t.valid(),
    ensures
        moved_by_months(t, 0) == Ok::<StrDateTime, CalendarError>(t),
        moved_by_years(t, 0) == Ok::<StrDateTime, CalendarError>(t),
{
}

/// The offsets to Sunday and to Saturday are the days until the next such day.
pub proof fn lemma_offsets_are_days_until(start: Weekday)
    ensures
        start.days_to_sunday() == days_until(start, Weekday::Sun),
        start.days_to_saturday() == days_until(start, Weekday::Sat),
{
}

/// Looking at each of the first `days` days of a span finds no `target` day
/// before the first one is due, and one more for every seven days after it.
proof fn lemma_days_counted(start: Weekday, target: Weekday, days: nat)
    ensures
        days_counted(start, target, days) == if days <= days_until(start, target) {
            0
        } else {
            (days - 1 - days_until(start, target)) / 7 + 1
        },
    decreases days,
{
    if days > 0 {
        lemma_days_counted(start, target, (days - 1) as nat);
    }
}

/// Where the first `target` day falls within the span, the closed form
/// counts the `target` days from the first day of the span through its last.
pub proof fn lemma_closed_form_counts_through_last_day(start: Weekday, target: Weekday, days: int)
    requires
        days_until(start, target) <= days,
    ensures
        occurrences(days, days_until(start, target)) == days_counted(
            start,
            target,
            (days + 1) as nat,
        ),
{
    lemma_days_counted(start, target, (days + 1) as nat);
}

/// Where the first `target` day falls within the span and the day that ends
/// the span is no `target` day, the closed form counts what looking at each
/// day from the first up to, and without, the last one finds.
pub proof fn lemma_closed_form_matches_day_by_day(start: Weekday, target: Weekday, days: int)
    requires
        days_until(start, target) <= days,
        (days - days_until(start, target)) % 7 != 0,
    ensures
        occurrences(days, days_until(start, target)) == days_counted(start, target, days as nat),
{
    lemma_days_counted(start, target, days as nat);
}

} // verus!
