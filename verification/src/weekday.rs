//! Days of the week, and how many times one of them falls in a span of days.

use vstd::prelude::*;

verus! {

/// A day of the week.
#[derive(Debug, PartialEq, Eq, Clone, Copy, Structural)]
pub enum Weekday {
    Mon,
    Tue,
    Wed,
    Thu,
    Fri,
    Sat,
    Sun,
}

/// The quotient of `a` by a positive `b`, rounded towards zero.
pub open spec fn trunc_div(a: int, b: int) -> int {
    if a >= 0 {
        a / b
    } else {
        -((-a) / b)
    }
}

/// The closed form for the number of times a weekday falls in a span of
/// `days` days, where its first occurrence is `offset` days after the start.
pub open spec fn occurrences(days: int, offset: int) -> int {
    trunc_div(days - offset, 7) + 1
}

/// The number of days from a `start` day of the week forward to the next
/// `target` day, 0 where they are the same day of the week.
pub open spec fn days_until(start: Weekday, target: Weekday) -> int {
    (target.index() - start.index()) % 7
}

/// The number of `target` days among the first `days` days of a span that
/// begins on a `start` day, found by looking at each day in turn.
pub open spec fn days_counted(start: Weekday, target: Weekday, days: nat) -> nat
    decreases days,
{
    if days == 0 {
        0
    } else {
        let earlier = days_counted(start, target, (days - 1) as nat);
        if (start.index() + days - 1) % 7 == target.index() {
            earlier + 1
        } else {
            earlier
        }
    }
}

impl Weekday {
    /// The number of days from Monday forward to this day: 0 for Monday, 6 for Sunday.
    pub open spec fn index(self) -> int {
        match self {
            Weekday::Mon => 0,
            Weekday::Tue => 1,
            Weekday::Wed => 2,
            Weekday::Thu => 3,
            Weekday::Fri => 4,
            Weekday::Sat => 5,
            Weekday::Sun => 6,
        }
    }

    /// The number of days from this day forward to the next Sunday, 0 on a Sunday.
    pub open spec fn days_to_sunday(self) -> int {
        match self {
            Weekday::Mon => 6,
            Weekday::Tue => 5,
            Weekday::Wed => 4,
            Weekday::Thu => 3,
            Weekday::Fri => 2,
            Weekday::Sat => 1,
            Weekday::Sun => 0,
        }
    }

    /// The number of days from this day forward to the next Saturday, 0 on a Saturday.
    pub open spec fn days_to_saturday(self) -> int {
        match self {
            Weekday::Mon => 5,
            Weekday::Tue => 4,
            Weekday::Wed => 3,
            Weekday::Thu => 2,
            Weekday::Fri => 1,
            Weekday::Sat => 0,
            Weekday::Sun => 6,
        }
    }

    /// The number of days from this day forward to the next Sunday.
    pub fn until_sunday(self) -> (offset: i64)
        ensures
            offset == self.days_to_sunday(),
            0 <= offset <= 6,
    {
        match self {
            Weekday::Mon => 6,
            Weekday::Tue => 5,
            Weekday::Wed => 4,
            Weekday::Thu => 3,
            Weekday::Fri => 2,
            Weekday::Sat => 1,
            Weekday::Sun => 0,
        }
    }

    /// The number of days from this day forward to the next Saturday.
    pub fn until_saturday(self) -> (offset: i64)
        ensures
            offset == self.days_to_saturday(),
            0 <= offset <= 6,
    {
        match self {
            Weekday::Mon => 5,
            Weekday::Tue => 4,
            Weekday::Wed => 3,
            Weekday::Thu => 2,
            Weekday::Fri => 1,
            Weekday::Sat => 0,
            Weekday::Sun => 6,
        }
    }
}

/// Counts by the closed form how often a weekday falls in a span of `days`
/// days, where its first occurrence is `offset` days after the start.
pub fn count_occurrences(days: i64, offset: i64) -> (count: i64)
    requires
        0 <= offset <= 6,
        i64::MIN <= days - offset,
    ensures
        count == occurrences(days as int, offset as int),
{
    (days - offset) / 7 + 1
}

} // verus!
