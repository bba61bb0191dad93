//! The current time, from a clock that the caller brings.

use vstd::prelude::*;
use crate::timestamp::{CalendarError, StrDateTime};

verus! {

/// A source of the current time.
///
/// The library reads no clock of its own: a program hands it the system's,
/// a test one that stands still.
pub trait Clock {
    /// The current local time in the text form `YYYY-MM-DD HH:MM:SS`.
    fn reading(&self) -> String;
}

impl StrDateTime {
    /// The current time according to `clock`.
    ///
    /// The reading is taken as any other text is: it fails as
    /// [`StrDateTime::parse`] does where the clock hands out something else
    /// than a timestamp.
    pub fn now<C: Clock>(clock: &C) -> (r: Result<StrDateTime, CalendarError>)
        ensures
            r matches Ok(t) ==> t.valid(),
            r matches Err(e) ==> e == CalendarError::FormatError || e
                == CalendarError::InvalidCalendarDate,
    {
        let reading = clock.reading();
        StrDateTime::parse(reading.as_str())
    }
}

} // verus!
