//! Calendar arithmetic on timestamps written as `YYYY-MM-DD HH:MM:SS`.
//!
//! A [`StrDateTime`] is a plain calendar timestamp. It can be read from and
//! written to its fixed 19-character text form, moved by a signed number of
//! seconds, minutes, hours, days, weeks, months or years, and compared with
//! another timestamp to obtain a [`Distance`]: the elapsed time in several
//! units together with the number of Sundays, Saturdays and working days in
//! the span.
//!
//! Elapsed time, weekdays and calendar stepping come from `chrono`; the
//! module [`civil`] holds the assumptions made about it. Everything else is
//! verified.

pub mod civil;
pub mod clock;
pub mod distance;
pub mod laws;
pub mod shift;
pub mod text;
pub mod timestamp;
pub mod weekday;

pub use clock::Clock;
pub use distance::Distance;
pub use timestamp::{CalendarError, StrDateTime};
pub use weekday::Weekday;
