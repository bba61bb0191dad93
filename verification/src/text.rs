//! The text form of a timestamp: `YYYY-MM-DD HH:MM:SS`, nineteen characters,
//! every number padded with zeros to its full width.

use vstd::prelude::*;
use vstd::string::*;
use crate::laws::lemma_parse_inverts_format;
use crate::timestamp::{CalendarError, StrDateTime};

verus! {

/// Whether `c` is one of the ten ASCII digits.
pub open spec fn is_digit(c: char) -> bool {
    '0' <= c && c <= '9'
}

/// The number that the digit `c` stands for.
pub open spec fn digit_value(c: char) -> int {
    c as int - '0' as int
}

/// The digit that stands for `d`, for `d` from 0 to 9.
pub open spec fn digit_char(d: int) -> char {
    (d + '0' as int) as char
}

/// Whether `s` has a digit at `at` and at the place after it.
pub open spec fn digit_pair_at(s: Seq<char>, at: int) -> bool {
    is_digit(s[at]) && is_digit(s[at + 1])
}

/// The number written by the two digits of `s` that start at `at`.
pub open spec fn pair_value(s: Seq<char>, at: int) -> int {
    digit_value(s[at]) * 10 + digit_value(s[at + 1])
}

/// The two digits that write `n`, for `n` from 0 to 99.
pub open spec fn pair_text(n: int) -> Seq<char> {
    seq![digit_char(n / 10), digit_char(n % 10)]
}

/// Whether `s` is nineteen characters long with digits and separators in their places.
pub open spec fn has_shape(s: Seq<char>) -> bool {
    &&& s.len() == 19
    &&& digit_pair_at(s, 0)
    &&& digit_pair_at(s, 2)
    &&& s[4] == '-'
    &&& digit_pair_at(s, 5)
    &&& s[7] == '-'
    &&& digit_pair_at(s, 8)
    &&& s[10] == ' '
    &&& digit_pair_at(s, 11)
    &&& s[13] == ':'
    &&& digit_pair_at(s, 14)
    &&& s[16] == ':'
    &&& digit_pair_at(s, 17)
}

/// The six numbers written in a text that has the shape.
pub open spec fn fields_of(s: Seq<char>) -> StrDateTime {
    StrDateTime {
        year: (pair_value(s, 0) * 100 + pair_value(s, 2)) as i32,
        month: pair_value(s, 5) as u32,
        day: pair_value(s, 8) as u32,
        hour: pair_value(s, 11) as u32,
        minute: pair_value(s, 14) as u32,
        second: pair_value(s, 17) as u32,
    }
}

/// What reading `s` gives: the timestamp it writes, or the reason why it writes none.
pub open spec fn parse_spec(s: Seq<char>) -> Result<StrDateTime, CalendarError> {
    if !has_shape(s) {
        Err(CalendarError::FormatError)
    } else if !fields_of(s).valid() {
        Err(CalendarError::InvalidCalendarDate)
    } else {
        Ok(fields_of(s))
    }
}

/// The text form of a valid timestamp.
pub open spec fn format_spec(t: StrDateTime) -> Seq<char> {
    pair_text(t.year as int / 100) + pair_text(t.year as int % 100) + seq!['-'] + pair_text(
        t.month as int,
    )
        + seq!['-'] + pair_text(t.day as int) + seq![' '] + pair_text(t.hour as int) + seq![':']
        + pair_text(t.minute as int) + seq![':'] + pair_text(t.second as int)
}

/// Reads the two digits of `s` that start at `at`.
fn read_pair(s: &str, at: usize) -> (n: Option<u32>)
    requires
        s@.len() == 19,
        at + 1 < 19,
    ensures
        n == if digit_pair_at(s@, at as int) {
            Some(pair_value(s@, at as int) as u32)
        } else {
            None::<u32>
        },
{
    let tens = s.get_char(at);
    let units = s.get_char(at + 1);
    if '0' <= tens && tens <= '9' && '0' <= units && units <= '9' {
        Some((tens as u32 - '0' as u32) * 10 + (units as u32 - '0' as u32))
    } else {
        None
    }
}

/// The text of one digit.
pub(crate) fn digit_text(d: u32) -> (text: &'static str)
    requires
        d < 10,
    ensures
        text@ == seq![digit_char(d as int)],
{
    proof {
        reveal_strlit("0");
        reveal_strlit("1");
        reveal_strlit("2");
        reveal_strlit("3");
        reveal_strlit("4");
        reveal_strlit("5");
        reveal_strlit("6");
        reveal_strlit("7");
        reveal_strlit("8");
        reveal_strlit("9");
    }
    let text = match d {
        0 => "0",
        1 => "1",
        2 => "2",
        3 => "3",
        4 => "4",
        5 => "5",
        6 => "6",
        7 => "7",
        8 => "8",
        _ => "9",
    };
    assert(text@ =~= seq![digit_char(d as int)]);
    text
}

/// Writes `n` as two digits at the end of `out`.
fn push_pair(out: &mut String, n: u32)
    requires
        n < 100,
    ensures
        final(out)@ == old(out)@ + pair_text(n as int),
{
    out.append(digit_text(n / 10));
    out.append(digit_text(n % 10));
    assert(out@ =~= old(out)@ + pair_text(n as int));
}

impl StrDateTime {
    /// Reads a timestamp from its text form.
    ///
    /// Fails with `FormatError` where `s` is not digits and separators in
    /// the places of `YYYY-MM-DD HH:MM:SS`, and with `InvalidCalendarDate`
    /// where it is, but the numbers are no day of the calendar or no time of
    /// day.
    pub fn parse(s: &str) -> (r: Result<StrDateTime, CalendarError>)
        ensures
            r == parse_spec(s@),
            r matches Ok(t) ==> t.valid(),
    {
        if s.unicode_len() != 19 {
            return Err(CalendarError::FormatError);
        }
        let century = read_pair(s, 0);
        let year = read_pair(s, 2);
        let month = read_pair(s, 5);
        let day = read_pair(s, 8);
        let hour = read_pair(s, 11);
        let minute = read_pair(s, 14);
        let second = read_pair(s, 17);
        if s.get_char(4) != '-' || s.get_char(7) != '-' || s.get_char(10) != ' ' || s.get_char(13)
            != ':' || s.get_char(16) != ':' {
            return Err(CalendarError::FormatError);
        }
        match (century, year, month, day, hour, minute, second) {
            (Some(c), Some(y), Some(mo), Some(d), Some(h), Some(mi), Some(sec)) => {
                let t = StrDateTime::new((c * 100 + y) as i32, mo, d, h, mi, sec);
                if t.is_valid() {
                    Ok(t)
                } else {
                    Err(CalendarError::InvalidCalendarDate)
                }
            },
            _ => Err(CalendarError::FormatError),
        }
    }

    /// Writes a valid timestamp in its text form.
    pub fn format(&self) -> (text: String)
        requires
            self.valid(),
        ensures
            text@ == format_spec(*self),
            text@.len() == 19,
            parse_spec(text@) == Ok::<StrDateTime, CalendarError>(*self),
    {
        proof {
            lemma_parse_inverts_format(*self);
            reveal_strlit("-");
            reveal_strlit(" ");
            reveal_strlit(":");
        }
        let year = self.year as u32;
        let mut out = String::new();
        push_pair(&mut out, year / 100);
        push_pair(&mut out, year % 100);
        out.append("-");
        push_pair(&mut out, self.month);
        out.append("-");
        push_pair(&mut out, self.day);
        out.append(" ");
        push_pair(&mut out, self.hour);
        out.append(":");
        push_pair(&mut out, self.minute);
        out.append(":");
        push_pair(&mut out, self.second);
        assert(out@ =~= format_spec(*self));
        out
    }
}

impl core::str::FromStr for StrDateTime {
    type Err = CalendarError;

    /// Reads a timestamp as [`StrDateTime::parse`] does.
    fn from_str(s: &str) -> (r: Result<StrDateTime, CalendarError>)
        ensures
            r == parse_spec(s@),
    {
        StrDateTime::parse(s)
    }
}

} // verus!
