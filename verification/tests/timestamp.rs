use calendar_calculator::timestamp::{leap_year, month_length};
use calendar_calculator::{CalendarError, Clock, StrDateTime};

struct StoppedClock(&'static str);

impl Clock for StoppedClock {
    fn reading(&self) -> String {
        self.0.to_string()
    }
}

#[test]
fn display_now() {
    let date = StrDateTime::now(&StoppedClock("2023-04-09 17:45:12")).unwrap();
    assert_eq!(date.year, 2023);
}

#[test]
fn now_reads_the_clock_as_any_text() {
    assert_eq!(
        StrDateTime::now(&StoppedClock("2023-04-09 17:45:12")),
        Ok(StrDateTime::new(2023, 4, 9, 17, 45, 12))
    );
    assert_eq!(
        StrDateTime::now(&StoppedClock("+10000-01-01 00:00:00")),
        Err(CalendarError::FormatError)
    );
    assert_eq!(
        StrDateTime::now(&StoppedClock("2023-02-29 00:00:00")),
        Err(CalendarError::InvalidCalendarDate)
    );
}

#[test]
fn parse_reads_each_field() {
    assert_eq!(
        StrDateTime::parse("2004-02-29 10:07:59"),
        Ok(StrDateTime::new(2004, 2, 29, 10, 7, 59))
    );
    assert_eq!(
        StrDateTime::parse("0000-01-01 00:00:00"),
        Ok(StrDateTime::new(0, 1, 1, 0, 0, 0))
    );
    assert_eq!(
        StrDateTime::parse("9999-12-31 23:59:59"),
        Ok(StrDateTime::new(9999, 12, 31, 23, 59, 59))
    );
    assert_eq!("1997-07-12 10:00:00".parse(), Ok(StrDateTime::new(1997, 7, 12, 10, 0, 0)));
}

#[test]
fn parse_fails_on_a_thirteenth_month() {
    let r = StrDateTime::parse("2023-13-01 00:00:00");
    assert_eq!(r, Err(CalendarError::InvalidCalendarDate));
}

#[test]
fn parse_refuses_another_shape() {
    let wrong = [
        "",
        "2023-01-12",
        "2023-01-12 00:00",
        "2023-1-12 00:00:00",
        "2023-01-12T00:00:00",
        "2023/01/12 00:00:00",
        "2023-01-12 00.00.00",
        "2023-01-12 00:00:00 ",
        " 2023-01-12 00:00:00",
        "2023-01-12 00:00:00Z",
        "x2023-01-12 00:00:00",
        "2023-01-12  0:00:00",
        "-023-01-12 00:00:00",
        "2023-01-12 00:00:0a",
        "20a3-01-12 00:00:00",
        "\u{0662}\u{0660}\u{0662}\u{0663}-01-12 00:00:00",
        "2023-01-12\u{00a0}00:00:00",
    ];
    for text in wrong {
        assert_eq!(StrDateTime::parse(text), Err(CalendarError::FormatError), "{:?}", text);
    }
}

#[test]
fn parse_refuses_what_the_calendar_has_not() {
    let wrong = [
        "2023-00-10 00:00:00",
        "2023-01-00 00:00:00",
        "2023-01-32 00:00:00",
        "2023-02-29 00:00:00",
        "2023-02-30 00:00:00",
        "2024-02-30 00:00:00",
        "1900-02-29 00:00:00",
        "2023-04-31 00:00:00",
        "2023-06-31 00:00:00",
        "2023-09-31 00:00:00",
        "2023-11-31 00:00:00",
        "2023-01-12 24:00:00",
        "2023-01-12 00:60:00",
        "2023-01-12 00:00:60",
        "2023-99-99 99:99:99",
    ];
    for text in wrong {
        assert_eq!(StrDateTime::parse(text), Err(CalendarError::InvalidCalendarDate), "{}", text);
    }
    assert!(StrDateTime::parse("2000-02-29 00:00:00").is_ok());
    assert!(StrDateTime::parse("2024-02-29 00:00:00").is_ok());
}

#[test]
fn format_pads_with_zeros() {
    assert_eq!(StrDateTime::new(2023, 1, 2, 3, 4, 5).format(), "2023-01-02 03:04:05");
    assert_eq!(StrDateTime::new(7, 12, 31, 23, 59, 59).format(), "0007-12-31 23:59:59");
    assert_eq!(StrDateTime::new(0, 1, 1, 0, 0, 0).format(), "0000-01-01 00:00:00");
    assert_eq!(StrDateTime::new(9999, 10, 10, 10, 10, 10).format(), "9999-10-10 10:10:10");
}

#[test]
fn parse_inverts_format() {
    let mut checked = 0;
    for year in [0, 1, 99, 100, 1600, 1900, 1999, 2000, 2023, 2024, 9999] {
        for month in 1..=12 {
            for day in 1..=month_length(year, month) {
                let t = StrDateTime::new(year, month, day, (day * 5) % 24, (day * 7) % 60, month * 4);
                assert!(t.is_valid());
                assert_eq!(StrDateTime::parse(&t.format()), Ok(t));
                checked += 1;
            }
        }
    }
    assert_eq!(checked, 7 * 365 + 4 * 366);
}

#[test]
fn format_inverts_parse() {
    for text in ["1997-07-12 10:00:00", "2004-02-29 00:00:01", "0000-01-01 00:00:00"] {
        assert_eq!(StrDateTime::parse(text).unwrap().format(), text);
    }
}

#[test]
fn validity_follows_the_calendar() {
    assert!(StrDateTime::new(2024, 2, 29, 0, 0, 0).is_valid());
    assert!(!StrDateTime::new(2023, 2, 29, 0, 0, 0).is_valid());
    assert!(!StrDateTime::new(-1, 1, 1, 0, 0, 0).is_valid());
    assert!(!StrDateTime::new(10_000, 1, 1, 0, 0, 0).is_valid());
    assert!(!StrDateTime::new(2023, 13, 1, 0, 0, 0).is_valid());
    assert!(!StrDateTime::new(2023, 1, 1, 24, 0, 0).is_valid());
    assert!(!StrDateTime::new(2023, 1, 1, 0, 60, 0).is_valid());
    assert!(!StrDateTime::new(2023, 1, 1, 0, 0, 60).is_valid());
}

#[test]
fn leap_years_and_month_lengths() {
    assert!(leap_year(2000));
    assert!(leap_year(2024));
    assert!(leap_year(0));
    assert!(!leap_year(1900));
    assert!(!leap_year(2023));
    assert!(!leap_year(2100));
    let lengths: Vec<u32> = (0..=13).map(|m| month_length(2023, m)).collect();
    assert_eq!(lengths, vec![0, 31, 28, 31, 30, 31, 30, 31, 31, 30, 31, 30, 31, 0]);
    assert_eq!(month_length(2024, 2), 29);
}

#[test]
fn earlier_and_later() {
    let a = StrDateTime::new(2023, 1, 12, 0, 0, 0);
    let b = StrDateTime::new(2023, 1, 12, 0, 0, 1);
    let c = StrDateTime::new(2022, 12, 31, 23, 59, 59);
    assert!(a.is_before(&b));
    assert!(!b.is_before(&a));
    assert!(!a.is_before(&a));
    assert!(c.is_before(&a));
    assert!(!a.is_before(&c));
}
