use calendar_calculator::{CalendarError, StrDateTime};

fn at(text: &str) -> StrDateTime {
    text.parse().unwrap()
}

#[test]
fn add_distance() {
    let date: StrDateTime = ("2023-01-12 00:00:00").parse().unwrap();
    assert_eq!(date.add_seconds(86400).unwrap(), StrDateTime::new(2023, 01, 13, 0, 0, 0));
    assert_eq!(date.add_minutes(10).unwrap(), StrDateTime::new(2023, 01, 12, 0, 10, 0));
    assert_eq!(date.add_hours(1).unwrap(), StrDateTime::new(2023, 01, 12, 01, 0, 0));
    assert_eq!(date.add_days(1).unwrap(), StrDateTime::new(2023, 01, 13, 0, 0, 0));
    assert_eq!(date.add_weeks(1).unwrap(), StrDateTime::new(2023, 01, 19, 0, 0, 0));
    assert_eq!(date.add_years(1).unwrap(), StrDateTime::new(2024, 01, 12, 0, 0, 0));
}

#[test]
fn add_gives_the_text_expected() {
    let date = at("2023-01-12 00:00:00");
    assert_eq!(date.add_seconds(86400).unwrap().format(), "2023-01-13 00:00:00");
    assert_eq!(date.add_weeks(1).unwrap().format(), "2023-01-19 00:00:00");
    assert_eq!(date.add_years(1).unwrap().format(), "2024-01-12 00:00:00");
}

#[test]
fn adding_nothing_changes_nothing() {
    for text in ["2023-01-12 00:00:00", "2024-02-29 23:59:59", "0000-01-01 00:00:00", "9999-12-31 23:59:59"] {
        let t = at(text);
        assert_eq!(t.add_seconds(0), Ok(t));
        assert_eq!(t.add_minutes(0), Ok(t));
        assert_eq!(t.add_hours(0), Ok(t));
        assert_eq!(t.add_days(0), Ok(t));
        assert_eq!(t.add_weeks(0), Ok(t));
        assert_eq!(t.add_months(0), Ok(t));
        assert_eq!(t.add_years(0), Ok(t));
    }
}

#[test]
fn add_goes_back_in_time() {
    let date = at("2004-02-29 10:00:00");
    assert_eq!(date.add_days(-2423), Ok(at("1997-07-12 10:00:00")));
    assert_eq!(date.add_seconds(-1), Ok(at("2004-02-29 09:59:59")));
    assert_eq!(date.add_minutes(-601), Ok(at("2004-02-28 23:59:00")));
    assert_eq!(date.add_hours(-11), Ok(at("2004-02-28 23:00:00")));
    assert_eq!(date.add_weeks(-9), Ok(at("2003-12-28 10:00:00")));
    assert_eq!(date.add_years(-4), Ok(at("2000-02-29 10:00:00")));
}

#[test]
fn add_crosses_months_and_years() {
    assert_eq!(at("2023-12-31 23:59:59").add_seconds(1), Ok(at("2024-01-01 00:00:00")));
    assert_eq!(at("2024-02-28 12:00:00").add_days(1), Ok(at("2024-02-29 12:00:00")));
    assert_eq!(at("2023-02-28 12:00:00").add_days(1), Ok(at("2023-03-01 12:00:00")));
    assert_eq!(at("2023-01-12 00:00:00").add_hours(48), Ok(at("2023-01-14 00:00:00")));
}

#[test]
fn add_months_keeps_the_day_or_takes_the_last() {
    assert_eq!(at("2023-01-12 08:00:00").add_months(1), Ok(at("2023-02-12 08:00:00")));
    assert_eq!(at("2023-01-31 08:00:00").add_months(1), Ok(at("2023-02-28 08:00:00")));
    assert_eq!(at("2024-01-31 08:00:00").add_months(1), Ok(at("2024-02-29 08:00:00")));
    assert_eq!(at("2023-03-31 08:00:00").add_months(1), Ok(at("2023-04-30 08:00:00")));
    assert_eq!(at("2023-11-30 08:00:00").add_months(3), Ok(at("2024-02-29 08:00:00")));
    assert_eq!(at("2023-12-15 08:00:00").add_months(1), Ok(at("2024-01-15 08:00:00")));
    assert_eq!(at("2022-07-31 08:00:00").add_months(2), Ok(at("2022-09-30 08:00:00")));
    assert_eq!(at("2023-05-31 08:00:00").add_months(120), Ok(at("2033-05-31 08:00:00")));
}

#[test]
fn add_years_keeps_the_day_or_takes_the_last() {
    assert_eq!(at("2024-02-29 10:00:00").add_years(1), Ok(at("2025-02-28 10:00:00")));
    assert_eq!(at("2024-02-29 10:00:00").add_years(4), Ok(at("2028-02-29 10:00:00")));
    assert_eq!(at("2024-02-29 10:00:00").add_years(-124), Ok(at("1900-02-28 10:00:00")));
    assert_eq!(at("2023-08-31 10:00:00").add_years(-2023), Ok(at("0000-08-31 10:00:00")));
    assert_eq!(at("2023-08-31 10:00:00").add_years(7976), Ok(at("9999-08-31 10:00:00")));
}

#[test]
fn add_months_goes_back_in_time() {
    assert_eq!(at("2023-03-15 00:00:00").add_months(-1), Ok(StrDateTime::new(2023, 2, 15, 0, 0, 0)));
    assert_eq!(at("2023-03-31 08:00:00").add_months(-1), Ok(at("2023-02-28 08:00:00")));
    assert_eq!(at("2024-03-31 08:00:00").add_months(-1), Ok(at("2024-02-29 08:00:00")));
    assert_eq!(at("2023-01-12 08:00:00").add_months(-1), Ok(at("2022-12-12 08:00:00")));
    assert_eq!(at("2023-01-31 08:00:00").add_months(-14), Ok(at("2021-11-30 08:00:00")));
    assert_eq!(at("2023-05-31 08:00:00").add_months(-24_276), Ok(at("0000-05-31 08:00:00")));
    assert_eq!(at("0000-02-29 08:00:00").add_months(-1), Ok(at("0000-01-29 08:00:00")));
}

#[test]
fn add_months_and_back() {
    let t = at("2023-01-12 06:30:15");
    for months in [1, 5, 11, 12, 13, 240] {
        assert_eq!(t.add_months(months).unwrap().add_months(-months), Ok(t));
    }
}

#[test]
fn add_refuses_to_leave_the_range() {
    let first = at("0000-01-01 00:00:00");
    let last = at("9999-12-31 23:59:59");
    assert_eq!(last.add_seconds(1), Err(CalendarError::OutOfRange));
    assert_eq!(first.add_seconds(-1), Err(CalendarError::OutOfRange));
    assert_eq!(last.add_minutes(1), Err(CalendarError::OutOfRange));
    assert_eq!(first.add_hours(-1), Err(CalendarError::OutOfRange));
    assert_eq!(last.add_days(1), Err(CalendarError::OutOfRange));
    assert_eq!(first.add_weeks(-1), Err(CalendarError::OutOfRange));
    assert_eq!(last.add_months(1), Err(CalendarError::OutOfRange));
    assert_eq!(last.add_months(i32::MAX), Err(CalendarError::OutOfRange));
    assert_eq!(first.add_months(-1), Err(CalendarError::OutOfRange));
    assert_eq!(first.add_months(i32::MIN), Err(CalendarError::OutOfRange));
    assert_eq!(at("2023-01-12 00:00:00").add_months(-24_277), Err(CalendarError::OutOfRange));
    assert_eq!(at("2023-01-12 00:00:00").add_months(i32::MIN), Err(CalendarError::OutOfRange));
    assert_eq!(last.add_years(1), Err(CalendarError::OutOfRange));
    assert_eq!(first.add_years(-1), Err(CalendarError::OutOfRange));
    assert_eq!(last.add_years(i32::MAX), Err(CalendarError::OutOfRange));
    assert_eq!(first.add_years(i32::MIN), Err(CalendarError::OutOfRange));
}

#[test]
fn add_refuses_amounts_beyond_every_calendar() {
    let t = at("2023-01-12 00:00:00");
    for amount in [i64::MAX, i64::MIN, i64::MAX / 1000, i64::MIN / 1000, 400_000_000_000_000] {
        assert_eq!(t.add_seconds(amount), Err(CalendarError::OutOfRange));
        assert_eq!(t.add_minutes(amount), Err(CalendarError::OutOfRange));
        assert_eq!(t.add_hours(amount), Err(CalendarError::OutOfRange));
        assert_eq!(t.add_days(amount), Err(CalendarError::OutOfRange));
        assert_eq!(t.add_weeks(amount), Err(CalendarError::OutOfRange));
    }
}

#[test]
fn add_reaches_both_ends_of_the_range() {
    let first = at("0000-01-01 00:00:00");
    let last = at("9999-12-31 23:59:59");
    let span = 3_652_424i64 * 86_400 + 86_399;
    assert_eq!(first.add_seconds(span), Ok(last));
    assert_eq!(last.add_seconds(-span), Ok(first));
    assert_eq!(first.add_days(3_652_424), Ok(at("9999-12-31 00:00:00")));
    assert_eq!(first.add_months(119_999), Ok(at("9999-12-01 00:00:00")));
}

#[test]
fn units_agree_with_one_another() {
    let t = at("2023-01-12 06:30:15");
    assert_eq!(t.add_minutes(3), t.add_seconds(180));
    assert_eq!(t.add_hours(5), t.add_seconds(18_000));
    assert_eq!(t.add_days(-3), t.add_seconds(-259_200));
    assert_eq!(t.add_weeks(2), t.add_days(14));
    assert_eq!(t.add_days(30).unwrap().distance_between(t).days, 30);
}
