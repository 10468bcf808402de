use datetime::{DateTime, DateTimeError, TimeSpan};

fn is_leap(y: i32) -> bool {
    y % 4 == 0 && (y % 100 != 0 || y % 400 == 0)
}

#[test]
fn leap_years_are_the_years_with_a_long_february() {
    for y in 1..=9999 {
        assert_eq!(DateTime::isLeapYear(y), DateTime::daysInMonth(y, 2) == 29);
        assert_eq!(DateTime::isLeapYear(y), is_leap(y));
    }
}

#[test]
fn month_lengths() {
    let common = [31, 28, 31, 30, 31, 30, 31, 31, 30, 31, 30, 31];
    for m in 1..=12 {
        assert_eq!(DateTime::daysInMonth(2023, m), common[(m - 1) as usize]);
    }
    assert_eq!(DateTime::daysInMonth(2024, 2), 29);
    assert_eq!(DateTime::daysInMonth(1900, 2), 28);
    assert_eq!(DateTime::daysInMonth(2000, 2), 29);
    assert_eq!(DateTime::daysInMonth(9999, 12), 31);
    assert_eq!(DateTime::daysInMonth(1, 1), 31);
}

#[test]
fn adding_a_month_clamps_the_day() {
    let v = DateTime::new_ymd(2023, 1, 31).unwrap().addMonths(1).unwrap();
    assert_eq!((v.year(), v.month(), v.day()), (2023, 2, 28));
    let v = DateTime::new_ymd(2024, 1, 31).unwrap().addMonths(1).unwrap();
    assert_eq!((v.year(), v.month(), v.day()), (2024, 2, 29));
    let v = DateTime::new_ymd(2023, 3, 31).unwrap().addMonths(-1).unwrap();
    assert_eq!((v.year(), v.month(), v.day()), (2023, 2, 28));
    let v = DateTime::new_ymd(2023, 10, 31).unwrap().addMonths(1).unwrap();
    assert_eq!((v.year(), v.month(), v.day()), (2023, 11, 30));
}

#[test]
fn adding_and_taking_back_a_month() {
    let v = DateTime::new_ymd(2023, 1, 15).unwrap();
    let w = v.addMonths(1).unwrap().addMonths(-1).unwrap();
    assert_eq!((w.year(), w.month(), w.day()), (2023, 1, 15));
    for n in [-25, -12, -1, 0, 1, 5, 12, 13, 120, 1200] {
        let w = v.addMonths(n).unwrap().addMonths(-n).unwrap();
        assert_eq!(w.naive_ticks(), v.naive_ticks());
    }
}

#[test]
fn adding_months_keeps_time_of_day_and_kind() {
    let v = DateTime::new_ymdhms_milli_kind(2020, 12, 31, 23, 59, 58, 123, 2).unwrap();
    let w = v.addMonths(2).unwrap();
    assert_eq!((w.year(), w.month(), w.day()), (2021, 2, 28));
    assert_eq!((w.hour(), w.minute(), w.second(), w.millisecond()), (23, 59, 58, 123));
    assert_eq!(w.kind(), 2);
    let w = v.addMonths(-14).unwrap();
    assert_eq!((w.year(), w.month(), w.day()), (2019, 10, 31));
    assert_eq!(w.timeOfDay().ticks(), v.timeOfDay().ticks());
}

#[test]
fn adding_months_across_years() {
    let v = DateTime::new_ymd(2023, 11, 5).unwrap();
    let w = v.addMonths(3).unwrap();
    assert_eq!((w.year(), w.month(), w.day()), (2024, 2, 5));
    let w = v.addMonths(-11).unwrap();
    assert_eq!((w.year(), w.month(), w.day()), (2022, 12, 5));
    let w = v.addMonths(0).unwrap();
    assert_eq!(w.naive_ticks(), v.naive_ticks());
}

#[test]
fn adding_months_out_of_range_fails() {
    let e = DateTimeError::TicksOutOfRange;
    let v = DateTime::new_ymd(9999, 12, 1).unwrap();
    assert_eq!(v.addMonths(1).unwrap_err(), e);
    assert!(v.addMonths(-1).is_ok());
    let v = DateTime::new_ymd(1, 1, 31).unwrap();
    assert_eq!(v.addMonths(-1).unwrap_err(), e);
    assert!(v.addMonths(1).is_ok());
    assert_eq!(v.addMonths(i32::MAX).unwrap_err(), e);
    assert_eq!(v.addMonths(i32::MIN).unwrap_err(), e);
    assert_eq!(v.addMonths(i32::MIN + 1).unwrap_err(), e);
    let w = v.addMonths(9998 * 12 + 11).unwrap();
    assert_eq!((w.year(), w.month(), w.day()), (9999, 12, 31));
    assert_eq!(v.addMonths(9999 * 12).unwrap_err(), e);
}

#[test]
fn adding_years_is_adding_twelve_months_each() {
    let v = DateTime::new_ymdhms(2024, 2, 29, 12, 0, 0).unwrap();
    let w = v.addYears(1).unwrap();
    assert_eq!((w.year(), w.month(), w.day(), w.hour()), (2025, 2, 28, 12));
    let w = v.addYears(4).unwrap();
    assert_eq!((w.year(), w.month(), w.day()), (2028, 2, 29));
    let w = v.addYears(-24).unwrap();
    assert_eq!((w.year(), w.month(), w.day()), (2000, 2, 29));
    assert_eq!(w.naive_ticks(), v.addMonths(-24 * 12).unwrap().naive_ticks());
    let e = DateTimeError::TicksOutOfRange;
    assert_eq!(v.addYears(8000).unwrap_err(), e);
    assert_eq!(v.addYears(-2024).unwrap_err(), e);
    assert_eq!(v.addYears(10001).unwrap_err(), e);
    assert_eq!(v.addYears(-10001).unwrap_err(), e);
    assert_eq!(v.addYears(i32::MAX).unwrap_err(), e);
    assert_eq!(v.addYears(i32::MIN).unwrap_err(), e);
    assert_eq!(v.addYears(7975).unwrap().year(), 9999);
}

#[test]
fn days_of_the_week() {
    assert_eq!(DateTime::new_ymd(2024, 3, 3).unwrap().dayOfWeek(), 0);
    assert_eq!(DateTime::new_ymd(2024, 3, 4).unwrap().dayOfWeek(), 1);
    assert_eq!(DateTime::new_ymd(2024, 3, 5).unwrap().dayOfWeek(), 2);
    assert_eq!(DateTime::new_ymd(2024, 3, 6).unwrap().dayOfWeek(), 3);
    assert_eq!(DateTime::new_ymd(2024, 3, 7).unwrap().dayOfWeek(), 4);
    assert_eq!(DateTime::new_ymd(2024, 3, 8).unwrap().dayOfWeek(), 5);
    assert_eq!(DateTime::new_ymd(2024, 3, 9).unwrap().dayOfWeek(), 6);
    assert_eq!(DateTime::minValue().dayOfWeek(), 1);
    assert_eq!(DateTime::maxValue().dayOfWeek(), 5);
}

#[test]
fn day_of_week_follows_the_day_number() {
    let mut v = DateTime::minValue();
    let step = TimeSpan::from_ticks(864_000_000_000 * 97);
    loop {
        assert_eq!(v.dayOfWeek(), v.dayNumber() % 7);
        match v.add(step) {
            Ok(next) => v = next,
            Err(_) => break,
        }
    }
}

#[test]
fn days_of_the_year() {
    assert_eq!(DateTime::new_ymd(2023, 1, 1).unwrap().dayOfYear(), 1);
    assert_eq!(DateTime::new_ymd(2023, 12, 31).unwrap().dayOfYear(), 365);
    assert_eq!(DateTime::new_ymd(2024, 12, 31).unwrap().dayOfYear(), 366);
    assert_eq!(DateTime::new_ymd(2024, 3, 1).unwrap().dayOfYear(), 61);
    assert_eq!(DateTime::new_ymd(2023, 3, 1).unwrap().dayOfYear(), 60);
}

#[test]
fn day_numbers_count_from_the_first_day() {
    assert_eq!(DateTime::minValue().dayNumber(), 1);
    assert_eq!(DateTime::maxValue().dayNumber(), 3_652_059);
    assert_eq!(DateTime::new_ymd(1, 12, 31).unwrap().dayNumber(), 365);
    assert_eq!(DateTime::new_ymd(2, 1, 1).unwrap().dayNumber(), 366);
    assert_eq!(DateTime::new_ymd(2000, 1, 1).unwrap().dayNumber(), 730_120);
}

#[test]
fn every_day_number_has_its_date() {
    let mut v = DateTime::minValue();
    let step = TimeSpan::from_ticks(864_000_000_000 * 31 + 12_345);
    loop {
        let again = DateTime::new_ymd(v.year(), v.month(), v.day()).unwrap();
        assert_eq!(again.dayNumber(), v.dayNumber());
        let first = DateTime::new_ymd(v.year(), 1, 1).unwrap();
        assert_eq!(v.dayOfYear(), v.dayNumber() - first.dayNumber() + 1);
        assert!(v.day() <= DateTime::daysInMonth(v.year(), v.month()));
        match v.add(step) {
            Ok(next) => v = next,
            Err(_) => break,
        }
    }
}

#[test]
fn date_is_midnight_of_the_same_day() {
    let v = DateTime::new_ymdhms_milli_kind(2024, 2, 29, 13, 14, 15, 16, 2).unwrap();
    let d = v.date();
    assert_eq!((d.year(), d.month(), d.day()), (2024, 2, 29));
    assert_eq!((d.hour(), d.minute(), d.second(), d.nanosecond()), (0, 0, 0, 0));
    assert_eq!(d.kind(), 2);
    assert_eq!(d.naive_ticks(), v.naive_ticks() - v.timeOfDay().ticks());
    let m = DateTime::maxValue().date();
    assert_eq!(m.naive_ticks(), 3_652_058 * 864_000_000_000);
    assert_eq!(DateTime::minValue().date().naive_ticks(), 0);
}

#[test]
fn time_of_day_is_what_has_passed_since_midnight() {
    let v = DateTime::new_ymdhms_micro(2024, 2, 29, 1, 2, 3, 4, 5).unwrap();
    let expected = (3600 + 2 * 60 + 3) * 10_000_000 + 4 * 10_000 + 5 * 10;
    assert_eq!(v.timeOfDay().ticks(), expected);
    assert_eq!(DateTime::maxValue().timeOfDay().ticks(), 864_000_000_000 - 1);
}
