use datetime::{format_pattern, DateTime, DateTimeError};

#[test]
fn parses_an_internet_date_time() {
    let v = DateTime::parse("2024-03-05T10:15:30Z").unwrap();
    assert_eq!(v.kind(), 0);
    assert_eq!((v.year(), v.month(), v.day()), (2024, 3, 5));
    assert_eq!((v.hour(), v.minute(), v.second()), (10, 15, 30));
}

#[test]
fn parses_an_email_date_time() {
    let v = DateTime::parse("Tue, 5 Mar 2024 10:15:30 +0000").unwrap();
    assert_eq!(v.kind(), 0);
    assert_eq!((v.year(), v.month(), v.day()), (2024, 3, 5));
    assert_eq!((v.hour(), v.minute(), v.second()), (10, 15, 30));
}

#[test]
fn a_parsed_instant_is_taken_in_utc() {
    let v = DateTime::parse("2024-03-05T10:15:30+02:00").unwrap();
    assert_eq!((v.day(), v.hour(), v.minute()), (5, 8, 15));
    let v = DateTime::parse("2024-03-05T00:15:30.1234567+02:00").unwrap();
    assert_eq!((v.day(), v.hour(), v.minute()), (4, 22, 15));
    assert_eq!(v.nanosecond(), 123_456_700);
    let v = DateTime::parse("Tue, 5 Mar 2024 10:15:30 -0500").unwrap();
    assert_eq!((v.day(), v.hour()), (5, 15));
}

#[test]
fn white_space_around_a_text_is_ignored() {
    let plain = DateTime::parse("2024-03-05T10:15:30Z").unwrap();
    for text in [
        "  2024-03-05T10:15:30Z",
        "2024-03-05T10:15:30Z \t\r\n",
        "\u{3000}\u{2003}2024-03-05T10:15:30Z\u{a0}\u{85}",
        "\u{b}\u{c}2024-03-05T10:15:30Z\u{1680}\u{2028}\u{2029}\u{202f}\u{205f}",
    ] {
        assert_eq!(DateTime::parse(text).unwrap().naive_ticks(), plain.naive_ticks());
        assert_eq!(DateTime::tryParse(text).unwrap().naive_ticks(), plain.naive_ticks());
    }
}

#[test]
fn text_in_no_known_layout_is_rejected() {
    let e = DateTimeError::InvalidFormat;
    assert_eq!(DateTime::parse("").unwrap_err(), e);
    assert_eq!(DateTime::parse("yesterday").unwrap_err(), e);
    assert_eq!(DateTime::parse("2024-03-05").unwrap_err(), e);
    assert_eq!(DateTime::parse("2024-02-30T10:15:30Z").unwrap_err(), e);
    assert_eq!(DateTime::parse("2024-03-05T10:15:30Z trailing").unwrap_err(), e);
    assert_eq!(DateTime::parse("\u{200b}2024-03-05T10:15:30Z").unwrap_err(), e);
    assert!(DateTime::tryParse("yesterday").is_none());
    assert!(DateTime::tryParse("").is_none());
}

#[test]
fn a_parsed_instant_outside_the_range_is_rejected() {
    let e = DateTimeError::TicksOutOfRange;
    assert_eq!(DateTime::parse("9999-12-31T23:59:59-01:00").unwrap_err(), e);
    assert_eq!(DateTime::parse("0001-01-01T00:00:00+01:00").unwrap_err(), e);
    assert!(DateTime::tryParse("9999-12-31T23:59:59-01:00").is_none());
    assert!(DateTime::parse("9999-12-31T23:59:59+01:00").is_ok());
    assert!(DateTime::parse("0001-01-01T00:00:00-01:00").is_ok());
}

#[test]
fn try_parse_agrees_with_parse() {
    let v = DateTime::tryParse("2024-03-05T10:15:30Z").unwrap();
    assert_eq!(v.kind(), 0);
    assert_eq!(v.naive_ticks(), DateTime::parse("2024-03-05T10:15:30Z").unwrap().naive_ticks());
}

#[test]
fn calendar_tokens_become_directives() {
    assert_eq!(format_pattern("yyyy-MM-dd hh:mm:ss"), "%Y-%m-%d %H:%M:%S");
    assert_eq!(format_pattern("fff"), "%3f");
    assert_eq!(format_pattern("ffffff"), "%6f");
    assert_eq!(format_pattern("ss.ffffff"), "%S.%6f");
    assert_eq!(format_pattern(""), "");
    assert_eq!(format_pattern("at noon"), "at noon");
    assert_eq!(format_pattern("y yy yyy"), "y yy yyy");
}

#[test]
fn tokens_are_found_from_the_left_and_never_twice() {
    assert_eq!(format_pattern("yyyyyy"), "%Yyy");
    assert_eq!(format_pattern("yyyyyyyy"), "%Y%Y");
    assert_eq!(format_pattern("ddd"), "%dd");
    assert_eq!(format_pattern("mmm"), "%Mm");
    assert_eq!(format_pattern("MM mm"), "%m %M");
    assert_eq!(format_pattern("MMmm"), "%%Mm");
    assert_eq!(format_pattern("ffff"), "%3ff");
    assert_eq!(format_pattern("fffffff"), "%6ff");
    assert_eq!(format_pattern("fffffffff"), "%6%3ff");
    assert_eq!(format_pattern("ffffff fff"), "%6f %3f");
    assert_eq!(format_pattern("HH"), "HH");
}

#[test]
fn formats_under_a_calendar_pattern() {
    let v = DateTime::new_ymdhms_micro(2024, 3, 5, 10, 15, 30, 123, 456).unwrap();
    assert_eq!(v.toString("yyyy-MM-dd hh:mm:ss").unwrap(), "2024-03-05 10:15:30");
    assert_eq!(v.toString("dd/MM/yyyy").unwrap(), "05/03/2024");
    assert_eq!(v.toString("ss.fff").unwrap(), "30.123");
    assert_eq!(v.toString("ss.ffffff").unwrap(), "30.123456");
    assert_eq!(v.toString("").unwrap(), "");
    assert_eq!(v.toString("no tokens").unwrap(), "no tokens");
    let first = DateTime::minValue();
    assert_eq!(first.toString("yyyy-MM-dd hh:mm:ss").unwrap(), "0001-01-01 00:00:00");
    let last = DateTime::maxValue();
    assert_eq!(last.toString("yyyy-MM-dd hh:mm:ss.ffffff").unwrap(), "9999-12-31 23:59:59.999999");
}

#[test]
fn directives_of_the_formatter_pass_through() {
    let v = DateTime::new_ymdhms(2024, 3, 5, 10, 15, 30).unwrap();
    assert_eq!(v.toString("%Y").unwrap(), "2024");
    assert_eq!(v.toString("%A").unwrap(), "Tuesday");
    assert_eq!(v.toString("100%%").unwrap(), "100%");
}

#[test]
fn a_pattern_the_formatter_rejects_is_an_error() {
    let v = DateTime::new_ymdhms(2024, 3, 5, 10, 15, 30).unwrap();
    assert_eq!(v.toString("%").unwrap_err(), DateTimeError::InvalidFormat);
    assert_eq!(v.toString("yyyy %Q").unwrap_err(), DateTimeError::InvalidFormat);
    assert_eq!(v.toString("%z").unwrap_err(), DateTimeError::InvalidFormat);
}

#[test]
fn formatting_and_parsing_agree() {
    let v = DateTime::new_ymdhms(1999, 12, 31, 23, 59, 59).unwrap();
    let text = v.toString("yyyy-MM-ddThh:mm:ssZ").unwrap();
    assert_eq!(text, "1999-12-31T23:59:59Z");
    assert_eq!(DateTime::parse(&text).unwrap().naive_ticks(), v.naive_ticks());
}

fn white_space(c: char) -> bool {
    let u = c as u32;
    (0x09..=0x0D).contains(&u)
        || u == 0x20
        || u == 0x85
        || u == 0xA0
        || u == 0x1680
        || (0x2000..=0x200A).contains(&u)
        || u == 0x2028
        || u == 0x2029
        || u == 0x202F
        || u == 0x205F
        || u == 0x3000
}

#[test]
fn exactly_the_white_space_characters_are_trimmed() {
    let plain = DateTime::parse("2024-03-05T10:15:30Z").unwrap();
    for u in 0..=0x3100u32 {
        if let Some(c) = char::from_u32(u) {
            assert_eq!(white_space(c), c.is_whitespace());
            let mut text = String::new();
            text.push(c);
            text.push_str("2024-03-05T10:15:30Z");
            text.push(c);
            match DateTime::parse(&text) {
                Ok(v) => {
                    assert!(white_space(c));
                    assert_eq!(v.naive_ticks(), plain.naive_ticks());
                }
                Err(e) => {
                    assert!(!white_space(c));
                    assert_eq!(e, DateTimeError::InvalidFormat);
                }
            }
        }
    }
    for u in 0x3100..=0x10FFFFu32 {
        if let Some(c) = char::from_u32(u) {
            assert!(!c.is_whitespace());
        }
    }
}
