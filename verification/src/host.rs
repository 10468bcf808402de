//! The calls into `chrono`, and into two functions of `std` that Verus
//! knows nothing of. Every function here is believed, not proved: its
//! contract restates what the called function documents.

use vstd::prelude::*;
use chrono::{
    DateTime as ZonedDateTime, Datelike, Local, MappedLocalTime, Months, NaiveDate, NaiveTime,
    TimeZone, Timelike, Utc, Weekday,
};
use std::fmt::Write;
use crate::calendar::{
    day_number, day_number_after_months, days_before_year, is_date_of, month_length,
    year_after_months, MAX_DAY_NUMBER,
};
use crate::types::{DayName, LocalOffset, NaiveInstant};

verus! {

/// The error that `chrono` reports for a text it cannot parse.
#[verifier::external_type_specification]
#[verifier::external_body]
pub struct ExParseError(chrono::ParseError);

/// The parts of the UTC instant that `chrono::DateTime::parse_from_rfc3339`
/// reads from a text, as (day number, second of day, nanosecond); `None`
/// where it rejects the text.
pub uninterp spec fn rfc3339_instant(text: Seq<char>) -> Option<(int, int, int)>;

/// The parts of the UTC instant that `chrono::DateTime::parse_from_rfc2822`
/// reads from a text, as (day number, second of day, nanosecond); `None`
/// where it rejects the text.
pub uninterp spec fn rfc2822_instant(text: Seq<char>) -> Option<(int, int, int)>;

/// The text that `chrono::NaiveDateTime::format` writes for an instant
/// under a `strftime` pattern; `None` where the pattern is rejected.
pub uninterp spec fn formatted_text(
    day_number: int,
    second_of_day: int,
    nanosecond: int,
    pattern: Seq<char>,
) -> Option<Seq<char>>;

/// The parts of an instant as a triple of integers.
pub open spec fn parts_of(at: NaiveInstant) -> (int, int, int) {
    (at.day_number as int, at.second_of_day as int, at.nanosecond as int)
}

/// The day of the week with the given index, 0 for Sunday.
pub open spec fn day_name_of_index(i: int) -> DayName {
    if i == 0 {
        DayName::Sunday
    } else if i == 1 {
        DayName::Monday
    } else if i == 2 {
        DayName::Tuesday
    } else if i == 3 {
        DayName::Wednesday
    } else if i == 4 {
        DayName::Thursday
    } else if i == 5 {
        DayName::Friday
    } else {
        DayName::Saturday
    }
}

/// Whether `c` has the Unicode property White_Space.
pub open spec fn is_white_space(c: char) -> bool {
    let u = c as u32;
    ||| 0x09 <= u <= 0x0D
    ||| u == 0x20
    ||| u == 0x85
    ||| u == 0xA0
    ||| u == 0x1680
    ||| 0x2000 <= u <= 0x200A
    ||| u == 0x2028
    ||| u == 0x2029
    ||| u == 0x202F
    ||| u == 0x205F
    ||| u == 0x3000
}

/// `s` without its leading white space.
pub open spec fn trimmed_start(s: Seq<char>) -> Seq<char>
    decreases s.len(),
{
    if s.len() > 0 && is_white_space(s[0]) {
        trimmed_start(s.skip(1))
    } else {
        s
    }
}

/// `s` without its trailing white space.
pub open spec fn trimmed_end(s: Seq<char>) -> Seq<char>
    decreases s.len(),
{
    if s.len() > 0 && is_white_space(s.last()) {
        trimmed_end(s.drop_last())
    } else {
        s
    }
}

/// `s` without its leading and trailing white space.
pub open spec fn trimmed(s: Seq<char>) -> Seq<char> {
    trimmed_end(trimmed_start(s))
}

/// `s` with every occurrence of `from` replaced by `to`, the occurrences
/// found from left to right and not overlapping.
pub open spec fn replaced(s: Seq<char>, from: Seq<char>, to: Seq<char>) -> Seq<char>
    decreases s.len(),
{
    if from.len() == 0 || s.len() < from.len() {
        s
    } else if s.subrange(0, from.len() as int) == from {
        to + replaced(s.skip(from.len() as int), from, to)
    } else {
        seq![s[0]] + replaced(s.skip(1), from, to)
    }
}

/// `chrono::NaiveDate::from_ymd_opt`, the date it makes read back as its
/// day number. The date exists exactly when the month is 1 to 12 and the day
/// lies within the month; its number is that of the proleptic Gregorian
/// calendar, in which 0001-01-01 is day 1.
#[verifier::external_body]
pub(crate) fn day_number_of_date(year: i32, month: u32, day: u32) -> (r: Option<i32>)
    requires
        1 <= year <= 10000,
    ensures
        r == (if 1 <= month <= 12 && 1 <= day <= month_length(year as int, month as int) {
            Some(day_number(year as int, month as int, day as int) as i32)
        } else {
            None
        }),
{
    NaiveDate::from_ymd_opt(year, month, day).map(|date| date.num_days_from_ce())
}

/// `chrono::NaiveDate::and_hms_micro_opt` on the day with the given number,
/// the result read back as its parts. Hour, minute and second must lie
/// below 24, 60 and 60; with the microsecond below one million the time is
/// accepted and holds exactly the fields given.
#[verifier::external_body]
pub(crate) fn instant_of_day_and_time(
    day_number: i32,
    hour: u32,
    minute: u32,
    second: u32,
    microsecond: u32,
) -> (r: Option<NaiveInstant>)
    requires
        1 <= day_number <= MAX_DAY_NUMBER,
        microsecond < 1_000_000,
    ensures
        r == (if hour < 24 && minute < 60 && second < 60 {
            Some(
                (NaiveInstant {
                    day_number,
                    second_of_day: (hour * 3600 + minute * 60 + second) as u32,
                    nanosecond: (microsecond * 1000) as u32,
                }),
            )
        } else {
            None
        }),
{
    let date = NaiveDate::from_num_days_from_ce_opt(day_number)?;
    let at = date.and_hms_micro_opt(hour, minute, second, microsecond)?;
    Some(
        NaiveInstant {
            day_number: at.num_days_from_ce(),
            second_of_day: at.num_seconds_from_midnight(),
            nanosecond: at.nanosecond(),
        },
    )
}

/// `chrono::NaiveDate::from_num_days_from_ce_opt`, the date it makes read
/// back as year, month, day of the month and day of the year. The date is
/// the one of the proleptic Gregorian calendar that has the given number.
#[verifier::external_body]
pub(crate) fn date_of_day_number(day_number: i32) -> (r: (i32, u32, u32, u32))
    requires
        1 <= day_number <= MAX_DAY_NUMBER,
    ensures
        is_date_of(day_number as int, r.0 as int, r.1 as int, r.2 as int),
        r.3 == day_number - days_before_year(r.0 as int),
{
    let date = NaiveDate::from_num_days_from_ce_opt(day_number).unwrap();
    (date.year(), date.month(), date.day(), date.ordinal())
}

/// `chrono::Datelike::weekday` of the day with the given number. Days
/// follow each other through the week, and 0001-01-01 is a Monday.
#[verifier::external_body]
pub(crate) fn day_name_of_day_number(day_number: i32) -> (r: DayName)
    requires
        1 <= day_number <= MAX_DAY_NUMBER,
    ensures
        r == day_name_of_index(day_number as int % 7),
{
    match NaiveDate::from_num_days_from_ce_opt(day_number).unwrap().weekday() {
        Weekday::Mon => DayName::Monday,
        Weekday::Tue => DayName::Tuesday,
        Weekday::Wed => DayName::Wednesday,
        Weekday::Thu => DayName::Thursday,
        Weekday::Fri => DayName::Friday,
        Weekday::Sat => DayName::Saturday,
        Weekday::Sun => DayName::Sunday,
    }
}

/// `chrono::NaiveDate::checked_add_months` on the day with the given
/// number. The month moves forward by `months`, the day of the month is
/// clamped to the month arrived at, and a date between year 1 and year 9999
/// is always returned; `None` only says that the date left what `chrono`
/// can hold.
#[verifier::external_body]
pub(crate) fn day_number_plus_months(day_number: i32, months: u32) -> (r: Option<i32>)
    requires
        1 <= day_number <= MAX_DAY_NUMBER,
        months <= i32::MAX,
    ensures
        1 <= year_after_months(day_number as int, months as int) <= 9999 ==> r is Some,
        r matches Some(n) ==> n == day_number_after_months(day_number as int, months as int),
{
    let date = NaiveDate::from_num_days_from_ce_opt(day_number)?;
    date.checked_add_months(Months::new(months)).map(|moved| moved.num_days_from_ce())
}

/// `chrono::NaiveDate::checked_sub_months` on the day with the given
/// number. The month moves back by `months`, the day of the month is
/// clamped to the month arrived at, and a date between year 1 and year 9999
/// is always returned; `None` only says that the date left what `chrono`
/// can hold.
#[verifier::external_body]
pub(crate) fn day_number_minus_months(day_number: i32, months: u32) -> (r: Option<i32>)
    requires
        1 <= day_number <= MAX_DAY_NUMBER,
        months <= i32::MAX,
    ensures
        1 <= year_after_months(day_number as int, -(months as int)) <= 9999 ==> r is Some,
        r matches Some(n) ==> n == day_number_after_months(day_number as int, -(months as int)),
{
    let date = NaiveDate::from_num_days_from_ce_opt(day_number)?;
    date.checked_sub_months(Months::new(months)).map(|moved| moved.num_days_from_ce())
}

/// `chrono::DateTime::parse_from_rfc3339`, the instant it reads taken in
/// UTC and as its parts. What it reads depends on the text alone.
#[verifier::external_body]
pub(crate) fn parse_rfc3339(text: &str) -> (r: Result<NaiveInstant, chrono::ParseError>)
    ensures
        match r {
            Ok(at) => rfc3339_instant(text@) == Some(parts_of(at)),
            Err(_) => rfc3339_instant(text@) is None,
        },
{
    let at = ZonedDateTime::parse_from_rfc3339(text)?.naive_utc();
    Ok(
        NaiveInstant {
            day_number: at.num_days_from_ce(),
            second_of_day: at.num_seconds_from_midnight(),
            nanosecond: at.nanosecond(),
        },
    )
}

/// `chrono::DateTime::parse_from_rfc2822`, the instant it reads taken in
/// UTC and as its parts. What it reads depends on the text alone.
#[verifier::external_body]
pub(crate) fn parse_rfc2822(text: &str) -> (r: Result<NaiveInstant, chrono::ParseError>)
    ensures
        match r {
            Ok(at) => rfc2822_instant(text@) == Some(parts_of(at)),
            Err(_) => rfc2822_instant(text@) is None,
        },
{
    let at = ZonedDateTime::parse_from_rfc2822(text)?.naive_utc();
    Ok(
        NaiveInstant {
            day_number: at.num_days_from_ce(),
            second_of_day: at.num_seconds_from_midnight(),
            nanosecond: at.nanosecond(),
        },
    )
}

/// `chrono::NaiveDateTime::format`, written out into a string. The text
/// depends on the instant and the pattern alone; a pattern that `chrono`
/// rejects gives `None` instead of a panic.
#[verifier::external_body]
pub(crate) fn format_instant(at: NaiveInstant, pattern: &str) -> (r: Option<String>)
    requires
        at.in_range(),
    ensures
        match r {
            Some(text) => formatted_text(
                at.day_number as int,
                at.second_of_day as int,
                at.nanosecond as int,
                pattern@,
            ) == Some(text@),
            None => formatted_text(
                at.day_number as int,
                at.second_of_day as int,
                at.nanosecond as int,
                pattern@,
            ) is None,
        },
{
    let date = NaiveDate::from_num_days_from_ce_opt(at.day_number)?;
    let time = NaiveTime::from_num_seconds_from_midnight_opt(at.second_of_day, at.nanosecond)?;
    let mut text = String::new();
    match write!(text, "{}", date.and_time(time).format(pattern)) {
        Ok(()) => Some(text),
        Err(_) => None,
    }
}

/// `chrono::Utc::now`, as the parts of its naive UTC instant. Nothing is
/// known of the clock.
#[verifier::external_body]
pub(crate) fn utc_now() -> (r: NaiveInstant) {
    let at = Utc::now().naive_utc();
    NaiveInstant {
        day_number: at.num_days_from_ce(),
        second_of_day: at.num_seconds_from_midnight(),
        nanosecond: at.nanosecond(),
    }
}

/// `chrono::Local::now`, as the parts of its naive local instant. Nothing
/// is known of the clock or of the offset of the host.
#[verifier::external_body]
pub(crate) fn local_now() -> (r: NaiveInstant) {
    let at = Local::now().naive_local();
    NaiveInstant {
        day_number: at.num_days_from_ce(),
        second_of_day: at.num_seconds_from_midnight(),
        nanosecond: at.nanosecond(),
    }
}

/// `chrono::Local::offset_from_utc_datetime`: the offset of the host, in
/// seconds east of UTC, at an instant given in UTC. An offset is always
/// less than a day; which one comes back is the host's affair.
#[verifier::external_body]
pub(crate) fn local_offset_at_utc(at: NaiveInstant) -> (r: i32)
    requires
        at.in_range(),
    ensures
        -86_400 < r < 86_400,
{
    let date = NaiveDate::from_num_days_from_ce_opt(at.day_number).unwrap();
    let time =
        NaiveTime::from_num_seconds_from_midnight_opt(at.second_of_day, at.nanosecond).unwrap();
    Local.offset_from_utc_datetime(&date.and_time(time)).local_minus_utc()
}

/// `chrono::Local::offset_from_local_datetime`: the offset of the host, in
/// seconds east of UTC, at an instant given in local time. Each offset is
/// less than a day; which answer comes back is the host's affair.
#[verifier::external_body]
pub(crate) fn local_offset_at_local(at: NaiveInstant) -> (r: LocalOffset)
    requires
        at.in_range(),
    ensures
        match r {
            LocalOffset::Skipped => true,
            LocalOffset::Single(a) => -86_400 < a < 86_400,
            LocalOffset::Ambiguous(a, b) => -86_400 < a < 86_400 && -86_400 < b < 86_400,
        },
{
    let date = NaiveDate::from_num_days_from_ce_opt(at.day_number).unwrap();
    let time =
        NaiveTime::from_num_seconds_from_midnight_opt(at.second_of_day, at.nanosecond).unwrap();
    match Local.offset_from_local_datetime(&date.and_time(time)) {
        MappedLocalTime::None => LocalOffset::Skipped,
        MappedLocalTime::Single(a) => LocalOffset::Single(a.local_minus_utc()),
        MappedLocalTime::Ambiguous(a, b) => {
            LocalOffset::Ambiguous(a.local_minus_utc(), b.local_minus_utc())
        },
    }
}

/// `str::trim`: the text without the white space at its two ends.
#[verifier::external_body]
pub(crate) fn trim_text<'a>(text: &'a str) -> (r: &'a str)
    ensures
        r@ == trimmed(text@),
{
    text.trim()
}

/// `str::replace` with a pattern that is not empty: every match of
/// `from`, taken from left to right without overlap, becomes `to`.
#[verifier::external_body]
pub(crate) fn replace_text(text: &str, from: &str, to: &str) -> (r: String)
    requires
        from@.len() > 0,
    ensures
        r@ == replaced(text@, from@, to@),
{
    text.replace(from, to)
}

} // verus!
