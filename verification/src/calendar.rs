//! The proleptic Gregorian calendar as mathematics: leap years, month
//! lengths, and the numbering of days in which 0001-01-01 is day 1.

use vstd::prelude::*;

verus! {

/// Ticks (units of 100 nanoseconds) in one second.
pub const TICKS_PER_SECOND: i64 = 10_000_000;

/// Ticks in one day.
pub const TICKS_PER_DAY: i64 = 864_000_000_000;

/// Seconds in one day.
pub const SECONDS_PER_DAY: u32 = 86_400;

/// The day number of 9999-12-31, the last representable day.
pub const MAX_DAY_NUMBER: i32 = 3_652_059;

/// The tick count of the last representable instant, one tick before year 10000.
pub const MAX_TICKS: i64 = 3_155_378_975_999_999_999;

/// Whether `y` is a leap year of the proleptic Gregorian calendar.
pub open spec fn is_leap_year(y: int) -> bool {
    y % 4 == 0 && (y % 100 != 0 || y % 400 == 0)
}

/// The number of days of month `m` in year `y`.
pub open spec fn month_length(y: int, m: int) -> int {
    if m == 2 {
        if is_leap_year(y) { 29 } else { 28 }
    } else if m == 4 || m == 6 || m == 9 || m == 11 {
        30
    } else {
        31
    }
}

/// The number of days that lie between 0001-01-01 and the first day of year `y`.
pub open spec fn days_before_year(y: int) -> int {
    365 * (y - 1) + (y - 1) / 4 - (y - 1) / 100 + (y - 1) / 400
}

/// The number of days of year `y` that lie before the first day of month `m`.
pub open spec fn days_before_month(y: int, m: int) -> int
    decreases m,
{
    if m <= 1 {
        0
    } else {
        days_before_month(y, m - 1) + month_length(y, m - 1)
    }
}

/// Whether year, month and day name a day of the calendar between year 1 and year 9999.
pub open spec fn valid_date(y: int, m: int, d: int) -> bool {
    1 <= y <= 9999 && 1 <= m <= 12 && 1 <= d <= month_length(y, m)
}

/// Whether hour, minute and second name a time of day.
pub open spec fn valid_time(h: int, mi: int, s: int) -> bool {
    0 <= h < 24 && 0 <= mi < 60 && 0 <= s < 60
}

/// The number of the day `y`-`m`-`d`, where 0001-01-01 is day 1.
pub open spec fn day_number(y: int, m: int, d: int) -> int {
    days_before_year(y) + days_before_month(y, m) + d
}

/// Whether `y`-`m`-`d` is the calendar date of day `n`.
pub open spec fn is_date_of(n: int, y: int, m: int, d: int) -> bool {
    valid_date(y, m, d) && day_number(y, m, d) == n
}

/// The calendar date, as (year, month, day), of day `n`.
pub open spec fn date_of_day(n: int) -> (int, int, int) {
    choose|c: (int, int, int)| is_date_of(n, c.0, c.1, c.2)
}

/// The 1-based position within its year of day `n`.
pub open spec fn ordinal_of_day(n: int) -> int {
    n - days_before_year(date_of_day(n).0)
}

/// The day of the week of day `n`, from 0 for Sunday to 6 for Saturday.
pub open spec fn weekday_of_day(n: int) -> int {
    n % 7
}

/// The day reached from `y`-`m`-`d` by moving `k` calendar months, the day of
/// the month clamped to the length of the month arrived at.
pub open spec fn shifted_date(y: int, m: int, d: int, k: int) -> (int, int, int) {
    let total = y * 12 + (m - 1) + k;
    let y2 = total / 12;
    let m2 = total % 12 + 1;
    let d2 = if d <= month_length(y2, m2) { d } else { month_length(y2, m2) };
    (y2, m2, d2)
}

/// The year of the date reached from day `n` by moving `k` calendar months.
pub open spec fn year_after_months(n: int, k: int) -> int {
    let from = date_of_day(n);
    shifted_date(from.0, from.1, from.2, k).0
}

/// The number of the day reached from day `n` by moving `k` calendar
/// months, the day of the month clamped.
pub open spec fn day_number_after_months(n: int, k: int) -> int {
    let from = date_of_day(n);
    let to = shifted_date(from.0, from.1, from.2, k);
    day_number(to.0, to.1, to.2)
}

/// The cumulative month table: how many days precede each month.
pub proof fn lemma_days_before_month(y: int)
    ensures
        days_before_month(y, 1) == 0,
        days_before_month(y, 2) == 31,
        days_before_month(y, 3) == 59 + if is_leap_year(y) { 1int } else { 0 },
        days_before_month(y, 4) == 90 + if is_leap_year(y) { 1int } else { 0 },
        days_before_month(y, 5) == 120 + if is_leap_year(y) { 1int } else { 0 },
        days_before_month(y, 6) == 151 + if is_leap_year(y) { 1int } else { 0 },
        days_before_month(y, 7) == 181 + if is_leap_year(y) { 1int } else { 0 },
        days_before_month(y, 8) == 212 + if is_leap_year(y) { 1int } else { 0 },
        days_before_month(y, 9) == 243 + if is_leap_year(y) { 1int } else { 0 },
        days_before_month(y, 10) == 273 + if is_leap_year(y) { 1int } else { 0 },
        days_before_month(y, 11) == 304 + if is_leap_year(y) { 1int } else { 0 },
        days_before_month(y, 12) == 334 + if is_leap_year(y) { 1int } else { 0 },
        days_before_month(y, 13) == 365 + if is_leap_year(y) { 1int } else { 0 },
{
    reveal_with_fuel(days_before_month, 14);
}

/// A year has 365 days, or 366 if it is a leap year.
pub proof fn lemma_year_length(y: int)
    ensures
        days_before_year(y + 1) == days_before_year(y) + 365 + if is_leap_year(y) { 1int } else { 0 },
{
}

/// Later years start on later days.
pub proof fn lemma_days_before_year_monotone(y1: int, y2: int)
    requires
        y1 <= y2,
    ensures
        days_before_year(y1) + 365 * (y2 - y1) <= days_before_year(y2),
    decreases y2 - y1,
{
    if y1 < y2 {
        lemma_days_before_year_monotone(y1, y2 - 1);
        lemma_year_length(y2 - 1);
    }
}

/// A valid date lies within its own year.
pub proof fn lemma_day_number_in_year(y: int, m: int, d: int)
    requires
        1 <= m <= 12,
        1 <= d <= month_length(y, m),
    ensures
        days_before_year(y) < day_number(y, m, d) <= days_before_year(y + 1),
        days_before_month(y, m) < day_number(y, m, d) - days_before_year(y) <= days_before_month(
            y,
            m + 1,
        ),
{
    lemma_days_before_month(y);
    lemma_year_length(y);
}

/// Two valid dates with the same day number are the same date.
pub proof fn lemma_day_number_injective(y1: int, m1: int, d1: int, y2: int, m2: int, d2: int)
    requires
        1 <= m1 <= 12,
        1 <= d1 <= month_length(y1, m1),
        1 <= m2 <= 12,
        1 <= d2 <= month_length(y2, m2),
        day_number(y1, m1, d1) == day_number(y2, m2, d2),
    ensures
        y1 == y2,
        m1 == m2,
        d1 == d2,
{
    lemma_day_number_in_year(y1, m1, d1);
    lemma_day_number_in_year(y2, m2, d2);
    if y1 < y2 {
        lemma_days_before_year_monotone(y1 + 1, y2);
    }
    if y2 < y1 {
        lemma_days_before_year_monotone(y2 + 1, y1);
    }
    lemma_days_before_month(y1);
}

/// The day numbers of the valid dates are 1 to `MAX_DAY_NUMBER`.
pub proof fn lemma_day_number_bounds(y: int, m: int, d: int)
    requires
        valid_date(y, m, d),
    ensures
        1 <= day_number(y, m, d) <= MAX_DAY_NUMBER,
{
    lemma_day_number_in_year(y, m, d);
    lemma_days_before_year_monotone(1, y);
    lemma_days_before_year_monotone(y + 1, 10000);
}

/// The date of the day whose number a valid date has is that date.
pub proof fn lemma_date_of_day_number(y: int, m: int, d: int)
    requires
        valid_date(y, m, d),
    ensures
        date_of_day(day_number(y, m, d)) == (y, m, d),
        ordinal_of_day(day_number(y, m, d)) == days_before_month(y, m) + d,
{
    let n = day_number(y, m, d);
    let w = (y, m, d);
    assert(is_date_of(n, w.0, w.1, w.2));
    let c = date_of_day(n);
    assert(is_date_of(n, c.0, c.1, c.2));
    lemma_day_number_injective(y, m, d, c.0, c.1, c.2);
}

/// Every day between year 1 and year 9999 has a date, which is valid and
/// has the number of the day.
pub proof fn lemma_date_of_day(n: int)
    requires
        1 <= n <= MAX_DAY_NUMBER,
    ensures
        ({
            let c = date_of_day(n);
            is_date_of(n, c.0, c.1, c.2)
        }),
{
    let y = year_holding(n, 1);
    lemma_year_holding(n, 1);
    lemma_days_before_month(y);
    let o = n - days_before_year(y);
    let m: int = if o <= days_before_month(y, 2) {
        1
    } else if o <= days_before_month(y, 3) {
        2
    } else if o <= days_before_month(y, 4) {
        3
    } else if o <= days_before_month(y, 5) {
        4
    } else if o <= days_before_month(y, 6) {
        5
    } else if o <= days_before_month(y, 7) {
        6
    } else if o <= days_before_month(y, 8) {
        7
    } else if o <= days_before_month(y, 9) {
        8
    } else if o <= days_before_month(y, 10) {
        9
    } else if o <= days_before_month(y, 11) {
        10
    } else if o <= days_before_month(y, 12) {
        11
    } else {
        12
    };
    let d = o - days_before_month(y, m);
    let w = (y, m, d);
    assert(is_date_of(n, w.0, w.1, w.2));
}

/// The first year from `y` on that ends on day `n` or later.
pub open spec fn year_holding(n: int, y: int) -> int
    decreases 10000 - y,
{
    if y >= 9999 || n <= days_before_year(y + 1) {
        y
    } else {
        year_holding(n, y + 1)
    }
}

/// The year that `year_holding` finds holds day `n`.
pub proof fn lemma_year_holding(n: int, y: int)
    requires
        1 <= y <= 9999,
        days_before_year(y) < n <= MAX_DAY_NUMBER,
    ensures
        y <= year_holding(n, y) <= 9999,
        days_before_year(year_holding(n, y)) < n <= days_before_year(year_holding(n, y) + 1),
    decreases 10000 - y,
{
    if y >= 9999 || n <= days_before_year(y + 1) {
    } else {
        lemma_year_holding(n, y + 1);
    }
}

/// A date moved by months is a date again, and its day number lies
/// between 1 and `MAX_DAY_NUMBER` exactly when its year lies between 1 and 9999.
pub proof fn lemma_shifted_date(y: int, m: int, d: int, k: int)
    requires
        1 <= m <= 12,
        1 <= d <= month_length(y, m),
    ensures
        ({
            let to = shifted_date(y, m, d, k);
            &&& 1 <= to.1 <= 12
            &&& 1 <= to.2 <= month_length(to.0, to.1)
            &&& to.0 < 1 ==> day_number(to.0, to.1, to.2) < 1
            &&& to.0 > 9999 ==> day_number(to.0, to.1, to.2) > MAX_DAY_NUMBER
            &&& 1 <= to.0 <= 9999 ==> 1 <= day_number(to.0, to.1, to.2) <= MAX_DAY_NUMBER
        }),
{
    let to = shifted_date(y, m, d, k);
    lemma_day_number_in_year(to.0, to.1, to.2);
    if to.0 < 1 {
        lemma_days_before_year_monotone(to.0 + 1, 1);
    } else if to.0 > 9999 {
        lemma_days_before_year_monotone(10000, to.0);
    } else {
        lemma_day_number_bounds(to.0, to.1, to.2);
    }
}

} // verus!
