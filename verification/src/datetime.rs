//! The date and time value and its operations.

use vstd::prelude::*;
use crate::calendar::{
    day_number, is_leap_year, lemma_date_of_day_number, lemma_day_number_in_year, lemma_day_number_bounds, lemma_days_before_month,
    lemma_shifted_date, lemma_year_length, month_length, valid_date, MAX_DAY_NUMBER, MAX_TICKS,
    TICKS_PER_DAY, TICKS_PER_SECOND,
};
use crate::host::{
    date_of_day_number, day_name_of_day_number, day_number_minus_months, day_number_of_date,
    day_number_plus_months, instant_of_day_and_time,
};
use crate::model::{
    kind_of_tag, made_of_fields, made_of_instant, made_of_ticks, tag_of_kind, tagged,
    then_tagged, DateTimeView,
};
use crate::types::{
    DateOnly, DateTimeError, DateTimeKind, DayName, NaiveInstant, TimeOnly, TimeSpan,
};

verus! {

/// A naive calendar instant between year 1 and year 9999, in ticks of 100
/// nanoseconds, tagged with the kind under which it is to be read.
#[derive(Clone, Copy, Debug)]
pub struct DateTime {
    ticks: i64,
    kind: DateTimeKind,
}

impl View for DateTime {
    type V = DateTimeView;

    closed spec fn view(&self) -> DateTimeView {
        DateTimeView { ticks: self.ticks as int, kind: self.kind }
    }
}

/// A result with the value, if there is one, replaced by what it stands for.
pub open spec fn viewed(r: Result<DateTime, DateTimeError>) -> Result<
    DateTimeView,
    DateTimeError,
> {
    match r {
        Ok(v) => Ok(v@),
        Err(e) => Err(e),
    }
}

/// The kind that a tag stands for.
pub fn kind_from_tag(tag: i32) -> (r: Result<DateTimeKind, DateTimeError>)
    ensures
        r == (match kind_of_tag(tag as int) {
            Some(kind) => Ok(kind),
            None => Err(DateTimeError::UnsupportedKindTag),
        }),
{
    if tag == 0 {
        Ok(DateTimeKind::Unspecified)
    } else if tag == 1 {
        Ok(DateTimeKind::Utc)
    } else if tag == 2 {
        Ok(DateTimeKind::Local)
    } else {
        Err(DateTimeError::UnsupportedKindTag)
    }
}

impl DateTime {
    #[verifier::type_invariant]
    spec fn in_range(self) -> bool {
        0 <= self.ticks <= MAX_TICKS
    }

    /// The ticks between 0001-01-01T00:00:00 and the naive instant.
    pub fn naive_ticks(&self) -> (r: i64)
        ensures
            r == self@.ticks,
            self@.wf(),
    {
        proof {
            use_type_invariant(self);
        }
        self.ticks
    }

    /// The kind of the value.
    pub fn date_time_kind(&self) -> (r: DateTimeKind)
        ensures
            r == self@.kind,
    {
        self.kind
    }

    /// The value of the given tick count and kind.
    pub fn from_ticks(ticks: i64, kind: DateTimeKind) -> (r: Result<DateTime, DateTimeError>)
        ensures
            viewed(r) == made_of_ticks(ticks as int, kind),
    {
        if 0 <= ticks && ticks <= MAX_TICKS {
            Ok(DateTime { ticks, kind })
        } else {
            Err(DateTimeError::TicksOutOfRange)
        }
    }

    /// The value of the given kind at the given naive instant; what is
    /// finer than a tick is dropped.
    pub fn new(at: NaiveInstant, kind: DateTimeKind) -> (r: Result<DateTime, DateTimeError>)
        ensures
            viewed(r) == made_of_instant(at, kind),
    {
        let days: i128 = at.day_number as i128 - 1;
        let seconds: i128 = at.second_of_day as i128;
        let ticks: i128 = days * 864_000_000_000 + seconds * 10_000_000 + (at.nanosecond
            / 100) as i128;
        if 0 <= ticks && ticks <= MAX_TICKS as i128 {
            Ok(DateTime { ticks: ticks as i64, kind })
        } else {
            Err(DateTimeError::TicksOutOfRange)
        }
    }

    /// The value of the given kind that the calendar fields name.
    fn from_fields(
        y: i32,
        m: i32,
        d: i32,
        h: i32,
        mi: i32,
        s: i32,
        ms: i32,
        us: i32,
        kind: DateTimeKind,
    ) -> (r: Result<DateTime, DateTimeError>)
        ensures
            viewed(r) == (match made_of_fields(
                y as int,
                m as int,
                d as int,
                h as int,
                mi as int,
                s as int,
                ms as int,
                us as int,
            ) {
                Ok(v) => Ok(v.with_kind(kind)),
                Err(e) => Err(e),
            }),
    {
        if y < 1 || y > 9999 || m < 1 || d < 1 || h < 0 || mi < 0 || s < 0 || ms < 0 || ms > 999
            || us < 0 || us > 999 {
            return Err(DateTimeError::InvalidCalendarDate);
        }
        let n = match day_number_of_date(y, m as u32, d as u32) {
            Some(n) => n,
            None => {
                return Err(DateTimeError::InvalidCalendarDate);
            },
        };
        proof {
            lemma_day_number_bounds(y as int, m as int, d as int);
        }
        let sub: u32 = (ms * 1000 + us) as u32;
        match instant_of_day_and_time(n, h as u32, mi as u32, s as u32, sub) {
            Some(at) => DateTime::new(at, kind),
            None => Err(DateTimeError::InvalidCalendarDate),
        }
    }

    /// The value of the given naive instant under the kind that a tag
    /// stands for.
    pub fn new_kind(at: NaiveInstant, kind: i32) -> (r: Result<DateTime, DateTimeError>)
        ensures
            viewed(r) == (match kind_of_tag(kind as int) {
                Some(k) => made_of_instant(at, k),
                None => Err(DateTimeError::UnsupportedKindTag),
            }),
    {
        match kind_from_tag(kind) {
            Ok(k) => DateTime::new(at, k),
            Err(e) => Err(e),
        }
    }

    /// The earliest value.
    pub fn new_empty() -> (r: DateTime)
        ensures
            r@ == (DateTimeView { ticks: 0, kind: DateTimeKind::Utc }),
    {
        Self::minValue()
    }

    /// The value of kind `Unspecified` at the given tick count.
    pub fn new_ticks(ticks: i64) -> (r: Result<DateTime, DateTimeError>)
        ensures
            viewed(r) == made_of_ticks(ticks as int, DateTimeKind::Unspecified),
    {
        DateTime::from_ticks(ticks, DateTimeKind::Unspecified)
    }

    /// The value of kind `Unspecified` at the given tick count.
    pub fn new_ticks_kind(ticks: i64) -> (r: Result<DateTime, DateTimeError>)
        ensures
            viewed(r) == made_of_ticks(ticks as int, DateTimeKind::Unspecified),
    {
        DateTime::from_ticks(ticks, DateTimeKind::Unspecified)
    }

    /// The value of kind `Unspecified` made of a date and a time of day.
    pub fn new_date_time(d: DateOnly, t: TimeOnly) -> (r: Result<DateTime, DateTimeError>)
        ensures
            viewed(r) == made_of_ticks(
                (d.day_number - 1) * TICKS_PER_DAY + t.ticks,
                DateTimeKind::Unspecified,
            ),
    {
        let days: i128 = d.day_number as i128 - 1;
        let ticks: i128 = days * 864_000_000_000 + t.ticks as i128;
        if 0 <= ticks && ticks <= MAX_TICKS as i128 {
            Ok(DateTime { ticks: ticks as i64, kind: DateTimeKind::Unspecified })
        } else {
            Err(DateTimeError::TicksOutOfRange)
        }
    }

    /// The value made of a date and a time of day, under the kind that a
    /// tag stands for.
    pub fn new_date_time_kind(d: DateOnly, t: TimeOnly, kind: i32) -> (r: Result<
        DateTime,
        DateTimeError,
    >)
        ensures
            viewed(r) == (match kind_of_tag(kind as int) {
                Some(k) => made_of_ticks((d.day_number - 1) * TICKS_PER_DAY + t.ticks, k),
                None => Err(DateTimeError::UnsupportedKindTag),
            }),
    {
        let k = match kind_from_tag(kind) {
            Ok(k) => k,
            Err(e) => {
                return Err(e);
            },
        };
        match Self::new_date_time(d, t) {
            Ok(v) => Ok(DateTime { ticks: v.ticks, kind: k }),
            Err(e) => Err(e),
        }
    }

    /// Midnight of the given date, of kind `Unspecified`.
    pub fn new_ymd(y: i32, m: i32, d: i32) -> (r: Result<DateTime, DateTimeError>)
        ensures
            viewed(r) == made_of_fields(y as int, m as int, d as int, 0, 0, 0, 0, 0),
    {
        Self::from_fields(y, m, d, 0, 0, 0, 0, 0, DateTimeKind::Unspecified)
    }

    /// The given date and time of day, of kind `Unspecified`.
    pub fn new_ymdhms(y: i32, m: i32, d: i32, h: i32, mins: i32, secs: i32) -> (r: Result<
        DateTime,
        DateTimeError,
    >)
        ensures
            viewed(r) == made_of_fields(
                y as int,
                m as int,
                d as int,
                h as int,
                mins as int,
                secs as int,
                0,
                0,
            ),
    {
        Self::from_fields(y, m, d, h, mins, secs, 0, 0, DateTimeKind::Unspecified)
    }

    /// The given date and time of day, under the kind that a tag stands
    /// for. The fields are judged before the tag.
    pub fn new_ymdhms_kind(
        y: i32,
        m: i32,
        d: i32,
        h: i32,
        mins: i32,
        secs: i32,
        kind: i32,
    ) -> (r: Result<DateTime, DateTimeError>)
        ensures
            viewed(r) == then_tagged(
                made_of_fields(y as int, m as int, d as int, h as int, mins as int, secs as int, 0, 0),
                kind as int,
            ),
    {
        match Self::new_ymdhms(y, m, d, h, mins, secs) {
            Ok(v) => Self::specifyKind(v, kind),
            Err(e) => Err(e),
        }
    }

    /// The given date and time of day with milliseconds, of kind `Unspecified`.
    pub fn new_ymdhms_milli(
        y: i32,
        m: i32,
        d: i32,
        h: i32,
        mins: i32,
        secs: i32,
        millis: i32,
    ) -> (r: Result<DateTime, DateTimeError>)
        ensures
            viewed(r) == made_of_fields(
                y as int,
                m as int,
                d as int,
                h as int,
                mins as int,
                secs as int,
                millis as int,
                0,
            ),
    {
        Self::from_fields(y, m, d, h, mins, secs, millis, 0, DateTimeKind::Unspecified)
    }

    /// The given date and time of day with milliseconds, under the kind
    /// that a tag stands for. The fields are judged before the tag.
    pub fn new_ymdhms_milli_kind(
        y: i32,
        m: i32,
        d: i32,
        h: i32,
        mins: i32,
        secs: i32,
        millis: i32,
        kind: i32,
    ) -> (r: Result<DateTime, DateTimeError>)
        ensures
            viewed(r) == then_tagged(
                made_of_fields(
                    y as int,
                    m as int,
                    d as int,
                    h as int,
                    mins as int,
                    secs as int,
                    millis as int,
                    0,
                ),
                kind as int,
            ),
    {
        match Self::new_ymdhms_milli(y, m, d, h, mins, secs, millis) {
            Ok(v) => Self::specifyKind(v, kind),
            Err(e) => Err(e),
        }
    }

    /// The given date and time of day with milliseconds and microseconds,
    /// of kind `Unspecified`.
    pub fn new_ymdhms_micro(
        y: i32,
        m: i32,
        d: i32,
        h: i32,
        mins: i32,
        secs: i32,
        millis: i32,
        micros: i32,
    ) -> (r: Result<DateTime, DateTimeError>)
        ensures
            viewed(r) == made_of_fields(
                y as int,
                m as int,
                d as int,
                h as int,
                mins as int,
                secs as int,
                millis as int,
                micros as int,
            ),
    {
        Self::from_fields(y, m, d, h, mins, secs, millis, micros, DateTimeKind::Unspecified)
    }

    /// The given date and time of day with milliseconds and microseconds,
    /// under the kind that a tag stands for. The fields are judged before
    /// the tag.
    pub fn new_ymdhms_micro_kind(
        y: i32,
        m: i32,
        d: i32,
        h: i32,
        mins: i32,
        secs: i32,
        millis: i32,
        micros: i32,
        kind: i32,
    ) -> (r: Result<DateTime, DateTimeError>)
        ensures
            viewed(r) == then_tagged(
                made_of_fields(
                    y as int,
                    m as int,
                    d as int,
                    h as int,
                    mins as int,
                    secs as int,
                    millis as int,
                    micros as int,
                ),
                kind as int,
            ),
    {
        match Self::new_ymdhms_micro(y, m, d, h, mins, secs, millis, micros) {
            Ok(v) => Self::specifyKind(v, kind),
            Err(e) => Err(e),
        }
    }

    /// The earliest value: 0001-01-01T00:00:00, of kind `Utc`.
    pub fn minValue() -> (r: DateTime)
        ensures
            r@ == (DateTimeView { ticks: 0, kind: DateTimeKind::Utc }),
    {
        proof {
            lemma_days_before_month(1);
        }
        let r = Self::from_fields(1, 1, 1, 0, 0, 0, 0, 0, DateTimeKind::Utc);
        r.unwrap()
    }

    /// The latest value: one tick before year 10000, of kind `Utc`.
    pub fn maxValue() -> (r: DateTime)
        ensures
            r@ == (DateTimeView { ticks: MAX_TICKS as int, kind: DateTimeKind::Utc }),
    {
        proof {
            lemma_days_before_month(10000);
        }
        let n = day_number_of_date(10000, 1, 1).unwrap();
        DateTime { ticks: (n as i64 - 1) * TICKS_PER_DAY - 1, kind: DateTimeKind::Utc }
    }

    /// 1970-01-01T00:00:00, of kind `Utc`.
    pub fn unixEpoch() -> (r: DateTime)
        ensures
            r@ == (DateTimeView { ticks: 621_355_968_000_000_000, kind: DateTimeKind::Utc }),
    {
        proof {
            lemma_days_before_month(1970);
        }
        let r = Self::from_fields(1970, 1, 1, 0, 0, 0, 0, 0, DateTimeKind::Utc);
        r.unwrap()
    }

    /// The number of days of a month.
    pub fn daysInMonth(year: i32, month: i32) -> (r: i32)
        requires
            1 <= year <= 9999,
            1 <= month <= 12,
        ensures
            r == month_length(year as int, month as int),
    {
        let (year2, month2) = if month == 12 {
            (year + 1, 1)
        } else {
            (year, month + 1)
        };
        proof {
            lemma_days_before_month(year as int);
            lemma_days_before_month(year2 as int);
            lemma_year_length(year as int);
            lemma_day_number_bounds(year as int, month as int, 1);
        }
        let d1 = day_number_of_date(year, month as u32, 1).unwrap();
        let d2 = day_number_of_date(year2, month2 as u32, 1).unwrap();
        d2 - d1
    }

    /// Whether a year is a leap year, which it is exactly when its
    /// February has 29 days.
    pub fn isLeapYear(year: i32) -> (r: bool)
        requires
            1 <= year <= 9999,
        ensures
            r == is_leap_year(year as int),
            r == (month_length(year as int, 2) == 29),
    {
        Self::daysInMonth(year, 2) == 29
    }

    /// The same naive instant under the kind that a tag stands for.
    pub fn specifyKind(dt: DateTime, kind: i32) -> (r: Result<DateTime, DateTimeError>)
        ensures
            viewed(r) == tagged(dt@, kind as int),
    {
        proof {
            use_type_invariant(&dt);
        }
        match kind_from_tag(kind) {
            Ok(k) => Ok(DateTime { ticks: dt.ticks, kind: k }),
            Err(e) => Err(e),
        }
    }

    /// The tag of the kind: 0 for `Unspecified`, 1 for `Utc`, 2 for `Local`.
    pub fn kind(&self) -> (r: i32)
        ensures
            r == tag_of_kind(self@.kind),
    {
        match self.kind {
            DateTimeKind::Unspecified => 0,
            DateTimeKind::Utc => 1,
            DateTimeKind::Local => 2,
        }
    }

    /// The parts of the naive instant.
    pub fn instant(&self) -> (r: NaiveInstant)
        ensures
            r.in_range(),
            (r.day_number as int, r.second_of_day as int, r.nanosecond as int) == self@.parts(),
    {
        proof {
            use_type_invariant(self);
        }
        NaiveInstant {
            day_number: (self.ticks / TICKS_PER_DAY + 1) as i32,
            second_of_day: (self.ticks % TICKS_PER_DAY / TICKS_PER_SECOND) as u32,
            nanosecond: (self.ticks % TICKS_PER_SECOND * 100) as u32,
        }
    }

    /// Year, month, day of the month and day of the year.
    fn calendar_date(&self) -> (r: (i32, u32, u32, u32))
        ensures
            r.0 == self@.year(),
            r.1 == self@.month(),
            r.2 == self@.day(),
            r.3 == self@.day_of_year(),
            valid_date(r.0 as int, r.1 as int, r.2 as int),
            day_number(r.0 as int, r.1 as int, r.2 as int) == self@.day_number(),
            1 <= r.3 <= 366,
    {
        proof {
            use_type_invariant(self);
        }
        let n: i32 = (self.ticks / TICKS_PER_DAY + 1) as i32;
        let r = date_of_day_number(n);
        proof {
            lemma_date_of_day_number(r.0 as int, r.1 as int, r.2 as int);
            lemma_day_number_in_year(r.0 as int, r.1 as int, r.2 as int);
            lemma_year_length(r.0 as int);
        }
        r
    }

    /// The year of the calendar date.
    pub fn year(&self) -> (r: i32)
        ensures
            r == self@.year(),
            1 <= r <= 9999,
    {
        self.calendar_date().0
    }

    /// The month of the calendar date.
    pub fn month(&self) -> (r: i32)
        ensures
            r == self@.month(),
            1 <= r <= 12,
    {
        self.calendar_date().1 as i32
    }

    /// The day of the month of the calendar date.
    pub fn day(&self) -> (r: i32)
        ensures
            r == self@.day(),
            1 <= r <= month_length(self@.year(), self@.month()),
    {
        self.calendar_date().2 as i32
    }

    /// The hour of the day.
    pub fn hour(&self) -> (r: i32)
        ensures
            r == self@.hour(),
            0 <= r < 24,
    {
        proof {
            use_type_invariant(self);
        }
        (self.ticks % TICKS_PER_DAY / 36_000_000_000) as i32
    }

    /// The minute of the hour.
    pub fn minute(&self) -> (r: i32)
        ensures
            r == self@.minute(),
            0 <= r < 60,
    {
        proof {
            use_type_invariant(self);
        }
        (self.ticks % TICKS_PER_DAY / 600_000_000 % 60) as i32
    }

    /// The second of the minute.
    pub fn second(&self) -> (r: i32)
        ensures
            r == self@.second(),
            0 <= r < 60,
    {
        proof {
            use_type_invariant(self);
        }
        (self.ticks % TICKS_PER_DAY / 10_000_000 % 60) as i32
    }

    /// The milliseconds elapsed within the second.
    pub fn millisecond(&self) -> (r: i32)
        ensures
            r == self@.millisecond(),
            0 <= r < 1000,
    {
        proof {
            use_type_invariant(self);
        }
        (self.ticks % TICKS_PER_SECOND / 10_000) as i32
    }

    /// The microseconds elapsed within the second.
    pub fn microsecond(&self) -> (r: i32)
        ensures
            r == self@.microsecond(),
            0 <= r < 1_000_000,
    {
        proof {
            use_type_invariant(self);
        }
        (self.ticks % TICKS_PER_SECOND / 10) as i32
    }

    /// The nanoseconds elapsed within the second.
    pub fn nanosecond(&self) -> (r: i32)
        ensures
            r == self@.nanosecond(),
            0 <= r < 1_000_000_000,
    {
        proof {
            use_type_invariant(self);
        }
        (self.ticks % TICKS_PER_SECOND * 100) as i32
    }

    /// The time elapsed since midnight of the same day.
    pub fn timeOfDay(&self) -> (r: TimeSpan)
        ensures
            r.ticks == self@.tick_of_day(),
    {
        proof {
            use_type_invariant(self);
        }
        TimeSpan::from_ticks(self.ticks % TICKS_PER_DAY)
    }

    /// The number of the day; 0001-01-01 is day 1.
    pub fn dayNumber(&self) -> (r: i32)
        ensures
            r == self@.day_number(),
            1 <= r <= MAX_DAY_NUMBER,
    {
        proof {
            use_type_invariant(self);
        }
        (self.ticks / TICKS_PER_DAY + 1) as i32
    }

    /// The day of the week, from 0 for Sunday to 6 for Saturday.
    pub fn dayOfWeek(&self) -> (r: i32)
        ensures
            r == self@.day_of_week(),
            0 <= r <= 6,
    {
        let weekday = day_name_of_day_number(self.dayNumber());
        match weekday {
            DayName::Monday => 1,
            DayName::Tuesday => 2,
            DayName::Wednesday => 3,
            DayName::Thursday => 4,
            DayName::Friday => 5,
            DayName::Saturday => 6,
            DayName::Sunday => 0,
        }
    }

    /// The 1-based position of the day within its year.
    pub fn dayOfYear(&self) -> (r: i32)
        ensures
            r == self@.day_of_year(),
            1 <= r <= 366,
    {
        self.calendar_date().3 as i32
    }

    /// Midnight of the same day, the kind kept.
    pub fn date(&self) -> (r: DateTime)
        ensures
            r@ == self@.date(),
    {
        proof {
            use_type_invariant(self);
        }
        let date = self.calendar_date();
        proof {
            lemma_days_before_month(date.0 as int);
            assert(self.ticks == (self.ticks / TICKS_PER_DAY) * TICKS_PER_DAY + self.ticks
                % TICKS_PER_DAY);
        }
        let r = Self::from_fields(
            date.0,
            date.1 as i32,
            date.2 as i32,
            0,
            0,
            0,
            0,
            0,
            self.kind,
        );
        r.unwrap()
    }

    /// The instant moved by a duration, the kind kept.
    pub fn add(&self, ts: TimeSpan) -> (r: Result<DateTime, DateTimeError>)
        ensures
            viewed(r) == self@.plus(ts.ticks as int),
    {
        proof {
            use_type_invariant(self);
        }
        let ticks: i128 = self.ticks as i128 + ts.ticks() as i128;
        if 0 <= ticks && ticks <= MAX_TICKS as i128 {
            Ok(DateTime { ticks: ticks as i64, kind: self.kind })
        } else {
            Err(DateTimeError::TicksOutOfRange)
        }
    }

    /// The instant moved back by a duration, the kind kept.
    pub fn subtract(&self, ts: TimeSpan) -> (r: Result<DateTime, DateTimeError>)
        ensures
            viewed(r) == self@.plus(-(ts.ticks as int)),
    {
        proof {
            use_type_invariant(self);
        }
        let ticks: i128 = self.ticks as i128 - ts.ticks() as i128;
        if 0 <= ticks && ticks <= MAX_TICKS as i128 {
            Ok(DateTime { ticks: ticks as i64, kind: self.kind })
        } else {
            Err(DateTimeError::TicksOutOfRange)
        }
    }

    /// The instant moved by a number of ticks, the kind kept.
    pub fn addTicks(&self, ticks: i64) -> (r: Result<DateTime, DateTimeError>)
        ensures
            viewed(r) == self@.plus(ticks as int),
    {
        self.add(TimeSpan::from_ticks(ticks))
    }

    /// The instant moved by a number of calendar months, back if it is
    /// negative. A day that the month arrived at does not have becomes the
    /// last day of that month; the time of day and the kind are kept.
    pub fn addMonths(&self, months: i32) -> (r: Result<DateTime, DateTimeError>)
        ensures
            viewed(r) == self@.plus_months(months as int),
    {
        proof {
            use_type_invariant(self);
        }
        let from = self.calendar_date();
        let n: i32 = self.dayNumber();
        proof {
            lemma_shifted_date(from.0 as int, from.1 as int, from.2 as int, months as int);
        }
        let moved = if months == i32::MIN {
            None
        } else if months < 0 {
            day_number_minus_months(n, (-months) as u32)
        } else {
            day_number_plus_months(n, months as u32)
        };
        match moved {
            Some(to) => {
                if 1 <= to && to <= MAX_DAY_NUMBER {
                    let ticks: i64 = (to as i64 - 1) * 864_000_000_000 + self.ticks
                        % TICKS_PER_DAY;
                    Ok(DateTime { ticks, kind: self.kind })
                } else {
                    Err(DateTimeError::TicksOutOfRange)
                }
            },
            None => Err(DateTimeError::TicksOutOfRange),
        }
    }

    /// The instant moved by a number of years: by twelve times as many months.
    pub fn addYears(&self, years: i32) -> (r: Result<DateTime, DateTimeError>)
        ensures
            viewed(r) == self@.plus_months(years * 12),
    {
        if -10000 <= years && years <= 10000 {
            self.addMonths(years * 12)
        } else {
            let from = self.calendar_date();
            proof {
                use_type_invariant(self);
                lemma_shifted_date(from.0 as int, from.1 as int, from.2 as int, years * 12);
            }
            Err(DateTimeError::TicksOutOfRange)
        }
    }
}

} // verus!
