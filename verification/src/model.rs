//! The mathematical model of a date and time: a count of ticks with a kind,
//! and what each operation is on that model.

use vstd::prelude::*;
use crate::calendar::{
    date_of_day, day_number, day_number_after_months, ordinal_of_day, valid_date, valid_time,
    weekday_of_day, MAX_TICKS, TICKS_PER_DAY, TICKS_PER_SECOND,
};
use crate::types::{DateTimeError, DateTimeKind, NaiveInstant};

verus! {

/// What a `DateTime` stands for: the ticks between 0001-01-01T00:00:00 and
/// its naive instant, and its kind.
pub struct DateTimeView {
    pub ticks: int,
    pub kind: DateTimeKind,
}

impl DateTimeView {
    /// Whether the instant lies between year 1 and year 9999.
    pub open spec fn wf(self) -> bool {
        0 <= self.ticks <= MAX_TICKS
    }

    /// The number of the day of the instant; 0001-01-01 is day 1.
    pub open spec fn day_number(self) -> int {
        self.ticks / (TICKS_PER_DAY as int) + 1
    }

    /// The ticks between midnight and the instant.
    pub open spec fn tick_of_day(self) -> int {
        self.ticks % (TICKS_PER_DAY as int)
    }

    /// The ticks between the start of the second and the instant.
    pub open spec fn tick_of_second(self) -> int {
        self.ticks % (TICKS_PER_SECOND as int)
    }

    /// The year of the calendar date, 1 to 9999.
    pub open spec fn year(self) -> int {
        date_of_day(self.day_number()).0
    }

    /// The month of the calendar date, 1 to 12.
    pub open spec fn month(self) -> int {
        date_of_day(self.day_number()).1
    }

    /// The day of the month of the calendar date.
    pub open spec fn day(self) -> int {
        date_of_day(self.day_number()).2
    }

    /// The hour of the day, 0 to 23.
    pub open spec fn hour(self) -> int {
        self.tick_of_day() / 36_000_000_000
    }

    /// The minute of the hour, 0 to 59.
    pub open spec fn minute(self) -> int {
        self.tick_of_day() / 600_000_000 % 60
    }

    /// The second of the minute, 0 to 59.
    pub open spec fn second(self) -> int {
        self.tick_of_day() / 10_000_000 % 60
    }

    /// The milliseconds elapsed within the second.
    pub open spec fn millisecond(self) -> int {
        self.tick_of_second() / 10_000
    }

    /// The microseconds elapsed within the second.
    pub open spec fn microsecond(self) -> int {
        self.tick_of_second() / 10
    }

    /// The nanoseconds elapsed within the second.
    pub open spec fn nanosecond(self) -> int {
        self.tick_of_second() * 100
    }

    /// The day of the week, 0 for Sunday to 6 for Saturday.
    pub open spec fn day_of_week(self) -> int {
        weekday_of_day(self.day_number())
    }

    /// The 1-based position of the day within its year.
    pub open spec fn day_of_year(self) -> int {
        ordinal_of_day(self.day_number())
    }

    /// The parts of the naive instant.
    pub open spec fn parts(self) -> (int, int, int) {
        (self.day_number(), self.tick_of_day() / 10_000_000, self.nanosecond())
    }

    /// The same instant under another kind.
    pub open spec fn with_kind(self, kind: DateTimeKind) -> DateTimeView {
        DateTimeView { ticks: self.ticks, kind }
    }

    /// Midnight of the same day, the kind kept.
    pub open spec fn date(self) -> DateTimeView {
        DateTimeView { ticks: self.ticks - self.tick_of_day(), kind: self.kind }
    }

    /// The ticks between 0001-01-01T00:00:00 UTC and the absolute instant
    /// meant, where the host is `local_offset` seconds east of UTC: a
    /// local value is moved by the offset, any other is read as UTC.
    pub open spec fn utc_ticks(self, local_offset: int) -> int {
        if self.kind is Local {
            self.ticks - local_offset * TICKS_PER_SECOND
        } else {
            self.ticks
        }
    }

    /// The instant moved by a number of ticks, the kind kept.
    pub open spec fn plus(self, ticks: int) -> Result<DateTimeView, DateTimeError> {
        made_of_ticks(self.ticks + ticks, self.kind)
    }

    /// The instant moved by a number of calendar months, the day of the
    /// month clamped and the time of day and the kind kept.
    pub open spec fn plus_months(self, months: int) -> Result<DateTimeView, DateTimeError> {
        made_of_ticks(
            (day_number_after_months(self.day_number(), months) - 1) * TICKS_PER_DAY
                + self.tick_of_day(),
            self.kind,
        )
    }

    /// The value in UTC, where the host is `local_offset` seconds east of
    /// UTC: a UTC value as it is, any other read as local time.
    pub open spec fn to_universal(self, local_offset: int) -> Result<DateTimeView, DateTimeError> {
        if self.kind is Utc {
            Ok(self)
        } else {
            made_of_ticks(self.ticks - local_offset * TICKS_PER_SECOND, DateTimeKind::Utc)
        }
    }

    /// The value in local time, where the host is `local_offset` seconds
    /// east of UTC: a local value as it is, any other read as UTC.
    pub open spec fn to_local(self, local_offset: int) -> Result<DateTimeView, DateTimeError> {
        if self.kind is Local {
            Ok(self)
        } else {
            made_of_ticks(self.ticks + local_offset * TICKS_PER_SECOND, DateTimeKind::Local)
        }
    }
}

/// Whether `offset` can be an offset from UTC in seconds: less than a day
/// either way.
pub open spec fn is_offset(offset: int) -> bool {
    -86_400 < offset < 86_400
}

/// Whether `offset` can be what the host answers for a value: an offset,
/// and zero unless the value is local.
pub open spec fn fits(v: DateTimeView, offset: int) -> bool {
    is_offset(offset) && (!(v.kind is Local) ==> offset == 0)
}

/// How two values compare, each resolved with its own offset: -1, 0 or 1.
pub open spec fn compared_at(x: DateTimeView, y: DateTimeView, ox: int, oy: int) -> int {
    compared(x.utc_ticks(ox), y.utc_ticks(oy))
}

/// The ticks from the second value to the first, each resolved with its own offset.
pub open spec fn distance_at(x: DateTimeView, y: DateTimeView, ox: int, oy: int) -> int {
    x.utc_ticks(ox) - y.utc_ticks(oy)
}

/// The kind that a tag stands for: 0, 1 and 2 are the three kinds.
pub open spec fn kind_of_tag(tag: int) -> Option<DateTimeKind> {
    if tag == 0 {
        Some(DateTimeKind::Unspecified)
    } else if tag == 1 {
        Some(DateTimeKind::Utc)
    } else if tag == 2 {
        Some(DateTimeKind::Local)
    } else {
        None
    }
}

/// The tag of a kind.
pub open spec fn tag_of_kind(kind: DateTimeKind) -> int {
    match kind {
        DateTimeKind::Unspecified => 0,
        DateTimeKind::Utc => 1,
        DateTimeKind::Local => 2,
    }
}

/// The value of the given tick count and kind, if the count is in range.
pub open spec fn made_of_ticks(ticks: int, kind: DateTimeKind) -> Result<
    DateTimeView,
    DateTimeError,
> {
    if 0 <= ticks <= MAX_TICKS {
        Ok(DateTimeView { ticks, kind })
    } else {
        Err(DateTimeError::TicksOutOfRange)
    }
}

/// The value under a kind given by its tag.
pub open spec fn tagged(v: DateTimeView, tag: int) -> Result<DateTimeView, DateTimeError> {
    match kind_of_tag(tag) {
        Some(kind) => Ok(v.with_kind(kind)),
        None => Err(DateTimeError::UnsupportedKindTag),
    }
}

/// A result with the kind of its value replaced by the one a tag stands for.
pub open spec fn then_tagged(r: Result<DateTimeView, DateTimeError>, tag: int) -> Result<
    DateTimeView,
    DateTimeError,
> {
    match r {
        Ok(v) => tagged(v, tag),
        Err(e) => Err(e),
    }
}

/// Whether the fields name a real date between year 1 and year 9999 and a
/// real time of day.
pub open spec fn valid_fields(
    y: int,
    m: int,
    d: int,
    h: int,
    mi: int,
    s: int,
    ms: int,
    us: int,
) -> bool {
    valid_date(y, m, d) && valid_time(h, mi, s) && 0 <= ms < 1000 && 0 <= us < 1000
}

/// The ticks between 0001-01-01T00:00:00 and the instant that the fields name.
pub open spec fn ticks_of_fields(
    y: int,
    m: int,
    d: int,
    h: int,
    mi: int,
    s: int,
    ms: int,
    us: int,
) -> int {
    (day_number(y, m, d) - 1) * TICKS_PER_DAY + (h * 3600 + mi * 60 + s) * TICKS_PER_SECOND + ms
        * 10_000 + us * 10
}

/// The value of kind `Unspecified` that the fields name, if they name one.
pub open spec fn made_of_fields(
    y: int,
    m: int,
    d: int,
    h: int,
    mi: int,
    s: int,
    ms: int,
    us: int,
) -> Result<DateTimeView, DateTimeError> {
    if valid_fields(y, m, d, h, mi, s, ms, us) {
        Ok(
            DateTimeView {
                ticks: ticks_of_fields(y, m, d, h, mi, s, ms, us),
                kind: DateTimeKind::Unspecified,
            },
        )
    } else {
        Err(DateTimeError::InvalidCalendarDate)
    }
}

/// The value of the given kind at an instant given by its parts.
pub open spec fn made_of_instant(at: NaiveInstant, kind: DateTimeKind) -> Result<
    DateTimeView,
    DateTimeError,
> {
    made_of_ticks(at.ticks(), kind)
}

/// The value of kind `Unspecified` at an instant given by a triple of parts.
pub open spec fn made_of_parts(parts: (int, int, int)) -> Result<DateTimeView, DateTimeError> {
    made_of_ticks(
        (parts.0 - 1) * TICKS_PER_DAY + parts.1 * TICKS_PER_SECOND + parts.2 / 100,
        DateTimeKind::Unspecified,
    )
}

/// What parsing yields from what the two layouts read: the first that
/// reads an instant decides.
pub open spec fn parsed(first: Option<(int, int, int)>, second: Option<(int, int, int)>) -> Result<
    DateTimeView,
    DateTimeError,
> {
    match first {
        Some(parts) => made_of_parts(parts),
        None => match second {
            Some(parts) => made_of_parts(parts),
            None => Err(DateTimeError::InvalidFormat),
        },
    }
}

/// The sign of the difference of two tick counts: -1, 0 or 1.
pub open spec fn compared(a: int, b: int) -> int {
    if a < b {
        -1
    } else if a == b {
        0
    } else {
        1
    }
}

} // verus!
