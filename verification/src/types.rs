//! The plain value types that travel with a date and time: its kind, the
//! errors of the operations, durations, and the parts a naive instant is
//! made of.

use vstd::prelude::*;
use crate::calendar::{MAX_DAY_NUMBER, SECONDS_PER_DAY, TICKS_PER_DAY, TICKS_PER_SECOND};

verus! {

/// How the naive instant of a date and time is to be read.
#[derive(Clone, Copy, PartialEq, Eq, PartialOrd, Debug, Structural)]
pub enum DateTimeKind {
    /// No statement is made; read as UTC wherever an absolute instant is needed.
    Unspecified,
    /// The instant is in coordinated universal time.
    Utc,
    /// The instant is in the local time of the host.
    Local,
}

/// Why an operation on a date and time failed.
#[derive(Clone, Copy, PartialEq, Eq, Debug, Structural)]
pub enum DateTimeError {
    /// The fields given do not name a real calendar date and time of day.
    InvalidCalendarDate,
    /// A tick count or the result of an operation lies outside year 1 to year 9999.
    TicksOutOfRange,
    /// A kind tag other than 0, 1 or 2 was given.
    UnsupportedKindTag,
    /// A text is in none of the accepted layouts.
    InvalidFormat,
    /// The host has no single local offset for a local instant: it falls
    /// into a gap or a fold of the local time.
    UnresolvedLocalTime,
}

/// A day of the week.
#[derive(Clone, Copy, PartialEq, Eq, Debug, Structural)]
pub enum DayName {
    Sunday,
    Monday,
    Tuesday,
    Wednesday,
    Thursday,
    Friday,
    Saturday,
}

/// What the host answers when asked for the offset of a local instant.
#[derive(Clone, Copy, PartialEq, Eq, Debug, Structural)]
pub enum LocalOffset {
    /// The instant lies in a gap of the local time.
    Skipped,
    /// The one offset, in seconds east of UTC.
    Single(i32),
    /// The instant occurs twice; the earlier and the later offset.
    Ambiguous(i32, i32),
}

/// A signed, fixed length of time in ticks of 100 nanoseconds.
#[derive(Clone, Copy, PartialEq, Eq, Debug, Structural)]
pub struct TimeSpan {
    pub ticks: i64,
}

impl TimeSpan {
    /// The duration of the given number of ticks.
    pub fn from_ticks(ticks: i64) -> (r: TimeSpan)
        ensures
            r.ticks == ticks,
    {
        TimeSpan { ticks }
    }

    /// The empty duration.
    pub fn zero() -> (r: TimeSpan)
        ensures
            r.ticks == 0,
    {
        TimeSpan { ticks: 0 }
    }

    /// The length of the duration in ticks.
    pub fn ticks(&self) -> (r: i64)
        ensures
            r == self.ticks,
    {
        self.ticks
    }
}

/// A naive instant as its parts: the number of its day (0001-01-01 is
/// day 1), the second within the day, and the nanosecond within the second.
///
/// A nanosecond of 1,000,000,000 or more stands for a leap second and is
/// counted as time elapsed into the following second.
#[derive(Clone, Copy, PartialEq, Eq, Debug, Structural)]
pub struct NaiveInstant {
    pub day_number: i32,
    pub second_of_day: u32,
    pub nanosecond: u32,
}

impl NaiveInstant {
    /// The ticks between 0001-01-01T00:00:00 and this instant; what is
    /// finer than a tick is dropped.
    pub open spec fn ticks(self) -> int {
        (self.day_number - 1) * TICKS_PER_DAY + self.second_of_day * TICKS_PER_SECOND
            + self.nanosecond / 100
    }

    /// Whether the parts are a day between year 1 and year 9999 and a
    /// time within that day, without a leap second.
    pub open spec fn in_range(self) -> bool {
        &&& 1 <= self.day_number <= MAX_DAY_NUMBER
        &&& self.second_of_day < SECONDS_PER_DAY
        &&& self.nanosecond < 1_000_000_000
    }
}

/// A calendar date without a time of day, as the number of its day
/// (0001-01-01 is day 1).
#[derive(Clone, Copy, PartialEq, Eq, Debug, Structural)]
pub struct DateOnly {
    pub day_number: i32,
}

/// A time of day without a date, in ticks since midnight.
#[derive(Clone, Copy, PartialEq, Eq, Debug, Structural)]
pub struct TimeOnly {
    pub ticks: i64,
}

} // verus!
