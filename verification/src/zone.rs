//! Operations that need an absolute instant: a local value is first moved
//! by the offset of the host, any other value is read as UTC.
//!
//! Each operation comes twice. The one that takes the offsets as arguments
//! is exact. The one that asks the host says what holds of whatever offset
//! the host gave.

use vstd::prelude::*;
use crate::datetime::{viewed, DateTime};
use crate::host::{local_now, local_offset_at_local, local_offset_at_utc, utc_now};
use crate::model::{compared_at, distance_at, fits, is_offset, made_of_ticks, DateTimeView};
use crate::types::{DateTimeError, DateTimeKind, LocalOffset, NaiveInstant, TimeSpan};

verus! {

/// How two values compare once each is resolved to an absolute instant:
/// -1, 0 or 1. Fails only where a local value has no single offset.
pub fn compareTo(x: DateTime, y: DateTime) -> (r: Result<i32, DateTimeError>)
    ensures
        r matches Err(e) ==> e == DateTimeError::UnresolvedLocalTime && (x@.kind is Local
            || y@.kind is Local),
        r matches Ok(c) ==> exists|ox: int, oy: int|
            fits(x@, ox) && fits(y@, oy) && c == compared_at(x@, y@, ox, oy),
{
    let ox = x.local_offset()?;
    let oy = y.local_offset()?;
    proof {
        assert(fits(x@, ox as int) && fits(y@, oy as int));
    }
    Ok(compare_at_offsets(x, y, ox, oy))
}

/// Whether two values are the same absolute instant. Fails only where a
/// local value has no single offset.
pub fn equals(x: DateTime, y: DateTime) -> (r: Result<bool, DateTimeError>)
    ensures
        r matches Err(e) ==> e == DateTimeError::UnresolvedLocalTime && (x@.kind is Local
            || y@.kind is Local),
        r matches Ok(b) ==> exists|ox: int, oy: int|
            fits(x@, ox) && fits(y@, oy) && b == (compared_at(x@, y@, ox, oy) == 0),
{
    let ox = x.local_offset()?;
    let oy = y.local_offset()?;
    proof {
        assert(fits(x@, ox as int) && fits(y@, oy as int));
    }
    Ok(equals_at_offsets(x, y, ox, oy))
}

/// The earliest value.
pub fn zero() -> (r: DateTime)
    ensures
        r@ == (DateTimeView { ticks: 0, kind: DateTimeKind::Utc }),
{
    DateTime::minValue()
}

/// How two values compare, the first resolved with the offset `ox` and
/// the second with `oy`, both in seconds east of UTC.
pub fn compare_at_offsets(x: DateTime, y: DateTime, ox: i32, oy: i32) -> (r: i32)
    ensures
        r == compared_at(x@, y@, ox as int, oy as int),
{
    let a = x.ticks_at_offset(ox);
    let b = y.ticks_at_offset(oy);
    if a < b {
        -1
    } else if a == b {
        0
    } else {
        1
    }
}

/// Whether two values are the same absolute instant, the first resolved
/// with the offset `ox` and the second with `oy`.
pub fn equals_at_offsets(x: DateTime, y: DateTime, ox: i32, oy: i32) -> (r: bool)
    ensures
        r == (x@.utc_ticks(ox as int) == y@.utc_ticks(oy as int)),
        r == (compared_at(x@, y@, ox as int, oy as int) == 0),
{
    x.ticks_at_offset(ox) == y.ticks_at_offset(oy)
}

impl DateTime {
    /// The offset of the host for this value, in seconds east of UTC:
    /// zero for a value that is not local, else what the host gives for
    /// the naive instant read as local time.
    pub fn local_offset(&self) -> (r: Result<i32, DateTimeError>)
        ensures
            !(self@.kind is Local) ==> r == Ok::<i32, DateTimeError>(0),
            r matches Ok(o) ==> fits(self@, o as int),
            r matches Err(e) ==> e == DateTimeError::UnresolvedLocalTime,
    {
        match self.date_time_kind() {
            DateTimeKind::Local => single_offset(local_offset_at_local(self.instant())),
            _ => Ok(0),
        }
    }

    /// The ticks between 0001-01-01T00:00:00 UTC and the absolute instant,
    /// where the host is `local_offset` seconds east of UTC.
    pub fn ticks_at_offset(&self, local_offset: i32) -> (r: i64)
        ensures
            r == self@.utc_ticks(local_offset as int),
            self@.wf(),
    {
        let naive = self.naive_ticks();
        match self.date_time_kind() {
            DateTimeKind::Local => naive - (local_offset as i64) * 10_000_000,
            _ => naive,
        }
    }

    /// The ticks between 0001-01-01T00:00:00 UTC and the absolute instant.
    /// Fails only where a local value has no single offset.
    pub fn ticks(&self) -> (r: Result<i64, DateTimeError>)
        ensures
            !(self@.kind is Local) ==> r == Ok::<i64, DateTimeError>(self@.ticks as i64),
            r matches Ok(t) ==> exists|o: int| fits(self@, o) && t == self@.utc_ticks(o),
            r matches Err(e) ==> e == DateTimeError::UnresolvedLocalTime,
    {
        let o = self.local_offset()?;
        proof {
            assert(fits(self@, o as int));
        }
        Ok(self.ticks_at_offset(o))
    }

    /// The duration from `other` to this value, this value resolved with
    /// the offset `own` and the other with `others`.
    pub fn subtract2_at_offsets(&self, other: DateTime, own: i32, others: i32) -> (r: TimeSpan)
        ensures
            r.ticks == distance_at(self@, other@, own as int, others as int),
    {
        TimeSpan::from_ticks(self.ticks_at_offset(own) - other.ticks_at_offset(others))
    }

    /// The duration from `other` to this value, both resolved to absolute
    /// instants. Fails only where a local value has no single offset.
    pub fn subtract2(&self, other: DateTime) -> (r: Result<TimeSpan, DateTimeError>)
        ensures
            r matches Err(e) ==> e == DateTimeError::UnresolvedLocalTime && (self@.kind is Local
                || other@.kind is Local),
            r matches Ok(d) ==> exists|ox: int, oy: int|
                fits(self@, ox) && fits(other@, oy) && d.ticks == distance_at(
                    self@,
                    other@,
                    ox,
                    oy,
                ),
    {
        let ox = self.local_offset()?;
        let oy = other.local_offset()?;
        proof {
            assert(fits(self@, ox as int) && fits(other@, oy as int));
        }
        Ok(self.subtract2_at_offsets(other, ox, oy))
    }

    /// The value in UTC, where the host is `local_offset` seconds east of
    /// UTC: a UTC value as it is, any other read as local time and moved.
    pub fn to_universal_at_offset(&self, local_offset: i32) -> (r: Result<
        DateTime,
        DateTimeError,
    >)
        ensures
            viewed(r) == self@.to_universal(local_offset as int),
    {
        match self.date_time_kind() {
            DateTimeKind::Utc => Ok(*self),
            _ => DateTime::from_ticks(
                self.naive_ticks() - (local_offset as i64) * 10_000_000,
                DateTimeKind::Utc,
            ),
        }
    }

    /// The value in local time, where the host is `local_offset` seconds
    /// east of UTC: a local value as it is, any other read as UTC and moved.
    pub fn to_local_at_offset(&self, local_offset: i32) -> (r: Result<DateTime, DateTimeError>)
        ensures
            viewed(r) == self@.to_local(local_offset as int),
    {
        match self.date_time_kind() {
            DateTimeKind::Local => Ok(*self),
            _ => DateTime::from_ticks(
                self.naive_ticks() + (local_offset as i64) * 10_000_000,
                DateTimeKind::Local,
            ),
        }
    }

    /// The value in UTC. A UTC value is returned as it is; any other is
    /// read as local time and moved by the offset that the host gives for
    /// it.
    pub fn toUniversalTime(&self) -> (r: Result<DateTime, DateTimeError>)
        ensures
            self@.kind is Utc ==> viewed(r) == Ok::<DateTimeView, DateTimeError>(self@),
            r matches Err(DateTimeError::UnresolvedLocalTime) || exists|o: int|
                is_offset(o) && viewed(r) == self@.to_universal(o),
    {
        match self.date_time_kind() {
            DateTimeKind::Utc => {
                proof {
                    assert(is_offset(0) && viewed(Ok(*self)) == self@.to_universal(0));
                }
                Ok(*self)
            },
            _ => {
                let o = single_offset(local_offset_at_local(self.instant()))?;
                let r = self.to_universal_at_offset(o);
                proof {
                    assert(is_offset(o as int) && viewed(r) == self@.to_universal(o as int));
                }
                r
            },
        }
    }

    /// The value in local time. A local value is returned as it is; any
    /// other is read as UTC and moved by the offset that the host gives
    /// for it.
    pub fn toLocalTime(&self) -> (r: Result<DateTime, DateTimeError>)
        ensures
            self@.kind is Local ==> viewed(r) == Ok::<DateTimeView, DateTimeError>(self@),
            exists|o: int| is_offset(o) && viewed(r) == self@.to_local(o),
    {
        match self.date_time_kind() {
            DateTimeKind::Local => {
                proof {
                    assert(is_offset(0) && viewed(Ok(*self)) == self@.to_local(0));
                }
                Ok(*self)
            },
            _ => {
                let o = local_offset_at_utc(self.instant());
                let r = self.to_local_at_offset(o);
                proof {
                    assert(is_offset(o as int) && viewed(r) == self@.to_local(o as int));
                }
                r
            },
        }
    }

    /// The value in local time.
    pub fn localDateTime(&self) -> (r: Result<DateTime, DateTimeError>)
        ensures
            self@.kind is Local ==> viewed(r) == Ok::<DateTimeView, DateTimeError>(self@),
            exists|o: int| is_offset(o) && viewed(r) == self@.to_local(o),
    {
        self.toLocalTime()
    }

    /// The value in UTC.
    pub fn utcDateTime(&self) -> (r: Result<DateTime, DateTimeError>)
        ensures
            self@.kind is Utc ==> viewed(r) == Ok::<DateTimeView, DateTimeError>(self@),
            r matches Err(DateTimeError::UnresolvedLocalTime) || exists|o: int|
                is_offset(o) && viewed(r) == self@.to_universal(o),
    {
        self.toUniversalTime()
    }

    /// The present instant in the local time of the host, of kind `Local`.
    /// Fails where the clock of the host lies outside year 1 to year 9999.
    pub fn now() -> (r: Result<DateTime, DateTimeError>)
        ensures
            r matches Ok(v) ==> v@.kind is Local,
            r matches Err(e) ==> e == DateTimeError::TicksOutOfRange,
    {
        DateTime::new(local_now(), DateTimeKind::Local)
    }

    /// The present instant in UTC, of kind `Utc`. Fails where the clock
    /// of the host lies outside year 1 to year 9999.
    pub fn utcNow() -> (r: Result<DateTime, DateTimeError>)
        ensures
            r matches Ok(v) ==> v@.kind is Utc,
            r matches Err(e) ==> e == DateTimeError::TicksOutOfRange,
    {
        DateTime::new(utc_now(), DateTimeKind::Utc)
    }

    /// Midnight of the present day in UTC, of kind `Local`. Fails where
    /// the clock of the host lies outside year 1 to year 9999.
    pub fn today() -> (r: Result<DateTime, DateTimeError>)
        ensures
            r matches Ok(v) ==> v@.kind is Local && v@.tick_of_day() == 0,
            r matches Err(e) ==> e == DateTimeError::TicksOutOfRange,
    {
        Self::midnight_of(utc_now(), DateTimeKind::Local)
    }

    /// Midnight of the day of an instant, under the given kind.
    pub fn midnight_of(at: NaiveInstant, kind: DateTimeKind) -> (r: Result<
        DateTime,
        DateTimeError,
    >)
        ensures
            viewed(r) == made_of_ticks((at.day_number - 1) * 864_000_000_000, kind),
    {
        let midnight = NaiveInstant { day_number: at.day_number, second_of_day: 0, nanosecond: 0 };
        DateTime::new(midnight, kind)
    }
}

/// The one offset that the host gave, if it gave one.
pub fn single_offset(answer: LocalOffset) -> (r: Result<i32, DateTimeError>)
    ensures
        r == (match answer {
            LocalOffset::Single(o) => Ok(o),
            _ => Err(DateTimeError::UnresolvedLocalTime),
        }),
{
    match answer {
        LocalOffset::Single(o) => Ok(o),
        _ => Err(DateTimeError::UnresolvedLocalTime),
    }
}

} // verus!
