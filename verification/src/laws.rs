//! What holds of the operations taken together, proved over the model.

use vstd::prelude::*;
use crate::calendar::{
    date_of_day, day_number, is_leap_year, lemma_date_of_day, lemma_date_of_day_number,
    lemma_day_number_bounds, lemma_shifted_date, month_length, shifted_date, MAX_TICKS,
    TICKS_PER_DAY,
};
use crate::model::{
    compared_at, distance_at, fits, is_offset, made_of_fields, made_of_ticks, valid_fields,
    DateTimeView,
};
use crate::types::{DateTimeError, DateTimeKind};

verus! {

/// A value made of valid calendar fields is in range and has exactly those
/// fields: year, month, day, hour, minute and second are the ones given,
/// and the millisecond and microsecond given make up the part of the second.
pub proof fn fields_round_trip(y: int, m: int, d: int, h: int, mi: int, s: int, ms: int, us: int)
    requires
        valid_fields(y, m, d, h, mi, s, ms, us),
    ensures
        made_of_fields(y, m, d, h, mi, s, ms, us) matches Ok(v) && {
            &&& v.wf()
            &&& v.kind is Unspecified
            &&& v.year() == y
            &&& v.month() == m
            &&& v.day() == d
            &&& v.hour() == h
            &&& v.minute() == mi
            &&& v.second() == s
            &&& v.millisecond() == ms
            &&& v.microsecond() == ms * 1000 + us
            &&& v.nanosecond() == (ms * 1000 + us) * 1000
        },
{
    lemma_day_number_bounds(y, m, d);
    lemma_date_of_day_number(y, m, d);
    let v = made_of_fields(y, m, d, h, mi, s, ms, us)->Ok_0;
    let part = ms * 10_000 + us * 10;
    let seconds = h * 3600 + mi * 60 + s;
    let rest = seconds * 10_000_000 + part;
    assert(0 <= part < 10_000_000);
    assert(0 <= seconds < 86_400);
    assert(v.ticks == (day_number(y, m, d) - 1) * 864_000_000_000 + rest);
    assert(v.ticks / 864_000_000_000 == day_number(y, m, d) - 1);
    assert(v.tick_of_day() == rest);
    assert(rest / 10_000_000 == seconds);
    assert(rest % 10_000_000 == part);
    assert(v.ticks % 10_000_000 == part);
    assert(rest / 600_000_000 == h * 60 + mi);
    assert(rest / 36_000_000_000 == h);
}

/// The tick count of a value and the value made of a tick count undo each
/// other: where the tick count of a value, resolved with any offset, is in
/// range, the value of kind `Unspecified` made of it has the same tick
/// count, whatever the offset of the host.
pub proof fn ticks_round_trip(v: DateTimeView, offset: int, later_offset: int)
    requires
        0 <= v.utc_ticks(offset) <= MAX_TICKS,
    ensures
        made_of_ticks(v.utc_ticks(offset), DateTimeKind::Unspecified) matches Ok(w)
            && w.utc_ticks(later_offset) == v.utc_ticks(offset),
{
}

/// A year is a leap year exactly when its February has 29 days.
pub proof fn leap_year_is_long_february(y: int)
    ensures
        is_leap_year(y) <==> month_length(y, 2) == 29,
{
}

/// Moving a value by a number of months and back again gives the value
/// itself, where the day of the month exists in the month arrived at, so
/// that no day was clamped.
pub proof fn add_months_inverse(v: DateTimeView, n: int)
    requires
        v.wf(),
        v.plus_months(n) is Ok,
        v.day() <= month_length(
            shifted_date(v.year(), v.month(), v.day(), n).0,
            shifted_date(v.year(), v.month(), v.day(), n).1,
        ),
    ensures
        v.plus_months(n) matches Ok(w) && w.plus_months(-n) == Ok::<_, DateTimeError>(v),
{
    let from = date_of_day(v.day_number());
    lemma_date_of_day(v.day_number());
    let to = shifted_date(from.0, from.1, from.2, n);
    lemma_shifted_date(from.0, from.1, from.2, n);
    let w = v.plus_months(n)->Ok_0;
    assert(w.day_number() == day_number(to.0, to.1, to.2));
    lemma_date_of_day_number(to.0, to.1, to.2);
    lemma_date_of_day_number(from.0, from.1, from.2);
    let back = shifted_date(to.0, to.1, to.2, -n);
    assert(back == from);
    assert(v.ticks == (v.ticks / (TICKS_PER_DAY as int)) * TICKS_PER_DAY + v.ticks % (
    TICKS_PER_DAY as int));
}

/// A UTC value and an unspecified value with the same naive instant are
/// the same absolute instant. A local value with that naive instant is
/// another instant than the UTC one as soon as the offset of the host is
/// not zero.
pub proof fn kind_aware_equality(x: DateTimeView, ox: int, oy: int, local_offset: int)
    requires
        fits(x.with_kind(DateTimeKind::Utc), ox),
        fits(x.with_kind(DateTimeKind::Unspecified), oy),
    ensures
        compared_at(x.with_kind(DateTimeKind::Utc), x.with_kind(DateTimeKind::Unspecified), ox, oy)
            == 0,
        local_offset != 0 ==> compared_at(
            x.with_kind(DateTimeKind::Local),
            x.with_kind(DateTimeKind::Utc),
            local_offset,
            ox,
        ) != 0,
{
}

/// The duration from a value to itself is zero, and the duration from a
/// value to the value moved by a duration is that duration, where the host
/// has one offset for both.
pub proof fn subtract_undoes_add(a: DateTimeView, d: int, offset: int)
    ensures
        distance_at(a, a, offset, offset) == 0,
        a.plus(d) matches Ok(b) ==> distance_at(b, a, offset, offset) == d,
{
}

/// A local value taken to UTC and back to local time is the value itself,
/// where the host has one offset for both ways.
pub proof fn universal_and_back(v: DateTimeView, offset: int)
    requires
        v.wf(),
        v.kind is Local,
        is_offset(offset),
    ensures
        v.to_universal(offset) matches Ok(u) ==> u.to_local(offset) == Ok::<_, DateTimeError>(v),
{
}

} // verus!
