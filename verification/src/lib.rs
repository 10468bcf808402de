//! A kind-tagged wall-clock date and time value with tick precision.
//!
//! A [`DateTime`] is a zone-less calendar instant, counted in ticks of 100
//! nanoseconds from 0001-01-01T00:00:00, together with a [`DateTimeKind`] that
//! says how the instant is to be read when an absolute instant is needed.
//!
//! The calendar itself is computed by `chrono`; what this crate states of
//! those computations is gathered in [`host`], and everything else is proved
//! from it against the model in [`model`] and [`calendar`].

#![allow(non_snake_case)]

pub mod calendar;
pub mod types;
pub mod host;
pub mod model;
pub mod datetime;
pub mod zone;
pub mod text;
pub mod laws;

pub use crate::datetime::{kind_from_tag, DateTime};
pub use crate::text::format_pattern;
pub use crate::types::{
    DateOnly, DateTimeError, DateTimeKind, DayName, LocalOffset, NaiveInstant, TimeOnly, TimeSpan,
};
pub use crate::zone::{
    compareTo, compare_at_offsets, equals, equals_at_offsets, single_offset, zero,
};
