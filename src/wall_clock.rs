//! An offset-aware wall-clock reading held as plain fields, and its conversion
//! into a Gregorian, UTC-tagged `DateTime`.
use vstd::prelude::*;

use crate::date_time::{DateTime, MICROS_PER_SECOND};
use crate::tags::{Gregorian, UTC};

verus! {

/// A moment as a wall clock with a fixed offset from UTC shows it.
#[derive(Clone, Copy, Debug, PartialEq, Eq, Structural)]
pub struct WallClock {
    pub year: i32,
    pub month: u32,
    pub day: u32,
    pub hour: u32,
    pub minute: u32,
    /// Whole seconds within the minute.
    pub second: u32,
    /// The sub-second part, in nanoseconds.
    pub nanosecond: u32,
    /// Local time minus UTC, in seconds.
    pub offset: i32,
}

/// The seconds field, in millionths, that a wall-clock reading maps to:
/// `second + nanosecond / 1_000_000` seconds, that is the nanosecond count
/// added as millionths.
pub open spec fn folded_second_micros(second: u32, nanosecond: u32) -> nat {
    (second as nat) * (MICROS_PER_SECOND as nat) + nanosecond as nat
}

impl DateTime<Gregorian, UTC> {
    /// What `from_wall_clock` gives for `c`.
    pub open spec fn spec_from_wall_clock(c: WallClock) -> Self {
        DateTime {
            year: c.year as i16,
            month: c.month as u8,
            day: c.day as u8,
            hour: c.hour as u8,
            minute: c.minute as u8,
            second_micros: folded_second_micros(c.second, c.nanosecond) as u64,
            zone: c.offset,
            calendar: std::marker::PhantomData,
            scale: std::marker::PhantomData,
        }
    }

    /// The Gregorian, UTC-tagged value for a wall-clock reading: the calendar
    /// fields narrowed to the field types, the seconds folded together with
    /// the nanoseconds, and the UTC offset as the zone.
    pub fn from_wall_clock(c: WallClock) -> (r: Self)
        ensures
            r == Self::spec_from_wall_clock(c),
            r.year == c.year as i16,
            r.month == c.month as u8,
            r.day == c.day as u8,
            r.hour == c.hour as u8,
            r.minute == c.minute as u8,
            r.second_micros == folded_second_micros(c.second, c.nanosecond),
            r.zone == c.offset,
    {
        let second_micros = (c.second as u64) * MICROS_PER_SECOND + c.nanosecond as u64;
        DateTime::with_zone(
            c.year as i16,
            c.month as u8,
            c.day as u8,
            c.hour as u8,
            c.minute as u8,
            second_micros,
            c.offset,
        )
    }
}

impl From<WallClock> for DateTime<Gregorian, UTC> {
    fn from(c: WallClock) -> (r: Self) {
        Self::from_wall_clock(c)
    }
}

impl vstd::std_specs::convert::FromSpecImpl<WallClock> for DateTime<Gregorian, UTC> {
    open spec fn obeys_from_spec() -> bool {
        true
    }

    open spec fn from_spec(c: WallClock) -> Self {
        Self::spec_from_wall_clock(c)
    }
}

} // verus!
