//! Civil date/time values tagged with a calendar and a time scale, the text
//! an ephemeris service parses them from, and the zone correction applied to
//! what it answers.
use std::marker::PhantomData;
use vstd::prelude::*;

use crate::tags::{Calendar, Scale};
use crate::text::{
    decimal, explicit_sign_decimal, push_decimal, push_explicit_sign_decimal,
    push_signed_decimal, push_trimmed_fraction, signed_decimal, trimmed_fraction,
};

verus! {

/// Millionths in one second: the unit of `DateTime::second_micros` and `ET::micros`.
pub const MICROS_PER_SECOND: u64 = 1_000_000;

/// Seconds in one hour.
pub const SECONDS_PER_HOUR: i64 = 3600;

/// An absolute, zone-less time coordinate (Ephemeris Time), in millionths of a
/// second from the ephemeris epoch.
#[derive(Clone, Copy, Debug, PartialEq, Eq, Structural)]
pub struct ET {
    pub micros: i64,
}

/// Why a conversion to or from the absolute time coordinate failed.
#[derive(Clone, Copy, Debug, PartialEq, Eq, Structural)]
pub enum ConversionError {
    /// The ephemeris service did not accept the text or the coordinate it was given.
    Rejected,
    /// The zone-corrected coordinate does not fit in the coordinate's range.
    OutOfRange,
}

/// A civil reading of a moment: calendar fields in calendar `C`, measured on
/// scale `S`, plus a signed offset in seconds from that scale's reference.
/// No field is validated; the ephemeris service judges them when the value is
/// converted.
#[derive(Copy, Debug, PartialEq, Eq)]
pub struct DateTime<C: Calendar, S: Scale> {
    /// Year; zero and below are the proleptic years before year one.
    pub year: i16,
    pub month: u8,
    pub day: u8,
    pub hour: u8,
    pub minute: u8,
    /// Seconds within the minute, in millionths of a second.
    pub second_micros: u64,
    /// Offset from the scale's reference, in seconds.
    pub zone: i32,
    pub calendar: PhantomData<C>,
    pub scale: PhantomData<S>,
}

impl<C: Calendar, S: Scale> Clone for DateTime<C, S> {
    fn clone(&self) -> (r: Self)
        ensures
            r == *self,
    {
        DateTime { calendar: PhantomData, scale: PhantomData, ..*self }
    }
}

/// The year as the ephemeris service reads it: years one and up as they are,
/// year `y <= 0` as `(1 - y) BC`.
pub open spec fn year_text(year: int) -> Seq<char> {
    if year > 0 {
        decimal(year as nat)
    } else {
        decimal((1 - year) as nat) + seq![' ', 'B', 'C']
    }
}

/// Seconds given in millionths, written as a decimal number: the whole
/// seconds, then a point and the fraction's digits only where the fraction is
/// not zero, without trailing zeros.
pub open spec fn seconds_text(micros: nat) -> Seq<char> {
    let whole = micros / (MICROS_PER_SECOND as nat);
    let fraction = micros % (MICROS_PER_SECOND as nat);
    if fraction == 0 {
        decimal(whole)
    } else {
        decimal(whole) + seq!['.'] + trimmed_fraction(fraction, 6)
    }
}

/// The whole-hour part of a zone offset, rounded toward negative infinity.
pub open spec fn zone_hours(zone: int) -> int {
    zone / (SECONDS_PER_HOUR as int)
}

/// The minutes left over after `zone_hours`: never negative.
pub open spec fn zone_minutes(zone: int) -> int {
    (zone % (SECONDS_PER_HOUR as int)) / 60
}

/// A zone offset written as signed whole hours, a colon and the leftover minutes.
pub open spec fn zone_text(zone: int) -> Seq<char> {
    explicit_sign_decimal(zone_hours(zone)) + seq![':'] + decimal(zone_minutes(zone) as nat)
}

/// The coordinate that a parsed local reading stands for once the zone is
/// taken off: `parsed - zone` seconds.
pub open spec fn zone_corrected(parsed: int, zone: int) -> int {
    parsed - zone * (MICROS_PER_SECOND as int)
}

/// Whether `v` fits in the coordinate's range.
pub open spec fn fits_coordinate(v: int) -> bool {
    i64::MIN <= v <= i64::MAX
}

impl<C: Calendar, S: Scale> DateTime<C, S> {
    /// The text handed to the ephemeris service to parse:
    /// `year-month-day hour:minute:second SCALE CALENDAR_TOKEN`.
    pub open spec fn request_text(&self) -> Seq<char> {
        year_text(self.year as int) + seq!['-'] + decimal(self.month as nat) + seq!['-']
            + decimal(self.day as nat) + seq![' '] + decimal(self.hour as nat) + seq![':']
            + decimal(self.minute as nat) + seq![':'] + seconds_text(self.second_micros as nat)
            + seq![' '] + S::scale_name() + seq![' '] + C::token()
    }

    /// The canonical rendering:
    /// `year-month-day hour:minute:second ±H:M SCALE CALENDAR_TOKEN`.
    pub open spec fn display_text(&self) -> Seq<char> {
        signed_decimal(self.year as int) + seq!['-'] + decimal(self.month as nat) + seq!['-']
            + decimal(self.day as nat) + seq![' '] + decimal(self.hour as nat) + seq![':']
            + decimal(self.minute as nat) + seq![':'] + seconds_text(self.second_micros as nat)
            + seq![' '] + zone_text(self.zone as int) + seq![' '] + S::scale_name() + seq![' ']
            + C::token()
    }

    /// What `to_et` gives for what the service answered.
    pub open spec fn spec_to_et(&self, parsed: Result<ET, ConversionError>) -> Result<
        ET,
        ConversionError,
    > {
        match parsed {
            Err(e) => Err(e),
            Ok(p) => {
                let v = zone_corrected(p.micros as int, self.zone as int);
                if fits_coordinate(v) {
                    Ok(ET { micros: v as i64 })
                } else {
                    Err(ConversionError::OutOfRange)
                }
            },
        }
    }

    /// A value with the given fields and a zone offset of zero.
    pub fn new(year: i16, month: u8, day: u8, hour: u8, minute: u8, second_micros: u64) -> (r:
        Self)
        ensures
            r.year == year,
            r.month == month,
            r.day == day,
            r.hour == hour,
            r.minute == minute,
            r.second_micros == second_micros,
            r.zone == 0,
    {
        Self::with_zone(year, month, day, hour, minute, second_micros, 0)
    }

    /// A value with the given fields and zone offset, in seconds.
    pub fn with_zone(
        year: i16,
        month: u8,
        day: u8,
        hour: u8,
        minute: u8,
        second_micros: u64,
        zone: i32,
    ) -> (r: Self)
        ensures
            r.year == year,
            r.month == month,
            r.day == day,
            r.hour == hour,
            r.minute == minute,
            r.second_micros == second_micros,
            r.zone == zone,
    {
        DateTime {
            year,
            month,
            day,
            hour,
            minute,
            second_micros,
            zone,
            calendar: PhantomData,
            scale: PhantomData,
        }
    }

    /// The text that the ephemeris service parses into the local reading's
    /// coordinate. The zone offset is not part of it.
    pub fn et_request(&self) -> (r: String)
        ensures
            r@ == self.request_text(),
    {
        let mut out = String::new();
        push_year_text(&mut out, self.year);
        push_date_and_clock(&mut out, self.month, self.day, self.hour, self.minute, self.second_micros);
        push_tags::<C, S>(&mut out);
        assert(out@ =~= self.request_text());
        out
    }

    /// The absolute coordinate of this value, given what the ephemeris service
    /// answered for `et_request()`: a refusal is passed on unchanged; a parsed
    /// coordinate has the zone taken off, `parsed - zone` seconds, and is
    /// refused as out of range where that does not fit.
    pub fn to_et(&self, parsed: Result<ET, ConversionError>) -> (r: Result<ET, ConversionError>)
        ensures
            r == self.spec_to_et(parsed),
            parsed is Err ==> r == parsed,
            parsed is Ok && fits_coordinate(zone_corrected(parsed->Ok_0.micros as int, self.zone as int))
                ==> r == Ok::<ET, ConversionError>(
                ET { micros: zone_corrected(parsed->Ok_0.micros as int, self.zone as int) as i64 },
            ),
            parsed is Ok && !fits_coordinate(zone_corrected(parsed->Ok_0.micros as int, self.zone as int))
                ==> r == Err::<ET, ConversionError>(ConversionError::OutOfRange),
    {
        match parsed {
            Err(e) => Err(e),
            Ok(p) => {
                let v: i128 = p.micros as i128 - (self.zone as i128) * (MICROS_PER_SECOND as i128);
                if v < i64::MIN as i128 || v > i64::MAX as i128 {
                    Err(ConversionError::OutOfRange)
                } else {
                    Ok(ET { micros: v as i64 })
                }
            },
        }
    }

    /// The canonical rendering of this value, zone offset included.
    pub fn display(&self) -> (r: String)
        ensures
            r@ == self.display_text(),
    {
        let mut out = String::new();
        push_signed_decimal(&mut out, self.year as i64);
        push_date_and_clock(&mut out, self.month, self.day, self.hour, self.minute, self.second_micros);
        proof {
            reveal_strlit(" ");
        }
        out.append(" ");
        push_zone_text(&mut out, self.zone);
        push_tags::<C, S>(&mut out);
        assert(out@ =~= self.display_text());
        out
    }
}

/// Whether `a` and `b` hold the same calendar and clock fields, whatever their zones.
pub open spec fn same_civil_fields<C: Calendar, S: Scale>(a: DateTime<C, S>, b: DateTime<C, S>) -> bool {
    &&& a.year == b.year
    &&& a.month == b.month
    &&& a.day == b.day
    &&& a.hour == b.hour
    &&& a.minute == b.minute
    &&& a.second_micros == b.second_micros
}

/// A zone offset shifts the absolute coordinate by exactly minus that many
/// seconds: two values with the same civil fields, one with zone zero, send the
/// service the same text, and from the same answer the zoned one lands `zone`
/// seconds before the other (where that fits in the coordinate's range).
pub proof fn lemma_zone_shifts_coordinate<C: Calendar, S: Scale>(
    base: DateTime<C, S>,
    shifted: DateTime<C, S>,
    parsed: ET,
)
    requires
        same_civil_fields(base, shifted),
        base.zone == 0,
    ensures
        shifted.request_text() == base.request_text(),
        base.spec_to_et(Ok(parsed)) is Ok,
        shifted.spec_to_et(Ok(parsed)) is Ok <==> fits_coordinate(
            base.spec_to_et(Ok(parsed))->Ok_0.micros - shifted.zone * (MICROS_PER_SECOND as int),
        ),
        shifted.spec_to_et(Ok(parsed)) is Ok ==> shifted.spec_to_et(Ok(parsed))->Ok_0.micros
            == base.spec_to_et(Ok(parsed))->Ok_0.micros - shifted.zone * (
        MICROS_PER_SECOND as int),
{
}

/// With a zone offset of zero the coordinate is the service's answer itself:
/// a round trip through the service and back at zone zero depends on the
/// service alone.
pub proof fn lemma_zero_zone_keeps_coordinate<C: Calendar, S: Scale>(
    d: DateTime<C, S>,
    parsed: Result<ET, ConversionError>,
)
    requires
        d.zone == 0,
    ensures
        d.spec_to_et(parsed) == parsed,
{
}

/// Appends the year as the ephemeris service reads it.
fn push_year_text(out: &mut String, year: i16)
    ensures
        final(out)@ == old(out)@ + year_text(year as int),
{
    if year > 0 {
        push_decimal(out, year as u64);
    } else {
        push_decimal(out, (1 - year as i64) as u64);
        proof {
            reveal_strlit(" BC");
        }
        out.append(" BC");
        assert(final(out)@ =~= old(out)@ + year_text(year as int));
    }
}

/// Appends seconds given in millionths, as `seconds_text` writes them.
fn push_seconds_text(out: &mut String, micros: u64)
    ensures
        final(out)@ == old(out)@ + seconds_text(micros as nat),
{
    let whole = micros / MICROS_PER_SECOND;
    let fraction = micros % MICROS_PER_SECOND;
    push_decimal(out, whole);
    if fraction != 0 {
        proof {
            reveal_strlit(".");
        }
        out.append(".");
        push_trimmed_fraction(out, fraction, 6);
    }
    assert(final(out)@ =~= old(out)@ + seconds_text(micros as nat));
}

/// Appends `-month-day hour:minute:second`, the part that follows the year.
fn push_date_and_clock(out: &mut String, month: u8, day: u8, hour: u8, minute: u8, second_micros: u64)
    ensures
        final(out)@ == old(out)@ + seq!['-'] + decimal(month as nat) + seq!['-'] + decimal(
            day as nat,
        ) + seq![' '] + decimal(hour as nat) + seq![':'] + decimal(minute as nat) + seq![':']
            + seconds_text(second_micros as nat),
{
    proof {
        reveal_strlit("-");
        reveal_strlit(" ");
        reveal_strlit(":");
    }
    out.append("-");
    push_decimal(out, month as u64);
    out.append("-");
    push_decimal(out, day as u64);
    out.append(" ");
    push_decimal(out, hour as u64);
    out.append(":");
    push_decimal(out, minute as u64);
    out.append(":");
    push_seconds_text(out, second_micros);
    assert(final(out)@ =~= old(out)@ + seq!['-'] + decimal(month as nat) + seq!['-'] + decimal(
        day as nat,
    ) + seq![' '] + decimal(hour as nat) + seq![':'] + decimal(minute as nat) + seq![':']
        + seconds_text(second_micros as nat));
}

/// Appends ` SCALE CALENDAR_TOKEN`.
fn push_tags<C: Calendar, S: Scale>(out: &mut String)
    ensures
        final(out)@ == old(out)@ + seq![' '] + S::scale_name() + seq![' '] + C::token(),
{
    proof {
        reveal_strlit(" ");
    }
    out.append(" ");
    out.append(S::name());
    out.append(" ");
    out.append(C::short_name());
    assert(final(out)@ =~= old(out)@ + seq![' '] + S::scale_name() + seq![' '] + C::token());
}

/// Appends a zone offset as `zone_text` writes it.
fn push_zone_text(out: &mut String, zone: i32)
    ensures
        final(out)@ == old(out)@ + zone_text(zone as int),
{
    let z = zone as i64;
    let hours: i64 = if z >= 0 {
        z / SECONDS_PER_HOUR
    } else {
        -((-z + SECONDS_PER_HOUR - 1) / SECONDS_PER_HOUR)
    };
    let leftover: i64 = z - hours * SECONDS_PER_HOUR;
    assert(hours == zone_hours(zone as int) && leftover == (zone as int) % 3600) by (nonlinear_arith)
        requires
            z == zone,
            hours == if z >= 0 {
                z / 3600
            } else {
                -((-z + 3600 - 1) / 3600)
            },
            leftover == z - hours * 3600,
    {
    }
    push_explicit_sign_decimal(out, hours);
    proof {
        reveal_strlit(":");
    }
    out.append(":");
    push_decimal(out, (leftover / 60) as u64);
    assert(final(out)@ =~= old(out)@ + zone_text(zone as int));
}

} // verus!
