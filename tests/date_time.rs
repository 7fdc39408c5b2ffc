use std::marker::PhantomData;

use cspice_time::date_time::{ConversionError, DateTime, ET};
use cspice_time::tags::{Calendar, Gregorian, Julian, Scale, TDB, TDT, UTC};
use cspice_time::wall_clock::WallClock;

type GregorianUtc = DateTime<Gregorian, UTC>;

#[test]
fn tag_names() {
    assert_eq!(Gregorian::name(), "GREGORIAN");
    assert_eq!(Gregorian::short_name(), "GCAL");
    assert_eq!(Julian::name(), "JULIAN");
    assert_eq!(Julian::short_name(), "JCAL");
    assert_eq!(TDB::name(), "TDB");
    assert_eq!(TDT::name(), "TDT");
    assert_eq!(UTC::name(), "UTC");
}

#[test]
fn new_sets_zone_to_zero() {
    let d = GregorianUtc::new(2024, 2, 29, 23, 59, 58_250_000);
    assert_eq!(d.year, 2024);
    assert_eq!(d.month, 2);
    assert_eq!(d.day, 29);
    assert_eq!(d.hour, 23);
    assert_eq!(d.minute, 59);
    assert_eq!(d.second_micros, 58_250_000);
    assert_eq!(d.zone, 0);
}

#[test]
fn with_zone_accepts_unvalidated_fields() {
    let d = GregorianUtc::with_zone(-44, 13, 32, 25, 61, 99_000_000, -7200);
    assert_eq!(d.month, 13);
    assert_eq!(d.day, 32);
    assert_eq!(d.zone, -7200);
    assert_eq!(d.clone(), d);
}

#[test]
fn year_zero_is_one_bc() {
    let d = GregorianUtc::new(0, 3, 15, 12, 0, 0);
    assert_eq!(d.et_request(), "1 BC-3-15 12:0:0 UTC GCAL");
}

#[test]
fn year_minus_one_is_two_bc() {
    let d = GregorianUtc::new(-1, 3, 15, 12, 0, 0);
    assert_eq!(d.et_request(), "2 BC-3-15 12:0:0 UTC GCAL");
}

#[test]
fn year_one_has_no_bc_suffix() {
    let d = GregorianUtc::new(1, 3, 15, 12, 0, 0);
    assert_eq!(d.et_request(), "1-3-15 12:0:0 UTC GCAL");
}

#[test]
fn lowest_year_is_written_as_bc() {
    let d = GregorianUtc::new(i16::MIN, 1, 1, 0, 0, 0);
    assert_eq!(d.et_request(), "32769 BC-1-1 0:0:0 UTC GCAL");
}

#[test]
fn request_carries_scale_and_calendar_token() {
    let d = DateTime::<Julian, TDB>::new(1582, 10, 4, 6, 30, 15_000_000);
    assert_eq!(d.et_request(), "1582-10-4 6:30:15 TDB JCAL");
    let d = DateTime::<Gregorian, TDT>::new(2000, 1, 1, 11, 58, 55_816_000);
    assert_eq!(d.et_request(), "2000-1-1 11:58:55.816 TDT GCAL");
}

#[test]
fn request_leaves_out_the_zone() {
    let base = GregorianUtc::new(2020, 6, 1, 8, 15, 30_500_000);
    let shifted = GregorianUtc::with_zone(2020, 6, 1, 8, 15, 30_500_000, 19800);
    assert_eq!(base.et_request(), "2020-6-1 8:15:30.5 UTC GCAL");
    assert_eq!(shifted.et_request(), base.et_request());
}

#[test]
fn fractional_seconds_are_written_without_trailing_zeros() {
    assert_eq!(GregorianUtc::new(1, 1, 1, 0, 0, 250_000).et_request(), "1-1-1 0:0:0.25 UTC GCAL");
    assert_eq!(GregorianUtc::new(1, 1, 1, 0, 0, 1_000_001).et_request(), "1-1-1 0:0:1.000001 UTC GCAL");
    assert_eq!(GregorianUtc::new(1, 1, 1, 0, 0, 59_100_000).et_request(), "1-1-1 0:0:59.1 UTC GCAL");
}

#[test]
fn zero_zone_keeps_the_parsed_coordinate() {
    let d = GregorianUtc::new(2000, 1, 1, 12, 0, 0);
    let parsed = ET { micros: 64_184_000 };
    assert_eq!(d.to_et(Ok(parsed)), Ok(parsed));
}

#[test]
fn zone_shifts_coordinate_by_minus_zone() {
    let parsed = ET { micros: 1_000_000_000 };
    let base = GregorianUtc::new(2000, 1, 1, 12, 0, 0);
    let east = GregorianUtc::with_zone(2000, 1, 1, 12, 0, 0, 3600);
    let west = GregorianUtc::with_zone(2000, 1, 1, 12, 0, 0, -5400);
    let b = base.to_et(Ok(parsed)).unwrap().micros;
    assert_eq!(east.to_et(Ok(parsed)).unwrap().micros, b - 3_600_000_000);
    assert_eq!(west.to_et(Ok(parsed)).unwrap().micros, b + 5_400_000_000);
}

#[test]
fn service_refusal_is_passed_on() {
    let d = GregorianUtc::with_zone(2000, 1, 1, 12, 0, 0, 60);
    assert_eq!(d.to_et(Err(ConversionError::Rejected)), Err(ConversionError::Rejected));
}

#[test]
fn zone_correction_out_of_range_is_refused() {
    let d = GregorianUtc::with_zone(2000, 1, 1, 12, 0, 0, 1);
    assert_eq!(d.to_et(Ok(ET { micros: i64::MIN })), Err(ConversionError::OutOfRange));
    let d = GregorianUtc::with_zone(2000, 1, 1, 12, 0, 0, -1);
    assert_eq!(d.to_et(Ok(ET { micros: i64::MAX })), Err(ConversionError::OutOfRange));
    assert_eq!(
        d.to_et(Ok(ET { micros: i64::MAX - 1_000_000 })),
        Ok(ET { micros: i64::MAX })
    );
}

#[test]
fn display_zone_zero() {
    let d = GregorianUtc::new(2024, 7, 4, 9, 5, 3_000_000);
    assert_eq!(d.display(), "2024-7-4 9:5:3 +0:0 UTC GCAL");
}

#[test]
fn display_zone_one_hour() {
    let d = GregorianUtc::with_zone(2024, 7, 4, 9, 5, 3_000_000, 3600);
    assert_eq!(d.display(), "2024-7-4 9:5:3 +1:0 UTC GCAL");
}

#[test]
fn display_zone_one_and_a_half_hours() {
    let d = GregorianUtc::with_zone(2024, 7, 4, 9, 5, 3_000_000, 5400);
    assert_eq!(d.display(), "2024-7-4 9:5:3 +1:30 UTC GCAL");
}

#[test]
fn display_negative_zone_floors_the_hours() {
    let d = GregorianUtc::with_zone(2024, 7, 4, 9, 5, 3_000_000, -5400);
    assert_eq!(d.display(), "2024-7-4 9:5:3 -2:30 UTC GCAL");
}

#[test]
fn display_negative_half_hour_zone() {
    let d = GregorianUtc::with_zone(2024, 7, 4, 9, 5, 3_000_000, -1800);
    assert_eq!(d.display(), "2024-7-4 9:5:3 -1:30 UTC GCAL");
}

#[test]
fn display_zone_truncates_minutes() {
    let d = GregorianUtc::with_zone(2024, 7, 4, 9, 5, 3_000_000, 3659);
    assert_eq!(d.display(), "2024-7-4 9:5:3 +1:0 UTC GCAL");
    let d = GregorianUtc::with_zone(2024, 7, 4, 9, 5, 3_000_000, -1);
    assert_eq!(d.display(), "2024-7-4 9:5:3 -1:59 UTC GCAL");
}

#[test]
fn display_keeps_the_signed_year() {
    let d = DateTime::<Julian, TDB>::new(-1, 12, 31, 0, 0, 500_000);
    assert_eq!(d.display(), "-1-12-31 0:0:0.5 +0:0 TDB JCAL");
}

#[test]
fn display_extreme_zones() {
    let d = GregorianUtc::with_zone(1, 1, 1, 0, 0, 0, i32::MIN);
    assert_eq!(d.display(), "1-1-1 0:0:0 -596524:45 UTC GCAL");
    let d = GregorianUtc::with_zone(1, 1, 1, 0, 0, 0, i32::MAX);
    assert_eq!(d.display(), "1-1-1 0:0:0 +596523:14 UTC GCAL");
}

fn sample_wall_clock() -> WallClock {
    WallClock {
        year: 2023,
        month: 11,
        day: 5,
        hour: 17,
        minute: 42,
        second: 30,
        nanosecond: 500_000_000,
        offset: -18000,
    }
}

#[test]
fn wall_clock_folds_nanoseconds_as_millionths() {
    let d = GregorianUtc::from_wall_clock(sample_wall_clock());
    // 30 s plus 500_000_000 / 1_000_000 = 500 s
    assert_eq!(d.second_micros, 530_000_000);
    assert_eq!(d.display(), "2023-11-5 17:42:530 -5:0 UTC GCAL");
}

#[test]
fn wall_clock_keeps_fields_and_offset() {
    let d: GregorianUtc = sample_wall_clock().into();
    assert_eq!(
        d,
        DateTime {
            year: 2023,
            month: 11,
            day: 5,
            hour: 17,
            minute: 42,
            second_micros: 530_000_000,
            zone: -18000,
            calendar: PhantomData,
            scale: PhantomData,
        }
    );
}

#[test]
fn wall_clock_small_fraction() {
    let mut c = sample_wall_clock();
    c.second = 0;
    c.nanosecond = 1;
    c.offset = 0;
    let d = GregorianUtc::from_wall_clock(c);
    assert_eq!(d.second_micros, 1);
    assert_eq!(d.et_request(), "2023-11-5 17:42:0.000001 UTC GCAL");
}
