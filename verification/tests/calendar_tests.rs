//! The calendar conversion: known Julian Days, midnight rollovers across
//! month, year and leap-day boundaries, and the leap-year table.

use hd_cli::astro_time::{
    calc_julian_day, days_in_month, is_leap, next_day, prev_day, MS_PER_DAY,
};

#[test]
fn julian_day_of_the_epoch_2000() {
    // 2000-01-01 12:00 UT is JD 2451545.0 exactly.
    assert_eq!(calc_julian_day(2000, 1, 1, 12, 0, 0), 2_451_545 * MS_PER_DAY);
}

#[test]
fn julian_day_of_a_textbook_date() {
    // 1987-06-19 12:00 UT is JD 2446966.0.
    assert_eq!(calc_julian_day(1987, 6, 19, 12, 0, 0), 2_446_966 * MS_PER_DAY);
    // 1970-01-01 00:00 UT is JD 2440587.5.
    assert_eq!(calc_julian_day(1970, 1, 1, 0, 0, 0), 2_440_587 * MS_PER_DAY + MS_PER_DAY / 2);
}

#[test]
fn utc_offset_shifts_like_clock_time() {
    // 14:30 at UTC+3 is 11:30 UT.
    assert_eq!(
        calc_julian_day(1990, 5, 15, 14, 30, 180),
        calc_julian_day(1990, 5, 15, 11, 30, 0)
    );
}

#[test]
fn new_year_rollback() {
    // Jan 1 00:30 at UTC+5 is Dec 31 19:30 UT of the year before.
    assert_eq!(
        calc_julian_day(2021, 1, 1, 0, 30, 300),
        calc_julian_day(2020, 12, 31, 19, 30, 0)
    );
}

#[test]
fn leap_day_rollback() {
    // Mar 1 00:30 at UTC+5 rolls back onto Feb 29 in a leap year and onto
    // Feb 28 in a common year.
    assert_eq!(
        calc_julian_day(2020, 3, 1, 0, 30, 300),
        calc_julian_day(2020, 2, 29, 19, 30, 0)
    );
    assert_eq!(
        calc_julian_day(2021, 3, 1, 0, 30, 300),
        calc_julian_day(2021, 2, 28, 19, 30, 0)
    );
}

#[test]
fn forward_rollover() {
    // Dec 31 23:30 at UTC-2 is Jan 1 01:30 UT of the next year.
    assert_eq!(
        calc_julian_day(2020, 12, 31, 23, 30, -120),
        calc_julian_day(2021, 1, 1, 1, 30, 0)
    );
}

#[test]
fn minutes_are_exact() {
    let base = calc_julian_day(1990, 5, 15, 11, 30, 0);
    let plus_one = calc_julian_day(1990, 5, 15, 11, 31, 0);
    assert_eq!(plus_one - base, 60_000);
}

#[test]
fn leap_year_rule() {
    assert!(is_leap(2020));
    assert!(!is_leap(1900));
    assert!(is_leap(2000));
    assert!(!is_leap(2021));
    assert_eq!(days_in_month(2020, 2), 29);
    assert_eq!(days_in_month(1900, 2), 28);
    assert_eq!(days_in_month(2000, 2), 29);
    assert_eq!(days_in_month(2021, 4), 30);
    assert_eq!(days_in_month(2021, 12), 31);
}

#[test]
fn day_stepping() {
    assert_eq!(prev_day(2021, 1, 1), (2020, 12, 31));
    assert_eq!(prev_day(2020, 3, 1), (2020, 2, 29));
    assert_eq!(prev_day(2021, 3, 1), (2021, 2, 28));
    assert_eq!(next_day(2020, 2, 28), (2020, 2, 29));
    assert_eq!(next_day(2020, 2, 29), (2020, 3, 1));
    assert_eq!(next_day(1999, 12, 31), (2000, 1, 1));
}
