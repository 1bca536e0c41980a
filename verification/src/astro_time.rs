//! Civil date and time to astronomical time.
//!
//! A time value is the Julian Day scaled to whole milliseconds (one day is
//! 86 400 000), so a civil timestamp quantized to minutes is represented
//! exactly.  The calendar is the proleptic Gregorian one.

use vstd::prelude::*;
use vstd::arithmetic::div_mod::{
    lemma_fundamental_div_mod, lemma_fundamental_div_mod_converse_div, lemma_mod_mod,
};

verus! {

/// Milliseconds in a day.
pub const MS_PER_DAY: i64 = 86_400_000;

/// Milliseconds in a minute.
pub const MS_PER_MINUTE: i64 = 60_000;

/// Milliseconds in half a day: the offset of midnight from the Julian Day's
/// noon epoch.
pub const MS_PER_HALF_DAY: i64 = 43_200_000;

/// The Gregorian leap-year rule: divisible by 4, except centuries not
/// divisible by 400.
pub open spec fn is_leap_year(y: int) -> bool {
    y % 4 == 0 && (y % 100 != 0 || y % 400 == 0)
}

/// Days in a month of a year; months outside 1 to 12 read as 30, mirroring
/// the table's defensive default.
pub open spec fn days_in_month_of(y: int, m: int) -> int {
    if m == 1 || m == 3 || m == 5 || m == 7 || m == 8 || m == 10 || m == 12 {
        31
    } else if m == 4 || m == 6 || m == 9 || m == 11 {
        30
    } else if m == 2 {
        if is_leap_year(y) {
            29
        } else {
            28
        }
    } else {
        30
    }
}

/// The Julian Day Number of a Gregorian date: the JD of that date's noon.
/// March counts as the year's first month so leap days fall at the shifted
/// year's very end.
pub open spec fn jdn(y: int, m: int, d: int) -> int {
    let yk = if m <= 2 {
        y - 1
    } else {
        y
    };
    let mk = if m <= 2 {
        m + 9
    } else {
        m - 3
    };
    yk * 365 + yk / 4 - yk / 100 + yk / 400 + (153 * mk + 2) / 5 + d - 1 + 1_721_120
}

/// The time value of a date with a minute of day: milliseconds of Julian Day.
/// Linear in the minute, whatever day rollovers the minute implies.
pub open spec fn time_value_of(y: int, m: int, d: int, minute_of_day: int) -> int {
    jdn(y, m, d) * (MS_PER_DAY as int) - MS_PER_HALF_DAY as int + minute_of_day * (
    MS_PER_MINUTE as int)
}

/// A date the calendar accepts.
pub open spec fn valid_date(y: int, m: int, d: int) -> bool {
    &&& 0 <= y <= 10_000
    &&& 1 <= m <= 12
    &&& 1 <= d <= days_in_month_of(y, m)
}

/// Whether a year is a leap year.
pub fn is_leap(year: i32) -> (r: bool)
    requires
        0 <= year,
    ensures
        r == is_leap_year(year as int),
{
    year % 4 == 0 && (year % 100 != 0 || year % 400 == 0)
}

/// Days in a month.
pub fn days_in_month(year: i32, month: u8) -> (r: u8)
    requires
        0 <= year,
    ensures
        r == days_in_month_of(year as int, month as int),
{
    match month {
        1 | 3 | 5 | 7 | 8 | 10 | 12 => 31,
        4 | 6 | 9 | 11 => 30,
        2 => {
            if is_leap(year) {
                29
            } else {
                28
            }
        },
        _ => 30,
    }
}

/// Stepping a division by one: the quotient grows exactly when the divisor
/// divides the new value.
proof fn lemma_div_step(y: int, k: int)
    requires
        1 <= y,
        0 < k,
    ensures
        y % k == 0 ==> y / k == (y - 1) / k + 1,
        y % k != 0 ==> y / k == (y - 1) / k,
{
    lemma_fundamental_div_mod(y, k);
    vstd::arithmetic::div_mod::lemma_mod_bound(y, k);
    let q = y / k;
    let r = y % k;
    if r == 0 {
        assert(y == k * q);
        assert(q >= 1) by (nonlinear_arith)
            requires
                y == k * q,
                y >= 1,
                k > 0,
        ;
        assert(y - 1 == (q - 1) * k + (k - 1)) by (nonlinear_arith)
            requires
                y == k * q,
        ;
        lemma_fundamental_div_mod_converse_div(y - 1, k, q - 1, k - 1);
    } else {
        assert(y - 1 == q * k + (r - 1)) by (nonlinear_arith)
            requires
                y == k * q + r,
        ;
        lemma_fundamental_div_mod_converse_div(y - 1, k, q, r - 1);
    }
}

/// A year divisible by 400 is divisible by 100, and one divisible by 100 by
/// 4.
proof fn lemma_divisibility_chain(y: int)
    requires
        0 <= y,
    ensures
        y % 400 == 0 ==> y % 100 == 0,
        y % 100 == 0 ==> y % 4 == 0,
{
    lemma_mod_mod(y, 100, 4);
    lemma_mod_mod(y, 4, 25);
    assert(100 * 4 == 400);
    assert(4 * 25 == 100);
    if y % 400 == 0 {
        assert((y % 400) % 100 == 0);
        lemma_mod_mod(y, 100, 4);
    }
    if y % 100 == 0 {
        assert((y % 100) % 4 == 0);
        lemma_mod_mod(y, 4, 25);
    }
}

/// Tomorrow's Julian Day Number is today's plus one.
pub proof fn lemma_jdn_next(y: int, m: int, d: int)
    requires
        valid_date(y, m, d),
    ensures
        d < days_in_month_of(y, m) ==> jdn(y, m, d + 1) == jdn(y, m, d) + 1,
        d == days_in_month_of(y, m) && m < 12 ==> jdn(y, m + 1, 1) == jdn(y, m, d) + 1,
        d == days_in_month_of(y, m) && m == 12 ==> jdn(y + 1, 1, 1) == jdn(y, m, d) + 1,
{
    if d == days_in_month_of(y, m) && m == 2 {
        // February to March: the shifted year steps, so the leap rule must
        // match the division increments exactly.
        if y >= 1 {
            lemma_div_step(y, 4);
            lemma_div_step(y, 100);
            lemma_div_step(y, 400);
            lemma_divisibility_chain(y);
        } else {
            assert((-1int) / 4 == -1);
            assert((-1int) / 100 == -1);
            assert((-1int) / 400 == -1);
        }
        assert((153 * 11 + 2) / 5 == 337);
        assert((153 * 0 + 2) / 5 == 0);
    }
}

/// Yesterday's Julian Day Number is today's minus one; stepping back from
/// the first of a month lands on the last day of the month before.
pub proof fn lemma_jdn_prev(y: int, m: int, d: int)
    requires
        valid_date(y, m, d),
        1 <= y,
    ensures
        d > 1 ==> jdn(y, m, d - 1) == jdn(y, m, d) - 1,
        d == 1 && m > 1 ==> jdn(y, m - 1, days_in_month_of(y, m - 1)) == jdn(y, m, d) - 1,
        d == 1 && m == 1 ==> jdn(y - 1, 12, 31) == jdn(y, m, d) - 1,
{
    if d > 1 {
        lemma_jdn_next(y, m, d - 1);
    } else if m > 1 {
        lemma_jdn_next(y, m - 1, days_in_month_of(y, m - 1));
    } else {
        lemma_jdn_next(y - 1, 12, 31);
    }
}

/// The day before a date, rolling over month and year boundaries.
pub fn prev_day(year: i32, month: u8, day: u8) -> (r: (i32, u8, u8))
    requires
        valid_date(year as int, month as int, day as int),
        1 <= year,
    ensures
        valid_date(r.0 as int, r.1 as int, r.2 as int),
        jdn(r.0 as int, r.1 as int, r.2 as int) == jdn(year as int, month as int, day as int) - 1,
{
    proof {
        lemma_jdn_prev(year as int, month as int, day as int);
    }
    if day > 1 {
        (year, month, day - 1)
    } else if month > 1 {
        let pm = month - 1;
        let days = days_in_month(year, pm);
        (year, pm, days)
    } else {
        (year - 1, 12, 31)
    }
}

/// The day after a date, rolling over month and year boundaries.
pub fn next_day(year: i32, month: u8, day: u8) -> (r: (i32, u8, u8))
    requires
        valid_date(year as int, month as int, day as int),
        year <= 9_999,
    ensures
        valid_date(r.0 as int, r.1 as int, r.2 as int),
        jdn(r.0 as int, r.1 as int, r.2 as int) == jdn(year as int, month as int, day as int) + 1,
{
    proof {
        lemma_jdn_next(year as int, month as int, day as int);
    }
    let max = days_in_month(year, month);
    if day < max {
        (year, month, day + 1)
    } else if month < 12 {
        (year, month + 1, 1)
    } else {
        (year + 1, 1, 1)
    }
}

/// The Julian Day Number of a date, as a number.
fn jdn_exec(year: i32, month: u8, day: u8) -> (r: i64)
    requires
        0 <= year <= 10_000,
        1 <= month <= 12,
        1 <= day <= 31,
        month <= 2 ==> year >= 1,
    ensures
        r == jdn(year as int, month as int, day as int),
{
    let y: i64 = year as i64;
    let m: i64 = month as i64;
    let d: i64 = day as i64;
    let (yk, mk): (i64, i64) = if m <= 2 {
        (y - 1, m + 9)
    } else {
        (y, m - 3)
    };
    yk * 365 + yk / 4 - yk / 100 + yk / 400 + (153 * mk + 2) / 5 + d - 1 + 1_721_120
}

/// Converts a civil date, a time of day and a UTC offset in whole minutes to
/// astronomical time.  Subtracting the offset may step the date across
/// midnight, a month end or a year end; the result is nonetheless exactly
/// linear in the total minute: the value of the date's midnight plus the
/// (possibly negative) UTC minute of day.
pub fn calc_julian_day(year: i32, month: u8, day: u8, hour: u8, min: u8, utc_offset_min: i32) -> (t:
    i64)
    requires
        1 <= year <= 9_999,
        1 <= month <= 12,
        1 <= day <= days_in_month_of(year as int, month as int),
        hour <= 23,
        min <= 59,
        -1440 <= utc_offset_min <= 1440,
    ensures
        t == time_value_of(
            year as int,
            month as int,
            day as int,
            hour as int * 60 + min as int - utc_offset_min as int,
        ),
{
    let tm: i32 = hour as i32 * 60 + min as i32 - utc_offset_min;
    let (ny, nm, nd, ntm): (i32, u8, u8, i32) = if tm < 0 {
        let (py, pm, pd) = prev_day(year, month, day);
        (py, pm, pd, tm + 1440)
    } else if tm >= 1440 {
        let (qy, qm, qd) = next_day(year, month, day);
        (qy, qm, qd, tm - 1440)
    } else {
        (year, month, day, tm)
    };
    let j = jdn_exec(ny, nm, nd);
    j * MS_PER_DAY - MS_PER_HALF_DAY + (ntm as i64) * MS_PER_MINUTE
}

} // verus!
