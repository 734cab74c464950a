//! Calendar timestamps and the conversion to a continuous Julian-day count.
//!
//! A [`Timestamp`] holds proleptic-Gregorian calendar fields. The conversion
//! uses the standard astronomical polynomial
//! `JD = 367*Y - floor(7*(Y + floor((M+9)/12))/4) + floor(275*M/9) + D
//!  + 1721013.5 + time_of_day/24h`,
//! evaluated here in whole microseconds (`1` day = `86_400_000_000`), so the
//! conversion is exact integer arithmetic. The integer part of the polynomial
//! counts days; the civil-epoch offset 1721013.5 days becomes the constant
//! [`EPOCH_OFFSET_MICROS`]. The count is proved monotone in calendar order:
//! a clock that moves forward never moves the Julian day backward.

use crate::error::EphemerisError;
use crate::num::div_euclid_i64;
use vstd::arithmetic::div_mod::{
    lemma_div_is_ordered, lemma_fundamental_div_mod, lemma_fundamental_div_mod_converse,
    lemma_mod_mod,
};
use vstd::prelude::*;

verus! {

/// Microseconds in one day.
pub const MICROS_PER_DAY: i64 = 86_400_000_000;

/// Microseconds in one milliday (a thousandth of a day).
pub const MICROS_PER_MILLIDAY: i64 = 86_400_000;

/// The civil-calendar epoch offset of 1721013.5 days, in microseconds.
pub const EPOCH_OFFSET_MICROS: i64 = 148_695_566_400_000_000;

/// A proleptic-Gregorian calendar timestamp with millisecond resolution.
///
/// Validity (see [`Timestamp::valid`]): year in [1, 9999], month in [1, 12],
/// day valid for the month and year (leap years included), hour below 24,
/// minute and second below 60, millisecond below 1000.
#[derive(Clone, Copy, Debug, PartialEq, Eq, Structural)]
pub struct Timestamp {
    pub year: u16,
    pub month: u8,
    pub day: u8,
    pub hour: u8,
    pub minute: u8,
    pub second: u8,
    pub millisecond: u16,
}

/// Whether `y` is a leap year of the proleptic Gregorian calendar.
pub open spec fn spec_is_leap_year(y: int) -> bool {
    (y % 4 == 0 && y % 100 != 0) || y % 400 == 0
}

/// The number of days of month `m` of year `y`.
pub open spec fn spec_days_in_month(y: int, m: int) -> int {
    if m == 2 {
        if spec_is_leap_year(y) {
            29
        } else {
            28
        }
    } else if m == 4 || m == 6 || m == 9 || m == 11 {
        30
    } else {
        31
    }
}

/// Days of year `y` that precede the first day of month `m`.
pub open spec fn spec_days_before_month(y: int, m: int) -> int {
    let base: int = if m == 1 {
        0
    } else if m == 2 {
        31
    } else if m == 3 {
        59
    } else if m == 4 {
        90
    } else if m == 5 {
        120
    } else if m == 6 {
        151
    } else if m == 7 {
        181
    } else if m == 8 {
        212
    } else if m == 9 {
        243
    } else if m == 10 {
        273
    } else if m == 11 {
        304
    } else {
        334
    };
    if m >= 3 && spec_is_leap_year(y) {
        base + 1
    } else {
        base
    }
}

/// The day-counting polynomial: whole days from the civil epoch to the
/// calendar date `(y, m, d)`.
pub open spec fn spec_day_number(y: int, m: int, d: int) -> int {
    367 * y - (7 * (y + (m + 9) / 12)) / 4 + (275 * m) / 9 + d
}

/// The time of day of `ts`, in microseconds past midnight.
pub open spec fn spec_time_of_day_micros(ts: Timestamp) -> int {
    ts.hour * 3_600_000_000 + ts.minute * 60_000_000 + ts.second * 1_000_000
        + ts.millisecond * 1000
}

/// The Julian day of `ts`, in microseconds.
pub open spec fn spec_julian_day_micros(ts: Timestamp) -> int {
    spec_day_number(ts.year as int, ts.month as int, ts.day as int) * MICROS_PER_DAY
        + EPOCH_OFFSET_MICROS + spec_time_of_day_micros(ts)
}

/// The 1-based ordinal of the day of `ts` within its year.
pub open spec fn spec_day_of_year(ts: Timestamp) -> int {
    spec_days_before_month(ts.year as int, ts.month as int) + ts.day
}

/// Whether calendar date `(y1, m1, d1)` is strictly before `(y2, m2, d2)`.
pub open spec fn spec_date_lt(y1: int, m1: int, d1: int, y2: int, m2: int, d2: int) -> bool {
    y1 < y2 || (y1 == y2 && (m1 < m2 || (m1 == m2 && d1 < d2)))
}

impl Timestamp {
    /// Whether every calendar field is in range.
    pub open spec fn valid(self) -> bool {
        1 <= self.year <= 9999 && 1 <= self.month <= 12 && 1 <= self.day
            && self.day <= spec_days_in_month(self.year as int, self.month as int)
            && self.hour < 24 && self.minute < 60 && self.second < 60 && self.millisecond < 1000
    }

    /// Whether `self` is at or before `other`: its date is earlier, or the
    /// dates are equal and its time of day is no later.
    pub open spec fn spec_le(self, other: Timestamp) -> bool {
        spec_date_lt(
            self.year as int,
            self.month as int,
            self.day as int,
            other.year as int,
            other.month as int,
            other.day as int,
        ) || (self.year == other.year && self.month == other.month && self.day == other.day
            && spec_time_of_day_micros(self) <= spec_time_of_day_micros(other))
    }

    /// Builds a timestamp, rejecting any field that is out of range.
    pub fn new(
        year: u16,
        month: u8,
        day: u8,
        hour: u8,
        minute: u8,
        second: u8,
        millisecond: u16,
    ) -> (r: Result<Timestamp, EphemerisError>)
        ensures
            ({
                let ts = Timestamp { year, month, day, hour, minute, second, millisecond };
                if ts.valid() {
                    r == Ok::<Timestamp, EphemerisError>(ts)
                } else {
                    r == Err::<Timestamp, EphemerisError>(EphemerisError::InvalidTimestamp)
                }
            }),
    {
        if year < 1 || year > 9999 || month < 1 || month > 12 {
            return Err(EphemerisError::InvalidTimestamp);
        }
        let dim: u8 = days_in_month(year, month);
        if day < 1 || day > dim || hour >= 24 || minute >= 60 || second >= 60 || millisecond
            >= 1000 {
            return Err(EphemerisError::InvalidTimestamp);
        }
        Ok(Timestamp { year, month, day, hour, minute, second, millisecond })
    }

    /// The time of day in microseconds past midnight.
    pub fn time_of_day_micros(&self) -> (r: i64)
        requires
            self.valid(),
        ensures
            r == spec_time_of_day_micros(*self),
            0 <= r < MICROS_PER_DAY,
    {
        (self.hour as i64) * 3_600_000_000 + (self.minute as i64) * 60_000_000
            + (self.second as i64) * 1_000_000 + (self.millisecond as i64) * 1000
    }

    /// The 1-based day-of-year ordinal, 1 through 365 or 366.
    pub fn day_of_year(&self) -> (r: u16)
        requires
            self.valid(),
        ensures
            r == spec_day_of_year(*self),
            1 <= r <= 366,
    {
        let base: u16 = match self.month {
            1 => 0,
            2 => 31,
            3 => 59,
            4 => 90,
            5 => 120,
            6 => 151,
            7 => 181,
            8 => 212,
            9 => 243,
            10 => 273,
            11 => 304,
            _ => 334,
        };
        if self.month >= 3 && is_leap_year(self.year) {
            base + 1 + self.day as u16
        } else {
            base + self.day as u16
        }
    }
}

/// Whether `y` is a leap year.
pub fn is_leap_year(y: u16) -> (r: bool)
    ensures
        r == spec_is_leap_year(y as int),
{
    (y % 4 == 0 && y % 100 != 0) || y % 400 == 0
}

/// The number of days of month `m` of year `y`.
pub fn days_in_month(y: u16, m: u8) -> (r: u8)
    requires
        1 <= m <= 12,
    ensures
        r == spec_days_in_month(y as int, m as int),
{
    if m == 2 {
        if is_leap_year(y) {
            29
        } else {
            28
        }
    } else if m == 4 || m == 6 || m == 9 || m == 11 {
        30
    } else {
        31
    }
}

/// The Julian day of `ts` in microseconds: the day-counting polynomial plus
/// the civil-epoch offset of 1721013.5 days plus the time of day.
pub fn calculate_julian_day(ts: &Timestamp) -> (jd: i64)
    requires
        ts.valid(),
    ensures
        jd == spec_julian_day_micros(*ts),
        0 < jd < 500_000_000_000_000_000,
{
    let y: u64 = ts.year as u64;
    let m: u64 = ts.month as u64;
    let d: u64 = ts.day as u64;
    let e: u64 = (m + 9) / 12;
    let t2: u64 = (7 * (y + e)) / 4;
    let t3: u64 = (275 * m) / 9;
    proof {
        let yi = y as int;
        let ei = e as int;
        // e <= 1 since m + 9 <= 21.
        assert(ei <= 1) by {
            lemma_div_is_ordered((m + 9) as int, 21, 12);
            lemma_fundamental_div_mod_converse(21, 12, 1, 9);
        };
        // t2 <= 2y + 2, so the subtraction below cannot underflow.
        assert(t2 <= 2 * yi + 2) by {
            lemma_div_is_ordered(7 * (yi + ei), 8 * yi + 8, 4);
            lemma_fundamental_div_mod_converse(8 * yi + 8, 4, 2 * yi + 2, 0);
        };
        // t3 <= 366.
        assert(t3 <= 366) by {
            lemma_div_is_ordered((275 * m) as int, 3300, 9);
            lemma_fundamental_div_mod_converse(3300, 9, 366, 6);
        };
    }
    let day_number: u64 = 367 * y + t3 + d - t2;
    let jd: i64 = (day_number as i64) * MICROS_PER_DAY + EPOCH_OFFSET_MICROS
        + ts.time_of_day_micros();
    jd
}

/// Whole millidays from the civil epoch to the Julian-day instant `jd_micros`,
/// rounded toward negative infinity.
pub open spec fn spec_days_since_epoch_millis(jd_micros: int) -> int {
    (jd_micros - EPOCH_OFFSET_MICROS) / (MICROS_PER_MILLIDAY as int)
}

/// Converts a Julian day in microseconds to millidays since the civil epoch,
/// the day count that the solar and lunar position formulas consume.
pub fn days_since_epoch_millis(jd_micros: i64) -> (n: i64)
    requires
        -4_000_000_000_000_000_000 <= jd_micros <= 4_000_000_000_000_000_000,
    ensures
        n == spec_days_since_epoch_millis(jd_micros as int),
{
    div_euclid_i64(jd_micros - EPOCH_OFFSET_MICROS, MICROS_PER_MILLIDAY)
}

// ---------------------------------------------------------------------------
// Monotonicity of the day-counting polynomial in calendar order.
// ---------------------------------------------------------------------------

/// The quotient `7*(y+1)/4` exceeds `7*y/4` by at most 2, and by exactly 1
/// when `y` is divisible by 4 (in particular in every leap year, when
/// February has its 29th day to absorb the larger step).
proof fn lemma_quarter_step(y: int)
    requires
        y >= 1,
    ensures
        (7 * (y + 1)) / 4 <= (7 * y) / 4 + 2,
        (7 * y) / 4 + 1 <= (7 * (y + 1)) / 4,
        y % 4 == 0 ==> (7 * (y + 1)) / 4 == (7 * y) / 4 + 1,
{
    lemma_fundamental_div_mod(7 * y, 4);
    let q: int = (7 * y) / 4;
    let r: int = (7 * y) % 4;
    assert(7 * (y + 1) == 7 * y + 7);
    if r <= 0 {
        lemma_fundamental_div_mod_converse(7 * y + 7, 4, q + 1, r + 3);
    } else {
        lemma_fundamental_div_mod_converse(7 * y + 7, 4, q + 2, r - 1);
    }
    if y % 4 == 0 {
        lemma_fundamental_div_mod(y, 4);
        assert(7 * y == (7 * (y / 4)) * 4 + 0) by (nonlinear_arith)
            requires
                y == 4 * (y / 4),
        ;
        lemma_fundamental_div_mod_converse(7 * y, 4, 7 * (y / 4), 0);
    }
}

/// A leap year is divisible by 4.
proof fn lemma_leap_div4(y: int)
    requires
        spec_is_leap_year(y),
    ensures
        y % 4 == 0,
{
    if y % 400 == 0 {
        lemma_mod_mod(y, 4, 100);
        assert(y % (4int * 100int) == y % 400);
    }
}

/// Advancing from the last day of a month to the first day of the next month
/// advances the day count by at least one.
proof fn lemma_month_step(y: int, m: int)
    requires
        1 <= y <= 9999,
        1 <= m <= 11,
    ensures
        spec_day_number(y, m, spec_days_in_month(y, m)) + 1 <= spec_day_number(y, m + 1, 1),
{
    assert((1 + 9) / 12 == 0);
    assert((2 + 9) / 12 == 0);
    assert((3 + 9) / 12 == 1);
    assert((12 + 9) / 12 == 1);
    assert((275 * 1) / 9 == 30);
    assert((275 * 2) / 9 == 61);
    assert((275 * 3) / 9 == 91);
    assert((275 * 4) / 9 == 122);
    assert((275 * 5) / 9 == 152);
    assert((275 * 6) / 9 == 183);
    assert((275 * 7) / 9 == 213);
    assert((275 * 8) / 9 == 244);
    assert((275 * 9) / 9 == 275);
    assert((275 * 10) / 9 == 305);
    assert((275 * 11) / 9 == 336);
    assert((275 * 12) / 9 == 366);
    if m == 2 {
        lemma_quarter_step(y);
        if spec_is_leap_year(y) {
            lemma_leap_div4(y);
        }
    }
}

/// Within one year, an earlier valid date has a strictly smaller day count.
proof fn lemma_month_chain(y: int, m1: int, m2: int)
    requires
        1 <= y <= 9999,
        1 <= m1 < m2 <= 12,
    ensures
        spec_day_number(y, m1, spec_days_in_month(y, m1)) + 1 <= spec_day_number(y, m2, 1),
    decreases m2 - m1,
{
    if m2 == m1 + 1 {
        lemma_month_step(y, m1);
    } else {
        lemma_month_chain(y, m1, m2 - 1);
        lemma_month_step(y, m2 - 1);
        assert(spec_day_number(y, m2 - 1, 1) <= spec_day_number(
            y,
            m2 - 1,
            spec_days_in_month(y, m2 - 1),
        ));
    }
}

/// Every valid date of year `y` has a day count at most that of December 31.
proof fn lemma_date_le_year_end(y: int, m: int, d: int)
    requires
        1 <= y <= 9999,
        1 <= m <= 12,
        1 <= d <= spec_days_in_month(y, m),
    ensures
        spec_day_number(y, m, d) <= spec_day_number(y, 12, 31),
{
    if m < 12 {
        lemma_month_chain(y, m, 12);
    }
}

/// Every valid date of year `y` has a day count at least that of January 1.
proof fn lemma_year_start_le_date(y: int, m: int, d: int)
    requires
        1 <= y <= 9999,
        1 <= m <= 12,
        1 <= d <= spec_days_in_month(y, m),
    ensures
        spec_day_number(y, 1, 1) <= spec_day_number(y, m, d),
{
    if m > 1 {
        lemma_month_chain(y, 1, m);
    }
}

/// December 31 is exactly one day before January 1 of the next year.
proof fn lemma_year_step(y: int)
    requires
        1 <= y <= 9998,
    ensures
        spec_day_number(y, 12, 31) + 1 == spec_day_number(y + 1, 1, 1),
{
    assert((12 + 9) / 12 == 1);
    assert((1 + 9) / 12 == 0);
    assert((275 * 12) / 9 == 366);
    assert((275 * 1) / 9 == 30);
}

/// The last day of an earlier year has a strictly smaller day count than the
/// first day of a later year.
proof fn lemma_year_chain(y1: int, y2: int)
    requires
        1 <= y1 < y2 <= 9999,
    ensures
        spec_day_number(y1, 12, 31) + 1 <= spec_day_number(y2, 1, 1),
    decreases y2 - y1,
{
    if y2 == y1 + 1 {
        lemma_year_step(y1);
    } else {
        lemma_year_chain(y1, y2 - 1);
        lemma_year_start_le_date(y2 - 1, 12, 31);
        lemma_year_step(y2 - 1);
    }
}

/// An earlier valid calendar date always has a strictly smaller day count.
proof fn lemma_date_mono(y1: int, m1: int, d1: int, y2: int, m2: int, d2: int)
    requires
        1 <= y1 <= 9999,
        1 <= m1 <= 12,
        1 <= d1 <= spec_days_in_month(y1, m1),
        1 <= y2 <= 9999,
        1 <= m2 <= 12,
        1 <= d2 <= spec_days_in_month(y2, m2),
        spec_date_lt(y1, m1, d1, y2, m2, d2),
    ensures
        spec_day_number(y1, m1, d1) + 1 <= spec_day_number(y2, m2, d2),
{
    if y1 == y2 {
        if m1 == m2 {
        } else {
            lemma_month_chain(y1, m1, m2);
        }
    } else {
        lemma_date_le_year_end(y1, m1, d1);
        lemma_year_chain(y1, y2);
        lemma_year_start_le_date(y2, m2, d2);
    }
}

/// The Julian day never decreases as a valid timestamp advances: for
/// timestamps `a` at or before `b`, the Julian-day count of `a` is at most
/// that of `b`.
pub proof fn lemma_julian_day_monotonic(a: Timestamp, b: Timestamp)
    requires
        a.valid(),
        b.valid(),
        a.spec_le(b),
    ensures
        spec_julian_day_micros(a) <= spec_julian_day_micros(b),
{
    if a.year == b.year && a.month == b.month && a.day == b.day {
    } else {
        lemma_date_mono(
            a.year as int,
            a.month as int,
            a.day as int,
            b.year as int,
            b.month as int,
            b.day as int,
        );
    }
}

} // verus!
