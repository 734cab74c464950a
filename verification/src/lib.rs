//! A fixed-point ephemeris engine: calendar-to-Julian-day conversion and
//! low-precision solar and lunar position formulas, stated and verified over
//! scaled integers.
//!
//! Conventions used throughout the crate:
//! - absolute time and time of day are counted in microseconds,
//!   with 86_400_000_000 microseconds to a day;
//! - day counts (day of year, days since the calendar epoch) are in
//!   millidays (one thousandth of a day);
//! - angles are in microdegrees (one millionth of a degree);
//! - trigonometric ratios are in parts per million;
//! - the lunar phase fraction is in millionths of a synodic cycle;
//! - illuminated fraction is in millionths of a percent;
//! - distances are in millionths of an astronomical unit.

pub mod angle;
pub mod coord;
pub mod error;
pub mod lunar;
pub mod num;
pub mod solar;
pub mod timestamp;
