//! Input errors of the ephemeris engine.
//!
//! The engine is pure integer arithmetic, so the only failure modes are
//! rejected inputs: a calendar timestamp with a field out of range, or a
//! geographic coordinate that is out of range or unparseable. Every result
//! is produced by bounded integer operations, so a non-finite value cannot
//! arise and no defensive check for one is needed.

use vstd::prelude::*;

verus! {

/// An input rejected at the engine boundary.
#[derive(Clone, Copy, Debug, PartialEq, Eq, Structural)]
pub enum EphemerisError {
    /// A calendar field is out of its valid range (bad month, day not valid
    /// for the month and year, hour, minute, second or millisecond too large,
    /// or a year outside the supported span).
    InvalidTimestamp,
    /// A latitude outside [-90, 90] degrees, a longitude outside
    /// [-180, 180] degrees, or a coordinate string that is not a plain
    /// decimal number.
    InvalidCoordinate,
}

impl EphemerisError {
    /// A short human-readable name for the error.
    pub fn as_str(&self) -> (s: &'static str)
        ensures
            *self is InvalidTimestamp ==> s@ == "invalid timestamp"@,
            *self is InvalidCoordinate ==> s@ == "invalid coordinate"@,
    {
        match self {
            EphemerisError::InvalidTimestamp => "invalid timestamp",
            EphemerisError::InvalidCoordinate => "invalid coordinate",
        }
    }
}

} // verus!
