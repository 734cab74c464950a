//! Geographic coordinates and the parsing of decimal-degree strings.
//!
//! A coordinate arrives from the surrounding application as a decimal string
//! (for example `"52.2297"` or `"-21.01"`). [`parse_decimal_micro`] turns
//! such a string into microdegrees; the accepted grammar is an optional sign,
//! one to nine integer digits, and optionally a point followed by at least
//! one digit. Fraction digits beyond the sixth are read but do not change
//! the value. Anything else, and any latitude outside `[-90, 90]` or
//! longitude outside `[-180, 180]` degrees, is a hard
//! [`EphemerisError::InvalidCoordinate`], never a silent clamp.

use crate::error::EphemerisError;
use vstd::prelude::*;
use vstd::string::StringSliceAdditionalSpecFns;

verus! {

/// Whether `b` is an ASCII decimal digit.
pub open spec fn spec_is_digit(b: u8) -> bool {
    48 <= b <= 57
}

/// Whether every byte of `s` is an ASCII decimal digit.
pub open spec fn spec_all_digits(s: Seq<u8>) -> bool {
    forall|i: int| 0 <= i < s.len() ==> spec_is_digit(#[trigger] s[i])
}

/// The value of a run of decimal digits, most significant first.
pub open spec fn spec_digits_value(s: Seq<u8>) -> int
    decreases s.len(),
{
    if s.len() == 0 {
        0
    } else {
        spec_digits_value(s.drop_last()) * 10 + (s.last() - 48)
    }
}

/// Ten to the power `e`, for the small exponents the grammar admits.
pub open spec fn spec_pow10(e: int) -> int {
    if e <= 0 {
        1
    } else if e == 1 {
        10
    } else if e == 2 {
        100
    } else if e == 3 {
        1000
    } else if e == 4 {
        10_000
    } else if e == 5 {
        100_000
    } else if e == 6 {
        1_000_000
    } else if e == 7 {
        10_000_000
    } else if e == 8 {
        100_000_000
    } else {
        1_000_000_000
    }
}

/// The index of the first decimal point of `s` at or after `i`, or the
/// length of `s` if there is none.
pub open spec fn spec_find_dot(s: Seq<u8>, i: int) -> int
    decreases s.len() - i,
{
    if i < 0 || i >= s.len() {
        s.len() as int
    } else if s[i] == 46 {
        i
    } else {
        spec_find_dot(s, i + 1)
    }
}

/// Whether the leading byte of `s` is a sign.
pub open spec fn spec_has_sign(s: Seq<u8>) -> bool {
    s.len() > 0 && (s[0] == 43 || s[0] == 45)
}

/// The digits of `s` with any leading sign removed.
pub open spec fn spec_body(s: Seq<u8>) -> Seq<u8> {
    if spec_has_sign(s) {
        s.subrange(1, s.len() as int)
    } else {
        s
    }
}

/// `-1` for a leading minus sign, else `1`.
pub open spec fn spec_sign(s: Seq<u8>) -> int {
    if s.len() > 0 && s[0] == 45 {
        -1
    } else {
        1
    }
}

/// Whether `s` is a decimal-degree string: an optional sign, one to nine
/// integer digits, and optionally a point followed by at least one digit.
pub open spec fn spec_valid_decimal(s: Seq<u8>) -> bool {
    let b = spec_body(s);
    let dot: int = spec_find_dot(b, 0);
    1 <= dot <= 9 && spec_all_digits(b.subrange(0, dot)) && (dot == b.len() || (dot + 1 < b.len()
        && spec_all_digits(b.subrange(dot + 1, b.len() as int))))
}

/// The value of a valid decimal-degree string, in microdegrees: the integer
/// part scaled by a million plus the first six fraction digits, with the
/// sign applied.
pub open spec fn spec_decimal_micro(s: Seq<u8>) -> int {
    let b = spec_body(s);
    let dot: int = spec_find_dot(b, 0);
    let frac: Seq<u8> = if dot < b.len() {
        b.subrange(dot + 1, b.len() as int)
    } else {
        Seq::empty()
    };
    let k: int = if frac.len() > 6 {
        6
    } else {
        frac.len() as int
    };
    spec_sign(s) * (spec_digits_value(b.subrange(0, dot)) * 1_000_000 + spec_digits_value(
        frac.subrange(0, k),
    ) * spec_pow10(6 - k))
}

/// `spec_find_dot` lands on `k` when no byte of `[i, k)` is a point and `k`
/// is the end or a point.
proof fn lemma_find_dot_at(s: Seq<u8>, i: int, k: int)
    requires
        0 <= i <= k <= s.len(),
        forall|j: int| i <= j < k ==> s[j] != 46,
        k == s.len() || s[k] == 46,
    ensures
        spec_find_dot(s, i) == k,
    decreases k - i,
{
    if i < k {
        lemma_find_dot_at(s, i + 1, k);
    }
}

/// `spec_find_dot` passes `p` when no byte of `[i, p]` is a point.
proof fn lemma_find_dot_past(s: Seq<u8>, i: int, p: int)
    requires
        0 <= i <= p < s.len(),
        forall|j: int| i <= j <= p ==> s[j] != 46,
    ensures
        spec_find_dot(s, i) > p,
        spec_find_dot(s, i) <= s.len(),
    decreases p - i,
{
    if i < p {
        lemma_find_dot_past(s, i + 1, p);
    } else {
        lemma_find_dot_le(s, i + 1);
    }
}

/// `spec_find_dot` never passes the end of the sequence.
proof fn lemma_find_dot_le(s: Seq<u8>, i: int)
    requires
        0 <= i <= s.len(),
    ensures
        i <= spec_find_dot(s, i) <= s.len(),
    decreases s.len() - i,
{
    if i < s.len() && s[i] != 46 {
        lemma_find_dot_le(s, i + 1);
    }
}

/// Parses a decimal-degree string into microdegrees, rejecting anything
/// outside the grammar.
#[verifier::rlimit(100)]
pub fn parse_decimal_micro(bytes: &[u8]) -> (r: Result<i64, EphemerisError>)
    ensures
        spec_valid_decimal(bytes@) ==> r == Ok::<i64, EphemerisError>(
            spec_decimal_micro(bytes@) as i64,
        ),
        !spec_valid_decimal(bytes@) ==> r == Err::<i64, EphemerisError>(
            EphemerisError::InvalidCoordinate,
        ),
        spec_valid_decimal(bytes@) ==> -1_000_000_000_000_000 < spec_decimal_micro(bytes@)
            < 1_000_000_000_000_000,
        r is Ok ==> -1_000_000_000_000_000 < r.unwrap() < 1_000_000_000_000_000,
{
    let ghost s: Seq<u8> = bytes@;
    let n: usize = bytes.len();
    let mut i: usize = 0;
    let mut negative: bool = false;
    if n > 0 && (bytes[0] == 43 || bytes[0] == 45) {
        negative = bytes[0] == 45;
        i = 1;
    }
    let start: usize = i;
    let ghost body: Seq<u8> = spec_body(s);
    proof {
        assert(body =~= s.subrange(start as int, n as int));
    }
    // Integer part: one to nine digits.
    let mut int_value: i64 = 0;
    while i < n && bytes[i] >= 48 && bytes[i] <= 57
        invariant
            start <= i <= n,
            n == s.len(),
            s == bytes@,
            body == s.subrange(start as int, n as int),
            body == spec_body(s),
            negative == (s.len() > 0 && s[0] == 45),
            start <= 1,
            i - start <= 9,
            forall|j: int| start <= j < i ==> spec_is_digit(#[trigger] s[j]),
            0 <= int_value < spec_pow10(i - start),
            int_value == spec_digits_value(s.subrange(start as int, i as int)),
        decreases n - i,
    {
        if i - start == 9 {
            // A tenth integer digit: the first point, if any, is past index
            // nine of the body, so the grammar is broken.
            proof {
                assert(forall|j: int| 0 <= j <= 9 ==> body[j] == s[start + j]);
                lemma_find_dot_past(body, 0, 9);
            }
            return Err(EphemerisError::InvalidCoordinate);
        }
        let d: u8 = bytes[i] - 48;
        proof {
            assert(s.subrange(start as int, i + 1).drop_last() =~= s.subrange(
                start as int,
                i as int,
            ));
        }
        int_value = int_value * 10 + (d as i64);
        i = i + 1;
    }
    let digits: usize = i - start;
    if digits == 0 {
        // Empty integer part: the body is empty, starts with a point, or
        // starts with a byte outside the grammar.
        proof {
            if body.len() > 0 && body[0] != 46 {
                lemma_find_dot_past(body, 0, 0);
                assert(!spec_is_digit(body.subrange(0, spec_find_dot(body, 0))[0]));
            }
        }
        return Err(EphemerisError::InvalidCoordinate);
    }
    let ghost dot: int = spec_find_dot(body, 0);
    if i == n {
        // No fraction: the whole body is the integer part.
        proof {
            assert(forall|j: int| 0 <= j < i - start ==> body[j] == s[start + j]);
            lemma_find_dot_at(body, 0, i - start);
            assert(body.subrange(0, i - start) =~= s.subrange(start as int, i as int));
        }
        let magnitude: i64 = int_value * 1_000_000;
        return Ok(if negative { -magnitude } else { magnitude });
    }
    if bytes[i] != 46 {
        // A byte that is neither digit nor point inside the integer part.
        proof {
            assert(forall|j: int| 0 <= j <= i - start ==> body[j] == s[start + j]);
            lemma_find_dot_past(body, 0, i - start);
            assert(!spec_is_digit(body.subrange(0, dot)[i - start]));
        }
        return Err(EphemerisError::InvalidCoordinate);
    }
    proof {
        assert(forall|j: int| 0 <= j < i - start ==> body[j] == s[start + j]);
        assert(body[i - start] == 46);
        lemma_find_dot_at(body, 0, i - start);
        assert(body.subrange(0, i - start) =~= s.subrange(start as int, i as int));
    }
    // Fraction part: at least one digit; only the first six carry value.
    i = i + 1;
    let frac_start: usize = i;
    let ghost frac: Seq<u8> = body.subrange(dot + 1, body.len() as int);
    proof {
        assert(frac =~= s.subrange(frac_start as int, n as int));
    }
    let mut frac_value: i64 = 0;
    let mut frac_kept: usize = 0;
    while i < n && bytes[i] >= 48 && bytes[i] <= 57
        invariant
            frac_start <= i <= n,
            n == s.len(),
            s == bytes@,
            frac == s.subrange(frac_start as int, n as int),
            frac_start <= n,
            forall|j: int| frac_start <= j < i ==> spec_is_digit(#[trigger] s[j]),
            frac_kept <= 6,
            frac_kept <= i - frac_start,
            i - frac_start > 6 ==> frac_kept == 6,
            i - frac_start <= 6 ==> frac_kept == i - frac_start,
            0 <= frac_value < spec_pow10(frac_kept as int),
            frac_value == spec_digits_value(
                s.subrange(frac_start as int, (frac_start + frac_kept) as int),
            ),
        decreases n - i,
    {
        if frac_kept < 6 {
            let d: u8 = bytes[i] - 48;
            proof {
                assert(s.subrange(frac_start as int, (frac_start + frac_kept + 1) as int)
                    .drop_last() =~= s.subrange(
                    frac_start as int,
                    (frac_start + frac_kept) as int,
                ));
            }
            frac_value = frac_value * 10 + (d as i64);
            frac_kept = frac_kept + 1;
        }
        i = i + 1;
    }
    if i < n {
        // A byte that is not a digit inside the fraction part.
        proof {
            assert(!spec_is_digit(frac[i - frac_start]));
        }
        return Err(EphemerisError::InvalidCoordinate);
    }
    if i == frac_start {
        // A point with nothing after it.
        return Err(EphemerisError::InvalidCoordinate);
    }
    let scale: i64 = if frac_kept == 0 {
        1_000_000
    } else if frac_kept == 1 {
        100_000
    } else if frac_kept == 2 {
        10_000
    } else if frac_kept == 3 {
        1000
    } else if frac_kept == 4 {
        100
    } else if frac_kept == 5 {
        10
    } else {
        1
    };
    proof {
        let k: int = if frac.len() > 6 {
            6int
        } else {
            frac.len() as int
        };
        assert(k == frac_kept as int);
        assert(frac.subrange(0, k) =~= s.subrange(
            frac_start as int,
            (frac_start + frac_kept) as int,
        ));
        assert(scale == spec_pow10(6 - k));
    }
    let magnitude: i64 = int_value * 1_000_000 + frac_value * scale;
    Ok(if negative { -magnitude } else { magnitude })
}

/// A geographic position in microdegrees.
///
/// Valid when the latitude is within `[-90, 90]` degrees and the longitude
/// within `[-180, 180]` degrees.
#[derive(Clone, Copy, Debug, PartialEq, Eq, Structural)]
pub struct GeoCoordinate {
    pub latitude_microdeg: i64,
    pub longitude_microdeg: i64,
}

impl GeoCoordinate {
    /// Whether both components are in range.
    pub open spec fn valid(self) -> bool {
        -90_000_000 <= self.latitude_microdeg <= 90_000_000 && -180_000_000
            <= self.longitude_microdeg <= 180_000_000
    }

    /// Builds a coordinate, rejecting out-of-range components.
    pub fn new(latitude_microdeg: i64, longitude_microdeg: i64) -> (r: Result<
        GeoCoordinate,
        EphemerisError,
    >)
        ensures
            ({
                let c = GeoCoordinate { latitude_microdeg, longitude_microdeg };
                if c.valid() {
                    r == Ok::<GeoCoordinate, EphemerisError>(c)
                } else {
                    r == Err::<GeoCoordinate, EphemerisError>(EphemerisError::InvalidCoordinate)
                }
            }),
    {
        if latitude_microdeg < -90_000_000 || latitude_microdeg > 90_000_000
            || longitude_microdeg < -180_000_000 || longitude_microdeg > 180_000_000 {
            Err(EphemerisError::InvalidCoordinate)
        } else {
            Ok(GeoCoordinate { latitude_microdeg, longitude_microdeg })
        }
    }

    /// Parses a latitude and a longitude from decimal-degree strings,
    /// rejecting unparseable or out-of-range values.
    pub fn from_strings(latitude: &str, longitude: &str) -> (r: Result<
        GeoCoordinate,
        EphemerisError,
    >)
        ensures
            ({
                let lat_ok = spec_valid_decimal(latitude.spec_bytes());
                let lon_ok = spec_valid_decimal(longitude.spec_bytes());
                let lat = spec_decimal_micro(latitude.spec_bytes());
                let lon = spec_decimal_micro(longitude.spec_bytes());
                if lat_ok && lon_ok && -90_000_000 <= lat <= 90_000_000 && -180_000_000 <= lon
                    <= 180_000_000 {
                    r == Ok::<GeoCoordinate, EphemerisError>(
                        GeoCoordinate {
                            latitude_microdeg: lat as i64,
                            longitude_microdeg: lon as i64,
                        },
                    )
                } else {
                    r == Err::<GeoCoordinate, EphemerisError>(EphemerisError::InvalidCoordinate)
                }
            }),
    {
        let lat = match parse_decimal_micro(latitude.as_bytes()) {
            Ok(v) => v,
            Err(e) => {
                return Err(e);
            },
        };
        let lon = match parse_decimal_micro(longitude.as_bytes()) {
            Ok(v) => v,
            Err(e) => {
                return Err(e);
            },
        };
        GeoCoordinate::new(lat, lon)
    }
}

} // verus!
