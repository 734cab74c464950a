//! Euclidean division and remainder on `i64`, the arithmetic core that the
//! angle-normalization and phase formulas are built on.
//!
//! In specifications, `/` and `%` on `int` are Euclidean, so for a positive
//! divisor the quotient rounds toward negative infinity and the remainder is
//! always in `[0, d)`. Rust's `/` on signed integers truncates toward zero
//! instead; these helpers compute the Euclidean forms and prove them equal to
//! the specification operators.

use vstd::arithmetic::div_mod::{
    lemma_div_is_ordered, lemma_fundamental_div_mod, lemma_fundamental_div_mod_converse,
};
use vstd::prelude::*;

verus! {

/// Bounds on a Euclidean quotient from bounds on the dividend:
/// if `lo * d <= x < hi * d` then `lo <= x / d < hi`.
pub proof fn lemma_div_range(x: int, d: int, lo: int, hi: int)
    requires
        d > 0,
        lo * d <= x,
        x < hi * d,
    ensures
        lo <= x / d < hi,
{
    lemma_div_is_ordered(lo * d, x, d);
    lemma_fundamental_div_mod_converse(lo * d, d, lo, 0);
    lemma_div_is_ordered(x, hi * d - 1, d);
    assert(hi * d - 1 == (hi - 1) * d + (d - 1)) by (nonlinear_arith);
    lemma_fundamental_div_mod_converse(hi * d - 1, d, hi - 1, d - 1);
}

/// Euclidean quotient `a / d` (rounding toward negative infinity).
pub fn div_euclid_i64(a: i64, d: i64) -> (q: i64)
    requires
        d > 0,
        a > i64::MIN,
    ensures
        q == a as int / d as int,
{
    if a >= 0 {
        let qu: u64 = (a as u64) / (d as u64);
        qu as i64
    } else {
        // For a < 0, write a == -(n + 1) with n >= 0; then
        // floor(a / d) == -(n / d) - 1.
        let n: u64 = (-(a + 1)) as u64;
        let qu: u64 = n / (d as u64);
        let q: i64 = -(qu as i64) - 1;
        proof {
            let ai = a as int;
            let di = d as int;
            let ni = n as int;
            lemma_fundamental_div_mod(ni, di);
            let r: int = ni % di;
            assert(ai == (-(qu as int) - 1) * di + (di - 1 - r)) by (nonlinear_arith)
                requires
                    ai == -ni - 1,
                    ni == di * (qu as int) + r,
            ;
            lemma_fundamental_div_mod_converse(ai, di, -(qu as int) - 1, di - 1 - r);
        }
        q
    }
}

/// Euclidean remainder `a % d`, always in `[0, d)`.
pub fn rem_euclid_i64(a: i64, d: i64) -> (r: i64)
    requires
        d > 0,
        a > i64::MIN,
    ensures
        r == a as int % d as int,
        0 <= r < d,
{
    if a >= 0 {
        let ru: u64 = (a as u64) % (d as u64);
        ru as i64
    } else {
        let n: u64 = (-(a + 1)) as u64;
        let ru: u64 = n % (d as u64);
        let r: i64 = d - 1 - (ru as i64);
        proof {
            let ai = a as int;
            let di = d as int;
            let ni = n as int;
            lemma_fundamental_div_mod(ni, di);
            let q: int = ni / di;
            assert(ai == (-q - 1) * di + (di - 1 - (ni % di))) by (nonlinear_arith)
                requires
                    ai == -ni - 1,
                    ni == di * q + ni % di,
            ;
            lemma_fundamental_div_mod_converse(ai, di, -q - 1, di - 1 - (ni % di));
        }
        r
    }
}

} // verus!
