//! Integer helpers shared by the estimation code: clamping and division
//! rounded toward negative infinity.

use vstd::arithmetic::div_mod::lemma_fundamental_div_mod;
use vstd::arithmetic::div_mod::lemma_fundamental_div_mod_converse;
use vstd::prelude::*;

verus! {

/// `x` limited to the closed range `[lo, hi]`.
pub open spec fn clamp(x: int, lo: int, hi: int) -> int {
    if x > hi {
        hi
    } else if x < lo {
        lo
    } else {
        x
    }
}

/// Limits a wide value to `[lo, hi]`; the result always fits an `i64`.
pub fn clamp_wide(x: i128, lo: i64, hi: i64) -> (r: i64)
    requires
        lo <= hi,
    ensures
        r == clamp(x as int, lo as int, hi as int),
{
    if x > hi as i128 {
        hi
    } else if x < lo as i128 {
        lo
    } else {
        x as i64
    }
}

/// Quotient of `n` by a positive `d`, rounded toward negative infinity.
pub fn floor_div(n: i128, d: i128) -> (r: i128)
    requires
        d > 0,
    ensures
        r == n / d,
{
    if n >= 0 {
        n / d
    } else {
        let m: i128 = -(n + 1);
        let q: i128 = m / d;
        proof {
            lemma_fundamental_div_mod(m as int, d as int);
            let s: int = (m as int) % (d as int);
            assert((n as int) == (-(q as int) - 1) * (d as int) + ((d as int) - s - 1)) by (nonlinear_arith)
                requires
                    (m as int) == (d as int) * (q as int) + s,
                    (n as int) == -(m as int) - 1,
            ;
            lemma_fundamental_div_mod_converse(n as int, d as int, -(q as int) - 1, (d as int) - s - 1);
        }
        -q - 1
    }
}

} // verus!
