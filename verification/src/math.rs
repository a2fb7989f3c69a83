//! Integer helpers used by the block partitioning computations.

use vstd::arithmetic::div_mod::lemma_fundamental_div_mod;
use vstd::arithmetic::div_mod::lemma_mod_bound;
use vstd::arithmetic::div_mod::lemma_fundamental_div_mod_converse;
use vstd::prelude::*;

verus! {

/// `ceil(dividend / divisor)` on mathematical integers.
pub open spec fn spec_div_ceil(dividend: int, divisor: int) -> int {
    if dividend % divisor == 0 {
        dividend / divisor
    } else {
        dividend / divisor + 1
    }
}

/// Ceiling division: the smallest quotient `q` with `q * divisor >= dividend`.
pub fn div_ceil(dividend: u64, divisor: u64) -> (r: u64)
    requires
        divisor > 0,
    ensures
        r == spec_div_ceil(dividend as int, divisor as int),
{
    if dividend == 0 {
        0
    } else {
        proof {
            let d = dividend as int;
            let q = divisor as int;
            let a = (d - 1) / q;
            let r = (d - 1) % q;
            lemma_fundamental_div_mod(d - 1, q);
            lemma_mod_bound(d - 1, q);
            if r + 1 == q {
                assert((a + 1) * q == q * a + q) by (nonlinear_arith);
                lemma_fundamental_div_mod_converse(d, q, a + 1, 0);
            } else {
                assert(a * q == q * a) by (nonlinear_arith);
                lemma_fundamental_div_mod_converse(d, q, a, r + 1);
            }
        }
        (dividend - 1) / divisor + 1
    }
}

/// Floor division: `dividend / divisor` rounded towards zero.
pub fn div_floor(dividend: u64, divisor: u64) -> (r: u64)
    requires
        divisor > 0,
    ensures
        r == dividend as int / divisor as int,
{
    dividend / divisor
}

} // verus!
