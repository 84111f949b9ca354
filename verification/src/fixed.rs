//! Fixed-point scalars: reals are carried as `i64` values scaled by `SCALE`,
//! so the raw value `v` stands for the real number `v / SCALE`.

use vstd::arithmetic::div_mod::{lemma_div_is_ordered, lemma_div_nonincreasing, lemma_div_pos_is_pos};
use vstd::prelude::*;

verus! {

/// Raw units per 1.0: fixed-point values carry 24 fractional bits.
pub const SCALE: i64 = 0x100_0000;

/// Truncating division of a raw value by a positive divisor, rounding
/// toward zero as hardware float-to-int narrowing and `i64` division do.
pub open spec fn spec_div_trunc(a: int, b: int) -> int {
    if a >= 0 {
        a / b
    } else {
        -((-a) / b)
    }
}

/// Truncation never grows the magnitude of the dividend.
pub proof fn lemma_div_trunc_bound(a: int, b: int, m: int)
    requires
        b >= 1,
        -m <= a <= m,
        0 <= m,
    ensures
        -m <= spec_div_trunc(a, b) <= m,
{
    if a >= 0 {
        lemma_div_nonincreasing(a, b);
        lemma_div_pos_is_pos(a, b);
        lemma_div_is_ordered(a, m, b);
        lemma_div_nonincreasing(m, b);
    } else {
        lemma_div_nonincreasing(-a, b);
        lemma_div_pos_is_pos(-a, b);
        lemma_div_is_ordered(-a, m, b);
        lemma_div_nonincreasing(m, b);
    }
}

/// Quotient of `a` by `b`, rounded toward zero.
pub fn div_trunc(a: i64, b: u64) -> (q: i64)
    requires
        1 <= b,
        -0x4000_0000_0000_0000 <= a <= 0x4000_0000_0000_0000,
    ensures
        q == spec_div_trunc(a as int, b as int),
{
    proof {
        lemma_div_trunc_bound(a as int, b as int, 0x4000_0000_0000_0000);
    }
    if a >= 0 {
        proof {
            lemma_div_pos_is_pos(a as int, b as int);
            lemma_div_nonincreasing(a as int, b as int);
        }
        ((a as u64) / b) as i64
    } else {
        proof {
            lemma_div_pos_is_pos(-(a as int), b as int);
            lemma_div_nonincreasing(-(a as int), b as int);
        }
        let m = (-a) as u64;
        -((m / b) as i64)
    }
}

/// A product of two values bounded by `m` is bounded by `m * m`.
pub proof fn lemma_mul_bound(a: int, b: int, m: int)
    by (nonlinear_arith)
    requires
        -m <= a <= m,
        -m <= b <= m,
        0 <= m,
    ensures
        -(m * m) <= a * b <= m * m,
{
}

} // verus!
