//! The escape evaluator: decides whether, and after how many orbit-length
//! units, the orbit of a starting point under `z <- z^2 + c` leaves the
//! disk of radius 2.

use crate::fixed::{lemma_div_trunc_bound, lemma_mul_bound, div_trunc, spec_div_trunc, SCALE};
use vstd::arithmetic::div_mod::{lemma_mod_add_multiples_vanish, lemma_small_mod};
use vstd::prelude::*;

verus! {

/// A point of the complex plane, both coordinates in fixed-point raw units.
#[derive(Clone, Copy, PartialEq, Eq, Structural, Debug)]
pub struct Complex {
    pub re: i64,
    pub im: i64,
}

impl Complex {
    /// The point `re + im * i`, coordinates in raw units.
    pub fn new(re: i64, im: i64) -> (z: Complex)
        ensures
            z == (Complex { re, im }),
    {
        Complex { re, im }
    }
}

/// `|z|^2` in raw units is at least `4.0`, the squared escape radius:
/// raw squared values carry twice the fractional bits.
pub const ESCAPE_NORM: i64 = 0x4_0000_0000_0000;

/// Largest coordinate magnitude the evaluator accepts; one folded step on a
/// non-escaped point always lands strictly inside this range.
pub const COORD_BOUND: i64 = 0x1000_0000;

/// Largest magnitude accepted for the coordinates of the iteration constant.
pub const CONST_BOUND: i64 = 0x400_0000;

/// Squared magnitude of `(zr, zi)` in raw squared units.
pub open spec fn spec_norm_sqr(zr: int, zi: int) -> int {
    zr * zr + zi * zi
}

/// The orbit has left the disk of radius 2.
pub open spec fn spec_escaped(zr: int, zi: int) -> bool {
    spec_norm_sqr(zr, zi) >= ESCAPE_NORM
}

/// Both coordinates of `z` lie in the range the evaluator accepts.
pub open spec fn spec_in_range(z: Complex) -> bool {
    &&& -COORD_BOUND <= z.re <= COORD_BOUND
    &&& -COORD_BOUND <= z.im <= COORD_BOUND
}

/// Both coordinates of the iteration constant lie in the accepted range.
pub open spec fn spec_c_in_range(c: Complex) -> bool {
    &&& -CONST_BOUND <= c.re <= CONST_BOUND
    &&& -CONST_BOUND <= c.im <= CONST_BOUND
}

/// Real part of `z^2 + c` in raw units.
pub open spec fn spec_step_re(zr: int, zi: int, cr: int) -> int {
    spec_div_trunc(zr * zr - zi * zi, SCALE as int) + cr
}

/// Imaginary part of `z^2 + c` in raw units.
pub open spec fn spec_step_im(zr: int, zi: int, ci: int) -> int {
    spec_div_trunc(2 * (zr * zi), SCALE as int) + ci
}

/// `n` raw applications of `z <- z^2 + c`, where a point that has already
/// escaped is held fixed: its escape is decided, and holding it keeps every
/// intermediate value representable.
pub open spec fn spec_fold(zr: int, zi: int, cr: int, ci: int, n: nat) -> (int, int)
    decreases n,
{
    if n == 0 || spec_escaped(zr, zi) {
        (zr, zi)
    } else {
        spec_fold(
            spec_step_re(zr, zi, cr),
            spec_step_im(zr, zi, ci),
            cr,
            ci,
            (n - 1) as nat,
        )
    }
}

/// The escape check loop of `is_in`, resumed at orbit length `i`: test the
/// current point, fold `step` raw applications, advance `i` by `step`, until
/// the budget `n0` is spent.
pub open spec fn spec_is_in_from(
    zr: int,
    zi: int,
    cr: int,
    ci: int,
    n0: int,
    step: int,
    i: int,
) -> Option<int>
    decreases n0 - i when step >= 1
{
    if i >= n0 {
        None
    } else if spec_escaped(zr, zi) {
        Some(i)
    } else if n0 - i <= step {
        None
    } else {
        let w = spec_fold(zr, zi, cr, ci, step as nat);
        spec_is_in_from(w.0, w.1, cr, ci, n0, step, i + step)
    }
}

/// The escape time of `z0` under `z <- z^2 + c`, in orbit-length units:
/// `Some(k)` if the orbit is found outside the radius-2 disk after `k`
/// units and `None` if the budget `n0` is spent without escape.
pub open spec fn spec_is_in(z0: Complex, c: Complex, n0: int, step: int) -> Option<int> {
    spec_is_in_from(z0.re as int, z0.im as int, c.re as int, c.im as int, n0, step, 0)
}

/// An `Option<u64>` result read as the mathematical value it stands for.
pub open spec fn opt_as_int(o: Option<u64>) -> Option<int> {
    match o {
        Some(k) => Some(k as int),
        None => None,
    }
}

/// A point whose squared magnitude stays under the escape threshold has
/// both coordinates strictly inside `2.0`.
proof fn lemma_component_bound(zr: int, zi: int)
    by (nonlinear_arith)
    requires
        zr * zr + zi * zi < 0x4_0000_0000_0000,
    ensures
        -0x200_0000 < zr < 0x200_0000,
        -0x200_0000 < zi < 0x200_0000,
{
}

/// Squared magnitude of a point, in raw squared units.
pub(crate) fn norm_sqr(z: Complex) -> (n: i64)
    requires
        spec_in_range(z),
    ensures
        n == spec_norm_sqr(z.re as int, z.im as int),
{
    proof {
        lemma_mul_bound(z.re as int, z.re as int, COORD_BOUND as int);
        lemma_mul_bound(z.im as int, z.im as int, COORD_BOUND as int);
    }
    z.re * z.re + z.im * z.im
}

/// One raw application of `z <- z^2 + c` on a point that has not escaped.
fn step_once(z: Complex, c: Complex) -> (w: Complex)
    requires
        spec_in_range(z),
        spec_c_in_range(c),
        !spec_escaped(z.re as int, z.im as int),
    ensures
        w.re == spec_step_re(z.re as int, z.im as int, c.re as int),
        w.im == spec_step_im(z.re as int, z.im as int, c.im as int),
        spec_in_range(w),
{
    proof {
        lemma_component_bound(z.re as int, z.im as int);
        lemma_mul_bound(z.re as int, z.re as int, 0x200_0000);
        lemma_mul_bound(z.im as int, z.im as int, 0x200_0000);
        lemma_mul_bound(z.re as int, z.im as int, 0x200_0000);
        lemma_div_trunc_bound(
            z.re as int * z.re as int - z.im as int * z.im as int,
            SCALE as int,
            0x8_0000_0000_0000,
        );
        lemma_div_trunc_bound(2 * (z.re as int * z.im as int), SCALE as int, 0x8_0000_0000_0000);
    }
    let rr = z.re * z.re;
    let ii = z.im * z.im;
    let ri = z.re * z.im;
    let wr = div_trunc(rr - ii, SCALE as u64) + c.re;
    let wi = div_trunc(2 * ri, SCALE as u64) + c.im;
    Complex { re: wr, im: wi }
}

/// `step` raw applications of `z <- z^2 + c`, one orbit-length unit.
fn fold_steps(z: Complex, c: Complex, step: u64) -> (w: Complex)
    requires
        spec_in_range(z),
        spec_c_in_range(c),
    ensures
        (w.re as int, w.im as int) == spec_fold(
            z.re as int,
            z.im as int,
            c.re as int,
            c.im as int,
            step as nat,
        ),
        spec_in_range(w),
{
    let mut res = z;
    let mut k: u64 = 0;
    while k < step
        invariant
            k <= step,
            spec_in_range(res),
            spec_c_in_range(c),
            spec_fold(
                res.re as int,
                res.im as int,
                c.re as int,
                c.im as int,
                (step - k) as nat,
            ) == spec_fold(z.re as int, z.im as int, c.re as int, c.im as int, step as nat),
        decreases step - k,
    {
        let n = norm_sqr(res);
        if n < ESCAPE_NORM {
            res = step_once(res, c);
        }
        k = k + 1;
    }
    res
}

/// Escape time of `z0` under `z <- z^2 + c`: `Some(i)` as soon as the point
/// is found outside the radius-2 disk, where `i` counts `step` raw
/// applications per unit, and `None` once the budget `n0` is spent.
pub fn is_in(z0: Complex, c: Complex, n0: u64, step: u64) -> (escaped_at: Option<u64>)
    requires
        spec_in_range(z0),
        spec_c_in_range(c),
        step >= 1,
    ensures
        opt_as_int(escaped_at) == spec_is_in(z0, c, n0 as int, step as int),
{
    let mut z = z0;
    let mut i: u64 = 0;
    while i < n0
        invariant
            i <= n0,
            step >= 1,
            spec_in_range(z),
            spec_c_in_range(c),
            spec_is_in_from(
                z.re as int,
                z.im as int,
                c.re as int,
                c.im as int,
                n0 as int,
                step as int,
                i as int,
            ) == spec_is_in(z0, c, n0 as int, step as int),
        decreases n0 - i,
    {
        if norm_sqr(z) >= ESCAPE_NORM {
            return Some(i);
        }
        z = fold_steps(z, c, step);
        i = if n0 - i > step {
            i + step
        } else {
            n0
        };
    }
    None
}

/// Helper for the escape-time range law: every `Some` the check loop can
/// return, resumed at a multiple of `step`, is a multiple of `step` inside
/// the budget.
proof fn lemma_is_in_from_range(zr: int, zi: int, cr: int, ci: int, n0: int, step: int, i: int)
    requires
        step >= 1,
        0 <= i,
        i % step == 0,
    ensures
        (match spec_is_in_from(zr, zi, cr, ci, n0, step, i) {
            Some(k) => i <= k < n0 && k % step == 0,
            None => true,
        }),
    decreases n0 - i,
{
    if i >= n0 || spec_escaped(zr, zi) || n0 - i <= step {
    } else {
        let w = spec_fold(zr, zi, cr, ci, step as nat);
        lemma_mod_add_multiples_vanish(i, step);
        lemma_is_in_from_range(w.0, w.1, cr, ci, n0, step, i + step);
    }
}

/// The escape time is never negative, never reaches the budget, and is a
/// multiple of the folding granularity `step`.
pub proof fn lemma_escape_time_in_budget(z0: Complex, c: Complex, n0: int, step: int)
    requires
        step >= 1,
    ensures
        (match spec_is_in(z0, c, n0, step) {
            Some(k) => 0 <= k < n0 && k % step == 0,
            None => true,
        }),
{
    lemma_small_mod(0nat, step as nat);
    lemma_is_in_from_range(z0.re as int, z0.im as int, c.re as int, c.im as int, n0, step, 0);
}

} // verus!
