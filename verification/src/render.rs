//! The field renderer and resolution compositor: maps every grid cell to a
//! point of the complex plane, colors it by its escape time, and optionally
//! renders at half resolution and upsamples by block replication.
//!
//! The per-pixel work is embarrassingly parallel; the two parallel loops run
//! on rayon behind trusted wrappers whose closures only call verified
//! per-pixel functions.

use crate::color::{combine_color, spec_combine_color};
use crate::escape::{
    is_in, lemma_escape_time_in_budget, spec_in_range, spec_is_in_from, Complex,
    COORD_BOUND,
};
use crate::fixed::{div_trunc, lemma_mul_bound, spec_div_trunc};
use crate::params::{JuliaArgs, DIM_BOUND, VIEW_BOUND};
use rayon::iter::{IndexedParallelIterator, IntoParallelRefMutIterator, ParallelIterator};
use vstd::arithmetic::div_mod::{
    lemma_div_is_ordered, lemma_div_multiples_vanish, lemma_div_pos_is_pos,
    lemma_fundamental_div_mod, lemma_fundamental_div_mod_converse,
    lemma_mod_division_less_than_divisor,
};
use vstd::arithmetic::mul::lemma_mul_inequality;
use vstd::prelude::*;

verus! {

/// Raw offset from the view center of grid line `i` out of `w`, where
/// `d == 2 * i - w`: the real value `(i - w/2) * span / w`, truncated.
pub open spec fn spec_offset(d: int, span: int, w: int) -> int {
    spec_div_trunc(d * span, 2 * w)
}

/// The grid offset never exceeds the viewport span.
proof fn lemma_offset_bound(d: int, span: int, w: int)
    requires
        -w <= d <= w,
        1 <= w,
        0 <= span,
    ensures
        -span <= spec_offset(d, span, w) <= span,
{
    assert(-(w * span) <= d * span <= w * span) by (nonlinear_arith)
        requires
            -w <= d <= w,
            0 <= span,
    ;
    assert(w * span <= (2 * w) * span) by (nonlinear_arith)
        requires
            1 <= w,
            0 <= span,
    ;
    lemma_div_multiples_vanish(span, 2 * w);
    if d * span >= 0 {
        lemma_div_is_ordered(d * span, (2 * w) * span, 2 * w);
        lemma_div_pos_is_pos(d * span, 2 * w);
    } else {
        lemma_div_is_ordered(-(d * span), (2 * w) * span, 2 * w);
        lemma_div_pos_is_pos(-(d * span), 2 * w);
    }
}

/// Row and column of a linear grid index.
proof fn lemma_grid_coords(idx: int, w: int, h: int)
    requires
        1 <= w,
        1 <= h,
        0 <= idx < w * h,
    ensures
        0 <= idx % w < w,
        0 <= idx / w < h,
{
    lemma_fundamental_div_mod(idx, w);
    lemma_mod_division_less_than_divisor(idx, w);
    lemma_div_pos_is_pos(idx, w);
    assert(idx / w < h) by (nonlinear_arith)
        requires
            1 <= w,
            idx == w * (idx / w) + idx % w,
            0 <= idx % w,
            idx < w * h,
            0 <= idx / w,
    ;
}

/// The packed color of a shade value `t` out of `m`: each channel is the
/// fixed palette weight of `t / m * 255`, truncated to 8 bits.
pub open spec fn spec_color_for(t: int, m: int) -> u32 {
    spec_combine_color(
        ((t * 255) / m) as u8,
        ((t * 102) / m) as u8,
        ((t * 204) / m) as u8,
    )
}

/// One palette channel: `t * weight / m`, within 8 bits whenever `t <= m`.
fn channel(t: u64, weight: u64, m: u64) -> (v: u8)
    requires
        1 <= m,
        t <= m,
        m <= 0x1_0000_0000,
        weight <= 255,
    ensures
        v == ((t as int * weight as int) / m as int) as u8,
        v == (t as int * weight as int) / m as int,
{
    proof {
        assert(t as int * weight as int <= 0x1_0000_0000 * 255) by (nonlinear_arith)
            requires
                0 <= t <= 0x1_0000_0000,
                0 <= weight <= 255,
        ;
        lemma_mul_inequality(t as int, m as int, weight as int);
        lemma_div_is_ordered(t as int * weight as int, m as int * weight as int, m as int);
        lemma_div_multiples_vanish(weight as int, m as int);
        lemma_div_pos_is_pos(t as int * weight as int, m as int);
        assert(t as int * weight as int == weight as int * t as int) by (nonlinear_arith);
        assert(m as int * weight as int == weight as int * m as int) by (nonlinear_arith);
    }
    ((t * weight) / m) as u8
}

/// Packs the palette color for shade `t` out of `m`.
fn color_for(t: u64, m: u64) -> (color: u32)
    requires
        1 <= m,
        t <= m,
        m <= 0x1_0000_0000,
    ensures
        color == spec_color_for(t as int, m as int),
{
    let r = channel(t, 255, m);
    let g = channel(t, 102, m);
    let b = channel(t, 204, m);
    combine_color(r, g, b)
}

/// The color of the pixel at linear index `idx`: the grid cell is mapped to
/// a point of the complex plane, its escape time is evaluated with the
/// frame's budget and granularity, and a spent budget takes the budget
/// itself as its shade.
pub open spec fn spec_pixel_color(a: JuliaArgs, idx: int) -> u32 {
    let w = a.width as int;
    let h = a.height as int;
    let i = idx % w;
    let j = idx / w;
    let zr = a.z0_center.re + spec_offset(2 * i - w, a.x_span as int, w);
    let zi = a.z0_center.im + spec_offset(2 * j - h, a.y_span as int, h);
    let t = match spec_is_in_from(
        zr,
        zi,
        a.c.re as int,
        a.c.im as int,
        a.n0 as int,
        a.step as int,
        0,
    ) {
        Some(k) => k,
        None => a.n0 as int,
    };
    spec_color_for(t, a.n0_max as int)
}

/// Computes the color of the pixel at linear index `idx`.
pub fn pixel_color(args: &JuliaArgs, idx: u64) -> (color: u32)
    requires
        args.wf(),
        idx < args.width * args.height,
    ensures
        color == spec_pixel_color(*args, idx as int),
{
    let w = args.width;
    let h = args.height;
    proof {
        lemma_grid_coords(idx as int, w as int, h as int);
    }
    let i = idx % w;
    let j = idx / w;
    let dx = 2 * (i as i64) - (w as i64);
    let dy = 2 * (j as i64) - (h as i64);
    proof {
        lemma_mul_bound(dx as int, args.x_span as int, VIEW_BOUND as int);
        lemma_mul_bound(dy as int, args.y_span as int, VIEW_BOUND as int);
        lemma_offset_bound(dx as int, args.x_span as int, w as int);
        lemma_offset_bound(dy as int, args.y_span as int, h as int);
    }
    let off_x = div_trunc(dx * args.x_span, 2 * w);
    let off_y = div_trunc(dy * args.y_span, 2 * h);
    let z0 = Complex { re: args.z0_center.re + off_x, im: args.z0_center.im + off_y };
    assert(spec_in_range(z0)) by {
        assert(-COORD_BOUND <= args.z0_center.re + off_x <= COORD_BOUND);
        assert(-COORD_BOUND <= args.z0_center.im + off_y <= COORD_BOUND);
    }
    let escaped_at = is_in(z0, args.c, args.n0, args.step);
    proof {
        lemma_escape_time_in_budget(z0, args.c, args.n0 as int, args.step as int);
    }
    let t = match escaped_at {
        Some(n) => n,
        None => args.n0,
    };
    color_for(t, args.n0_max)
}

/// The buffer a full-resolution render produces: pixel `k` holds the color
/// of grid cell `k`.
pub open spec fn spec_full_buffer(a: JuliaArgs) -> Seq<u32> {
    Seq::new((a.width * a.height) as nat, |k: int| spec_pixel_color(a, k))
}

/// Relies on rayon's `par_iter_mut().enumerate().for_each(..)` over a
/// vector: the closure body runs exactly once for every element, receiving
/// that element's index, and all runs complete before the call returns.
/// The closure overwrites element `k` with the verified color of pixel `k`.
#[verifier::external_body]
fn par_fill(buffer: &mut Vec<u32>, args: &JuliaArgs)
    requires
        args.wf(),
        old(buffer)@.len() == args.width * args.height,
    ensures
        final(buffer)@.len() == old(buffer)@.len(),
        forall|k: int|
            0 <= k < final(buffer)@.len() ==> final(buffer)@[k] == spec_pixel_color(*args, k),
{
    buffer.par_iter_mut().enumerate().for_each(|pair| {
        *(pair.1) = pixel_color(args, pair.0 as u64);
    });
}

/// Renders the full grid: overwrites every pixel of `buffer` with the color
/// of its grid cell under `args`.
pub fn full_buffer(buffer: &mut Vec<u32>, args: &JuliaArgs)
    requires
        args.wf(),
        old(buffer)@.len() == args.width * args.height,
    ensures
        final(buffer)@ == spec_full_buffer(*args),
{
    par_fill(buffer, args);
    proof {
        assert(buffer@ =~= spec_full_buffer(*args));
    }
}

/// The reduced-resolution parameter set of a coarse frame: both dimensions
/// halved, everything else kept, coarse mode spent.
pub open spec fn spec_low_args(a: JuliaArgs) -> JuliaArgs {
    JuliaArgs { width: a.width / 2, height: a.height / 2, lower: false, ..a }
}

/// The coarse-buffer index replicated onto full-resolution pixel `idx` of a
/// grid `w` wide: the coarse pixel at column `(idx % w) / 2`, row
/// `(idx / w) / 2`.
pub open spec fn spec_low_index(w: int, idx: int) -> int {
    ((idx / w) / 2) * (w / 2) + (idx % w) / 2
}

/// The replicated coarse index stays inside the coarse buffer.
proof fn lemma_low_index_in_range(w: int, h: int, idx: int)
    requires
        2 <= w,
        2 <= h,
        w % 2 == 0,
        h % 2 == 0,
        0 <= idx < w * h,
    ensures
        0 <= spec_low_index(w, idx) < (w / 2) * (h / 2),
{
    lemma_grid_coords(idx, w, h);
    let i = idx % w;
    let j = idx / w;
    lemma_div_is_ordered(i, w - 1, 2);
    lemma_div_is_ordered(j, h - 1, 2);
    lemma_div_pos_is_pos(i, 2);
    lemma_div_pos_is_pos(j, 2);
    assert((w - 1) / 2 == w / 2 - 1);
    assert((h - 1) / 2 == h / 2 - 1);
    lemma_mul_inequality(j / 2, h / 2 - 1, w / 2);
    assert((h / 2 - 1) * (w / 2) + (w / 2) == (h / 2) * (w / 2)) by (nonlinear_arith);
    assert((h / 2) * (w / 2) == (w / 2) * (h / 2)) by (nonlinear_arith);
    assert(0 <= (j / 2) * (w / 2)) by (nonlinear_arith)
        requires
            0 <= j / 2,
            0 <= w / 2,
    ;
}

/// Picks the coarse pixel that full-resolution pixel `idx` replicates.
fn upsample_pick(low: &Vec<u32>, width: u64, height: u64, idx: u64) -> (color: u32)
    requires
        2 <= width <= DIM_BOUND,
        2 <= height <= DIM_BOUND,
        width % 2 == 0,
        height % 2 == 0,
        low@.len() == (width / 2) * (height / 2),
        idx < width * height,
    ensures
        color == low@[spec_low_index(width as int, idx as int)],
{
    proof {
        lemma_grid_coords(idx as int, width as int, height as int);
        lemma_low_index_in_range(width as int, height as int, idx as int);
        lemma_mul_bound((idx as int / width as int) / 2, width as int / 2, DIM_BOUND as int);
        lemma_mul_bound(width as int / 2, height as int / 2, DIM_BOUND as int);
    }
    let i = idx % width;
    let j = idx / width;
    let li = (j / 2) * (width / 2) + i / 2;
    low[li as usize]
}

/// Relies on rayon's `par_iter_mut().enumerate().for_each(..)` over a
/// vector: the closure body runs exactly once for every element, receiving
/// that element's index, and all runs complete before the call returns.
/// The closure overwrites element `k` with the verified coarse pick for `k`.
#[verifier::external_body]
fn par_upsample(buffer: &mut Vec<u32>, low: &Vec<u32>, width: u64, height: u64)
    requires
        2 <= width <= DIM_BOUND,
        2 <= height <= DIM_BOUND,
        width % 2 == 0,
        height % 2 == 0,
        low@.len() == (width / 2) * (height / 2),
        old(buffer)@.len() == width * height,
    ensures
        final(buffer)@.len() == old(buffer)@.len(),
        forall|k: int|
            0 <= k < final(buffer)@.len() ==> final(buffer)@[k] == low@[spec_low_index(
                width as int,
                k,
            )],
{
    buffer.par_iter_mut().enumerate().for_each(|pair| {
        *(pair.1) = upsample_pick(low, width, height, pair.0 as u64);
    });
}

/// The buffer a render produces: at full resolution the field itself; in
/// coarse mode every pixel holds the color of the coarse cell it replicates.
pub open spec fn spec_julia_buffer(a: JuliaArgs) -> Seq<u32> {
    if a.lower {
        Seq::new(
            (a.width * a.height) as nat,
            |k: int| spec_pixel_color(spec_low_args(a), spec_low_index(a.width as int, k)),
        )
    } else {
        spec_full_buffer(a)
    }
}

/// Renders one frame into `buffer`: directly at full resolution, or, in
/// coarse mode, at half resolution into a transient scratch buffer that is
/// then replicated onto `buffer` in 2x2 blocks.
pub fn julia(args: &JuliaArgs, buffer: &mut Vec<u32>)
    requires
        args.wf(),
        old(buffer)@.len() == args.width * args.height,
        args.lower ==> args.width % 2 == 0 && args.height % 2 == 0,
    ensures
        final(buffer)@ == spec_julia_buffer(*args),
{
    if args.lower {
        let low_width = args.width / 2;
        let low_height = args.height / 2;
        let low_args = JuliaArgs {
            height: low_height,
            width: low_width,
            z0_center: args.z0_center,
            c: args.c,
            x_span: args.x_span,
            y_span: args.y_span,
            n0: args.n0,
            n0_max: args.n0_max,
            step: args.step,
            lower: false,
        };
        assert(low_args == spec_low_args(*args));
        proof {
            lemma_mul_bound(low_width as int, low_height as int, DIM_BOUND as int);
        }
        let n = (low_width * low_height) as usize;
        let mut low_buffer: Vec<u32> = Vec::new();
        while low_buffer.len() < n
            invariant
                low_buffer@.len() <= n,
            decreases n - low_buffer@.len(),
        {
            low_buffer.push(0);
        }
        full_buffer(&mut low_buffer, &low_args);
        par_upsample(buffer, &low_buffer, args.width, args.height);
        proof {
            assert forall|k: int| 0 <= k < buffer@.len() implies buffer@[k] == spec_pixel_color(
                spec_low_args(*args),
                spec_low_index(args.width as int, k),
            ) by {
                lemma_low_index_in_range(args.width as int, args.height as int, k);
            }
            assert(buffer@ =~= spec_julia_buffer(*args));
        }
    } else {
        full_buffer(buffer, args);
    }
}

/// Determinism of rendering: two buffers rendered from identical view
/// parameters are identical.
pub proof fn lemma_render_deterministic(args: JuliaArgs, buffer1: Seq<u32>, buffer2: Seq<u32>)
    requires
        buffer1 == spec_julia_buffer(args),
        buffer2 == spec_julia_buffer(args),
    ensures
        buffer1 == buffer2,
{
}

/// Compositing correctness of coarse mode: any two pixels of the same
/// aligned 2x2 block are equal, and equal to the coarse-resolution pixel
/// the block replicates.
pub proof fn lemma_coarse_blocks_uniform(
    args: JuliaArgs,
    buffer: Seq<u32>,
    x1: int,
    y1: int,
    x2: int,
    y2: int,
)
    requires
        args.wf(),
        args.lower,
        args.width % 2 == 0,
        args.height % 2 == 0,
        buffer == spec_julia_buffer(args),
        0 <= x1 < args.width,
        0 <= y1 < args.height,
        0 <= x2 < args.width,
        0 <= y2 < args.height,
        x1 / 2 == x2 / 2,
        y1 / 2 == y2 / 2,
    ensures
        buffer[y1 * args.width + x1] == spec_pixel_color(
            spec_low_args(args),
            (y1 / 2) * ((args.width / 2) as int) + x1 / 2,
        ),
        buffer[y1 * args.width + x1] == buffer[y2 * args.width + x2],
{
    let w = args.width as int;
    let h = args.height as int;
    assert(0 <= y1 * w + x1 < w * h && 0 <= y2 * w + x2 < w * h) by (nonlinear_arith)
        requires
            0 <= x1 < w,
            0 <= y1 < h,
            0 <= x2 < w,
            0 <= y2 < h,
    ;
    lemma_fundamental_div_mod_converse(y1 * w + x1, w, y1, x1);
    lemma_fundamental_div_mod_converse(y2 * w + x2, w, y2, x2);
}

} // verus!
