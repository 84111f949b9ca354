//! View parameters: the sole input of a render, with the well-formedness
//! bounds every renderer entry point relies on.

use crate::escape::{spec_c_in_range, Complex};
use vstd::prelude::*;

verus! {

/// Largest accepted grid dimension, in pixels.
pub const DIM_BOUND: u64 = 0x8000;

/// Largest accepted raw magnitude of the view center coordinates and of the
/// viewport spans (`8.0`): it keeps every grid point inside the coordinate
/// range the escape evaluator accepts.
pub const VIEW_BOUND: i64 = 0x800_0000;

/// Largest accepted iteration budget normalizer.
pub const BUDGET_BOUND: u64 = 0x1_0000_0000;

/// One frame's rendering parameters: the grid, the viewport, the iteration
/// constant and budget, and the resolution tier.
#[derive(Clone, Copy, PartialEq, Eq, Structural, Debug)]
pub struct JuliaArgs {
    /// Pixel rows of the output buffer.
    pub height: u64,
    /// Pixel columns of the output buffer.
    pub width: u64,
    /// Point of the complex plane mapped to the grid center.
    pub z0_center: Complex,
    /// The iteration constant `c` of `z <- z^2 + c`.
    pub c: Complex,
    /// Width of the viewport in raw units.
    pub x_span: i64,
    /// Height of the viewport in raw units.
    pub y_span: i64,
    /// Iteration budget, in orbit-length units.
    pub n0: u64,
    /// Budget used for color normalization; at least `n0`.
    pub n0_max: u64,
    /// Raw applications folded into one orbit-length unit.
    pub step: u64,
    /// Whether to render at half resolution and upsample.
    pub lower: bool,
}

/// Why a parameter set was rejected at construction.
#[derive(Clone, Copy, PartialEq, Eq, Structural, Debug)]
pub enum ConfigError {
    /// A grid dimension is zero or above `DIM_BOUND`.
    Dimensions,
    /// A span is zero, negative, or above `VIEW_BOUND`.
    Span,
    /// A center coordinate is out of the `VIEW_BOUND` range.
    Center,
    /// An iteration constant coordinate is out of the accepted range.
    Constant,
    /// The budgets do not satisfy `1 <= n0 <= n0_max <= BUDGET_BOUND`.
    Budget,
    /// The folding granularity is zero.
    Step,
}

impl JuliaArgs {
    /// Both grid dimensions are positive and within the accepted bound.
    pub open spec fn dims_ok(self) -> bool {
        &&& 1 <= self.width <= DIM_BOUND
        &&& 1 <= self.height <= DIM_BOUND
    }

    /// Both spans are positive and within the accepted bound.
    pub open spec fn span_ok(self) -> bool {
        &&& 1 <= self.x_span <= VIEW_BOUND
        &&& 1 <= self.y_span <= VIEW_BOUND
    }

    /// The view center lies within the accepted range.
    pub open spec fn center_ok(self) -> bool {
        &&& -VIEW_BOUND <= self.z0_center.re <= VIEW_BOUND
        &&& -VIEW_BOUND <= self.z0_center.im <= VIEW_BOUND
    }

    /// The iteration constant lies within the accepted range.
    pub open spec fn constant_ok(self) -> bool {
        spec_c_in_range(self.c)
    }

    /// The budgets are positive, ordered, and within the accepted bound.
    pub open spec fn budget_ok(self) -> bool {
        &&& 1 <= self.n0 <= self.n0_max
        &&& self.n0_max <= BUDGET_BOUND
    }

    /// The folding granularity is positive.
    pub open spec fn step_ok(self) -> bool {
        1 <= self.step
    }

    /// The invariant every renderer entry point relies on.
    pub open spec fn wf(self) -> bool {
        &&& self.dims_ok()
        &&& self.span_ok()
        &&& self.center_ok()
        &&& self.constant_ok()
        &&& self.budget_ok()
        &&& self.step_ok()
    }

    /// Builds a parameter set, rejecting any field combination that breaks
    /// the invariant; checks run in the order of the `ConfigError` variants.
    #[allow(clippy::too_many_arguments)]
    pub fn new(
        height: u64,
        width: u64,
        z0_center: Complex,
        c: Complex,
        x_span: i64,
        y_span: i64,
        n0: u64,
        n0_max: u64,
        step: u64,
        lower: bool,
    ) -> (result: Result<JuliaArgs, ConfigError>)
        ensures
            ({
                let a = JuliaArgs {
                    height,
                    width,
                    z0_center,
                    c,
                    x_span,
                    y_span,
                    n0,
                    n0_max,
                    step,
                    lower,
                };
                match result {
                    Ok(b) => b == a && a.wf(),
                    Err(ConfigError::Dimensions) => !a.dims_ok(),
                    Err(ConfigError::Span) => a.dims_ok() && !a.span_ok(),
                    Err(ConfigError::Center) => a.dims_ok() && a.span_ok() && !a.center_ok(),
                    Err(ConfigError::Constant) => a.dims_ok() && a.span_ok() && a.center_ok()
                        && !a.constant_ok(),
                    Err(ConfigError::Budget) => a.dims_ok() && a.span_ok() && a.center_ok()
                        && a.constant_ok() && !a.budget_ok(),
                    Err(ConfigError::Step) => a.dims_ok() && a.span_ok() && a.center_ok()
                        && a.constant_ok() && a.budget_ok() && !a.step_ok(),
                }
            }),
            result is Ok <==> (JuliaArgs {
                height,
                width,
                z0_center,
                c,
                x_span,
                y_span,
                n0,
                n0_max,
                step,
                lower,
            }).wf(),
    {
        let a = JuliaArgs { height, width, z0_center, c, x_span, y_span, n0, n0_max, step, lower };
        if !(1 <= width && width <= DIM_BOUND && 1 <= height && height <= DIM_BOUND) {
            Err(ConfigError::Dimensions)
        } else if !(1 <= x_span && x_span <= VIEW_BOUND && 1 <= y_span && y_span <= VIEW_BOUND) {
            Err(ConfigError::Span)
        } else if !(-VIEW_BOUND <= z0_center.re && z0_center.re <= VIEW_BOUND
            && -VIEW_BOUND <= z0_center.im && z0_center.im <= VIEW_BOUND) {
            Err(ConfigError::Center)
        } else if !(-crate::escape::CONST_BOUND <= c.re && c.re <= crate::escape::CONST_BOUND
            && -crate::escape::CONST_BOUND <= c.im && c.im <= crate::escape::CONST_BOUND) {
            Err(ConfigError::Constant)
        } else if !(1 <= n0 && n0 <= n0_max && n0_max <= BUDGET_BOUND) {
            Err(ConfigError::Budget)
        } else if !(1 <= step) {
            Err(ConfigError::Step)
        } else {
            Ok(a)
        }
    }
}

} // verus!
