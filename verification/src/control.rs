//! The quality controller: a per-frame state transition that counts idle
//! frames and selects the resolution tier, iteration budget and folding
//! granularity for the next render.

use crate::params::JuliaArgs;
use vstd::prelude::*;

verus! {

/// A pixel position on the grid.
#[derive(Clone, Copy, PartialEq, Eq, Structural, Debug)]
pub struct Point {
    pub x: u64,
    pub y: u64,
}

impl Point {
    /// The pixel at column `x`, row `y`.
    pub fn new(x: u64, y: u64) -> (p: Point)
        ensures
            p == (Point { x, y }),
    {
        Point { x, y }
    }
}

/// The controller's own state: whether a re-render is owed, and for how
/// many consecutive frames no parameter changed.
#[derive(Clone, Copy, PartialEq, Eq, Structural, Debug)]
pub struct CommandsArgs {
    /// True if parameters changed since the last render.
    pub change: bool,
    /// Consecutive frames with no parameter change.
    pub time: u64,
    /// Spare selector kept with the state; the controller never reads it.
    pub n0_id: u8,
}

impl CommandsArgs {
    /// A fresh controller state: a first render is owed.
    pub fn new() -> (state: CommandsArgs)
        ensures
            state == (CommandsArgs { change: true, time: 0u64, n0_id: 0u8 }),
    {
        CommandsArgs { change: true, time: 0, n0_id: 0 }
    }

    /// Records that this frame changed no parameter.
    pub fn nothing(&mut self)
        ensures
            final(self).change == false,
            final(self).time == old(self).time,
            final(self).n0_id == old(self).n0_id,
    {
        self.change = false;
    }

    /// Advances the idle counter: a changed frame resets it, a quiet frame
    /// increments it.
    pub fn update_time(&mut self)
        requires
            old(self).time < u64::MAX,
        ensures
            final(self).time == (if old(self).change {
                0int
            } else {
                old(self).time + 1
            }),
            final(self).change == old(self).change,
            final(self).n0_id == old(self).n0_id,
    {
        if self.change {
            self.time = 0;
        } else {
            self.time = self.time + 1;
        }
    }

    /// Records that this frame changed a parameter.
    pub fn action(&mut self)
        ensures
            final(self).change == true,
            final(self).time == old(self).time,
            final(self).n0_id == old(self).n0_id,
    {
        self.change = true;
    }
}

/// The quality tier `(iteration budget, step, coarse mode)` owed after
/// `idle_ticks` consecutive quiet frames: budgets rise and folding coarseness
/// and reduced resolution fall as the view settles.
pub open spec fn spec_tier(idle_ticks: int) -> (u64, u64, bool) {
    if idle_ticks < 3 {
        (151u64, 4u64, true)
    } else if idle_ticks < 9 {
        (201u64, 3u64, true)
    } else if idle_ticks < 18 {
        (201u64, 2u64, false)
    } else {
        (251u64, 1u64, false)
    }
}

/// Selects the quality tier for an idle counter value.
pub fn tier_for(idle_ticks: u64) -> (tier: (u64, u64, bool))
    ensures
        tier == spec_tier(idle_ticks as int),
{
    if idle_ticks < 3 {
        (151, 4, true)
    } else if idle_ticks < 9 {
        (201, 3, true)
    } else if idle_ticks < 18 {
        (201, 2, false)
    } else {
        (251, 1, false)
    }
}

/// One frame of the quality state machine: fold this frame's input report
/// into the idle counter, recompute the tier from the updated counter, and
/// report whether a re-render is owed — exactly when input arrived or the
/// tier moved.
///
/// The idle counter resets to 0 exactly on a frame with input and strictly
/// increases on every quiet frame.
pub fn advance_tick(params: &mut JuliaArgs, state: &mut CommandsArgs, input_changed: bool) -> (should_render: bool)
    requires
        old(params).wf(),
        old(params).n0_max >= 251,
        old(state).time < u64::MAX,
    ensures
        final(state).time == (if input_changed {
            0int
        } else {
            old(state).time + 1
        }),
        final(state).change == should_render,
        final(state).n0_id == old(state).n0_id,
        ({
            let tier = spec_tier(final(state).time as int);
            &&& final(params).n0 == tier.0
            &&& final(params).step == tier.1
            &&& final(params).lower == tier.2
        }),
        should_render == (input_changed || final(params).n0 != old(params).n0
            || final(params).step != old(params).step
            || final(params).lower != old(params).lower),
        final(params).height == old(params).height,
        final(params).width == old(params).width,
        final(params).z0_center == old(params).z0_center,
        final(params).c == old(params).c,
        final(params).x_span == old(params).x_span,
        final(params).y_span == old(params).y_span,
        final(params).n0_max == old(params).n0_max,
        final(params).wf(),
{
    if input_changed {
        state.action();
    } else {
        state.nothing();
    }
    state.update_time();
    let tier = tier_for(state.time);
    let should_render = input_changed || tier.0 != params.n0 || tier.1 != params.step || tier.2
        != params.lower;
    params.n0 = tier.0;
    params.step = tier.1;
    params.lower = tier.2;
    state.change = should_render;
    should_render
}

} // verus!
