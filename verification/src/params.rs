//! Exact state of an outline material's tunable parameters.
//!
//! The width and the animation speed only ever change by a fixed ratio per
//! wheel step, so both are tracked exactly as signed step counts from their
//! defaults. The host renders a step count as the float uniform by raising
//! the ratio to that power; the flag that drives the width from time is a
//! shader uniform and is kept as the raw integer word it has there.

use vstd::prelude::*;

use crate::controls::WheelDir;
use crate::controls::WidthCommand;

verus! {

/// The mode flag after one press of the toggle key: any set word goes to
/// zero, zero goes to one.
pub open spec fn toggled(v: u32) -> u32 {
    if v > 0 {
        0
    } else {
        1
    }
}

/// The tunable parameters of one outline material, at the control level.
#[derive(Clone, Copy, Debug, PartialEq, Eq, Structural)]
pub struct OutlineParams {
    /// Net wheel steps applied to the outline width, from its default.
    pub width_steps: i32,
    /// Net wheel steps applied to the animation speed, from its default.
    pub time_scale_steps: i32,
    /// Whether the width follows time: zero for a constant width, any other
    /// word for a time-driven one.
    pub is_time_related: u32,
}

impl Default for OutlineParams {
    /// A fresh material sits at its default width and speed, with a
    /// constant width.
    fn default() -> (d: OutlineParams)
        ensures
            d.width_steps == 0,
            d.time_scale_steps == 0,
            d.is_time_related == 0,
    {
        OutlineParams { width_steps: 0, time_scale_steps: 0, is_time_related: 0 }
    }
}

impl OutlineParams {
    /// Flips the width mode between constant and time-driven, leaving the
    /// step counts alone.
    pub fn toggle_time_related(&mut self)
        ensures
            final(self).is_time_related == toggled(old(self).is_time_related),
            final(self).width_steps == old(self).width_steps,
            final(self).time_scale_steps == old(self).time_scale_steps,
    {
        self.is_time_related = if self.is_time_related > 0 {
            0
        } else {
            1
        };
    }

    /// Applies one width command: a step for grow or shrink, nothing for
    /// keep. The other parameters are untouched.
    pub fn apply_width_command(&mut self, c: WidthCommand)
        requires
            c is Grow ==> old(self).width_steps < i32::MAX,
            c is Shrink ==> old(self).width_steps > i32::MIN,
        ensures
            final(self).width_steps == old(self).width_steps + match c {
                WidthCommand::Grow => 1int,
                WidthCommand::Shrink => -1int,
                WidthCommand::Keep => 0int,
            },
            final(self).time_scale_steps == old(self).time_scale_steps,
            final(self).is_time_related == old(self).is_time_related,
    {
        match c {
            WidthCommand::Grow => {
                self.width_steps = self.width_steps + 1;
            },
            WidthCommand::Shrink => {
                self.width_steps = self.width_steps - 1;
            },
            WidthCommand::Keep => {},
        }
    }

    /// Applies one animation-speed step in the direction of the wheel
    /// event. The speed has no bounds, so every event counts.
    pub fn apply_time_scale_step(&mut self, d: WheelDir)
        requires
            d is Up ==> old(self).time_scale_steps < i32::MAX,
            d is Down ==> old(self).time_scale_steps > i32::MIN,
        ensures
            final(self).time_scale_steps == old(self).time_scale_steps + crate::controls::step_of(d),
            final(self).width_steps == old(self).width_steps,
            final(self).is_time_related == old(self).is_time_related,
    {
        match d {
            WheelDir::Up => {
                self.time_scale_steps = self.time_scale_steps + 1;
            },
            WheelDir::Down => {
                self.time_scale_steps = self.time_scale_steps - 1;
            },
        }
    }
}

/// Toggling the width mode twice restores a canonical flag: from either of
/// the two words the shader distinguishes, two presses come back to the
/// starting word.
pub proof fn lemma_toggled_involutive(v: u32)
    requires
        v <= 1,
    ensures
        toggled(toggled(v)) == v,
{
}

/// One press always changes what the shader sees: the flag is set after the
/// press exactly when it was clear before.
pub proof fn lemma_toggled_flips(v: u32)
    ensures
        (toggled(v) > 0) == !(v > 0),
{
}

} // verus!
