//! Routing of a frame's keyboard and mouse-wheel input.
//!
//! Three modifier keys share the mouse wheel: one scales the animation speed,
//! one scales the outline width, and one toggles the width mode. The camera
//! may zoom on the wheel only while none of the three is held, so that
//! tuning a parameter never moves the camera.

use vstd::prelude::*;

verus! {

/// The direction of one mouse-wheel event.
#[derive(Clone, Copy, Debug, PartialEq, Eq, Structural)]
pub enum WheelDir {
    Up,
    Down,
}

/// Which of the three modifier keys are held during a frame.
#[derive(Clone, Copy, Debug, PartialEq, Eq, Structural)]
pub struct HeldKeys {
    /// The key that lets the wheel scale the animation speed.
    pub time_scale: bool,
    /// The key that lets the wheel scale the outline width.
    pub width: bool,
    /// The key that toggles between a constant and a time-driven width.
    pub mode: bool,
}

/// What a frame's input drives, as decided from the held keys alone.
#[derive(Clone, Copy, Debug, PartialEq, Eq, Structural)]
pub struct FrameActions {
    /// Wheel events zoom the camera.
    pub zoom: bool,
    /// Wheel events scale the outline width.
    pub scale_width: bool,
    /// Wheel events scale the animation speed.
    pub scale_time: bool,
    /// The width mode is toggled this frame.
    pub toggle_mode: bool,
}

/// One parameter-scaling step, to be applied by the host at the fixed ratio.
#[derive(Clone, Copy, Debug, PartialEq, Eq, Structural)]
pub enum WidthCommand {
    /// Multiply the width by the ratio: one step up.
    Grow,
    /// Divide the width by the ratio: one step down.
    Shrink,
    /// Leave the width alone: the step would cross a bound.
    Keep,
}

/// Decides what this frame's input drives. The camera zooms on the wheel
/// exactly when no modifier key is held; each held key drives its own
/// parameter, independently of the others.
pub fn frame_actions(keys: &HeldKeys) -> (a: FrameActions)
    ensures
        a.zoom == (!keys.time_scale && !keys.width && !keys.mode),
        a.scale_width == keys.width,
        a.scale_time == keys.time_scale,
        a.toggle_mode == keys.mode,
{
    FrameActions {
        zoom: !keys.time_scale && !keys.width && !keys.mode,
        scale_width: keys.width,
        scale_time: keys.time_scale,
        toggle_mode: keys.mode,
    }
}

/// The signed contribution of one wheel event: up counts one step out,
/// down one step in.
pub open spec fn step_of(d: WheelDir) -> int {
    if d is Up {
        1
    } else {
        -1
    }
}

/// The net step count of a run of wheel events.
pub open spec fn net_steps(ds: Seq<WheelDir>) -> int
    decreases ds.len(),
{
    if ds.len() == 0 {
        0
    } else {
        net_steps(ds.drop_last()) + step_of(ds.last())
    }
}

/// Folds a frame's wheel events into the net zoom step count that the host
/// applies to the camera radius, one ratio factor per step.
pub fn zoom_steps(events: &Vec<WheelDir>) -> (n: i64)
    requires
        events@.len() <= i64::MAX,
    ensures
        n == net_steps(events@),
{
    let mut n: i64 = 0;
    let mut i: usize = 0;
    while i < events.len()
        invariant
            i <= events@.len(),
            events@.len() <= i64::MAX,
            -(i as int) <= n <= i as int,
            n == net_steps(events@.take(i as int)),
        decreases events@.len() - i,
    {
        proof {
            assert(events@.take(i + 1).drop_last() =~= events@.take(i as int));
            assert(events@.take(i + 1).last() == events@[i as int]);
        }
        match events[i] {
            WheelDir::Up => {
                n = n + 1;
            },
            WheelDir::Down => {
                n = n - 1;
            },
        }
        i = i + 1;
    }
    proof {
        assert(events@.take(events@.len() as int) =~= events@);
    }
    n
}

/// What one wheel event does to the outline width while the width key is
/// held: a step out is taken only below the upper bound, a step in only
/// above the lower bound, and a step that would cross a bound is dropped.
pub open spec fn width_command_spec(d: WheelDir, below_max: bool, above_min: bool) -> WidthCommand {
    match d {
        WheelDir::Up => if below_max {
            WidthCommand::Grow
        } else {
            WidthCommand::Keep
        },
        WheelDir::Down => if above_min {
            WidthCommand::Shrink
        } else {
            WidthCommand::Keep
        },
    }
}

/// Decides one width step from a wheel event and the two bound checks that
/// the host makes on the current width.
pub fn width_command(d: WheelDir, below_max: bool, above_min: bool) -> (c: WidthCommand)
    ensures
        c == width_command_spec(d, below_max, above_min),
{
    match d {
        WheelDir::Up => {
            if below_max {
                WidthCommand::Grow
            } else {
                WidthCommand::Keep
            }
        },
        WheelDir::Down => {
            if above_min {
                WidthCommand::Shrink
            } else {
                WidthCommand::Keep
            }
        },
    }
}

/// A width step never leaves the bounds: at the upper bound the width never
/// grows, at the lower bound it never shrinks.
pub proof fn lemma_width_command_respects_bounds(d: WheelDir, below_max: bool, above_min: bool)
    ensures
        !below_max ==> width_command_spec(d, below_max, above_min) !is Grow,
        !above_min ==> width_command_spec(d, below_max, above_min) !is Shrink,
{
}

} // verus!
