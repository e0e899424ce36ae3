//! Control-level model of an animated outline material.
//!
//! An outline material carries a handful of tunable scalar parameters: the
//! outline width, the animation speed, and a flag that says whether the width
//! follows time. A host application drives those parameters from keyboard and
//! mouse-wheel input, and each wheel step changes a parameter by a fixed
//! ratio. This crate holds the exact part of that machinery: the parameter
//! state tracked as signed step counts, the routing of a frame's input to the
//! parameters or to the camera, and the rule that resolves which entity the
//! cursor hovers over. The host turns step counts into float uniforms and
//! performs the rendering.

pub mod controls;
pub mod hover;
pub mod params;
pub mod rim_effect;
