use outlines::controls::{frame_actions, width_command, zoom_steps, HeldKeys, WheelDir,
    WidthCommand};

#[test]
fn zoom_steps_empty_run_is_zero() {
    let events: Vec<WheelDir> = Vec::new();
    assert_eq!(zoom_steps(&events), 0);
}

#[test]
fn zoom_steps_counts_up_and_down() {
    let events = vec![WheelDir::Up, WheelDir::Up, WheelDir::Down];
    assert_eq!(zoom_steps(&events), 1);
}

#[test]
fn zoom_steps_all_down() {
    let events = vec![WheelDir::Down, WheelDir::Down, WheelDir::Down, WheelDir::Down];
    assert_eq!(zoom_steps(&events), -4);
}

#[test]
fn zoom_steps_balanced_run_cancels() {
    let events = vec![WheelDir::Up, WheelDir::Down, WheelDir::Down, WheelDir::Up];
    assert_eq!(zoom_steps(&events), 0);
}

#[test]
fn wheel_zooms_only_without_modifiers() {
    let a = frame_actions(&HeldKeys { time_scale: false, width: false, mode: false });
    assert!(a.zoom);
    assert!(!a.scale_width);
    assert!(!a.scale_time);
    assert!(!a.toggle_mode);
}

#[test]
fn width_key_claims_the_wheel() {
    let a = frame_actions(&HeldKeys { time_scale: false, width: true, mode: false });
    assert!(!a.zoom);
    assert!(a.scale_width);
    assert!(!a.scale_time);
    assert!(!a.toggle_mode);
}

#[test]
fn every_modifier_acts_independently() {
    let a = frame_actions(&HeldKeys { time_scale: true, width: true, mode: true });
    assert!(!a.zoom);
    assert!(a.scale_width);
    assert!(a.scale_time);
    assert!(a.toggle_mode);
}

#[test]
fn width_grows_below_the_upper_bound() {
    assert_eq!(width_command(WheelDir::Up, true, true), WidthCommand::Grow);
}

#[test]
fn width_holds_at_the_upper_bound() {
    assert_eq!(width_command(WheelDir::Up, false, true), WidthCommand::Keep);
}

#[test]
fn width_shrinks_above_the_lower_bound() {
    assert_eq!(width_command(WheelDir::Down, true, true), WidthCommand::Shrink);
}

#[test]
fn width_holds_at_the_lower_bound() {
    assert_eq!(width_command(WheelDir::Down, true, false), WidthCommand::Keep);
}
