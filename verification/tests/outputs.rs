//! What a report sends to which device.

use ds4l::ds4_input::{PadState, TouchFinger};
use ds4l::gamepad_remap::passthrough_frame;
use ds4l::kbm::{apply_kbm_frame, compute_frame, KbmConfig, KbmState, PressedKey};
use ds4l::output::{
    emission_error, keyboard_output, keyboard_sent, pad_output, pointer_output, Part,
};
use ds4l::profile::OutputMode;
use ds4l::session::DeviceKind;
use ds4l::touchpad::{AbsoluteMouseAction, MouseAction, PointerRoute};
use ds4l::uinput_absmouse::position_events;
use ds4l::uinput_ds4::emit_gamepad_state;
use ds4l::uinput_mouse::{click_events, motion_events};
use ds4l::uinput_x360::emit_x360_state;

fn resting() -> PadState {
    PadState { lx: 128, ly: 128, rx: 128, ry: 128, dpad: 8, ..PadState::default() }
}

#[test]
fn pad_part_follows_the_mode() {
    let frame = passthrough_frame(&resting());
    let mut moved = frame;
    moved.right_x = 200;
    moved.right_y = 10;

    let ds4 = pad_output(OutputMode::Gamepad, true, &frame, 200, 10);
    assert_eq!(ds4.len(), 1);
    assert_eq!(ds4[0].part, Part::GamepadState);
    assert_eq!(ds4[0].events, emit_gamepad_state(&moved));

    let x360 = pad_output(OutputMode::Xbox360, true, &frame, 200, 10);
    assert_eq!(x360.len(), 1);
    assert_eq!(x360[0].part, Part::X360State);
    assert_eq!(x360[0].events, emit_x360_state(&moved));

    assert!(pad_output(OutputMode::Kbm, true, &frame, 200, 10).is_empty());
    assert!(pad_output(OutputMode::Gamepad, false, &frame, 200, 10).is_empty());
}

#[test]
fn keyboard_part_and_its_memory() {
    let cfg = KbmConfig::default();
    let mut state = KbmState::default();
    let pad = PadState { cross: true, ..resting() };
    let frame = compute_frame(&pad, &cfg, &mut state);

    assert!(keyboard_output(false, &state, &frame).is_empty());
    let out = keyboard_output(true, &state, &frame);
    assert_eq!(out.len(), 1);
    assert_eq!(out[0].part, Part::KbmFrame);
    assert_eq!(out[0].events, apply_kbm_frame(&state, &frame));

    // Space was not sent, so it is still to be pressed.
    keyboard_sent(&mut state, frame, false);
    assert!(!state.prev_pressed.contains(PressedKey::Key(57)));
    let frame = compute_frame(&pad, &cfg, &mut state);
    keyboard_sent(&mut state, frame, true);
    assert!(state.prev_pressed.contains(PressedKey::Key(57)));
}

#[test]
fn pointer_parts() {
    let pad = PadState {
        touchpad_click: true,
        finger1: TouchFinger { touching: true, contact_id: 3, x: 700, y: 300 },
        ..resting()
    };
    let action = MouseAction::Move { dx: 5, dy: -2 };
    assert!(pointer_output(PointerRoute::Nowhere, action, &pad).is_empty());

    let mouse = pointer_output(PointerRoute::Mouse, action, &pad);
    assert_eq!(mouse.len(), 2);
    assert_eq!((mouse[0].part, mouse[1].part), (Part::MouseMotion, Part::MouseClick));
    assert_eq!(mouse[0].events, motion_events(action));
    assert_eq!(mouse[1].events, click_events(&pad));

    let pointer = pointer_output(PointerRoute::AbsoluteMouse, action, &pad);
    assert_eq!(pointer.len(), 2);
    assert_eq!((pointer[0].part, pointer[1].part), (Part::PointerPosition, Part::PointerClick));
    assert_eq!(pointer[0].events, position_events(AbsoluteMouseAction::Move { x: 700, y: 300 }));
    assert_eq!(pointer[1].events, click_events(&pad));
}

#[test]
fn idle_mouse_still_reports_its_buttons() {
    let out = pointer_output(PointerRoute::Mouse, MouseAction::Idle, &resting());
    assert_eq!(out.len(), 2);
    assert!(out[0].events.is_empty());
    assert_eq!(out[1].events.len(), 3);
}

#[test]
fn parts_have_devices_and_names() {
    let all = [
        (Part::KbmFrame, DeviceKind::Mouse, "KBM frame"),
        (Part::GamepadState, DeviceKind::Ds4, "gamepad state"),
        (Part::X360State, DeviceKind::X360, "Xbox 360 state"),
        (Part::MouseMotion, DeviceKind::Mouse, "mouse motion/scroll"),
        (Part::MouseClick, DeviceKind::Mouse, "mouse click"),
        (Part::PointerPosition, DeviceKind::AbsMouse, "absolute pointer position"),
        (Part::PointerClick, DeviceKind::AbsMouse, "absolute pointer click"),
    ];
    for (part, device, label) in all {
        assert_eq!(part.device(), device);
        assert_eq!(part.label(), label);
    }
    assert_eq!(
        emission_error("ctrl0", Part::MouseClick, "gone"),
        "\n[ctrl0] failed to emit mouse click: gone"
    );
}
