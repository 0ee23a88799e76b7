//! The virtual devices and their events.

use ds4l::ds4_input::{PadState, TouchFinger};
use ds4l::gamepad_remap::GamepadFrame;
use ds4l::profile::OutputMode;
use ds4l::session::gamepad_events;
use ds4l::touchpad::{AbsoluteMouseAction, MouseAction};
use ds4l::uinput::{
    abs_event, axis, creation_steps, destroy_request, dpad_bools_to_hat, ioctl_none, ioctl_w,
    ioctl_w_int, key_event, name_field, rel_event, request_of, sync_event, AxisSetup, InputEvent,
    SetupStep, EV_ABS, EV_KEY, EV_REL, EV_SYN,
};
use ds4l::uinput_absmouse::position_events;
use ds4l::uinput_mouse::{click_events, motion_events};
use ds4l::uinput_x360::{rescale_stick_axis, STICK_MAX, STICK_MIN};

fn frame() -> GamepadFrame {
    GamepadFrame {
        cross: true,
        square: true,
        l2_digital: true,
        ps: true,
        touchpad_click: true,
        dpad_up: true,
        dpad_left: true,
        left_x: 1,
        left_y: 2,
        right_x: 3,
        right_y: 255,
        l2_analog: 5,
        r2_analog: 6,
        ..GamepadFrame::default()
    }
}

fn codes(events: &Vec<InputEvent>) -> Vec<(u16, u16, i32)> {
    events.iter().map(|e| (e.kind, e.code, e.value)).collect()
}

#[test]
fn single_events() {
    assert_eq!(key_event(0x130, true), InputEvent { kind: EV_KEY, code: 0x130, value: 1 });
    assert_eq!(key_event(0x130, false).value, 0);
    assert_eq!(abs_event(5, -7), InputEvent { kind: EV_ABS, code: 5, value: -7 });
    assert_eq!(rel_event(1, 3), InputEvent { kind: EV_REL, code: 1, value: 3 });
    assert_eq!(sync_event(), InputEvent { kind: EV_SYN, code: 0, value: 0 });
    assert_eq!((EV_SYN, EV_KEY, EV_REL, EV_ABS), (0, 1, 2, 3));
}

#[test]
fn ioctl_request_numbers() {
    assert_eq!(ioctl_none(b'U', 1), 0x5501);
    assert_eq!(ioctl_none(b'U', 2), destroy_request());
    assert_eq!(ioctl_w_int(b'U', 100), 0x4004_5564);
    assert_eq!(ioctl_w(b'U', 3, 92), 0x405C_5503);
    assert_eq!(ioctl_w(b'U', 4, 28), 0x401C_5504);
}

#[test]
fn step_requests() {
    assert_eq!(request_of(SetupStep::EventType(EV_KEY)), 0x4004_5564);
    assert_eq!(request_of(SetupStep::Key(1)), 0x4004_5565);
    assert_eq!(request_of(SetupStep::Rel(1)), 0x4004_5566);
    assert_eq!(request_of(SetupStep::Axis(1)), 0x4004_5567);
    assert_eq!(request_of(SetupStep::Property(1)), 0x4004_556E);
    assert_eq!(request_of(SetupStep::AxisRange(axis(0, 0, 1, 0, 0, 0))), 0x401C_5504);
    assert_eq!(request_of(SetupStep::Identity), 0x405C_5503);
    assert_eq!(request_of(SetupStep::Create), 0x5501);
}

#[test]
fn hat_values() {
    assert_eq!(dpad_bools_to_hat(true, false, false, false), (0, -1));
    assert_eq!(dpad_bools_to_hat(false, true, false, true), (1, 1));
    assert_eq!(dpad_bools_to_hat(false, false, true, false), (-1, 0));
    assert_eq!(dpad_bools_to_hat(true, true, true, true), (0, 0));
}

#[test]
fn names_fill_their_field() {
    let f = name_field("ds4l");
    assert_eq!((f[0], f[1], f[2], f[3], f[4], f[79]), (b'd' as i8, b's' as i8, b'4' as i8, b'l' as i8, 0, 0));
    let long = "x".repeat(100);
    assert!(name_field(&long).iter().all(|c| *c == b'x' as i8));
}

#[test]
fn virtual_ds4_declaration() {
    let d = ds4l::uinput_ds4::device();
    assert_eq!(d.name, "Sony Interactive Entertainment Wireless Controller");
    assert_eq!((d.vendor, d.product, d.version, d.settle_ms), (0x054C, 0x09CC, 0x0100, 500));
    assert_eq!(d.keys.len(), 13);
    assert_eq!(d.axes.len(), 8);
    assert_eq!(d.axes[0], AxisSetup { code: 0, minimum: 0, maximum: 255, value: 128, fuzz: 2, flat: 8 });
    assert_eq!(d.axes[7], AxisSetup { code: 0x11, minimum: -1, maximum: 1, value: 0, fuzz: 0, flat: 0 });
}

#[test]
fn virtual_x360_declaration() {
    let d = ds4l::uinput_x360::device();
    assert_eq!(d.name, "Microsoft X-Box 360 pad");
    assert_eq!((d.vendor, d.product), (0x045E, 0x028E));
    assert_eq!(d.keys.len(), 11);
    assert_eq!(d.axes[0], AxisSetup { code: 0, minimum: -32768, maximum: 32767, value: 0, fuzz: 16, flat: 128 });
}

#[test]
fn virtual_pointers_declaration() {
    let m = ds4l::uinput_mouse::device(&vec![30, 31]);
    assert_eq!(m.name, "ds4l Virtual Touchpad Mouse");
    assert_eq!(m.keys, vec![0x110, 0x111, 30, 31]);
    assert_eq!(m.rels, vec![0, 1, 8]);
    assert_eq!((m.vendor, m.product, m.settle_ms), (0x1234, 1, 200));
    let a = ds4l::uinput_absmouse::device();
    assert_eq!(a.name, "ds4l Virtual Absolute Pointer");
    assert_eq!((a.axes[0].maximum, a.axes[1].maximum), (1919, 941));
    assert_eq!(a.properties, vec![1]);
}

#[test]
fn devices_are_created_in_order() {
    let steps = creation_steps(&ds4l::uinput_absmouse::device());
    assert_eq!(
        steps,
        vec![
            SetupStep::EventType(EV_KEY),
            SetupStep::Key(0x110),
            SetupStep::Key(0x111),
            SetupStep::EventType(EV_ABS),
            SetupStep::Axis(0),
            SetupStep::Axis(1),
            SetupStep::Property(1),
            SetupStep::AxisRange(axis(0, 0, 1919, 0, 0, 0)),
            SetupStep::AxisRange(axis(1, 0, 941, 0, 0, 0)),
            SetupStep::Identity,
            SetupStep::Create,
        ]
    );
    let mouse = creation_steps(&ds4l::uinput_mouse::device(&vec![]));
    assert_eq!(mouse[3], SetupStep::EventType(EV_REL));
    assert_eq!(mouse.last(), Some(&SetupStep::Create));
}

#[test]
fn ds4_events_in_order() {
    let e = codes(&ds4l::uinput_ds4::emit_gamepad_state(&frame()));
    assert_eq!(
        e,
        vec![
            (3, 0, 1),
            (3, 1, 2),
            (3, 3, 3),
            (3, 4, 255),
            (3, 2, 5),
            (3, 5, 6),
            (3, 0x10, -1),
            (3, 0x11, -1),
            (1, 0x130, 1),
            (1, 0x131, 0),
            (1, 0x133, 0),
            (1, 0x134, 1),
            (1, 0x136, 0),
            (1, 0x137, 0),
            (1, 0x138, 1),
            (1, 0x139, 0),
            (1, 0x13a, 0),
            (1, 0x13b, 0),
            (1, 0x13d, 0),
            (1, 0x13e, 0),
            (1, 0x13c, 1),
            (0, 0, 0),
        ]
    );
}

#[test]
fn x360_events_in_order() {
    let e = codes(&ds4l::uinput_x360::emit_x360_state(&frame()));
    assert_eq!(e.len(), 20);
    assert_eq!(&e[..4], &[(3, 0, -32512), (3, 1, -32256), (3, 3, -32000), (3, 4, 32767)]);
    assert_eq!(e[8], (1, 0x130, 1));
    assert!(!e.iter().any(|x| x.1 == 0x138 || x.1 == 0x139));
    assert_eq!(e[19], (0, 0, 0));
}

#[test]
fn every_event_is_declared() {
    let d = ds4l::uinput_x360::device();
    for e in ds4l::uinput_x360::emit_x360_state(&frame()) {
        let known = match e.kind {
            EV_KEY => d.keys.contains(&e.code),
            EV_ABS => d.axes.iter().any(|a| a.code == e.code && a.minimum <= e.value && e.value <= a.maximum),
            _ => true,
        };
        assert!(known);
    }
}

#[test]
fn stick_rescaling() {
    assert_eq!(rescale_stick_axis(0), STICK_MIN);
    assert_eq!(rescale_stick_axis(127), -256);
    assert_eq!(rescale_stick_axis(128), 0);
    assert_eq!(rescale_stick_axis(129), 258);
    assert_eq!(rescale_stick_axis(254), 126 * 258);
    assert_eq!(rescale_stick_axis(255), STICK_MAX);
    for b in 0u8..255 {
        assert!(rescale_stick_axis(b) < rescale_stick_axis(b + 1));
    }
}

#[test]
fn gyro_moves_the_output_stick_only() {
    let plain = gamepad_events(OutputMode::Gamepad, &frame(), 3, 255);
    assert_eq!(plain, ds4l::uinput_ds4::emit_gamepad_state(&frame()));
    let moved = gamepad_events(OutputMode::Gamepad, &frame(), 90, 91);
    assert_eq!((moved[2].value, moved[3].value), (90, 91));
    assert_eq!((&moved[..2], &moved[4..]), (&plain[..2], &plain[4..]));
    let xbox = gamepad_events(OutputMode::Xbox360, &frame(), 128, 0);
    assert_eq!((xbox[2].value, xbox[3].value), (0, -32768));
    assert_eq!(gamepad_events(OutputMode::Kbm, &frame(), 1, 1), vec![]);
}

#[test]
fn mouse_events() {
    assert_eq!(motion_events(MouseAction::Idle), vec![]);
    assert_eq!(codes(&motion_events(MouseAction::Move { dx: -1, dy: 2 })), vec![(2, 0, -1), (2, 1, 2), (0, 0, 0)]);
    assert_eq!(codes(&motion_events(MouseAction::Scroll { amount: 3 })), vec![(2, 8, 3), (0, 0, 0)]);
    let finger = TouchFinger { touching: true, contact_id: 0, x: 0, y: 0 };
    let pad = PadState { touchpad_click: true, finger1: finger, finger2: finger, ..PadState::default() };
    assert_eq!(codes(&click_events(&pad)), vec![(1, 0x110, 0), (1, 0x111, 1), (0, 0, 0)]);
}

#[test]
fn absolute_pointer_events() {
    assert_eq!(position_events(AbsoluteMouseAction::Stay), vec![]);
    assert_eq!(
        codes(&position_events(AbsoluteMouseAction::Move { x: 7, y: 8 })),
        vec![(3, 0, 7), (3, 1, 8), (0, 0, 0)]
    );
}
