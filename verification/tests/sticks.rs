//! Gyro activation, the stick's circle and gamepad remapping.

use ds4l::ds4_input::PadState;
use ds4l::gamepad_remap::{
    compute_gamepad_frame, passthrough_frame, AxisDirection, GamepadButton, GamepadFrame,
    GamepadRemapConfig, GamepadTarget, OutputStick, OutputTrigger, StickAnalogSource,
    StickDigitalConfig, TriggerAnalogSource,
};
use ds4l::gyro_stick::{
    blend_and_clamp, update_gate, GateButton, GyroMode, GyroStickConfig, GyroStickState,
};

fn centred() -> PadState {
    PadState { lx: 128, ly: 128, rx: 128, ry: 128, dpad: 8, ..PadState::default() }
}

#[test]
fn gyro_defaults() {
    let cfg = GyroStickConfig::default();
    assert_eq!(cfg.mode, GyroMode::Hold);
    assert_eq!(cfg.gate_button, GateButton::L2);
}

#[test]
fn hold_follows_the_trigger() {
    let cfg = GyroStickConfig::default();
    let mut s = GyroStickState::default();
    assert!(!update_gate(&mut s, &cfg, &PadState { l2_analog: 127, ..centred() }));
    assert!(update_gate(&mut s, &cfg, &PadState { l2_analog: 128, ..centred() }));
    assert!(!update_gate(&mut s, &cfg, &PadState { l2_analog: 0, ..centred() }));
}

#[test]
fn toggle_flips_once_per_press() {
    let cfg = GyroStickConfig { mode: GyroMode::Toggle, gate_button: GateButton::Cross };
    let up = centred();
    let down = PadState { cross: true, ..centred() };
    let mut s = GyroStickState::default();
    assert!(!update_gate(&mut s, &cfg, &up));
    assert!(update_gate(&mut s, &cfg, &down));
    assert!(update_gate(&mut s, &cfg, &down));
    assert!(update_gate(&mut s, &cfg, &up));
    assert!(!update_gate(&mut s, &cfg, &down));
    assert!(!update_gate(&mut s, &cfg, &up));
}

#[test]
fn always_on_and_disabled() {
    let mut s = GyroStickState::default();
    let down = PadState { l2_analog: 255, ..centred() };
    let on = GyroStickConfig { mode: GyroMode::AlwaysOn, gate_button: GateButton::L2 };
    let off = GyroStickConfig { mode: GyroMode::Disabled, gate_button: GateButton::L2 };
    assert!(update_gate(&mut s, &on, &centred()));
    assert!(!update_gate(&mut s, &off, &down));
    assert!(!s.toggle_active);
    assert!(s.prev_gate_pressed);
}

#[test]
fn every_activation_button() {
    let none = centred();
    let cases = [
        (GateButton::L1, PadState { l1: true, ..none }),
        (GateButton::R1, PadState { r1: true, ..none }),
        (GateButton::L2, PadState { l2_analog: 128, ..none }),
        (GateButton::R2, PadState { r2_analog: 128, ..none }),
        (GateButton::L2Digital, PadState { l2_digital: true, ..none }),
        (GateButton::R2Digital, PadState { r2_digital: true, ..none }),
        (GateButton::L3, PadState { l3: true, ..none }),
        (GateButton::R3, PadState { r3: true, ..none }),
        (GateButton::Cross, PadState { cross: true, ..none }),
        (GateButton::Circle, PadState { circle: true, ..none }),
        (GateButton::Square, PadState { square: true, ..none }),
        (GateButton::Triangle, PadState { triangle: true, ..none }),
        (GateButton::Share, PadState { share: true, ..none }),
        (GateButton::Options, PadState { options: true, ..none }),
        (GateButton::Ps, PadState { ps: true, ..none }),
        (GateButton::TouchpadClick, PadState { touchpad_click: true, ..none }),
    ];
    for (i, (button, pad)) in cases.iter().enumerate() {
        assert!(button.is_pressed(pad));
        assert!(!button.is_pressed(&none));
        for (j, (other, _)) in cases.iter().enumerate() {
            assert_eq!(other.is_pressed(pad), i == j);
        }
    }
}

#[test]
fn blend_inside_the_circle() {
    assert_eq!(blend_and_clamp(128, 128, 0, 0), (128, 128));
    assert_eq!(blend_and_clamp(200, 60, 0, 0), (200, 60));
    assert_eq!(blend_and_clamp(128, 128, 1, 0), (255, 128));
    assert_eq!(blend_and_clamp(128, 128, 0, -1), (128, 1));
}

#[test]
fn blend_clamps_to_the_circle() {
    assert_eq!(blend_and_clamp(255, 255, 0, 0), (218, 218));
    assert_eq!(blend_and_clamp(128, 128, 1, 1), (218, 218));
    assert_eq!(blend_and_clamp(128, 128, -1, -1), (38, 38));
    assert_eq!(blend_and_clamp(0, 128, 0, 0), (1, 128));
    assert_eq!(blend_and_clamp(255, 128, 1, 0), (255, 128));
    // Exact against the floating-point formula.
    assert_eq!(blend_and_clamp(10, 240, 0, 0), float_blend(10, 240, 0.0, 0.0));
    assert_eq!(blend_and_clamp(90, 33, 2, -1), float_blend(90, 33, 2.0, -1.0));
}

fn float_blend(x: u8, y: u8, dx: f64, dy: f64) -> (u8, u8) {
    let mut cx = (x as f64 - 128.0) / 127.0 + dx;
    let mut cy = (y as f64 - 128.0) / 127.0 + dy;
    let m = (cx * cx + cy * cy).sqrt();
    if m > 1.0 {
        cx /= m;
        cy /= m;
    }
    (
        (128.0 + cx * 127.0).round().clamp(0.0, 255.0) as u8,
        (128.0 + cy * 127.0).round().clamp(0.0, 255.0) as u8,
    )
}

#[test]
fn blend_agrees_with_floating_point() {
    for x in (0u8..=255).step_by(5) {
        for y in (0u8..=255).step_by(3) {
            for (px, py) in [(0i32, 0i32), (1, 0), (-1, 1), (2, -3)] {
                assert_eq!(
                    blend_and_clamp(x, y, px, py),
                    float_blend(x, y, px as f64, py as f64)
                );
            }
        }
    }
}

#[test]
fn extreme_pushes_stay_on_the_circle() {
    assert_eq!(blend_and_clamp(128, 128, i32::MAX, 0), (255, 128));
    assert_eq!(blend_and_clamp(0, 0, i32::MIN, i32::MIN), (38, 38));
}

#[test]
fn default_remapping_passes_everything_on() {
    let cfg = GamepadRemapConfig::default();
    let pad = PadState {
        lx: 100,
        ly: 140,
        rx: 128,
        ry: 30,
        dpad: 5,
        cross: true,
        l2_digital: true,
        ps: true,
        l2_analog: 77,
        r2_analog: 3,
        ..PadState::default()
    };
    let f = compute_gamepad_frame(&pad, &cfg);
    assert_eq!(f, passthrough_frame(&pad));
    assert!(f.cross && f.l2_digital && f.ps && !f.circle);
    assert!(f.dpad_down && f.dpad_left && !f.dpad_up && !f.dpad_right);
    assert_eq!((f.left_x, f.left_y, f.right_x, f.right_y), (100, 140, 128, 30));
    assert_eq!((f.l2_analog, f.r2_analog), (77, 3));
}

#[test]
fn default_remapping_keeps_the_corners() {
    for (x, y) in [(255u8, 255u8), (0, 128), (0, 0), (128, 0), (10, 240)] {
        let pad = PadState { lx: x, ly: y, rx: y, ry: x, ..centred() };
        let f = compute_gamepad_frame(&pad, &GamepadRemapConfig::default());
        assert_eq!((f.left_x, f.left_y, f.right_x, f.right_y), (x, y, y, x));
        assert_eq!(f, passthrough_frame(&pad));
    }
}

#[test]
fn a_pushed_stick_is_clamped() {
    let cfg = GamepadRemapConfig {
        cross: GamepadTarget::StickPush(OutputStick::Left, AxisDirection::Right),
        circle: GamepadTarget::StickPush(OutputStick::Left, AxisDirection::Left),
        ..GamepadRemapConfig::default()
    };
    let corner = PadState { lx: 128, ly: 255, ..centred() };
    let pushed = compute_gamepad_frame(&PadState { cross: true, ..corner }, &cfg);
    assert_eq!((pushed.left_x, pushed.left_y), (218, 218));
    // Pushes that cancel add nothing, but the stick is pushed, so it is clamped.
    let both = PadState { lx: 255, ly: 255, rx: 255, ry: 255, cross: true, circle: true, ..centred() };
    let f = compute_gamepad_frame(&both, &cfg);
    assert_eq!((f.left_x, f.left_y), (218, 218));
    // The other stick is not pushed and keeps its corner.
    assert_eq!((f.right_x, f.right_y), (255, 255));
}

#[test]
fn buttons_combine() {
    let cfg = GamepadRemapConfig {
        cross: GamepadTarget::Button(GamepadButton::Circle),
        square: GamepadTarget::Button(GamepadButton::Circle),
        circle: GamepadTarget::Unmapped,
        ..GamepadRemapConfig::default()
    };
    let one = compute_gamepad_frame(&PadState { square: true, ..centred() }, &cfg);
    let both = compute_gamepad_frame(&PadState { square: true, cross: true, ..centred() }, &cfg);
    let silenced = compute_gamepad_frame(&PadState { circle: true, ..centred() }, &cfg);
    assert!(one.circle && !one.square);
    assert!(both.circle && !both.cross);
    assert!(!silenced.circle);
}

#[test]
fn pushes_add_up_and_cancel() {
    let cfg = GamepadRemapConfig {
        cross: GamepadTarget::StickPush(OutputStick::Left, AxisDirection::Right),
        circle: GamepadTarget::StickPush(OutputStick::Left, AxisDirection::Up),
        square: GamepadTarget::StickPush(OutputStick::Left, AxisDirection::Left),
        triangle: GamepadTarget::StickPush(OutputStick::Right, AxisDirection::Down),
        ..GamepadRemapConfig::default()
    };
    let right = compute_gamepad_frame(&PadState { cross: true, ..centred() }, &cfg);
    assert_eq!((right.left_x, right.left_y), (255, 128));
    let diagonal = compute_gamepad_frame(&PadState { cross: true, circle: true, ..centred() }, &cfg);
    assert_eq!((diagonal.left_x, diagonal.left_y), (218, 38));
    let cancelled = compute_gamepad_frame(&PadState { cross: true, square: true, ..centred() }, &cfg);
    assert_eq!((cancelled.left_x, cancelled.left_y), (128, 128));
    let other = compute_gamepad_frame(&PadState { triangle: true, ..centred() }, &cfg);
    assert_eq!((other.right_x, other.right_y, other.left_x), (128, 255, 128));
}

#[test]
fn trigger_push_never_weakens() {
    let cfg = GamepadRemapConfig {
        l1: GamepadTarget::TriggerPush(OutputTrigger::L2),
        r1: GamepadTarget::TriggerPush(OutputTrigger::R2),
        ..GamepadRemapConfig::default()
    };
    let f = compute_gamepad_frame(&PadState { l1: true, l2_analog: 20, r2_analog: 9, ..centred() }, &cfg);
    assert_eq!((f.l2_analog, f.r2_analog), (255, 9));
    let g = compute_gamepad_frame(&PadState { r1: true, r2_analog: 9, ..centred() }, &cfg);
    assert_eq!((g.l2_analog, g.r2_analog), (0, 255));
}

#[test]
fn sources_can_be_swapped_or_off() {
    let cfg = GamepadRemapConfig {
        left_stick_analog: StickAnalogSource::Right,
        right_stick_analog: StickAnalogSource::Unmapped,
        l2_analog_target: TriggerAnalogSource::R2,
        r2_analog_target: TriggerAnalogSource::Unmapped,
        ..GamepadRemapConfig::default()
    };
    let pad = PadState { lx: 10, ly: 120, rx: 200, ry: 130, l2_analog: 1, r2_analog: 2, ..centred() };
    let f = compute_gamepad_frame(&pad, &cfg);
    assert_eq!((f.left_x, f.left_y), (200, 130));
    assert_eq!((f.right_x, f.right_y), (128, 128));
    assert_eq!((f.l2_analog, f.r2_analog), (2, 0));
}

#[test]
fn stick_directions_need_the_threshold() {
    let cfg = GamepadRemapConfig {
        left_stick_digital: StickDigitalConfig {
            up: GamepadTarget::Button(GamepadButton::Cross),
            down: GamepadTarget::Button(GamepadButton::Circle),
            left: GamepadTarget::Button(GamepadButton::Square),
            right: GamepadTarget::Button(GamepadButton::Triangle),
            threshold: 64,
        },
        ..GamepadRemapConfig::default()
    };
    let at = |lx: u8, ly: u8| compute_gamepad_frame(&PadState { lx, ly, ..centred() }, &cfg);
    assert!(!at(191, 128).triangle);
    assert!(at(192, 128).triangle);
    assert!(!at(65, 128).square);
    assert!(at(64, 128).square);
    assert!(at(128, 64).cross && !at(128, 65).cross);
    assert!(at(128, 192).circle && !at(128, 191).circle);
    // The analog position still passes through.
    assert_eq!(at(192, 128).left_x, 192);
}

#[test]
fn unused_directions_by_default() {
    let d = StickDigitalConfig::default();
    assert_eq!(d.up, GamepadTarget::Unmapped);
    assert_eq!(d.threshold, 64);
    assert_eq!(GamepadFrame::default().left_x, 0);
}
