//! The touchpad as a pointing device.

use ds4l::ds4_input::{PadState, TouchFinger};
use ds4l::touchpad::{
    click_button_for_finger_count, clicked_buttons, compute_absolute_mouse_action,
    compute_mouse_action, finger_count, pointer_route, track_touch, AbsoluteMouseAction,
    ClickButton, MouseAction, PointerRoute, TouchMotion, TouchpadConfig, TouchpadMode,
    TouchpadMouseState,
};

fn at(x: u16, y: u16) -> TouchFinger {
    TouchFinger { touching: true, contact_id: 0, x, y }
}

fn up() -> TouchFinger {
    TouchFinger::default()
}

#[test]
fn touchpad_default_mode() {
    assert_eq!(TouchpadConfig::default().mode, TouchpadMode::MouseRemap);
}

#[test]
fn one_finger_drags() {
    let mut s = TouchpadMouseState::default();
    assert_eq!(track_touch(&mut s, &at(100, 200), &up()), TouchMotion::Rest);
    assert_eq!(track_touch(&mut s, &at(110, 190), &up()), TouchMotion::Drag { dx: 10, dy: -10 });
    assert_eq!(track_touch(&mut s, &at(110, 190), &up()), TouchMotion::Rest);
    assert_eq!(track_touch(&mut s, &at(111, 190), &up()), TouchMotion::Drag { dx: 1, dy: 0 });
}

#[test]
fn two_fingers_slide() {
    let mut s = TouchpadMouseState::default();
    assert_eq!(track_touch(&mut s, &at(100, 200), &at(5, 5)), TouchMotion::Rest);
    assert_eq!(track_touch(&mut s, &at(150, 240), &at(900, 900)), TouchMotion::Slide { dy: 40 });
    assert_eq!(track_touch(&mut s, &at(160, 240), &at(0, 0)), TouchMotion::Slide { dy: 0 });
}

#[test]
fn a_change_of_fingers_does_not_jump() {
    let mut s = TouchpadMouseState::default();
    track_touch(&mut s, &at(0, 0), &up());
    assert_eq!(track_touch(&mut s, &at(900, 900), &at(1, 1)), TouchMotion::Rest);
    assert_eq!(track_touch(&mut s, &at(10, 10), &up()), TouchMotion::Rest);
    assert_eq!(track_touch(&mut s, &up(), &up()), TouchMotion::Rest);
    assert_eq!(s.prev_finger_count, 0);
    assert_eq!(track_touch(&mut s, &at(700, 700), &up()), TouchMotion::Rest);
}

#[test]
fn dragging_adds_up() {
    let mut s = TouchpadMouseState::default();
    track_touch(&mut s, &at(50, 60), &up());
    let mut total = (0i32, 0i32);
    for (x, y) in [(55u16, 60u16), (55, 70), (40, 71), (41, 99)] {
        if let TouchMotion::Drag { dx, dy } = track_touch(&mut s, &at(x, y), &up()) {
            total = (total.0 + dx, total.1 + dy);
        }
    }
    assert_eq!(total, (41 - 50, 99 - 60));
}

#[test]
fn scaled_motion_becomes_an_action() {
    let drag = TouchMotion::Drag { dx: 3, dy: 4 };
    assert_eq!(compute_mouse_action(drag, 2, 0), MouseAction::Move { dx: 2, dy: 0 });
    assert_eq!(compute_mouse_action(drag, 0, 0), MouseAction::Idle);
    let slide = TouchMotion::Slide { dy: 40 };
    assert_eq!(compute_mouse_action(slide, 0, 2), MouseAction::Scroll { amount: 2 });
    assert_eq!(compute_mouse_action(slide, 9, 0), MouseAction::Idle);
    assert_eq!(compute_mouse_action(TouchMotion::Rest, 9, 9), MouseAction::Idle);
}

#[test]
fn clicks_by_finger_count() {
    assert_eq!(click_button_for_finger_count(0), None);
    assert_eq!(click_button_for_finger_count(1), Some(ClickButton::Left));
    assert_eq!(click_button_for_finger_count(2), Some(ClickButton::Right));
    assert_eq!(click_button_for_finger_count(3), None);
    assert_eq!(finger_count(&at(0, 0), &up()), 1);
    assert_eq!(finger_count(&at(0, 0), &at(0, 0)), 2);
}

#[test]
fn held_mouse_buttons() {
    let one = PadState { touchpad_click: true, finger1: at(1, 1), ..PadState::default() };
    let two = PadState { finger2: at(2, 2), ..one };
    let none = PadState { touchpad_click: true, ..PadState::default() };
    assert_eq!(clicked_buttons(&one), (true, false));
    assert_eq!(clicked_buttons(&two), (false, true));
    assert_eq!(clicked_buttons(&none), (false, false));
    assert_eq!(clicked_buttons(&PadState { touchpad_click: false, ..one }), (false, false));
}

#[test]
fn absolute_position_is_forwarded() {
    assert_eq!(compute_absolute_mouse_action(&at(1919, 941)), AbsoluteMouseAction::Move { x: 1919, y: 941 });
    assert_eq!(compute_absolute_mouse_action(&up()), AbsoluteMouseAction::Stay);
}

#[test]
fn output_goes_to_the_right_device() {
    assert_eq!(pointer_route(TouchpadMode::MouseRemap, true, true), PointerRoute::Mouse);
    assert_eq!(pointer_route(TouchpadMode::MouseRemap, false, true), PointerRoute::Nowhere);
    assert_eq!(pointer_route(TouchpadMode::AbsoluteMouse, true, true), PointerRoute::AbsoluteMouse);
    assert_eq!(pointer_route(TouchpadMode::AbsoluteMouse, true, false), PointerRoute::Nowhere);
    assert_eq!(pointer_route(TouchpadMode::Passthrough, true, true), PointerRoute::Nowhere);
    assert_eq!(pointer_route(TouchpadMode::Disabled, true, true), PointerRoute::Nowhere);
}
