//! What the virtual devices are told, code by code.
//!
//! Kinds and codes are those of the kernel's input interface: kind 1 is a key or
//! button, 2 a relative axis, 3 an absolute axis, and 0 ends a report.

use crate::gamepad_remap::GamepadFrame;
use crate::touchpad::{AbsoluteMouseAction, MouseAction, PointerRoute};
use crate::uinput::{
    name_byte, request_number, steps_for, DeviceSpec, InputEvent, SetupStep,
};
use vstd::prelude::*;

verus! {

/// Whether a report tells a code and gives it this value and no other.
pub open spec fn shows(events: Seq<InputEvent>, kind: u16, code: u16, value: int) -> bool {
    &&& exists|i: int|
        0 <= i < events.len() && (#[trigger] events[i]).kind == kind && events[i].code == code
    &&& forall|i: int|
        0 <= i < events.len() && (#[trigger] events[i]).kind == kind && events[i].code == code
            ==> events[i].value == value
}

/// Whether a report tells that a button is down or up.
pub open spec fn shows_button(events: Seq<InputEvent>, code: u16, down: bool) -> bool {
    shows(
        events,
        1,
        code,
        if down {
            1
        } else {
            0
        },
    )
}

/// Whether a report tells where the d-pad leans: to the right and down count up,
/// and opposite directions cancel.
pub open spec fn shows_dpad(events: Seq<InputEvent>, f: GamepadFrame) -> bool {
    &&& f.dpad_left == f.dpad_right ==> shows(events, 3, 0x10, 0)
    &&& f.dpad_left && !f.dpad_right ==> shows(events, 3, 0x10, -1)
    &&& !f.dpad_left && f.dpad_right ==> shows(events, 3, 0x10, 1)
    &&& f.dpad_up == f.dpad_down ==> shows(events, 3, 0x11, 0)
    &&& f.dpad_up && !f.dpad_down ==> shows(events, 3, 0x11, -1)
    &&& !f.dpad_up && f.dpad_down ==> shows(events, 3, 0x11, 1)
}

/// Whether a report ends where it should, and nowhere before.
pub open spec fn ends_once(events: Seq<InputEvent>) -> bool {
    &&& events.len() > 0
    &&& events.last() == (InputEvent { kind: 0, code: 0, value: 0 })
    &&& forall|i: int| 0 <= i < events.len() - 1 ==> (#[trigger] events[i]).kind != 0
}

/// Each control of a frame reaches its own code of the virtual Xbox 360 pad. The pad has no
/// place for the clicks of the triggers and of the touchpad.
pub proof fn law_x360_shows_every_control(f: GamepadFrame)
    ensures
        ({
            let e = crate::uinput_x360::x360_events(f);
            &&& e.len() == 20
            &&& ends_once(e)
            &&& shows(e, 3, 0, crate::uinput_x360::rescaled(f.left_x) as int)
            &&& shows(e, 3, 1, crate::uinput_x360::rescaled(f.left_y) as int)
            &&& shows(e, 3, 3, crate::uinput_x360::rescaled(f.right_x) as int)
            &&& shows(e, 3, 4, crate::uinput_x360::rescaled(f.right_y) as int)
            &&& shows(e, 3, 2, f.l2_analog as int)
            &&& shows(e, 3, 5, f.r2_analog as int)
            &&& shows_dpad(e, f)
            &&& shows_button(e, 0x130, f.cross)
            &&& shows_button(e, 0x131, f.circle)
            &&& shows_button(e, 0x133, f.triangle)
            &&& shows_button(e, 0x134, f.square)
            &&& shows_button(e, 0x136, f.l1)
            &&& shows_button(e, 0x137, f.r1)
            &&& shows_button(e, 0x13a, f.share)
            &&& shows_button(e, 0x13b, f.options)
            &&& shows_button(e, 0x13d, f.l3)
            &&& shows_button(e, 0x13e, f.r3)
            &&& shows_button(e, 0x13c, f.ps)
        }),
{
    let e = crate::uinput_x360::x360_events(f);
    assert(e[0].kind == 3 && e[0].code == 0);
    assert(e[1].kind == 3 && e[1].code == 1);
    assert(e[2].kind == 3 && e[2].code == 3);
    assert(e[3].kind == 3 && e[3].code == 4);
    assert(e[4].kind == 3 && e[4].code == 2);
    assert(e[5].kind == 3 && e[5].code == 5);
    assert(e[6].kind == 3 && e[6].code == 16);
    assert(e[7].kind == 3 && e[7].code == 17);
    assert(e[8].kind == 1 && e[8].code == 0x130);
    assert(e[9].kind == 1 && e[9].code == 0x131);
    assert(e[10].kind == 1 && e[10].code == 0x133);
    assert(e[11].kind == 1 && e[11].code == 0x134);
    assert(e[12].kind == 1 && e[12].code == 0x136);
    assert(e[13].kind == 1 && e[13].code == 0x137);
    assert(e[14].kind == 1 && e[14].code == 0x13a);
    assert(e[15].kind == 1 && e[15].code == 0x13b);
    assert(e[16].kind == 1 && e[16].code == 0x13d);
    assert(e[17].kind == 1 && e[17].code == 0x13e);
    assert(e[18].kind == 1 && e[18].code == 0x13c);
    assert(e[19].kind == 0);
}

/// Each control of a frame reaches its own code of the virtual DualShock 4.
pub proof fn law_ds4_shows_every_control(f: GamepadFrame)
    ensures
        ({
            let e = crate::uinput_ds4::ds4_events(f);
            &&& e.len() == 22
            &&& ends_once(e)
            &&& shows(e, 3, 0, f.left_x as int)
            &&& shows(e, 3, 1, f.left_y as int)
            &&& shows(e, 3, 3, f.right_x as int)
            &&& shows(e, 3, 4, f.right_y as int)
            &&& shows(e, 3, 2, f.l2_analog as int)
            &&& shows(e, 3, 5, f.r2_analog as int)
            &&& shows_dpad(e, f)
            &&& shows_button(e, 0x130, f.cross)
            &&& shows_button(e, 0x131, f.circle)
            &&& shows_button(e, 0x133, f.triangle)
            &&& shows_button(e, 0x134, f.square)
            &&& shows_button(e, 0x136, f.l1)
            &&& shows_button(e, 0x137, f.r1)
            &&& shows_button(e, 0x138, f.l2_digital)
            &&& shows_button(e, 0x139, f.r2_digital)
            &&& shows_button(e, 0x13a, f.share)
            &&& shows_button(e, 0x13b, f.options)
            &&& shows_button(e, 0x13d, f.l3)
            &&& shows_button(e, 0x13e, f.r3)
            &&& shows_button(e, 0x13c, f.ps)
        }),
{
    let e = crate::uinput_ds4::ds4_events(f);
    assert(e[0].kind == 3 && e[0].code == 0);
    assert(e[1].kind == 3 && e[1].code == 1);
    assert(e[2].kind == 3 && e[2].code == 3);
    assert(e[3].kind == 3 && e[3].code == 4);
    assert(e[4].kind == 3 && e[4].code == 2);
    assert(e[5].kind == 3 && e[5].code == 5);
    assert(e[6].kind == 3 && e[6].code == 16);
    assert(e[7].kind == 3 && e[7].code == 17);
    assert(e[8].kind == 1 && e[8].code == 0x130);
    assert(e[9].kind == 1 && e[9].code == 0x131);
    assert(e[10].kind == 1 && e[10].code == 0x133);
    assert(e[11].kind == 1 && e[11].code == 0x134);
    assert(e[12].kind == 1 && e[12].code == 0x136);
    assert(e[13].kind == 1 && e[13].code == 0x137);
    assert(e[14].kind == 1 && e[14].code == 0x138);
    assert(e[15].kind == 1 && e[15].code == 0x139);
    assert(e[16].kind == 1 && e[16].code == 0x13a);
    assert(e[17].kind == 1 && e[17].code == 0x13b);
    assert(e[18].kind == 1 && e[18].code == 0x13d);
    assert(e[19].kind == 1 && e[19].code == 0x13e);
    assert(e[20].kind == 1 && e[20].code == 0x13c);
    assert(e[21].kind == 0);
}

/// A stick byte on the wide scale is the whole number that the scale of its half
/// gives: 32768 over 128 steps below the centre, and 32767 over 127 steps above
/// it, cut off to whole numbers.
pub proof fn law_rescale_is_linear(b: u8)
    ensures
        b <= 128 ==> crate::uinput_x360::rescaled(b) == 256 * (b - 128),
        b >= 128 ==> 0 <= 32767 * (b - 128) - 127 * crate::uinput_x360::rescaled(b) < 127,
{
}

/// The declared ranges are those that the values have: bytes on the virtual
/// DualShock 4, the wide scale on the sticks of the Xbox 360 pad and bytes on its
/// triggers, and one step either way on a d-pad.
pub proof fn law_ranges_fit_the_values(i: int, v: int)
    requires
        0 <= i < 8,
    ensures
        ({
            let a = crate::uinput_ds4::axes();
            let x = crate::uinput_x360::axes();
            let byte = 0 <= v <= 255;
            let step = -1 <= v <= 1;
            &&& a.len() == 8 && x.len() == 8
            &&& (a[i].code, x[i].code) == (seq![0u16, 1, 3, 4, 2, 5, 0x10, 0x11][i], seq![
                0u16,
                1,
                3,
                4,
                2,
                5,
                0x10,
                0x11,
            ][i])
            &&& (a[i].minimum <= v <= a[i].maximum) == (if i < 6 {
                byte
            } else {
                step
            })
            &&& (x[i].minimum <= v <= x[i].maximum) == (if i < 4 {
                crate::uinput_x360::rescaled(0) <= v <= crate::uinput_x360::rescaled(255)
            } else if i < 6 {
                byte
            } else {
                step
            })
            &&& a[i].value == (if i < 4 {
                128int
            } else {
                0
            })
            &&& x[i].value == 0
            &&& (a[i].fuzz, a[i].flat) == (if i < 4 {
                (2i32, 8i32)
            } else {
                (0i32, 0i32)
            })
            &&& (x[i].fuzz, x[i].flat) == (if i < 4 {
                (16i32, 128i32)
            } else {
                (0i32, 0i32)
            })
        }),
{
}

/// A mouse is told what an action says: a move along both axes, a scroll on the
/// wheel, and an idle report nothing at all.
pub proof fn law_mouse_is_told_the_action(action: MouseAction)
    ensures
        ({
            let e = crate::uinput_mouse::action_events(action);
            match action {
                MouseAction::Idle => e.len() == 0,
                MouseAction::Move { dx, dy } => e.len() == 3 && ends_once(e) && shows(
                    e,
                    2,
                    0,
                    dx as int,
                ) && shows(e, 2, 1, dy as int),
                MouseAction::Scroll { amount } => e.len() == 2 && ends_once(e) && shows(
                    e,
                    2,
                    8,
                    amount as int,
                ),
            }
        }),
{
    let e = crate::uinput_mouse::action_events(action);
    match action {
        MouseAction::Idle => {},
        MouseAction::Move { .. } => {
            assert(e[0].kind == 2 && e[0].code == 0);
            assert(e[1].kind == 2 && e[1].code == 1);
        },
        MouseAction::Scroll { .. } => {
            assert(e[0].kind == 2 && e[0].code == 8);
        },
    }
}

/// A pointer is told both its buttons in every report: the left one is down on a
/// click with one finger and the right one on a click with two.
pub proof fn law_pointer_is_told_the_clicks(pad: crate::ds4_input::PadState)
    ensures
        ({
            let e = crate::uinput_mouse::button_events(pad);
            let one = pad.finger1.touching != pad.finger2.touching;
            let two = pad.finger1.touching && pad.finger2.touching;
            &&& e.len() == 3
            &&& ends_once(e)
            &&& shows_button(e, 0x110, pad.touchpad_click && one)
            &&& shows_button(e, 0x111, pad.touchpad_click && two)
        }),
{
    let e = crate::uinput_mouse::button_events(pad);
    assert(e[0].kind == 1 && e[0].code == 0x110);
    assert(e[1].kind == 1 && e[1].code == 0x111);
}

/// The absolute pointer is told where the finger is, along both axes, and nothing
/// without a finger.
pub proof fn law_pointer_is_told_the_finger(finger: crate::ds4_input::TouchFinger)
    ensures
        ({
            let e = crate::uinput_absmouse::finger_events(finger);
            if finger.touching {
                e.len() == 3 && ends_once(e) && shows(e, 3, 0, finger.x as int) && shows(
                    e,
                    3,
                    1,
                    finger.y as int,
                )
            } else {
                e.len() == 0
            }
        }),
{
    let e = crate::uinput_absmouse::finger_events(finger);
    if finger.touching {
        assert(e[0].kind == 3 && e[0].code == 0);
        assert(e[1].kind == 3 && e[1].code == 1);
    }
}

/// The absolute pointer is told the position that an action says.
pub proof fn law_pointer_is_told_the_action(action: AbsoluteMouseAction)
    ensures
        ({
            let e = crate::uinput_absmouse::action_events(action);
            match action {
                AbsoluteMouseAction::Stay => e.len() == 0,
                AbsoluteMouseAction::Move { x, y } => e.len() == 3 && ends_once(e) && shows(
                    e,
                    3,
                    0,
                    x as int,
                ) && shows(e, 3, 1, y as int),
            }
        }),
{
    let e = crate::uinput_absmouse::action_events(action);
    if action is Move {
        assert(e[0].kind == 3 && e[0].code == 0);
        assert(e[1].kind == 3 && e[1].code == 1);
    }
}

/// An event says what it was made of.
pub proof fn law_events_keep_their_parts(code: u16, value: i32, pressed: bool)
    ensures
        crate::uinput::abs(code, value) == (InputEvent { kind: 3, code, value }),
        crate::uinput::rel(code, value) == (InputEvent { kind: 2, code, value }),
        crate::uinput::key(code, pressed).kind == 1 && crate::uinput::key(code, pressed).code == code,
        crate::uinput::key(code, pressed).value == 1 <==> pressed,
        crate::uinput::key(code, pressed).value == 0 <==> !pressed,
{
}

/// The pad is told the frame with the right stick where gyro motion put it, on
/// the device of the output mode; keyboard output tells no pad anything.
pub proof fn law_pad_is_told_the_frame(
    mode: crate::profile::OutputMode,
    frame: GamepadFrame,
    right_x: u8,
    right_y: u8,
)
    ensures
        ({
            let sent = crate::output::pad_emissions(mode, true, frame, right_x, right_y);
            match mode {
                crate::profile::OutputMode::Gamepad => {
                    &&& sent.len() == 1
                    &&& sent[0].0.goes_to() == crate::session::DeviceKind::Ds4
                    &&& shows(sent[0].1, 3, 0, frame.left_x as int)
                    &&& shows(sent[0].1, 3, 1, frame.left_y as int)
                    &&& shows(sent[0].1, 3, 3, right_x as int)
                    &&& shows(sent[0].1, 3, 4, right_y as int)
                    &&& shows(sent[0].1, 3, 2, frame.l2_analog as int)
                    &&& shows_button(sent[0].1, 0x130, frame.cross)
                    &&& sent[0].1 == crate::uinput_ds4::ds4_events(
                        GamepadFrame { right_x, right_y, ..frame },
                    )
                },
                crate::profile::OutputMode::Xbox360 => {
                    &&& sent.len() == 1
                    &&& sent[0].0.goes_to() == crate::session::DeviceKind::X360
                    &&& shows(sent[0].1, 3, 3, crate::uinput_x360::rescaled(right_x) as int)
                    &&& shows(sent[0].1, 3, 4, crate::uinput_x360::rescaled(right_y) as int)
                    &&& shows_button(sent[0].1, 0x130, frame.cross)
                    &&& sent[0].1 == crate::uinput_x360::x360_events(
                        GamepadFrame { right_x, right_y, ..frame },
                    )
                },
                crate::profile::OutputMode::Kbm => sent.len() == 0,
            }
        }),
        crate::output::pad_emissions(mode, false, frame, right_x, right_y).len() == 0,
{
    let moved = GamepadFrame { right_x, right_y, ..frame };
    law_ds4_shows_every_control(moved);
    law_x360_shows_every_control(moved);
}

/// The pointer that the touchpad drives is told its motion first and its buttons
/// next, all on one device: the mouse the action, the absolute pointer the first
/// contact. Without a pointer nothing is told.
pub proof fn law_pointer_is_told_motion_then_clicks(
    route: PointerRoute,
    action: MouseAction,
    pad: crate::ds4_input::PadState,
)
    ensures
        ({
            let sent = crate::output::pointer_emissions(route, action, pad);
            let clicks = crate::uinput_mouse::button_events(pad);
            match route {
                PointerRoute::Nowhere => sent.len() == 0,
                PointerRoute::Mouse => {
                    &&& sent.len() == 2
                    &&& sent[0].0.goes_to() == crate::session::DeviceKind::Mouse
                    &&& sent[1].0.goes_to() == crate::session::DeviceKind::Mouse
                    &&& sent[0].1 == crate::uinput_mouse::action_events(action)
                    &&& sent[1].1 == clicks
                },
                PointerRoute::AbsoluteMouse => {
                    &&& sent.len() == 2
                    &&& sent[0].0.goes_to() == crate::session::DeviceKind::AbsMouse
                    &&& sent[1].0.goes_to() == crate::session::DeviceKind::AbsMouse
                    &&& sent[0].1 == crate::uinput_absmouse::finger_events(pad.finger1)
                    &&& sent[1].1 == clicks
                },
            }
        }),
{
}

/// Each kind of output goes to the device that has its controls.
pub proof fn law_part_goes_to_its_device(part: crate::output::Part)
    ensures
        part.goes_to() == crate::session::DeviceKind::Ds4 <==> part
            == crate::output::Part::GamepadState,
        part.goes_to() == crate::session::DeviceKind::X360 <==> part
            == crate::output::Part::X360State,
        part.goes_to() == crate::session::DeviceKind::AbsMouse <==> part
            == crate::output::Part::PointerPosition || part == crate::output::Part::PointerClick,
{
}

/// Whether a request comes before another among the steps.
pub open spec fn before(steps: Seq<SetupStep>, a: SetupStep, b: SetupStep) -> bool {
    exists|i: int, j: int|
        0 <= i < j < steps.len() && #[trigger] steps[i] == a && #[trigger] steps[j] == b
}

/// A device declares every code it has, behind the event type of the code, and
/// every range and property, all before it is created.
pub proof fn law_device_declares_all(d: DeviceSpec, n: int)
    ensures
        0 <= n < d.keys@.len() ==> before(
            steps_for(d),
            SetupStep::EventType(1),
            SetupStep::Key(d.keys@[n]),
        ) && before(steps_for(d), SetupStep::Key(d.keys@[n]), SetupStep::Create),
        0 <= n < d.rels@.len() ==> before(
            steps_for(d),
            SetupStep::EventType(2),
            SetupStep::Rel(d.rels@[n]),
        ) && before(steps_for(d), SetupStep::Rel(d.rels@[n]), SetupStep::Create),
        0 <= n < d.axes@.len() ==> before(
            steps_for(d),
            SetupStep::EventType(3),
            SetupStep::Axis(d.axes@[n].code),
        ) && before(
            steps_for(d),
            SetupStep::Axis(d.axes@[n].code),
            SetupStep::AxisRange(d.axes@[n]),
        ) && before(steps_for(d), SetupStep::AxisRange(d.axes@[n]), SetupStep::Create),
        0 <= n < d.properties@.len() ==> before(
            steps_for(d),
            SetupStep::Property(d.properties@[n]),
            SetupStep::Create,
        ),
{
    let s = steps_for(d);
    let k = crate::uinput::key_steps_of(d.keys@);
    let r = crate::uinput::rel_steps_of(d.rels@);
    let a = crate::uinput::axis_steps_of(d.axes@);
    let p = crate::uinput::property_steps_of(d.properties@);
    let g = crate::uinput::range_steps_of(d.axes@);
    let last = s.len() - 1;
    assert(s[last] == SetupStep::Create);
    if 0 <= n < d.keys@.len() {
        assert(s[0] == k[0]);
        assert(s[1 + n] == k[1 + n]);
        assert(s[0] == SetupStep::EventType(1));
        assert(s[1 + n] == SetupStep::Key(d.keys@[n]));
    }
    let at = k.len() as int;
    if 0 <= n < d.rels@.len() {
        assert(s[at] == r[0]);
        assert(s[at + 1 + n] == r[1 + n]);
        assert(s[at] == SetupStep::EventType(2));
        assert(s[at + 1 + n] == SetupStep::Rel(d.rels@[n]));
    }
    let at = (k.len() + r.len()) as int;
    if 0 <= n < d.axes@.len() {
        let from = at + a.len() + p.len();
        assert(s[at] == a[0]);
        assert(s[at + 1 + n] == a[1 + n]);
        assert(s[from + n] == g[n]);
        assert(s[at] == SetupStep::EventType(3));
        assert(s[at + 1 + n] == SetupStep::Axis(d.axes@[n].code));
        assert(s[from + n] == SetupStep::AxisRange(d.axes@[n]));
    }
    let at = (k.len() + r.len() + a.len()) as int;
    if 0 <= n < d.properties@.len() {
        assert(s[at + n] == p[n]);
        assert(s[at + n] == SetupStep::Property(d.properties@[n]));
    }
}

/// Nothing is declared that the device does not have.
pub proof fn law_device_declares_no_more(d: DeviceSpec, i: int)
    requires
        0 <= i < steps_for(d).len(),
    ensures
        match steps_for(d)[i] {
            SetupStep::EventType(kind) => (kind == 1 && d.keys@.len() > 0) || (kind == 2
                && d.rels@.len() > 0) || (kind == 3 && d.axes@.len() > 0),
            SetupStep::Key(c) => d.keys@.contains(c),
            SetupStep::Rel(c) => d.rels@.contains(c),
            SetupStep::Axis(c) => exists|n: int|
                0 <= n < d.axes@.len() && (#[trigger] d.axes@[n]).code == c,
            SetupStep::AxisRange(a) => d.axes@.contains(a),
            SetupStep::Property(p) => d.properties@.contains(p),
            _ => true,
        },
{
    let k = crate::uinput::key_steps_of(d.keys@);
    let r = crate::uinput::rel_steps_of(d.rels@);
    let a = crate::uinput::axis_steps_of(d.axes@);
    let p = crate::uinput::property_steps_of(d.properties@);
    let g = crate::uinput::range_steps_of(d.axes@);
    let step = steps_for(d)[i];
    if i < k.len() {
        assert(step == k[i]);
        if i > 0 {
            assert(k[i] == SetupStep::Key(d.keys@[i - 1]));
        }
    } else if i < k.len() + r.len() {
        let j = i - k.len();
        assert(step == r[j]);
        if j > 0 {
            assert(r[j] == SetupStep::Rel(d.rels@[j - 1]));
        }
    } else if i < k.len() + r.len() + a.len() {
        let j = i - k.len() - r.len();
        assert(step == a[j]);
        if j > 0 {
            assert(a[j] == SetupStep::Axis(d.axes@[j - 1].code));
        }
    } else if i < k.len() + r.len() + a.len() + p.len() {
        let j = i - k.len() - r.len() - a.len();
        assert(step == p[j]);
        assert(p[j] == SetupStep::Property(d.properties@[j]));
    } else if i < k.len() + r.len() + a.len() + p.len() + g.len() {
        let j = i - k.len() - r.len() - a.len() - p.len();
        assert(step == g[j]);
        assert(g[j] == SetupStep::AxisRange(d.axes@[j]));
    }
}

/// The requests have the numbers that the kernel gives them: the family in the
/// second byte, the number in the first, and for those that hand something over
/// its size from the seventeenth bit on below the direction bit.
pub proof fn law_request_numbers(step: SetupStep)
    ensures
        request_number(step) == (match step {
            SetupStep::EventType(_) => 0x4004_5564int,
            SetupStep::Key(_) => 0x4004_5565,
            SetupStep::Rel(_) => 0x4004_5566,
            SetupStep::Axis(_) => 0x4004_5567,
            SetupStep::Property(_) => 0x4004_556E,
            SetupStep::AxisRange(_) => 0x401C_5504,
            SetupStep::Identity => 0x405C_5503,
            SetupStep::Create => 0x5501,
        }),
{
}

/// A name field holds the name: its letters in order and zeros behind them, so a
/// name that fits reads back as it is.
pub proof fn law_name_field_holds_the_name(name: Seq<char>, i: int)
    requires
        0 <= i < 80,
    ensures
        i < name.len() ==> name_byte(name, i) == name[i] as int,
        i >= name.len() ==> name_byte(name, i) == 0,
{
}

/// A pad declares exactly the buttons that its reports tell.
pub proof fn law_declared_buttons_are_told(f: GamepadFrame, c: u16)
    ensures
        crate::uinput_ds4::keys().contains(c) <==> exists|i: int|
            0 <= i < crate::uinput_ds4::ds4_events(f).len() && (
            #[trigger] crate::uinput_ds4::ds4_events(f)[i]).kind == 1
                && crate::uinput_ds4::ds4_events(f)[i].code == c,
        crate::uinput_x360::keys().contains(c) <==> exists|i: int|
            0 <= i < crate::uinput_x360::x360_events(f).len() && (
            #[trigger] crate::uinput_x360::x360_events(f)[i]).kind == 1
                && crate::uinput_x360::x360_events(f)[i].code == c,
{
    let d = crate::uinput_ds4::ds4_events(f);
    let x = crate::uinput_x360::x360_events(f);
    let dk = crate::uinput_ds4::keys();
    let xk = crate::uinput_x360::keys();
    if dk.contains(c) {
        let i = choose|i: int| 0 <= i < dk.len() && dk[i] == c;
        assert(d[8 + i].kind == 1 && d[8 + i].code == c);
    }
    if exists|i: int| 0 <= i < d.len() && (#[trigger] d[i]).kind == 1 && d[i].code == c {
        let i = choose|i: int| 0 <= i < d.len() && (#[trigger] d[i]).kind == 1 && d[i].code == c;
        assert(dk[i - 8] == c);
    }
    if xk.contains(c) {
        let i = choose|i: int| 0 <= i < xk.len() && xk[i] == c;
        assert(x[8 + i].kind == 1 && x[8 + i].code == c);
    }
    if exists|i: int| 0 <= i < x.len() && (#[trigger] x[i]).kind == 1 && x[i].code == c {
        let i = choose|i: int| 0 <= i < x.len() && (#[trigger] x[i]).kind == 1 && x[i].code == c;
        assert(xk[i - 8] == c);
    }
}

/// The absolute pointer's range is the surface of the touchpad, 1920 by 942.
pub proof fn law_pointer_range_is_the_surface(x: int, y: int)
    ensures
        0 <= x <= crate::uinput_absmouse::TOUCHPAD_MAX_X <==> 0 <= x < 1920,
        0 <= y <= crate::uinput_absmouse::TOUCHPAD_MAX_Y <==> 0 <= y < 942,
{
}

} // verus!
