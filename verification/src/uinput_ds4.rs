//! The virtual DualShock 4: its identity, its controls and its events.

use crate::gamepad_remap::GamepadFrame;
use crate::uinput::{
    abs_event, axis, dpad_bools_to_hat, key_event, sync_event, AxisSetup, DeviceSpec, InputEvent,
};
use vstd::prelude::*;

verus! {

/// Cross.
pub const BTN_SOUTH: u16 = 0x130;

/// Circle.
pub const BTN_EAST: u16 = 0x131;

/// Triangle.
pub const BTN_NORTH: u16 = 0x133;

/// Square.
pub const BTN_WEST: u16 = 0x134;

/// L1.
pub const BTN_TL: u16 = 0x136;

/// R1.
pub const BTN_TR: u16 = 0x137;

/// Digital click of L2.
pub const BTN_TL2: u16 = 0x138;

/// Digital click of R2.
pub const BTN_TR2: u16 = 0x139;

/// Share.
pub const BTN_SELECT: u16 = 0x13a;

/// Options.
pub const BTN_START: u16 = 0x13b;

/// L3.
pub const BTN_THUMBL: u16 = 0x13d;

/// R3.
pub const BTN_THUMBR: u16 = 0x13e;

/// PS.
pub const BTN_MODE: u16 = 0x13c;

/// Left stick, horizontal.
pub const ABS_X: u16 = 0x00;

/// Left stick, vertical.
pub const ABS_Y: u16 = 0x01;

/// Left trigger.
pub const ABS_Z: u16 = 0x02;

/// Right stick, horizontal.
pub const ABS_RX: u16 = 0x03;

/// Right stick, vertical.
pub const ABS_RY: u16 = 0x04;

/// Right trigger.
pub const ABS_RZ: u16 = 0x05;

/// D-pad, horizontal.
pub const ABS_HAT0X: u16 = 0x10;

/// D-pad, vertical.
pub const ABS_HAT0Y: u16 = 0x11;


/// The buttons of the device.
pub open spec fn keys() -> Seq<u16> {
    seq![
        BTN_SOUTH,
        BTN_EAST,
        BTN_NORTH,
        BTN_WEST,
        BTN_TL,
        BTN_TR,
        BTN_TL2,
        BTN_TR2,
        BTN_SELECT,
        BTN_START,
        BTN_THUMBL,
        BTN_THUMBR,
        BTN_MODE,
    ]
}

/// The axes of the device.
pub open spec fn axes() -> Seq<AxisSetup> {
    seq![
        crate::uinput::axis_range(ABS_X, 0, 255, 128, 2, 8),
        crate::uinput::axis_range(ABS_Y, 0, 255, 128, 2, 8),
        crate::uinput::axis_range(ABS_RX, 0, 255, 128, 2, 8),
        crate::uinput::axis_range(ABS_RY, 0, 255, 128, 2, 8),
        crate::uinput::axis_range(ABS_Z, 0, 255, 0, 0, 0),
        crate::uinput::axis_range(ABS_RZ, 0, 255, 0, 0, 0),
        crate::uinput::axis_range(ABS_HAT0X, -1, 1, 0, 0, 0),
        crate::uinput::axis_range(ABS_HAT0Y, -1, 1, 0, 0, 0),
    ]
}

/// The virtual DualShock 4. It has the vendor and product id of the real pad, by
/// which games recognise it.
pub fn device() -> (r: DeviceSpec)
    ensures
        r.name@ == "Sony Interactive Entertainment Wireless Controller"@,
        (r.vendor, r.product, r.version) == (0x054Cu16, 0x09CCu16, 0x0100u16),
        r.keys@ == keys(),
        r.rels@ == Seq::<u16>::empty(),
        r.axes@ == axes(),
        r.properties@ == Seq::<u32>::empty(),
        r.settle_ms == 500,
{
    DeviceSpec {
        name: "Sony Interactive Entertainment Wireless Controller".to_owned(),
        vendor: 0x054C,
        product: 0x09CC,
        version: 0x0100,
        keys: vec![
            BTN_SOUTH,
            BTN_EAST,
            BTN_NORTH,
            BTN_WEST,
            BTN_TL,
            BTN_TR,
            BTN_TL2,
            BTN_TR2,
            BTN_SELECT,
            BTN_START,
            BTN_THUMBL,
            BTN_THUMBR,
            BTN_MODE,
        ],
        rels: Vec::new(),
        axes: vec![
            axis(ABS_X, 0, 255, 128, 2, 8),
            axis(ABS_Y, 0, 255, 128, 2, 8),
            axis(ABS_RX, 0, 255, 128, 2, 8),
            axis(ABS_RY, 0, 255, 128, 2, 8),
            axis(ABS_Z, 0, 255, 0, 0, 0),
            axis(ABS_RZ, 0, 255, 0, 0, 0),
            axis(ABS_HAT0X, -1, 1, 0, 0, 0),
            axis(ABS_HAT0Y, -1, 1, 0, 0, 0),
        ],
        properties: Vec::new(),
        settle_ms: 500,
    }
}

/// The axis events of a frame.
pub open spec fn axis_events(f: GamepadFrame) -> Seq<InputEvent> {
    seq![
        crate::uinput::abs(ABS_X, f.left_x as i32),
        crate::uinput::abs(ABS_Y, f.left_y as i32),
        crate::uinput::abs(ABS_RX, f.right_x as i32),
        crate::uinput::abs(ABS_RY, f.right_y as i32),
        crate::uinput::abs(ABS_Z, f.l2_analog as i32),
        crate::uinput::abs(ABS_RZ, f.r2_analog as i32),
        crate::uinput::abs(ABS_HAT0X, (crate::uinput::unit(f.dpad_right) - crate::uinput::unit(f.dpad_left)) as i32),
        crate::uinput::abs(ABS_HAT0Y, (crate::uinput::unit(f.dpad_down) - crate::uinput::unit(f.dpad_up)) as i32),
    ]
}

/// The button events of a frame.
pub open spec fn button_events(f: GamepadFrame) -> Seq<InputEvent> {
    seq![
        crate::uinput::key(BTN_SOUTH, f.cross),
        crate::uinput::key(BTN_EAST, f.circle),
        crate::uinput::key(BTN_NORTH, f.triangle),
        crate::uinput::key(BTN_WEST, f.square),
        crate::uinput::key(BTN_TL, f.l1),
        crate::uinput::key(BTN_TR, f.r1),
        crate::uinput::key(BTN_TL2, f.l2_digital),
        crate::uinput::key(BTN_TR2, f.r2_digital),
        crate::uinput::key(BTN_SELECT, f.share),
        crate::uinput::key(BTN_START, f.options),
        crate::uinput::key(BTN_THUMBL, f.l3),
        crate::uinput::key(BTN_THUMBR, f.r3),
        crate::uinput::key(BTN_MODE, f.ps),
    ]
}

/// The events that put the virtual DualShock 4 in the state of a frame.
pub open spec fn ds4_events(f: GamepadFrame) -> Seq<InputEvent> {
    axis_events(f) + button_events(f) + seq![crate::uinput::syn()]
}

fn emit_axes(f: &GamepadFrame) -> (r: Vec<InputEvent>)
    ensures
        r@ == axis_events(*f),
{
    let hat: (i32, i32) = dpad_bools_to_hat(f.dpad_up, f.dpad_down, f.dpad_left, f.dpad_right);
    vec![
        abs_event(ABS_X, f.left_x as i32),
        abs_event(ABS_Y, f.left_y as i32),
        abs_event(ABS_RX, f.right_x as i32),
        abs_event(ABS_RY, f.right_y as i32),
        abs_event(ABS_Z, f.l2_analog as i32),
        abs_event(ABS_RZ, f.r2_analog as i32),
        abs_event(ABS_HAT0X, hat.0),
        abs_event(ABS_HAT0Y, hat.1),
    ]
}

fn emit_buttons(f: &GamepadFrame) -> (r: Vec<InputEvent>)
    ensures
        r@ == button_events(*f),
{
    vec![
        key_event(BTN_SOUTH, f.cross),
        key_event(BTN_EAST, f.circle),
        key_event(BTN_NORTH, f.triangle),
        key_event(BTN_WEST, f.square),
        key_event(BTN_TL, f.l1),
        key_event(BTN_TR, f.r1),
        key_event(BTN_TL2, f.l2_digital),
        key_event(BTN_TR2, f.r2_digital),
        key_event(BTN_SELECT, f.share),
        key_event(BTN_START, f.options),
        key_event(BTN_THUMBL, f.l3),
        key_event(BTN_THUMBR, f.r3),
        key_event(BTN_MODE, f.ps),
    ]
}

/// Lists the events that put the device in the state of the frame.
pub fn emit_gamepad_state(f: &GamepadFrame) -> (r: Vec<InputEvent>)
    ensures
        r@ == ds4_events(*f),
{
    let mut r: Vec<InputEvent> = emit_axes(f);
    let mut buttons = emit_buttons(f);
    r.append(&mut buttons);
    r.push(sync_event());
    r
}

/// Every event of a frame has a code that the device declares and a value
/// inside the declared range.
pub proof fn law_events_declared(f: GamepadFrame, i: int)
    requires
        0 <= i < ds4_events(f).len(),
    ensures
        crate::uinput::declared(ds4_events(f)[i], keys(), axes()),
{
    let e = ds4_events(f)[i];
    if i < 8 {
        assert(axes()[i].code == e.code);
    } else if i < ds4_events(f).len() - 1 {
        assert(keys()[i - 8] == e.code);
    }
}

} // verus!
