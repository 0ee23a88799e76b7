//! The virtual Xbox 360 pad: its identity, its controls and its events.
//!
//! Its triggers have no digital click, so the clicks of a frame have no place
//! here. Its sticks have a wider range than the frame's bytes.

use crate::gamepad_remap::GamepadFrame;
use crate::uinput::{
    abs_event, axis, dpad_bools_to_hat, key_event, sync_event, AxisSetup, DeviceSpec, InputEvent,
};
use vstd::prelude::*;

verus! {

/// A.
pub const BTN_SOUTH: u16 = 0x130;

/// B.
pub const BTN_EAST: u16 = 0x131;

/// Y.
pub const BTN_NORTH: u16 = 0x133;

/// X.
pub const BTN_WEST: u16 = 0x134;

/// Left bumper.
pub const BTN_TL: u16 = 0x136;

/// Right bumper.
pub const BTN_TR: u16 = 0x137;

/// Back.
pub const BTN_SELECT: u16 = 0x13a;

/// Start.
pub const BTN_START: u16 = 0x13b;

/// Left stick click.
pub const BTN_THUMBL: u16 = 0x13d;

/// Right stick click.
pub const BTN_THUMBR: u16 = 0x13e;

/// Guide.
pub const BTN_MODE: u16 = 0x13c;

/// Left stick, horizontal.
pub const ABS_X: u16 = 0x00;

/// Left stick, vertical.
pub const ABS_Y: u16 = 0x01;

/// Left trigger.
pub const ABS_Z: u16 = 0x02;

/// Right stick, horizontal.
pub const ABS_RX: u16 = 0x03;

/// Right stick, vertical.
pub const ABS_RY: u16 = 0x04;

/// Right trigger.
pub const ABS_RZ: u16 = 0x05;

/// D-pad, horizontal.
pub const ABS_HAT0X: u16 = 0x10;

/// D-pad, vertical.
pub const ABS_HAT0Y: u16 = 0x11;

/// Lowest stick value.
pub const STICK_MIN: i32 = -32768;

/// Highest stick value.
pub const STICK_MAX: i32 = 32767;

/// A stick byte on the wide scale. The halves below and above the centre have
/// scales of their own, so that both ends land on the true extremes.
pub open spec fn rescaled(byte_value: u8) -> i32 {
    (if byte_value < 128 {
        256 * (byte_value - 128)
    } else if byte_value == 255 {
        STICK_MAX as int
    } else {
        258 * (byte_value - 128)
    }) as i32
}

/// Rescales a stick byte (0 to 255, 128 in the centre) to the wide range.
pub fn rescale_stick_axis(byte_value: u8) -> (r: i32)
    ensures
        r == rescaled(byte_value),
{
    let centered: i32 = byte_value as i32 - 128;
    if centered < 0 {
        centered * 256
    } else if byte_value == 255 {
        STICK_MAX
    } else {
        centered * 258
    }
}

/// Rescaling keeps the centre and both extremes, and keeps the order.
pub proof fn law_rescale_exact(a: u8, b: u8)
    ensures
        rescaled(0) == STICK_MIN,
        rescaled(128) == 0,
        rescaled(255) == STICK_MAX,
        STICK_MIN <= rescaled(a) <= STICK_MAX,
        a < b <==> rescaled(a) < rescaled(b),
{
}

/// The buttons of the device.
pub open spec fn keys() -> Seq<u16> {
    seq![
        BTN_SOUTH,
        BTN_EAST,
        BTN_NORTH,
        BTN_WEST,
        BTN_TL,
        BTN_TR,
        BTN_SELECT,
        BTN_START,
        BTN_THUMBL,
        BTN_THUMBR,
        BTN_MODE,
    ]
}

/// The axes of the device.
pub open spec fn axes() -> Seq<AxisSetup> {
    seq![
        crate::uinput::axis_range(ABS_X, STICK_MIN as int, STICK_MAX as int, 0, 16, 128),
        crate::uinput::axis_range(ABS_Y, STICK_MIN as int, STICK_MAX as int, 0, 16, 128),
        crate::uinput::axis_range(ABS_RX, STICK_MIN as int, STICK_MAX as int, 0, 16, 128),
        crate::uinput::axis_range(ABS_RY, STICK_MIN as int, STICK_MAX as int, 0, 16, 128),
        crate::uinput::axis_range(ABS_Z, 0, 255, 0, 0, 0),
        crate::uinput::axis_range(ABS_RZ, 0, 255, 0, 0, 0),
        crate::uinput::axis_range(ABS_HAT0X, -1, 1, 0, 0, 0),
        crate::uinput::axis_range(ABS_HAT0Y, -1, 1, 0, 0, 0),
    ]
}

/// The virtual Xbox 360 pad, with the vendor and product id of the wired pad.
pub fn device() -> (r: DeviceSpec)
    ensures
        r.name@ == "Microsoft X-Box 360 pad"@,
        (r.vendor, r.product, r.version) == (0x045Eu16, 0x028Eu16, 0x0100u16),
        r.keys@ == keys(),
        r.rels@ == Seq::<u16>::empty(),
        r.axes@ == axes(),
        r.properties@ == Seq::<u32>::empty(),
        r.settle_ms == 500,
{
    DeviceSpec {
        name: "Microsoft X-Box 360 pad".to_owned(),
        vendor: 0x045E,
        product: 0x028E,
        version: 0x0100,
        keys: vec![
            BTN_SOUTH,
            BTN_EAST,
            BTN_NORTH,
            BTN_WEST,
            BTN_TL,
            BTN_TR,
            BTN_SELECT,
            BTN_START,
            BTN_THUMBL,
            BTN_THUMBR,
            BTN_MODE,
        ],
        rels: Vec::new(),
        axes: vec![
            axis(ABS_X, STICK_MIN, STICK_MAX, 0, 16, 128),
            axis(ABS_Y, STICK_MIN, STICK_MAX, 0, 16, 128),
            axis(ABS_RX, STICK_MIN, STICK_MAX, 0, 16, 128),
            axis(ABS_RY, STICK_MIN, STICK_MAX, 0, 16, 128),
            axis(ABS_Z, 0, 255, 0, 0, 0),
            axis(ABS_RZ, 0, 255, 0, 0, 0),
            axis(ABS_HAT0X, -1, 1, 0, 0, 0),
            axis(ABS_HAT0Y, -1, 1, 0, 0, 0),
        ],
        properties: Vec::new(),
        settle_ms: 500,
    }
}

/// The axis events of a frame.
pub open spec fn axis_events(f: GamepadFrame) -> Seq<InputEvent> {
    seq![
        crate::uinput::abs(ABS_X, rescaled(f.left_x)),
        crate::uinput::abs(ABS_Y, rescaled(f.left_y)),
        crate::uinput::abs(ABS_RX, rescaled(f.right_x)),
        crate::uinput::abs(ABS_RY, rescaled(f.right_y)),
        crate::uinput::abs(ABS_Z, f.l2_analog as i32),
        crate::uinput::abs(ABS_RZ, f.r2_analog as i32),
        crate::uinput::abs(ABS_HAT0X, (crate::uinput::unit(f.dpad_right) - crate::uinput::unit(f.dpad_left)) as i32),
        crate::uinput::abs(ABS_HAT0Y, (crate::uinput::unit(f.dpad_down) - crate::uinput::unit(f.dpad_up)) as i32),
    ]
}

/// The button events of a frame.
pub open spec fn button_events(f: GamepadFrame) -> Seq<InputEvent> {
    seq![
        crate::uinput::key(BTN_SOUTH, f.cross),
        crate::uinput::key(BTN_EAST, f.circle),
        crate::uinput::key(BTN_NORTH, f.triangle),
        crate::uinput::key(BTN_WEST, f.square),
        crate::uinput::key(BTN_TL, f.l1),
        crate::uinput::key(BTN_TR, f.r1),
        crate::uinput::key(BTN_SELECT, f.share),
        crate::uinput::key(BTN_START, f.options),
        crate::uinput::key(BTN_THUMBL, f.l3),
        crate::uinput::key(BTN_THUMBR, f.r3),
        crate::uinput::key(BTN_MODE, f.ps),
    ]
}

/// The events that put the virtual Xbox 360 pad in the state of a frame.
pub open spec fn x360_events(f: GamepadFrame) -> Seq<InputEvent> {
    axis_events(f) + button_events(f) + seq![crate::uinput::syn()]
}

fn emit_axes(f: &GamepadFrame) -> (r: Vec<InputEvent>)
    ensures
        r@ == axis_events(*f),
{
    let hat: (i32, i32) = dpad_bools_to_hat(f.dpad_up, f.dpad_down, f.dpad_left, f.dpad_right);
    vec![
        abs_event(ABS_X, rescale_stick_axis(f.left_x)),
        abs_event(ABS_Y, rescale_stick_axis(f.left_y)),
        abs_event(ABS_RX, rescale_stick_axis(f.right_x)),
        abs_event(ABS_RY, rescale_stick_axis(f.right_y)),
        abs_event(ABS_Z, f.l2_analog as i32),
        abs_event(ABS_RZ, f.r2_analog as i32),
        abs_event(ABS_HAT0X, hat.0),
        abs_event(ABS_HAT0Y, hat.1),
    ]
}

fn emit_buttons(f: &GamepadFrame) -> (r: Vec<InputEvent>)
    ensures
        r@ == button_events(*f),
{
    vec![
        key_event(BTN_SOUTH, f.cross),
        key_event(BTN_EAST, f.circle),
        key_event(BTN_NORTH, f.triangle),
        key_event(BTN_WEST, f.square),
        key_event(BTN_TL, f.l1),
        key_event(BTN_TR, f.r1),
        key_event(BTN_SELECT, f.share),
        key_event(BTN_START, f.options),
        key_event(BTN_THUMBL, f.l3),
        key_event(BTN_THUMBR, f.r3),
        key_event(BTN_MODE, f.ps),
    ]
}

/// Lists the events that put the device in the state of the frame.
pub fn emit_x360_state(f: &GamepadFrame) -> (r: Vec<InputEvent>)
    ensures
        r@ == x360_events(*f),
{
    let mut r: Vec<InputEvent> = emit_axes(f);
    let mut buttons = emit_buttons(f);
    r.append(&mut buttons);
    r.push(sync_event());
    r
}

/// Every event of a frame has a code that the device declares and a value
/// inside the declared range.
pub proof fn law_events_declared(f: GamepadFrame, i: int)
    requires
        0 <= i < x360_events(f).len(),
    ensures
        crate::uinput::declared(x360_events(f)[i], keys(), axes()),
{
    let e = x360_events(f)[i];
    if i < 8 {
        assert(axes()[i].code == e.code);
    } else if i < x360_events(f).len() - 1 {
        assert(keys()[i - 8] == e.code);
    }
}

} // verus!
