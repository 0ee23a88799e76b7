//! The virtual absolute pointer, which positions the cursor like a touch screen.

use crate::ds4_input::TouchFinger;
use crate::touchpad::AbsoluteMouseAction;
use crate::uinput::{abs_event, axis, sync_event, DeviceSpec, InputEvent};
use vstd::prelude::*;

verus! {

pub const BTN_LEFT: u16 = 0x110;

pub const BTN_RIGHT: u16 = 0x111;

pub const ABS_X: u16 = 0x00;

pub const ABS_Y: u16 = 0x01;

/// Highest horizontal position of the touchpad.
pub const TOUCHPAD_MAX_X: i32 = 1919;

/// Highest vertical position of the touchpad.
pub const TOUCHPAD_MAX_Y: i32 = 941;

/// The property that makes a touched spot warp the cursor there.
pub const INPUT_PROP_DIRECT: u32 = 0x01;

/// The virtual absolute pointer. Its range is the touchpad's own, so positions
/// need no rescaling.
pub fn device() -> (r: DeviceSpec)
    ensures
        r.name@ == "ds4l Virtual Absolute Pointer"@,
        (r.vendor, r.product, r.version) == (0x1234u16, 0x0002u16, 0x0100u16),
        r.keys@ == seq![BTN_LEFT, BTN_RIGHT],
        r.rels@ == Seq::<u16>::empty(),
        r.axes@ == seq![
            crate::uinput::axis_range(ABS_X, 0, TOUCHPAD_MAX_X as int, 0, 0, 0),
            crate::uinput::axis_range(ABS_Y, 0, TOUCHPAD_MAX_Y as int, 0, 0, 0),
        ],
        r.properties@ == seq![INPUT_PROP_DIRECT],
        r.settle_ms == 200,
{
    DeviceSpec {
        name: "ds4l Virtual Absolute Pointer".to_owned(),
        vendor: 0x1234,
        product: 0x0002,
        version: 0x0100,
        keys: vec![BTN_LEFT, BTN_RIGHT],
        rels: Vec::new(),
        axes: vec![
            axis(ABS_X, 0, TOUCHPAD_MAX_X, 0, 0, 0),
            axis(ABS_Y, 0, TOUCHPAD_MAX_Y, 0, 0, 0),
        ],
        properties: vec![INPUT_PROP_DIRECT],
        settle_ms: 200,
    }
}

/// The events that move the pointer: one report, or none while it stays.
pub open spec fn action_events(action: AbsoluteMouseAction) -> Seq<InputEvent> {
    match action {
        AbsoluteMouseAction::Stay => Seq::empty(),
        AbsoluteMouseAction::Move { x, y } => seq![
            crate::uinput::abs(ABS_X, x),
            crate::uinput::abs(ABS_Y, y),
            crate::uinput::syn(),
        ],
    }
}

/// The events that put the pointer where a finger touches.
pub open spec fn finger_events(finger: TouchFinger) -> Seq<InputEvent> {
    action_events(crate::touchpad::absolute_action(finger))
}

/// Lists the events that move the pointer.
pub fn position_events(action: AbsoluteMouseAction) -> (r: Vec<InputEvent>)
    ensures
        r@ == action_events(action),
{
    match action {
        AbsoluteMouseAction::Stay => Vec::new(),
        AbsoluteMouseAction::Move { x, y } => vec![
            abs_event(ABS_X, x),
            abs_event(ABS_Y, y),
            sync_event(),
        ],
    }
}

} // verus!
