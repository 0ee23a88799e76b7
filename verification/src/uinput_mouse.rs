//! The virtual relative mouse, which also carries the keys of keyboard output.

use crate::ds4_input::PadState;
use crate::touchpad::{clicked_buttons, MouseAction};
use crate::uinput::{key_event, rel_event, sync_event, DeviceSpec, InputEvent};
use vstd::prelude::*;

verus! {

pub const BTN_LEFT: u16 = 0x110;

pub const BTN_RIGHT: u16 = 0x111;

pub const REL_X: u16 = 0x00;

pub const REL_Y: u16 = 0x01;

pub const REL_WHEEL: u16 = 0x08;

/// The virtual mouse with the given further keys. It needs no particular
/// identity: the desktop takes any relative pointer.
pub fn device(extra_keys: &Vec<u16>) -> (r: DeviceSpec)
    ensures
        r.name@ == "ds4l Virtual Touchpad Mouse"@,
        (r.vendor, r.product, r.version) == (0x1234u16, 0x0001u16, 0x0100u16),
        r.keys@ == seq![BTN_LEFT, BTN_RIGHT] + extra_keys@,
        r.rels@ == seq![REL_X, REL_Y, REL_WHEEL],
        r.axes@ == Seq::<crate::uinput::AxisSetup>::empty(),
        r.properties@ == Seq::<u32>::empty(),
        r.settle_ms == 200,
{
    let mut keys: Vec<u16> = vec![BTN_LEFT, BTN_RIGHT];
    let mut i: usize = 0;
    while i < extra_keys.len()
        invariant
            i <= extra_keys.len(),
            keys@ == seq![BTN_LEFT, BTN_RIGHT] + extra_keys@.take(i as int),
        decreases extra_keys.len() - i,
    {
        keys.push(extra_keys[i]);
        i = i + 1;
        assert(extra_keys@.take(i as int) =~= extra_keys@.take(i - 1).push(extra_keys@[i - 1]));
    }
    assert(extra_keys@.take(i as int) =~= extra_keys@);
    DeviceSpec {
        name: "ds4l Virtual Touchpad Mouse".to_owned(),
        vendor: 0x1234,
        product: 0x0001,
        version: 0x0100,
        keys,
        rels: vec![REL_X, REL_Y, REL_WHEEL],
        axes: Vec::new(),
        properties: Vec::new(),
        settle_ms: 200,
    }
}

/// The events of a mouse action: one report, or none when idle.
pub open spec fn action_events(action: MouseAction) -> Seq<InputEvent> {
    match action {
        MouseAction::Idle => Seq::empty(),
        MouseAction::Move { dx, dy } => seq![
            crate::uinput::rel(REL_X, dx),
            crate::uinput::rel(REL_Y, dy),
            crate::uinput::syn(),
        ],
        MouseAction::Scroll { amount } => seq![
            crate::uinput::rel(REL_WHEEL, amount),
            crate::uinput::syn(),
        ],
    }
}

/// Lists the events of a mouse action.
pub fn motion_events(action: MouseAction) -> (r: Vec<InputEvent>)
    ensures
        r@ == action_events(action),
{
    match action {
        MouseAction::Idle => Vec::new(),
        MouseAction::Move { dx, dy } => vec![
            rel_event(REL_X, dx),
            rel_event(REL_Y, dy),
            sync_event(),
        ],
        MouseAction::Scroll { amount } => vec![rel_event(REL_WHEEL, amount), sync_event()],
    }
}

/// The events that put both mouse buttons in the state that a touchpad click
/// asks for.
pub open spec fn button_events(pad: PadState) -> Seq<InputEvent> {
    seq![
        crate::uinput::key(BTN_LEFT, crate::touchpad::left_click(pad)),
        crate::uinput::key(BTN_RIGHT, crate::touchpad::right_click(pad)),
        crate::uinput::syn(),
    ]
}

/// Lists the events that put both mouse buttons in the state that a touchpad
/// click asks for.
pub fn click_events(pad: &PadState) -> (r: Vec<InputEvent>)
    ensures
        r@ == button_events(*pad),
{
    let clicked = clicked_buttons(pad);
    vec![key_event(BTN_LEFT, clicked.0), key_event(BTN_RIGHT, clicked.1), sync_event()]
}

} // verus!
