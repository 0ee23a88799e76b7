//! What a report sends, to which device and in which order.
//!
//! A report first drives what the output mode stands for: the pad, or the
//! keyboard and mouse. Then the touchpad drives its pointer, in every mode. A
//! part whose device does not exist is left out.

use crate::ds4_input::PadState;
use crate::gamepad_remap::GamepadFrame;
use crate::kbm::{apply_kbm_frame, frame_sent, KbmFrame, KbmState};
use crate::profile::OutputMode;
use crate::session::{gamepad_events, DeviceKind};
use crate::touchpad::{compute_absolute_mouse_action, MouseAction, PointerRoute};
use crate::uinput::InputEvent;
use crate::uinput_absmouse::position_events;
use crate::uinput_mouse::{click_events, motion_events};
use vstd::prelude::*;
use vstd::string::*;

verus! {

/// A part of what a report sends.
#[derive(Debug, Clone, Copy, PartialEq, Eq, Structural)]
pub enum Part {
    KbmFrame,
    GamepadState,
    X360State,
    MouseMotion,
    MouseClick,
    PointerPosition,
    PointerClick,
}

impl Part {
    /// The device that a part goes to.
    pub open spec fn goes_to(self) -> DeviceKind {
        match self {
            Part::GamepadState => DeviceKind::Ds4,
            Part::X360State => DeviceKind::X360,
            Part::KbmFrame | Part::MouseMotion | Part::MouseClick => DeviceKind::Mouse,
            Part::PointerPosition | Part::PointerClick => DeviceKind::AbsMouse,
        }
    }

    /// The device that a part goes to.
    pub fn device(self) -> (r: DeviceKind)
        ensures
            r == self.goes_to(),
    {
        match self {
            Part::GamepadState => DeviceKind::Ds4,
            Part::X360State => DeviceKind::X360,
            Part::KbmFrame | Part::MouseMotion | Part::MouseClick => DeviceKind::Mouse,
            Part::PointerPosition | Part::PointerClick => DeviceKind::AbsMouse,
        }
    }

    /// What a part is called in messages.
    pub open spec fn text(self) -> Seq<char> {
        match self {
            Part::KbmFrame => "KBM frame"@,
            Part::GamepadState => "gamepad state"@,
            Part::X360State => "Xbox 360 state"@,
            Part::MouseMotion => "mouse motion/scroll"@,
            Part::MouseClick => "mouse click"@,
            Part::PointerPosition => "absolute pointer position"@,
            Part::PointerClick => "absolute pointer click"@,
        }
    }

    /// What a part is called in messages.
    pub fn label(self) -> (r: &'static str)
        ensures
            r@ == self.text(),
    {
        match self {
            Part::KbmFrame => "KBM frame",
            Part::GamepadState => "gamepad state",
            Part::X360State => "Xbox 360 state",
            Part::MouseMotion => "mouse motion/scroll",
            Part::MouseClick => "mouse click",
            Part::PointerPosition => "absolute pointer position",
            Part::PointerClick => "absolute pointer click",
        }
    }
}

/// Writes the message for a part that could not be sent.
pub fn emission_error(controller_id: &str, part: Part, e: &str) -> (r: String)
    ensures
        r@ == "\n["@ + controller_id@ + "] failed to emit "@ + part.text() + ": "@ + e@,
{
    "\n[".to_owned().concat(controller_id).concat("] failed to emit ").concat(part.label()).concat(
        ": ",
    ).concat(e)
}

/// Events that go out together. Once one of them fails, the rest of this part
/// is not sent; later parts are.
#[derive(Debug)]
pub struct Emission {
    pub part: Part,
    pub events: Vec<InputEvent>,
}

impl View for Emission {
    type V = (Part, Seq<InputEvent>);

    open spec fn view(&self) -> (Part, Seq<InputEvent>) {
        (self.part, self.events@)
    }
}

/// What some emissions stand for.
pub open spec fn emitted(emissions: Seq<Emission>) -> Seq<(Part, Seq<InputEvent>)> {
    emissions.map_values(|e: Emission| e@)
}

fn nothing() -> (r: Vec<Emission>)
    ensures
        emitted(r@) == Seq::<(Part, Seq<InputEvent>)>::empty(),
{
    let r: Vec<Emission> = Vec::new();
    assert(emitted(r@) =~= Seq::empty());
    r
}

fn one(part: Part, events: Vec<InputEvent>) -> (r: Vec<Emission>)
    ensures
        emitted(r@) == seq![(part, events@)],
{
    let mut r: Vec<Emission> = Vec::new();
    let ghost sent = events@;
    r.push(Emission { part, events });
    assert(emitted(r@) =~= seq![(part, sent)]);
    r
}

fn two(a: Part, a_events: Vec<InputEvent>, b: Part, b_events: Vec<InputEvent>) -> (r: Vec<Emission>)
    ensures
        emitted(r@) == seq![(a, a_events@), (b, b_events@)],
{
    let mut r: Vec<Emission> = Vec::new();
    let ghost first = a_events@;
    let ghost second = b_events@;
    r.push(Emission { part: a, events: a_events });
    r.push(Emission { part: b, events: b_events });
    assert(emitted(r@) =~= seq![(a, first), (b, second)]);
    r
}

/// What a report sends to the pad: the remapped frame, with the right stick
/// where gyro motion put it.
pub open spec fn pad_emissions(
    mode: OutputMode,
    has_pad: bool,
    frame: GamepadFrame,
    right_x: u8,
    right_y: u8,
) -> Seq<(Part, Seq<InputEvent>)> {
    let events = crate::session::pad_events(
        mode,
        crate::session::with_right_stick(frame, right_x, right_y),
    );
    if !has_pad {
        Seq::empty()
    } else {
        match mode {
            OutputMode::Gamepad => seq![(Part::GamepadState, events)],
            OutputMode::Xbox360 => seq![(Part::X360State, events)],
            OutputMode::Kbm => Seq::empty(),
        }
    }
}

/// Lists what a report sends to the pad.
pub fn pad_output(
    mode: OutputMode,
    has_pad: bool,
    frame: &GamepadFrame,
    right_x: u8,
    right_y: u8,
) -> (r: Vec<Emission>)
    ensures
        emitted(r@) == pad_emissions(mode, has_pad, *frame, right_x, right_y),
{
    if !has_pad {
        return nothing();
    }
    match mode {
        OutputMode::Gamepad => one(
            Part::GamepadState,
            gamepad_events(mode, frame, right_x, right_y),
        ),
        OutputMode::Xbox360 => one(Part::X360State, gamepad_events(mode, frame, right_x, right_y)),
        OutputMode::Kbm => nothing(),
    }
}

/// Lists what a report sends to the keyboard and mouse.
pub fn keyboard_output(has_mouse: bool, state: &KbmState, frame: &KbmFrame) -> (r: Vec<Emission>)
    ensures
        emitted(r@) == (if has_mouse {
            seq![(Part::KbmFrame, crate::kbm::frame_events(state.prev_pressed@, *frame))]
        } else {
            Seq::empty()
        }),
{
    if has_mouse {
        one(Part::KbmFrame, apply_kbm_frame(state, frame))
    } else {
        nothing()
    }
}

/// Takes note of a frame that went out, or of one that did not: then the keys
/// of the frame before it still count as held.
pub fn keyboard_sent(state: &mut KbmState, frame: KbmFrame, sent: bool)
    ensures
        final(state).prev_pressed@ == (if sent {
            frame.held@
        } else {
            old(state).prev_pressed@
        }),
{
    if sent {
        frame_sent(state, frame);
    }
}

/// What a report sends to the pointer that the touchpad drives: first the
/// motion, then the buttons. The buttons follow every report, so that a lifted
/// finger lets them go.
pub open spec fn pointer_emissions(route: PointerRoute, action: MouseAction, pad: PadState) -> Seq<
    (Part, Seq<InputEvent>),
> {
    match route {
        PointerRoute::Nowhere => Seq::empty(),
        PointerRoute::Mouse => seq![
            (Part::MouseMotion, crate::uinput_mouse::action_events(action)),
            (Part::MouseClick, crate::uinput_mouse::button_events(pad)),
        ],
        PointerRoute::AbsoluteMouse => seq![
            (Part::PointerPosition, crate::uinput_absmouse::finger_events(pad.finger1)),
            (Part::PointerClick, crate::uinput_mouse::button_events(pad)),
        ],
    }
}

/// Lists what a report sends to the pointer. The action counts on the relative
/// mouse only; the absolute pointer takes the position of the first finger.
pub fn pointer_output(route: PointerRoute, action: MouseAction, pad: &PadState) -> (r: Vec<Emission>)
    ensures
        emitted(r@) == pointer_emissions(route, action, *pad),
{
    match route {
        PointerRoute::Nowhere => nothing(),
        PointerRoute::Mouse => two(
            Part::MouseMotion,
            motion_events(action),
            Part::MouseClick,
            click_events(pad),
        ),
        PointerRoute::AbsoluteMouse => two(
            Part::PointerPosition,
            position_events(compute_absolute_mouse_action(&pad.finger1)),
            Part::PointerClick,
            click_events(pad),
        ),
    }
}

/// Nothing is sent to a device that a profile does not create: each part that
/// goes to the pad or to the pointer goes to a device that the profile needs.
pub proof fn law_output_goes_to_a_needed_device(
    output: OutputMode,
    touchpad: crate::touchpad::TouchpadMode,
    has_mouse: bool,
    has_absmouse: bool,
    frame: GamepadFrame,
    right_x: u8,
    right_y: u8,
    action: MouseAction,
    pad: PadState,
    i: int,
)
    ensures
        0 <= i < pad_emissions(output, true, frame, right_x, right_y).len()
            ==> crate::session::needs(
            output,
            touchpad,
            pad_emissions(output, true, frame, right_x, right_y)[i].0.goes_to(),
        ),
        ({
            let sent = pointer_emissions(
                crate::touchpad::route_of(touchpad, has_mouse, has_absmouse),
                action,
                pad,
            );
            0 <= i < sent.len() ==> crate::session::needs(output, touchpad, sent[i].0.goes_to())
        }),
{
}

/// A part is called by what it is and where it goes: the state of its pad, the
/// frame of the keyboard, or the motion or click of its pointer.
pub proof fn law_parts_are_called_by_name(part: Part)
    ensures
        part.text() == "KBM frame"@ <==> part == Part::KbmFrame,
        part.text() == "gamepad state"@ <==> part == Part::GamepadState,
        part.text() == "Xbox 360 state"@ <==> part == Part::X360State,
        part.text() == "mouse motion/scroll"@ <==> part == Part::MouseMotion,
        part.text() == "mouse click"@ <==> part == Part::MouseClick,
        part.text() == "absolute pointer position"@ <==> part == Part::PointerPosition,
        part.text() == "absolute pointer click"@ <==> part == Part::PointerClick,
{
    reveal_strlit("KBM frame");
    reveal_strlit("gamepad state");
    reveal_strlit("Xbox 360 state");
    reveal_strlit("mouse motion/scroll");
    reveal_strlit("mouse click");
    reveal_strlit("absolute pointer position");
    reveal_strlit("absolute pointer click");
    assert("KBM frame"@.len() == 9);
    assert("gamepad state"@.len() == 13);
    assert("Xbox 360 state"@.len() == 14);
    assert("mouse motion/scroll"@.len() == 19);
    assert("mouse click"@.len() == 11);
    assert("absolute pointer position"@.len() == 25);
    assert("absolute pointer click"@.len() == 22);
}

} // verus!
