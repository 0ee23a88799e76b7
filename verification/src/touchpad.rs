//! Touchpad modes and the gestures behind mouse output.
//!
//! In `MouseRemap` mode one finger drags the cursor, two fingers scroll, and a
//! click with two fingers down is a right click. In `AbsoluteMouse` mode a
//! touched spot maps straight onto the screen. `Passthrough` and `Disabled`
//! emit nothing; they differ in whether the kernel's own touchpad device stays
//! visible while the controller is hidden.

use crate::ds4_input::{PadState, TouchFinger};
use vstd::prelude::*;

verus! {

/// What the touchpad drives.
#[derive(Debug, Clone, Copy, PartialEq, Eq, Structural)]
pub enum TouchpadMode {
    Passthrough,
    MouseRemap,
    AbsoluteMouse,
    Disabled,
}

/// The touchpad settings that decide what happens. The cursor and scroll
/// speeds scale the motion and live with the code that applies them.
#[derive(Debug, Clone, Copy, PartialEq, Eq, Structural)]
pub struct TouchpadConfig {
    pub mode: TouchpadMode,
}

impl Default for TouchpadConfig {
    fn default() -> (r: Self)
        ensures
            r.mode == TouchpadMode::MouseRemap,
    {
        TouchpadConfig { mode: TouchpadMode::MouseRemap }
    }
}

/// What mouse output does in one report.
#[derive(Debug, Clone, Copy, PartialEq, Eq, Structural)]
pub enum MouseAction {
    Idle,
    Move { dx: i32, dy: i32 },
    Scroll { amount: i32 },
}

/// How the tracked finger moved since the last report, in touchpad units.
#[derive(Debug, Clone, Copy, PartialEq, Eq, Structural)]
pub enum TouchMotion {
    Rest,
    /// One finger moved.
    Drag { dx: i32, dy: i32 },
    /// Two fingers moved. The vertical part scrolls; the horizontal part has
    /// no effect.
    Slide { dy: i32 },
}

/// What is remembered between reports: the touchpad reports positions, and a
/// motion is the difference of two.
#[derive(Debug, Clone, Copy, PartialEq, Eq, Structural)]
pub struct TouchpadMouseState {
    pub prev_x: u16,
    pub prev_y: u16,
    /// Fingers down in the last report, so that a change starts a new motion
    /// instead of jumping between two fingers.
    pub prev_finger_count: u8,
}

impl Default for TouchpadMouseState {
    fn default() -> (r: Self)
        ensures
            r == (TouchpadMouseState { prev_x: 0, prev_y: 0, prev_finger_count: 0 }),
    {
        TouchpadMouseState { prev_x: 0, prev_y: 0, prev_finger_count: 0 }
    }
}

/// How many of two contacts touch the pad.
pub open spec fn fingers_down(f1: TouchFinger, f2: TouchFinger) -> int {
    crate::uinput::unit(f1.touching) + crate::uinput::unit(f2.touching)
}

/// Counts the fingers on the pad.
pub fn finger_count(f1: &TouchFinger, f2: &TouchFinger) -> (r: u8)
    ensures
        r == fingers_down(*f1, *f2),
{
    let a: u8 = if f1.touching {
        1
    } else {
        0
    };
    let b: u8 = if f2.touching {
        1
    } else {
        0
    };
    a + b
}

/// What is remembered after a report. The first contact is the tracked one;
/// lifting all fingers forgets the count and nothing else.
pub open spec fn touch_after(
    s: TouchpadMouseState,
    f1: TouchFinger,
    f2: TouchFinger,
) -> TouchpadMouseState {
    if fingers_down(f1, f2) == 0 {
        TouchpadMouseState { prev_finger_count: 0, ..s }
    } else {
        TouchpadMouseState {
            prev_x: f1.x,
            prev_y: f1.y,
            prev_finger_count: fingers_down(f1, f2) as u8,
        }
    }
}

/// The motion that a report shows: none without a finger, none while the
/// number of fingers changes, else the way the tracked finger went.
pub open spec fn touch_motion(s: TouchpadMouseState, f1: TouchFinger, f2: TouchFinger) -> TouchMotion {
    let n = fingers_down(f1, f2);
    let dx = f1.x - s.prev_x;
    let dy = f1.y - s.prev_y;
    if n == 0 || n != s.prev_finger_count || (dx == 0 && dy == 0) {
        TouchMotion::Rest
    } else if n == 1 {
        TouchMotion::Drag { dx: dx as i32, dy: dy as i32 }
    } else {
        TouchMotion::Slide { dy: dy as i32 }
    }
}

/// Feeds one report to the tracker and returns the motion it shows.
pub fn track_touch(state: &mut TouchpadMouseState, finger1: &TouchFinger, finger2: &TouchFinger) -> (r:
    TouchMotion)
    ensures
        *final(state) == touch_after(*old(state), *finger1, *finger2),
        r == touch_motion(*old(state), *finger1, *finger2),
{
    let n: u8 = finger_count(finger1, finger2);
    if n == 0 {
        state.prev_finger_count = 0;
        return TouchMotion::Rest;
    }
    if n != state.prev_finger_count {
        *state = TouchpadMouseState {
            prev_x: finger1.x,
            prev_y: finger1.y,
            prev_finger_count: n,
        };
        return TouchMotion::Rest;
    }
    let dx: i32 = finger1.x as i32 - state.prev_x as i32;
    let dy: i32 = finger1.y as i32 - state.prev_y as i32;
    state.prev_x = finger1.x;
    state.prev_y = finger1.y;
    if dx == 0 && dy == 0 {
        TouchMotion::Rest
    } else if n == 1 {
        TouchMotion::Drag { dx, dy }
    } else {
        TouchMotion::Slide { dy }
    }
}

/// The mouse action for a motion whose parts have been scaled to `x` and `y`.
pub open spec fn scaled_action(motion: TouchMotion, x: i32, y: i32) -> MouseAction {
    match motion {
        TouchMotion::Rest => MouseAction::Idle,
        TouchMotion::Drag { .. } => if x == 0 && y == 0 {
            MouseAction::Idle
        } else {
            MouseAction::Move { dx: x, dy: y }
        },
        TouchMotion::Slide { .. } => if y == 0 {
            MouseAction::Idle
        } else {
            MouseAction::Scroll { amount: y }
        },
    }
}

/// Turns a motion into a mouse action. `x` and `y` are the motion's horizontal
/// and vertical parts after scaling; a motion that scales to nothing is idle.
pub fn compute_mouse_action(motion: TouchMotion, x: i32, y: i32) -> (r: MouseAction)
    ensures
        r == scaled_action(motion, x, y),
{
    match motion {
        TouchMotion::Rest => MouseAction::Idle,
        TouchMotion::Drag { .. } => if x == 0 && y == 0 {
            MouseAction::Idle
        } else {
            MouseAction::Move { dx: x, dy: y }
        },
        TouchMotion::Slide { .. } => if y == 0 {
            MouseAction::Idle
        } else {
            MouseAction::Scroll { amount: y }
        },
    }
}

/// A mouse button.
#[derive(Debug, Clone, Copy, PartialEq, Eq, Structural)]
pub enum ClickButton {
    Left,
    Right,
}

/// Which button a touchpad click is: left with one finger, right with two,
/// none otherwise.
pub fn click_button_for_finger_count(finger_count: u8) -> (r: Option<ClickButton>)
    ensures
        r == (if finger_count == 1 {
            Some(ClickButton::Left)
        } else if finger_count == 2 {
            Some(ClickButton::Right)
        } else {
            None
        }),
{
    match finger_count {
        1 => Some(ClickButton::Left),
        2 => Some(ClickButton::Right),
        _ => None,
    }
}

/// Whether a report holds the left button down.
pub open spec fn left_click(pad: PadState) -> bool {
    pad.touchpad_click && fingers_down(pad.finger1, pad.finger2) == 1
}

/// Whether a report holds the right button down.
pub open spec fn right_click(pad: PadState) -> bool {
    pad.touchpad_click && fingers_down(pad.finger1, pad.finger2) == 2
}

/// The (left, right) mouse buttons that a report holds down.
pub fn clicked_buttons(pad: &PadState) -> (r: (bool, bool))
    ensures
        r == (left_click(*pad), right_click(*pad)),
{
    let n: u8 = finger_count(&pad.finger1, &pad.finger2);
    match click_button_for_finger_count(n) {
        Some(ClickButton::Left) => (pad.touchpad_click, false),
        Some(ClickButton::Right) => (false, pad.touchpad_click),
        None => (false, false),
    }
}

/// What absolute mouse output does in one report.
#[derive(Debug, Clone, Copy, PartialEq, Eq, Structural)]
pub enum AbsoluteMouseAction {
    /// No finger: the cursor stays where it is.
    Stay,
    Move { x: i32, y: i32 },
}

/// What a finger does to the absolute pointer.
pub open spec fn absolute_action(finger: TouchFinger) -> AbsoluteMouseAction {
    if finger.touching {
        AbsoluteMouseAction::Move { x: finger.x as i32, y: finger.y as i32 }
    } else {
        AbsoluteMouseAction::Stay
    }
}

/// Forwards the first contact's position as it is.
pub fn compute_absolute_mouse_action(finger1: &TouchFinger) -> (r: AbsoluteMouseAction)
    ensures
        r == absolute_action(*finger1),
{
    if finger1.touching {
        AbsoluteMouseAction::Move { x: finger1.x as i32, y: finger1.y as i32 }
    } else {
        AbsoluteMouseAction::Stay
    }
}

/// The pointer device that touchpad output goes to.
#[derive(Debug, Clone, Copy, PartialEq, Eq, Structural)]
pub enum PointerRoute {
    Nowhere,
    Mouse,
    AbsoluteMouse,
}

/// The pointer device for a mode, if the device exists.
pub open spec fn route_of(mode: TouchpadMode, has_mouse: bool, has_absmouse: bool) -> PointerRoute {
    if mode == TouchpadMode::MouseRemap && has_mouse {
        PointerRoute::Mouse
    } else if mode == TouchpadMode::AbsoluteMouse && has_absmouse {
        PointerRoute::AbsoluteMouse
    } else {
        PointerRoute::Nowhere
    }
}

/// Picks the pointer device for a mode, if the device exists.
pub fn pointer_route(mode: TouchpadMode, has_mouse: bool, has_absmouse: bool) -> (r: PointerRoute)
    ensures
        r == route_of(mode, has_mouse, has_absmouse),
{
    match mode {
        TouchpadMode::MouseRemap => if has_mouse {
            PointerRoute::Mouse
        } else {
            PointerRoute::Nowhere
        },
        TouchpadMode::AbsoluteMouse => if has_absmouse {
            PointerRoute::AbsoluteMouse
        } else {
            PointerRoute::Nowhere
        },
        TouchpadMode::Passthrough | TouchpadMode::Disabled => PointerRoute::Nowhere,
    }
}

/// A change in the number of fingers never moves the pointer, wherever the
/// fingers are.
pub proof fn law_finger_change_is_rest(s: TouchpadMouseState, f1: TouchFinger, f2: TouchFinger)
    requires
        fingers_down(f1, f2) != s.prev_finger_count,
    ensures
        touch_motion(s, f1, f2) == TouchMotion::Rest,
{
}

/// The horizontal and vertical way that a run of one-finger reports shows.
pub open spec fn dragged(s: TouchpadMouseState, run: Seq<TouchFinger>) -> (int, int)
    decreases run.len(),
{
    if run.len() == 0 {
        (0, 0)
    } else {
        let up = TouchFinger::absent();
        let rest = dragged(touch_after(s, run.first(), up), run.drop_first());
        match touch_motion(s, run.first(), up) {
            TouchMotion::Drag { dx, dy } => (dx + rest.0, dy + rest.1),
            _ => rest,
        }
    }
}

/// Nothing is lost or counted twice: over a run of one-finger reports the
/// motions add up to the way from the first position to the last.
pub proof fn law_drag_adds_up(s: TouchpadMouseState, run: Seq<TouchFinger>)
    requires
        s.prev_finger_count == 1,
        run.len() > 0,
        forall|i: int| 0 <= i < run.len() ==> (#[trigger] run[i]).touching,
    ensures
        dragged(s, run) == (run.last().x - s.prev_x, run.last().y - s.prev_y),
    decreases run.len(),
{
    let next = touch_after(s, run.first(), TouchFinger::absent());
    assert(run[0].touching);
    if run.len() > 1 {
        assert forall|i: int| 0 <= i < run.drop_first().len() implies (
        #[trigger] run.drop_first()[i]).touching by {
            assert(run.drop_first()[i] == run[i + 1]);
        }
        law_drag_adds_up(next, run.drop_first());
        assert(run.drop_first().last() == run.last());
    } else {
        assert(dragged(next, run.drop_first()) == (0int, 0int));
        assert(run.last() == run.first());
    }
}

/// At most one mouse button is held down by a touchpad click.
pub proof fn law_one_click_at_a_time(pad: PadState)
    ensures
        !(left_click(pad) && right_click(pad)),
        !pad.touchpad_click ==> !left_click(pad) && !right_click(pad),
{
}

/// What a run of two-finger reports scrolls, in touchpad units.
pub open spec fn scrolled(s: TouchpadMouseState, run: Seq<(TouchFinger, TouchFinger)>) -> int
    decreases run.len(),
{
    if run.len() == 0 {
        0
    } else {
        let (f1, f2) = run.first();
        let rest = scrolled(touch_after(s, f1, f2), run.drop_first());
        match touch_motion(s, f1, f2) {
            TouchMotion::Slide { dy } => dy + rest,
            _ => rest,
        }
    }
}

/// Over a run of two-finger reports the scroll motions add up to the way that the
/// first contact went down, with its sign: upwards is negative.
pub proof fn law_slide_adds_up(s: TouchpadMouseState, run: Seq<(TouchFinger, TouchFinger)>)
    requires
        s.prev_finger_count == 2,
        run.len() > 0,
        forall|i: int|
            0 <= i < run.len() ==> (#[trigger] run[i]).0.touching && run[i].1.touching,
    ensures
        scrolled(s, run) == run.last().0.y - s.prev_y,
    decreases run.len(),
{
    let next = touch_after(s, run.first().0, run.first().1);
    assert(run[0].0.touching && run[0].1.touching);
    if run.len() > 1 {
        let rest = run.drop_first();
        assert forall|i: int| 0 <= i < rest.len() implies (#[trigger] rest[i]).0.touching
            && rest[i].1.touching by {
            assert(rest[i] == run[i + 1]);
        }
        law_slide_adds_up(next, rest);
        assert(rest.last() == run.last());
    } else {
        assert(scrolled(next, run.drop_first()) == 0);
        assert(run.last() == run.first());
    }
}

/// A slide and the slide back cancel: a run that ends where the first contact was
/// scrolls nothing in all.
pub proof fn law_slide_back_cancels(s: TouchpadMouseState, run: Seq<(TouchFinger, TouchFinger)>)
    requires
        s.prev_finger_count == 2,
        run.len() > 0,
        forall|i: int|
            0 <= i < run.len() ==> (#[trigger] run[i]).0.touching && run[i].1.touching,
        run.last().0.y == s.prev_y,
    ensures
        scrolled(s, run) == 0,
{
    law_slide_adds_up(s, run);
}

/// One finger only ever drags and two fingers only ever scroll.
pub proof fn law_fingers_decide_the_gesture(
    s: TouchpadMouseState,
    f1: TouchFinger,
    f2: TouchFinger,
)
    ensures
        touch_motion(s, f1, f2) is Drag ==> f1.touching != f2.touching && s.prev_finger_count == 1,
        touch_motion(s, f1, f2) is Slide ==> f1.touching && f2.touching && s.prev_finger_count == 2,
        touch_motion(s, f1, f2) is Rest && s.prev_finger_count == 1 && f1.touching && !f2.touching
            ==> (f1.x, f1.y) == (s.prev_x, s.prev_y),
{
}

/// A finger that is lifted and put down elsewhere does not make the pointer jump,
/// and from then on motion counts from where it was put down.
pub proof fn law_new_touch_starts_afresh(
    s: TouchpadMouseState,
    up1: TouchFinger,
    up2: TouchFinger,
    f1: TouchFinger,
    f2: TouchFinger,
)
    requires
        !up1.touching && !up2.touching,
        f1.touching || f2.touching,
    ensures
        ({
            let lifted = touch_after(s, up1, up2);
            let down = touch_after(lifted, f1, f2);
            &&& touch_motion(s, up1, up2) == TouchMotion::Rest
            &&& touch_motion(lifted, f1, f2) == TouchMotion::Rest
            &&& (down.prev_x, down.prev_y) == (f1.x, f1.y)
            &&& down.prev_finger_count == (if f1.touching && f2.touching {
                2int
            } else {
                1
            })
            &&& touch_motion(down, f1, f2) == TouchMotion::Rest
        }),
{
}

/// A mouse action does what the scaled motion says: a move has both scaled parts
/// and comes of a drag, a scroll has the vertical part and comes of a slide, and
/// what scales to nothing is idle.
pub proof fn law_action_is_the_scaled_motion(motion: TouchMotion, x: i32, y: i32)
    ensures
        scaled_action(motion, x, y) matches MouseAction::Move { dx, dy } ==> motion is Drag && dx == x
            && dy == y && !(x == 0 && y == 0),
        scaled_action(motion, x, y) matches MouseAction::Scroll { amount } ==> motion is Slide
            && amount == y && y != 0,
        scaled_action(motion, x, y) == MouseAction::Idle ==> motion is Rest || y == 0,
        scaled_action(motion, x, y) == MouseAction::Idle && motion is Drag ==> x == 0,
{
}

/// A click of the touchpad is a left click with exactly one finger down and a
/// right click with both; without a finger, or without a click, it is neither.
pub proof fn law_fingers_decide_the_click(pad: PadState)
    ensures
        left_click(pad) <==> pad.touchpad_click && pad.finger1.touching != pad.finger2.touching,
        right_click(pad) <==> pad.touchpad_click && pad.finger1.touching && pad.finger2.touching,
{
}

/// The absolute pointer goes where the finger is, and stays without one.
pub proof fn law_pointer_goes_to_the_finger(finger: TouchFinger)
    ensures
        absolute_action(finger) matches AbsoluteMouseAction::Move { x, y } ==> finger.touching && x
            == finger.x && y == finger.y,
        absolute_action(finger) == AbsoluteMouseAction::Stay ==> !finger.touching,
{
}

/// Touchpad output goes to the mouse only for dragging, to the absolute pointer
/// only for positioning, to a device only if it exists, and nowhere in the other
/// modes.
pub proof fn law_route_matches_the_mode(mode: TouchpadMode, has_mouse: bool, has_absmouse: bool)
    ensures
        route_of(mode, has_mouse, has_absmouse) == PointerRoute::Mouse <==> has_mouse && mode
            == TouchpadMode::MouseRemap,
        route_of(mode, has_mouse, has_absmouse) == PointerRoute::AbsoluteMouse <==> has_absmouse
            && mode == TouchpadMode::AbsoluteMouse,
{
}

} // verus!
