//! Gamepad targets as the editor lists and names them.

use crate::gamepad_remap::{
    AxisDirection, GamepadButton, GamepadTarget, OutputStick, OutputTrigger,
};
use crate::text::same;
use vstd::prelude::*;
use vstd::string::*;

verus! {

/// The id of a button.
pub open spec fn button_id_of(x: GamepadButton) -> Seq<char> {
    match x {
        GamepadButton::Cross => "cross"@,
        GamepadButton::Circle => "circle"@,
        GamepadButton::Square => "square"@,
        GamepadButton::Triangle => "triangle"@,
        GamepadButton::L1 => "l1"@,
        GamepadButton::R1 => "r1"@,
        GamepadButton::L2Digital => "l2_digital"@,
        GamepadButton::R2Digital => "r2_digital"@,
        GamepadButton::L3 => "l3"@,
        GamepadButton::R3 => "r3"@,
        GamepadButton::Share => "share"@,
        GamepadButton::Options => "options"@,
        GamepadButton::Ps => "ps"@,
        GamepadButton::TouchpadClick => "touchpad_click"@,
        GamepadButton::DpadUp => "dpad_up"@,
        GamepadButton::DpadDown => "dpad_down"@,
        GamepadButton::DpadLeft => "dpad_left"@,
        GamepadButton::DpadRight => "dpad_right"@,
    }
}

fn button_id(x: GamepadButton) -> (r: &'static str)
    ensures
        r@ == button_id_of(x),
{
    match x {
        GamepadButton::Cross => "cross",
        GamepadButton::Circle => "circle",
        GamepadButton::Square => "square",
        GamepadButton::Triangle => "triangle",
        GamepadButton::L1 => "l1",
        GamepadButton::R1 => "r1",
        GamepadButton::L2Digital => "l2_digital",
        GamepadButton::R2Digital => "r2_digital",
        GamepadButton::L3 => "l3",
        GamepadButton::R3 => "r3",
        GamepadButton::Share => "share",
        GamepadButton::Options => "options",
        GamepadButton::Ps => "ps",
        GamepadButton::TouchpadClick => "touchpad_click",
        GamepadButton::DpadUp => "dpad_up",
        GamepadButton::DpadDown => "dpad_down",
        GamepadButton::DpadLeft => "dpad_left",
        GamepadButton::DpadRight => "dpad_right",
    }
}

/// What a button is shown as.
pub open spec fn button_label_of(x: GamepadButton) -> Seq<char> {
    match x {
        GamepadButton::Cross => "Cross (X)"@,
        GamepadButton::Circle => "Circle (O)"@,
        GamepadButton::Square => "Square"@,
        GamepadButton::Triangle => "Triangle"@,
        GamepadButton::L1 => "L1"@,
        GamepadButton::R1 => "R1"@,
        GamepadButton::L2Digital => "L2 (digital click)"@,
        GamepadButton::R2Digital => "R2 (digital click)"@,
        GamepadButton::L3 => "L3 (stick click)"@,
        GamepadButton::R3 => "R3 (stick click)"@,
        GamepadButton::Share => "Share"@,
        GamepadButton::Options => "Options"@,
        GamepadButton::Ps => "PS button"@,
        GamepadButton::TouchpadClick => "Touchpad click"@,
        GamepadButton::DpadUp => "D-pad Up"@,
        GamepadButton::DpadDown => "D-pad Down"@,
        GamepadButton::DpadLeft => "D-pad Left"@,
        GamepadButton::DpadRight => "D-pad Right"@,
    }
}

fn button_label(x: GamepadButton) -> (r: &'static str)
    ensures
        r@ == button_label_of(x),
{
    match x {
        GamepadButton::Cross => "Cross (X)",
        GamepadButton::Circle => "Circle (O)",
        GamepadButton::Square => "Square",
        GamepadButton::Triangle => "Triangle",
        GamepadButton::L1 => "L1",
        GamepadButton::R1 => "R1",
        GamepadButton::L2Digital => "L2 (digital click)",
        GamepadButton::R2Digital => "R2 (digital click)",
        GamepadButton::L3 => "L3 (stick click)",
        GamepadButton::R3 => "R3 (stick click)",
        GamepadButton::Share => "Share",
        GamepadButton::Options => "Options",
        GamepadButton::Ps => "PS button",
        GamepadButton::TouchpadClick => "Touchpad click",
        GamepadButton::DpadUp => "D-pad Up",
        GamepadButton::DpadDown => "D-pad Down",
        GamepadButton::DpadLeft => "D-pad Left",
        GamepadButton::DpadRight => "D-pad Right",
    }
}

proof fn lemma_button_ids_differ(x: GamepadButton, y: GamepadButton)
    requires
        button_id_of(x) == button_id_of(y),
    ensures
        x == y,
{
    reveal_strlit("cross");
    assert("cross"@.len() == 5);
    reveal_strlit("circle");
    assert("circle"@.len() == 6);
    reveal_strlit("square");
    assert("square"@.len() == 6);
    reveal_strlit("triangle");
    assert("triangle"@.len() == 8);
    reveal_strlit("l1");
    assert("l1"@.len() == 2);
    reveal_strlit("r1");
    assert("r1"@.len() == 2);
    reveal_strlit("l2_digital");
    assert("l2_digital"@.len() == 10);
    reveal_strlit("r2_digital");
    assert("r2_digital"@.len() == 10);
    reveal_strlit("l3");
    assert("l3"@.len() == 2);
    reveal_strlit("r3");
    assert("r3"@.len() == 2);
    reveal_strlit("share");
    assert("share"@.len() == 5);
    reveal_strlit("options");
    assert("options"@.len() == 7);
    reveal_strlit("ps");
    assert("ps"@.len() == 2);
    reveal_strlit("touchpad_click");
    assert("touchpad_click"@.len() == 14);
    reveal_strlit("dpad_up");
    assert("dpad_up"@.len() == 7);
    reveal_strlit("dpad_down");
    assert("dpad_down"@.len() == 9);
    reveal_strlit("dpad_left");
    assert("dpad_left"@.len() == 9);
    reveal_strlit("dpad_right");
    assert("dpad_right"@.len() == 10);
    let a = button_id_of(x);
    let b = button_id_of(y);
    assert(a[0] == b[0]);
    assert(a[1] == b[1]);
    assert(a.last() == b.last());
    assert(a[a.len() - 2] == b[b.len() - 2]);
}

/// The id of a stick.
pub open spec fn stick_id_of(x: OutputStick) -> Seq<char> {
    match x {
        OutputStick::Left => "left"@,
        OutputStick::Right => "right"@,
    }
}

fn stick_id(x: OutputStick) -> (r: &'static str)
    ensures
        r@ == stick_id_of(x),
{
    match x {
        OutputStick::Left => "left",
        OutputStick::Right => "right",
    }
}

/// What a stick is shown as.
pub open spec fn stick_label_of(x: OutputStick) -> Seq<char> {
    match x {
        OutputStick::Left => "Left Stick"@,
        OutputStick::Right => "Right Stick"@,
    }
}

fn stick_label(x: OutputStick) -> (r: &'static str)
    ensures
        r@ == stick_label_of(x),
{
    match x {
        OutputStick::Left => "Left Stick",
        OutputStick::Right => "Right Stick",
    }
}

/// The id of a direction.
pub open spec fn direction_id_of(x: AxisDirection) -> Seq<char> {
    match x {
        AxisDirection::Up => "up"@,
        AxisDirection::Down => "down"@,
        AxisDirection::Left => "left"@,
        AxisDirection::Right => "right"@,
    }
}

fn direction_id(x: AxisDirection) -> (r: &'static str)
    ensures
        r@ == direction_id_of(x),
{
    match x {
        AxisDirection::Up => "up",
        AxisDirection::Down => "down",
        AxisDirection::Left => "left",
        AxisDirection::Right => "right",
    }
}

/// What a direction is shown as.
pub open spec fn direction_label_of(x: AxisDirection) -> Seq<char> {
    match x {
        AxisDirection::Up => "Up"@,
        AxisDirection::Down => "Down"@,
        AxisDirection::Left => "Left"@,
        AxisDirection::Right => "Right"@,
    }
}

fn direction_label(x: AxisDirection) -> (r: &'static str)
    ensures
        r@ == direction_label_of(x),
{
    match x {
        AxisDirection::Up => "Up",
        AxisDirection::Down => "Down",
        AxisDirection::Left => "Left",
        AxisDirection::Right => "Right",
    }
}

proof fn lemma_direction_ids_differ(x: AxisDirection, y: AxisDirection)
    requires
        direction_id_of(x) == direction_id_of(y),
    ensures
        x == y,
{
    reveal_strlit("up");
    assert("up"@.len() == 2);
    reveal_strlit("down");
    assert("down"@.len() == 4);
    reveal_strlit("left");
    assert("left"@.len() == 4);
    reveal_strlit("right");
    assert("right"@.len() == 5);
    let a = direction_id_of(x);
    let b = direction_id_of(y);
    assert(a[0] == b[0]);
    assert(a[1] == b[1]);
    assert(a.last() == b.last());
    assert(a[a.len() - 2] == b[b.len() - 2]);
}

/// The id of a trigger.
pub open spec fn trigger_id_of(x: OutputTrigger) -> Seq<char> {
    match x {
        OutputTrigger::L2 => "l2"@,
        OutputTrigger::R2 => "r2"@,
    }
}

fn trigger_id(x: OutputTrigger) -> (r: &'static str)
    ensures
        r@ == trigger_id_of(x),
{
    match x {
        OutputTrigger::L2 => "l2",
        OutputTrigger::R2 => "r2",
    }
}

/// What a trigger is shown as.
pub open spec fn trigger_label_of(x: OutputTrigger) -> Seq<char> {
    match x {
        OutputTrigger::L2 => "L2"@,
        OutputTrigger::R2 => "R2"@,
    }
}

fn trigger_label(x: OutputTrigger) -> (r: &'static str)
    ensures
        r@ == trigger_label_of(x),
{
    match x {
        OutputTrigger::L2 => "L2",
        OutputTrigger::R2 => "R2",
    }
}

proof fn lemma_trigger_ids_differ(x: OutputTrigger, y: OutputTrigger)
    requires
        trigger_id_of(x) == trigger_id_of(y),
    ensures
        x == y,
{
    reveal_strlit("l2");
    assert("l2"@.len() == 2);
    reveal_strlit("r2");
    assert("r2"@.len() == 2);
    let a = trigger_id_of(x);
    let b = trigger_id_of(y);
    assert(a[0] == b[0]);
    assert(a[1] == b[1]);
    assert(a.last() == b.last());
    assert(a[a.len() - 2] == b[b.len() - 2]);
}

/// The id of a target among the choices.
pub open spec fn target_id(t: GamepadTarget) -> Seq<char> {
    match t {
        GamepadTarget::Unmapped => "none"@,
        GamepadTarget::Button(b) => "button_"@ + button_id_of(b),
        GamepadTarget::StickPush(s, d) => "stickpush_"@ + stick_id_of(s) + "_"@ + direction_id_of(d),
        GamepadTarget::TriggerPush(t) => "triggerpush_"@ + trigger_id_of(t),
    }
}

/// Writes the id of a target.
pub fn gamepad_target_id(t: GamepadTarget) -> (r: String)
    ensures
        r@ == target_id(t),
{
    match t {
        GamepadTarget::Unmapped => "none".to_owned(),
        GamepadTarget::Button(b) => "button_".to_owned().concat(button_id(b)),
        GamepadTarget::StickPush(s, d) => "stickpush_".to_owned().concat(stick_id(s)).concat(
            "_",
        ).concat(direction_id(d)),
        GamepadTarget::TriggerPush(t) => "triggerpush_".to_owned().concat(trigger_id(t)),
    }
}

/// What a target is shown as.
pub open spec fn target_label(t: GamepadTarget) -> Seq<char> {
    match t {
        GamepadTarget::Unmapped => "(none)"@,
        GamepadTarget::Button(b) => "Button: "@ + button_label_of(b),
        GamepadTarget::StickPush(s, d) => "Push: "@ + stick_label_of(s) + " "@ + direction_label_of(d),
        GamepadTarget::TriggerPush(t) => "Push: "@ + trigger_label_of(t) + " (full)"@,
    }
}

/// Writes what a target is shown as.
pub fn gamepad_target_label(t: GamepadTarget) -> (r: String)
    ensures
        r@ == target_label(t),
{
    match t {
        GamepadTarget::Unmapped => "(none)".to_owned(),
        GamepadTarget::Button(b) => "Button: ".to_owned().concat(button_label(b)),
        GamepadTarget::StickPush(s, d) => "Push: ".to_owned().concat(stick_label(s)).concat(
            " ",
        ).concat(direction_label(d)),
        GamepadTarget::TriggerPush(t) => "Push: ".to_owned().concat(trigger_label(t)).concat(
            " (full)",
        ),
    }
}

/// How many targets there are.
pub const TARGET_COUNT: usize = 29;

/// The targets in the order in which they are listed.
pub open spec fn target_row(i: usize) -> GamepadTarget {
    match i {
        0 => GamepadTarget::Unmapped,
        1 => GamepadTarget::Button(GamepadButton::Cross),
        2 => GamepadTarget::Button(GamepadButton::Circle),
        3 => GamepadTarget::Button(GamepadButton::Square),
        4 => GamepadTarget::Button(GamepadButton::Triangle),
        5 => GamepadTarget::Button(GamepadButton::L1),
        6 => GamepadTarget::Button(GamepadButton::R1),
        7 => GamepadTarget::Button(GamepadButton::L2Digital),
        8 => GamepadTarget::Button(GamepadButton::R2Digital),
        9 => GamepadTarget::Button(GamepadButton::L3),
        10 => GamepadTarget::Button(GamepadButton::R3),
        11 => GamepadTarget::Button(GamepadButton::Share),
        12 => GamepadTarget::Button(GamepadButton::Options),
        13 => GamepadTarget::Button(GamepadButton::Ps),
        14 => GamepadTarget::Button(GamepadButton::TouchpadClick),
        15 => GamepadTarget::Button(GamepadButton::DpadUp),
        16 => GamepadTarget::Button(GamepadButton::DpadDown),
        17 => GamepadTarget::Button(GamepadButton::DpadLeft),
        18 => GamepadTarget::Button(GamepadButton::DpadRight),
        19 => GamepadTarget::StickPush(OutputStick::Left, AxisDirection::Up),
        20 => GamepadTarget::StickPush(OutputStick::Left, AxisDirection::Down),
        21 => GamepadTarget::StickPush(OutputStick::Left, AxisDirection::Left),
        22 => GamepadTarget::StickPush(OutputStick::Left, AxisDirection::Right),
        23 => GamepadTarget::StickPush(OutputStick::Right, AxisDirection::Up),
        24 => GamepadTarget::StickPush(OutputStick::Right, AxisDirection::Down),
        25 => GamepadTarget::StickPush(OutputStick::Right, AxisDirection::Left),
        26 => GamepadTarget::StickPush(OutputStick::Right, AxisDirection::Right),
        27 => GamepadTarget::TriggerPush(OutputTrigger::L2),
        _ => GamepadTarget::TriggerPush(OutputTrigger::R2),
    }
}

/// The target at a place in the list.
pub fn gamepad_target_at(i: usize) -> (r: GamepadTarget)
    requires
        i < TARGET_COUNT,
    ensures
        r == target_row(i),
{
    match i {
        0 => GamepadTarget::Unmapped,
        1 => GamepadTarget::Button(GamepadButton::Cross),
        2 => GamepadTarget::Button(GamepadButton::Circle),
        3 => GamepadTarget::Button(GamepadButton::Square),
        4 => GamepadTarget::Button(GamepadButton::Triangle),
        5 => GamepadTarget::Button(GamepadButton::L1),
        6 => GamepadTarget::Button(GamepadButton::R1),
        7 => GamepadTarget::Button(GamepadButton::L2Digital),
        8 => GamepadTarget::Button(GamepadButton::R2Digital),
        9 => GamepadTarget::Button(GamepadButton::L3),
        10 => GamepadTarget::Button(GamepadButton::R3),
        11 => GamepadTarget::Button(GamepadButton::Share),
        12 => GamepadTarget::Button(GamepadButton::Options),
        13 => GamepadTarget::Button(GamepadButton::Ps),
        14 => GamepadTarget::Button(GamepadButton::TouchpadClick),
        15 => GamepadTarget::Button(GamepadButton::DpadUp),
        16 => GamepadTarget::Button(GamepadButton::DpadDown),
        17 => GamepadTarget::Button(GamepadButton::DpadLeft),
        18 => GamepadTarget::Button(GamepadButton::DpadRight),
        19 => GamepadTarget::StickPush(OutputStick::Left, AxisDirection::Up),
        20 => GamepadTarget::StickPush(OutputStick::Left, AxisDirection::Down),
        21 => GamepadTarget::StickPush(OutputStick::Left, AxisDirection::Left),
        22 => GamepadTarget::StickPush(OutputStick::Left, AxisDirection::Right),
        23 => GamepadTarget::StickPush(OutputStick::Right, AxisDirection::Up),
        24 => GamepadTarget::StickPush(OutputStick::Right, AxisDirection::Down),
        25 => GamepadTarget::StickPush(OutputStick::Right, AxisDirection::Left),
        26 => GamepadTarget::StickPush(OutputStick::Right, AxisDirection::Right),
        27 => GamepadTarget::TriggerPush(OutputTrigger::L2),
        _ => GamepadTarget::TriggerPush(OutputTrigger::R2),
    }
}

/// Lists every target with its id and its label.
pub fn gamepad_target_options() -> (r: Vec<(String, String, GamepadTarget)>)
    ensures
        r@.len() == TARGET_COUNT,
        forall|i: int|
            0 <= i < TARGET_COUNT ==> (#[trigger] r@[i]).2 == target_row(i as usize) && r@[i].0@
                == target_id(target_row(i as usize)) && r@[i].1@ == target_label(
                target_row(i as usize),
            ),
{
    let mut r: Vec<(String, String, GamepadTarget)> = Vec::new();
    let mut i: usize = 0;
    while i < TARGET_COUNT
        invariant
            i <= TARGET_COUNT,
            r@.len() == i,
            forall|k: int|
                0 <= k < i ==> (#[trigger] r@[k]).2 == target_row(k as usize) && r@[k].0@
                    == target_id(target_row(k as usize)) && r@[k].1@ == target_label(
                    target_row(k as usize),
                ),
        decreases TARGET_COUNT - i,
    {
        let t = gamepad_target_at(i);
        r.push((gamepad_target_id(t), gamepad_target_label(t), t));
        i = i + 1;
    }
    r
}

/// Finds the target with an id. Any other id stands for no target.
pub fn gamepad_target_from_id(id: &str) -> (r: GamepadTarget)
    ensures
        target_id(r) == id@ || (r == GamepadTarget::Unmapped && forall|t: GamepadTarget| #[trigger]
            target_id(t) != id@),
{
    let mut i: usize = 0;
    while i < TARGET_COUNT
        invariant
            i <= TARGET_COUNT,
            forall|k: usize| k < i ==> target_id(#[trigger] target_row(k)) != id@,
        decreases TARGET_COUNT - i,
    {
        let t = gamepad_target_at(i);
        if same(gamepad_target_id(t).as_str(), id) {
            return t;
        }
        i = i + 1;
    }
    proof {
        assert forall|t: GamepadTarget| #[trigger] target_id(t) != id@ by {
            let k = law_every_target_is_listed(t);
            assert(target_id(target_row(k)) != id@);
        }
    }
    GamepadTarget::Unmapped
}

/// Every target is in the list, so every setting can be shown and chosen.
pub proof fn law_every_target_is_listed(t: GamepadTarget) -> (i: usize)
    ensures
        i < TARGET_COUNT,
        target_row(i) == t,
{
    match t {
        GamepadTarget::Unmapped => 0,
        GamepadTarget::Button(GamepadButton::Cross) => 1,
        GamepadTarget::Button(GamepadButton::Circle) => 2,
        GamepadTarget::Button(GamepadButton::Square) => 3,
        GamepadTarget::Button(GamepadButton::Triangle) => 4,
        GamepadTarget::Button(GamepadButton::L1) => 5,
        GamepadTarget::Button(GamepadButton::R1) => 6,
        GamepadTarget::Button(GamepadButton::L2Digital) => 7,
        GamepadTarget::Button(GamepadButton::R2Digital) => 8,
        GamepadTarget::Button(GamepadButton::L3) => 9,
        GamepadTarget::Button(GamepadButton::R3) => 10,
        GamepadTarget::Button(GamepadButton::Share) => 11,
        GamepadTarget::Button(GamepadButton::Options) => 12,
        GamepadTarget::Button(GamepadButton::Ps) => 13,
        GamepadTarget::Button(GamepadButton::TouchpadClick) => 14,
        GamepadTarget::Button(GamepadButton::DpadUp) => 15,
        GamepadTarget::Button(GamepadButton::DpadDown) => 16,
        GamepadTarget::Button(GamepadButton::DpadLeft) => 17,
        GamepadTarget::Button(GamepadButton::DpadRight) => 18,
        GamepadTarget::StickPush(OutputStick::Left, AxisDirection::Up) => 19,
        GamepadTarget::StickPush(OutputStick::Left, AxisDirection::Down) => 20,
        GamepadTarget::StickPush(OutputStick::Left, AxisDirection::Left) => 21,
        GamepadTarget::StickPush(OutputStick::Left, AxisDirection::Right) => 22,
        GamepadTarget::StickPush(OutputStick::Right, AxisDirection::Up) => 23,
        GamepadTarget::StickPush(OutputStick::Right, AxisDirection::Down) => 24,
        GamepadTarget::StickPush(OutputStick::Right, AxisDirection::Left) => 25,
        GamepadTarget::StickPush(OutputStick::Right, AxisDirection::Right) => 26,
        GamepadTarget::TriggerPush(OutputTrigger::L2) => 27,
        GamepadTarget::TriggerPush(OutputTrigger::R2) => 28,
    }
}

proof fn lemma_prefix_split(head: Seq<char>, a: Seq<char>, b: Seq<char>)
    requires
        head + a == head + b,
    ensures
        a == b,
{
    let n = head.len() as int;
    assert((head + a).skip(n) =~= a);
    assert((head + b).skip(n) =~= b);
}

proof fn lemma_push_ids_differ(
    s1: OutputStick,
    d1: AxisDirection,
    s2: OutputStick,
    d2: AxisDirection,
)
    requires
        "stickpush_"@ + stick_id_of(s1) + "_"@ + direction_id_of(d1) == "stickpush_"@ + stick_id_of(
            s2,
        ) + "_"@ + direction_id_of(d2),
    ensures
        s1 == s2,
        d1 == d2,
{
    reveal_strlit("stickpush_");
    reveal_strlit("left");
    reveal_strlit("right");
    let a = "stickpush_"@ + stick_id_of(s1) + "_"@ + direction_id_of(d1);
    let b = "stickpush_"@ + stick_id_of(s2) + "_"@ + direction_id_of(d2);
    let n = "stickpush_"@.len() as int;
    assert(a[n] == stick_id_of(s1)[0]);
    assert(b[n] == stick_id_of(s2)[0]);
    assert("left"@[0] == 'l');
    assert("right"@[0] == 'r');
    let head = "stickpush_"@ + stick_id_of(s1) + "_"@;
    lemma_prefix_split(head, direction_id_of(d1), direction_id_of(d2));
    lemma_direction_ids_differ(d1, d2);
}

/// No two ids are the same, so a target always comes back from its id.
pub proof fn law_target_ids_differ(x: GamepadTarget, y: GamepadTarget)
    requires
        target_id(x) == target_id(y),
    ensures
        x == y,
{
    reveal_strlit("none");
    reveal_strlit("button_");
    reveal_strlit("stickpush_");
    reveal_strlit("triggerpush_");
    lemma_id_initial(x);
    lemma_id_initial(y);
    match (x, y) {
        (GamepadTarget::Button(a), GamepadTarget::Button(b)) => {
            lemma_prefix_split("button_"@, button_id_of(a), button_id_of(b));
            lemma_button_ids_differ(a, b);
        },
        (GamepadTarget::StickPush(s1, d1), GamepadTarget::StickPush(s2, d2)) => {
            lemma_push_ids_differ(s1, d1, s2, d2);
        },
        (GamepadTarget::TriggerPush(a), GamepadTarget::TriggerPush(b)) => {
            lemma_prefix_split("triggerpush_"@, trigger_id_of(a), trigger_id_of(b));
            lemma_trigger_ids_differ(a, b);
        },
        _ => {},
    }
}

proof fn lemma_id_initial(x: GamepadTarget)
    ensures
        target_id(x).len() > 0,
        target_id(x)[0] == (match x {
            GamepadTarget::Unmapped => 'n',
            GamepadTarget::Button(_) => 'b',
            GamepadTarget::StickPush(_, _) => 's',
            GamepadTarget::TriggerPush(_) => 't',
        }),
{
    reveal_strlit("none");
    reveal_strlit("button_");
    reveal_strlit("stickpush_");
    reveal_strlit("triggerpush_");
    assert("none"@[0] == 'n');
    assert("button_"@[0] == 'b');
    assert("stickpush_"@[0] == 's');
    assert("triggerpush_"@[0] == 't');
}

/// The id of a target says what the target is: a button by its name, a push by its
/// stick and its direction, a pull by its trigger.
pub proof fn law_target_id_says_the_target(t: GamepadTarget)
    ensures
        match t {
            GamepadTarget::Unmapped => target_id(t) == "none"@,
            GamepadTarget::Button(b) => exists|name: Seq<char>|
                target_id(t) == "button_"@ + name && #[trigger] names_button(name, b),
            GamepadTarget::StickPush(s, d) => target_id(t) == "stickpush_"@ + (match s {
                OutputStick::Left => "left"@,
                OutputStick::Right => "right"@,
            }) + "_"@ + (match d {
                AxisDirection::Up => "up"@,
                AxisDirection::Down => "down"@,
                AxisDirection::Left => "left"@,
                AxisDirection::Right => "right"@,
            }),
            GamepadTarget::TriggerPush(OutputTrigger::L2) => target_id(t) == "triggerpush_"@ + "l2"@,
            GamepadTarget::TriggerPush(OutputTrigger::R2) => target_id(t) == "triggerpush_"@ + "r2"@,
        },
{
    if let GamepadTarget::Button(b) = t {
        assert(names_button(button_id_of(b), b));
    }
}

/// Whether a name is that of a button.
pub open spec fn names_button(name: Seq<char>, b: GamepadButton) -> bool {
    ||| name == "cross"@ && b == GamepadButton::Cross
    ||| name == "circle"@ && b == GamepadButton::Circle
    ||| name == "square"@ && b == GamepadButton::Square
    ||| name == "triangle"@ && b == GamepadButton::Triangle
    ||| name == "l1"@ && b == GamepadButton::L1
    ||| name == "r1"@ && b == GamepadButton::R1
    ||| name == "l2_digital"@ && b == GamepadButton::L2Digital
    ||| name == "r2_digital"@ && b == GamepadButton::R2Digital
    ||| name == "l3"@ && b == GamepadButton::L3
    ||| name == "r3"@ && b == GamepadButton::R3
    ||| name == "share"@ && b == GamepadButton::Share
    ||| name == "options"@ && b == GamepadButton::Options
    ||| name == "ps"@ && b == GamepadButton::Ps
    ||| name == "touchpad_click"@ && b == GamepadButton::TouchpadClick
    ||| name == "dpad_up"@ && b == GamepadButton::DpadUp
    ||| name == "dpad_down"@ && b == GamepadButton::DpadDown
    ||| name == "dpad_left"@ && b == GamepadButton::DpadLeft
    ||| name == "dpad_right"@ && b == GamepadButton::DpadRight
}

/// What a target is shown as says what the target is.
pub proof fn law_target_label_says_the_target(t: GamepadTarget)
    ensures
        match t {
            GamepadTarget::Unmapped => target_label(t) == "(none)"@,
            GamepadTarget::Button(b) => exists|name: Seq<char>|
                target_label(t) == "Button: "@ + name && #[trigger] labels_button(name, b),
            GamepadTarget::StickPush(s, d) => target_label(t) == "Push: "@ + (match s {
                OutputStick::Left => "Left Stick"@,
                OutputStick::Right => "Right Stick"@,
            }) + " "@ + (match d {
                AxisDirection::Up => "Up"@,
                AxisDirection::Down => "Down"@,
                AxisDirection::Left => "Left"@,
                AxisDirection::Right => "Right"@,
            }),
            GamepadTarget::TriggerPush(OutputTrigger::L2) => target_label(t) == "Push: "@ + "L2"@
                + " (full)"@,
            GamepadTarget::TriggerPush(OutputTrigger::R2) => target_label(t) == "Push: "@ + "R2"@
                + " (full)"@,
        },
{
    if let GamepadTarget::Button(b) = t {
        assert(labels_button(button_label_of(b), b));
    }
}

/// Whether a label is that of a button.
pub open spec fn labels_button(name: Seq<char>, b: GamepadButton) -> bool {
    ||| name == "Cross (X)"@ && b == GamepadButton::Cross
    ||| name == "Circle (O)"@ && b == GamepadButton::Circle
    ||| name == "Square"@ && b == GamepadButton::Square
    ||| name == "Triangle"@ && b == GamepadButton::Triangle
    ||| name == "L1"@ && b == GamepadButton::L1
    ||| name == "R1"@ && b == GamepadButton::R1
    ||| name == "L2 (digital click)"@ && b == GamepadButton::L2Digital
    ||| name == "R2 (digital click)"@ && b == GamepadButton::R2Digital
    ||| name == "L3 (stick click)"@ && b == GamepadButton::L3
    ||| name == "R3 (stick click)"@ && b == GamepadButton::R3
    ||| name == "Share"@ && b == GamepadButton::Share
    ||| name == "Options"@ && b == GamepadButton::Options
    ||| name == "PS button"@ && b == GamepadButton::Ps
    ||| name == "Touchpad click"@ && b == GamepadButton::TouchpadClick
    ||| name == "D-pad Up"@ && b == GamepadButton::DpadUp
    ||| name == "D-pad Down"@ && b == GamepadButton::DpadDown
    ||| name == "D-pad Left"@ && b == GamepadButton::DpadLeft
    ||| name == "D-pad Right"@ && b == GamepadButton::DpadRight
}

/// A target is listed in one place only, so the list shows each choice once.
pub proof fn law_target_is_listed_once(i: usize, j: usize)
    requires
        i < TARGET_COUNT,
        j < TARGET_COUNT,
        target_row(i) == target_row(j),
    ensures
        i == j,
{
}

} // verus!
