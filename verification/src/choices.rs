//! The editor's choices: each setting's values, with the ids and labels that
//! they have in a drop-down list.

use crate::gamepad_remap::{StickAnalogSource, TriggerAnalogSource, HALF_DEFLECTION_STEPS};
use crate::gyro_stick::{GateButton, GyroMode};
use crate::kbm::{
    proportional_counts, KbmTarget, StickKbmMode, DEFAULT_STICK_COUNTS,
};
use crate::profile::OutputMode;
use crate::text::same;
use crate::touchpad::TouchpadMode;
use vstd::prelude::*;
use vstd::string::*;

verus! {

/// The id of an output mode.
pub open spec fn output_mode_id_of(x: OutputMode) -> Seq<char> {
    match x {
        OutputMode::Gamepad => "gamepad"@,
        OutputMode::Xbox360 => "xbox360"@,
        OutputMode::Kbm => "kbm"@,
    }
}

/// The id of an output mode.
pub fn output_mode_id(x: OutputMode) -> (r: &'static str)
    ensures
        r@ == output_mode_id_of(x),
{
    match x {
        OutputMode::Gamepad => "gamepad",
        OutputMode::Xbox360 => "xbox360",
        OutputMode::Kbm => "kbm",
    }
}

/// What an output mode is shown as.
pub fn output_mode_label(x: OutputMode) -> (r: &'static str)
    ensures
        r@ == (match x {
            OutputMode::Gamepad => "Gamepad (native DS4)"@,
            OutputMode::Xbox360 => "Xbox 360 (Xinput-compatible)"@,
            OutputMode::Kbm => "Keyboard + Mouse"@,
        }),
{
    match x {
        OutputMode::Gamepad => "Gamepad (native DS4)",
        OutputMode::Xbox360 => "Xbox 360 (Xinput-compatible)",
        OutputMode::Kbm => "Keyboard + Mouse",
    }
}

/// Finds an output mode by its id. Any other id stands for the fallback.
pub fn output_mode_from_id(id: &str) -> (r: OutputMode)
    ensures
        output_mode_id_of(r) == id@ || (r == OutputMode::Gamepad && forall|x: OutputMode| #[trigger]
            output_mode_id_of(x) != id@),
{
    if same(id, "gamepad") {
        return OutputMode::Gamepad;
    }
    if same(id, "xbox360") {
        return OutputMode::Xbox360;
    }
    if same(id, "kbm") {
        return OutputMode::Kbm;
    }
    OutputMode::Gamepad
}

/// No two ids are the same, so each names its own choice.
pub proof fn law_output_mode_ids_differ(x: OutputMode, y: OutputMode)
    requires
        output_mode_id_of(x) == output_mode_id_of(y),
    ensures
        x == y,
{
    reveal_strlit("gamepad");
    assert("gamepad"@.len() == 7);
    reveal_strlit("xbox360");
    assert("xbox360"@.len() == 7);
    reveal_strlit("kbm");
    assert("kbm"@.len() == 3);
    let a = output_mode_id_of(x);
    let b = output_mode_id_of(y);
    assert(a.len() == b.len());
    assert(a[0] == b[0]);
    assert(a[1] == b[1]);
    assert(a.last() == b.last());
    assert(a[a.len() - 2] == b[b.len() - 2]);
}

/// The id of a gyro mode.
pub open spec fn gyro_mode_id_of(x: GyroMode) -> Seq<char> {
    match x {
        GyroMode::AlwaysOn => "always_on"@,
        GyroMode::Toggle => "toggle"@,
        GyroMode::Hold => "hold"@,
        GyroMode::Disabled => "disabled"@,
    }
}

/// The id of a gyro mode.
pub fn gyro_mode_id(x: GyroMode) -> (r: &'static str)
    ensures
        r@ == gyro_mode_id_of(x),
{
    match x {
        GyroMode::AlwaysOn => "always_on",
        GyroMode::Toggle => "toggle",
        GyroMode::Hold => "hold",
        GyroMode::Disabled => "disabled",
    }
}

/// What a gyro mode is shown as.
pub fn gyro_mode_label(x: GyroMode) -> (r: &'static str)
    ensures
        r@ == (match x {
            GyroMode::AlwaysOn => "Always On"@,
            GyroMode::Toggle => "Toggle (press L2)"@,
            GyroMode::Hold => "Hold (hold L2)"@,
            GyroMode::Disabled => "Disabled (no gyro-to-stick)"@,
        }),
{
    match x {
        GyroMode::AlwaysOn => "Always On",
        GyroMode::Toggle => "Toggle (press L2)",
        GyroMode::Hold => "Hold (hold L2)",
        GyroMode::Disabled => "Disabled (no gyro-to-stick)",
    }
}

/// Finds a gyro mode by its id. Any other id stands for the fallback.
pub fn gyro_mode_from_id(id: &str) -> (r: GyroMode)
    ensures
        gyro_mode_id_of(r) == id@ || (r == GyroMode::Hold && forall|x: GyroMode| #[trigger]
            gyro_mode_id_of(x) != id@),
{
    if same(id, "always_on") {
        return GyroMode::AlwaysOn;
    }
    if same(id, "toggle") {
        return GyroMode::Toggle;
    }
    if same(id, "hold") {
        return GyroMode::Hold;
    }
    if same(id, "disabled") {
        return GyroMode::Disabled;
    }
    GyroMode::Hold
}

/// No two ids are the same, so each names its own choice.
pub proof fn law_gyro_mode_ids_differ(x: GyroMode, y: GyroMode)
    requires
        gyro_mode_id_of(x) == gyro_mode_id_of(y),
    ensures
        x == y,
{
    reveal_strlit("always_on");
    assert("always_on"@.len() == 9);
    reveal_strlit("toggle");
    assert("toggle"@.len() == 6);
    reveal_strlit("hold");
    assert("hold"@.len() == 4);
    reveal_strlit("disabled");
    assert("disabled"@.len() == 8);
    let a = gyro_mode_id_of(x);
    let b = gyro_mode_id_of(y);
    assert(a.len() == b.len());
    assert(a[0] == b[0]);
    assert(a[1] == b[1]);
    assert(a.last() == b.last());
    assert(a[a.len() - 2] == b[b.len() - 2]);
}

/// The id of a touchpad mode.
pub open spec fn touchpad_mode_id_of(x: TouchpadMode) -> Seq<char> {
    match x {
        TouchpadMode::Passthrough => "passthrough"@,
        TouchpadMode::MouseRemap => "mouse_remap"@,
        TouchpadMode::AbsoluteMouse => "absolute_mouse"@,
        TouchpadMode::Disabled => "disabled"@,
    }
}

/// The id of a touchpad mode.
pub fn touchpad_mode_id(x: TouchpadMode) -> (r: &'static str)
    ensures
        r@ == touchpad_mode_id_of(x),
{
    match x {
        TouchpadMode::Passthrough => "passthrough",
        TouchpadMode::MouseRemap => "mouse_remap",
        TouchpadMode::AbsoluteMouse => "absolute_mouse",
        TouchpadMode::Disabled => "disabled",
    }
}

/// What a touchpad mode is shown as.
pub fn touchpad_mode_label(x: TouchpadMode) -> (r: &'static str)
    ensures
        r@ == (match x {
            TouchpadMode::Passthrough => "Passthrough (kernel's own native touchpad device)"@,
            TouchpadMode::MouseRemap => "Mouse Remap (relative)"@,
            TouchpadMode::AbsoluteMouse => "Absolute Mouse (tablet-style)"@,
            TouchpadMode::Disabled => "Disabled (fully suppressed)"@,
        }),
{
    match x {
        TouchpadMode::Passthrough => "Passthrough (kernel's own native touchpad device)",
        TouchpadMode::MouseRemap => "Mouse Remap (relative)",
        TouchpadMode::AbsoluteMouse => "Absolute Mouse (tablet-style)",
        TouchpadMode::Disabled => "Disabled (fully suppressed)",
    }
}

/// Finds a touchpad mode by its id. Any other id stands for the fallback.
pub fn touchpad_mode_from_id(id: &str) -> (r: TouchpadMode)
    ensures
        touchpad_mode_id_of(r) == id@ || (r == TouchpadMode::Passthrough && forall|x: TouchpadMode| #[trigger]
            touchpad_mode_id_of(x) != id@),
{
    if same(id, "passthrough") {
        return TouchpadMode::Passthrough;
    }
    if same(id, "mouse_remap") {
        return TouchpadMode::MouseRemap;
    }
    if same(id, "absolute_mouse") {
        return TouchpadMode::AbsoluteMouse;
    }
    if same(id, "disabled") {
        return TouchpadMode::Disabled;
    }
    TouchpadMode::Passthrough
}

/// No two ids are the same, so each names its own choice.
pub proof fn law_touchpad_mode_ids_differ(x: TouchpadMode, y: TouchpadMode)
    requires
        touchpad_mode_id_of(x) == touchpad_mode_id_of(y),
    ensures
        x == y,
{
    reveal_strlit("passthrough");
    assert("passthrough"@.len() == 11);
    reveal_strlit("mouse_remap");
    assert("mouse_remap"@.len() == 11);
    reveal_strlit("absolute_mouse");
    assert("absolute_mouse"@.len() == 14);
    reveal_strlit("disabled");
    assert("disabled"@.len() == 8);
    let a = touchpad_mode_id_of(x);
    let b = touchpad_mode_id_of(y);
    assert(a.len() == b.len());
    assert(a[0] == b[0]);
    assert(a[1] == b[1]);
    assert(a.last() == b.last());
    assert(a[a.len() - 2] == b[b.len() - 2]);
}

/// The id of a stick source.
pub open spec fn stick_source_id_of(x: StickAnalogSource) -> Seq<char> {
    match x {
        StickAnalogSource::Unmapped => "none"@,
        StickAnalogSource::Left => "left"@,
        StickAnalogSource::Right => "right"@,
    }
}

/// The id of a stick source.
pub fn stick_source_id(x: StickAnalogSource) -> (r: &'static str)
    ensures
        r@ == stick_source_id_of(x),
{
    match x {
        StickAnalogSource::Unmapped => "none",
        StickAnalogSource::Left => "left",
        StickAnalogSource::Right => "right",
    }
}

/// What a stick source is shown as.
pub fn stick_source_label(x: StickAnalogSource) -> (r: &'static str)
    ensures
        r@ == (match x {
            StickAnalogSource::Unmapped => "(disabled -- stays centered)"@,
            StickAnalogSource::Left => "Physical Left Stick"@,
            StickAnalogSource::Right => "Physical Right Stick"@,
        }),
{
    match x {
        StickAnalogSource::Unmapped => "(disabled -- stays centered)",
        StickAnalogSource::Left => "Physical Left Stick",
        StickAnalogSource::Right => "Physical Right Stick",
    }
}

/// Finds a stick source by its id. Any other id stands for the fallback.
pub fn stick_source_from_id(id: &str) -> (r: StickAnalogSource)
    ensures
        stick_source_id_of(r) == id@ || (r == StickAnalogSource::Unmapped && forall|x: StickAnalogSource| #[trigger]
            stick_source_id_of(x) != id@),
{
    if same(id, "none") {
        return StickAnalogSource::Unmapped;
    }
    if same(id, "left") {
        return StickAnalogSource::Left;
    }
    if same(id, "right") {
        return StickAnalogSource::Right;
    }
    StickAnalogSource::Unmapped
}

/// No two ids are the same, so each names its own choice.
pub proof fn law_stick_source_ids_differ(x: StickAnalogSource, y: StickAnalogSource)
    requires
        stick_source_id_of(x) == stick_source_id_of(y),
    ensures
        x == y,
{
    reveal_strlit("none");
    assert("none"@.len() == 4);
    reveal_strlit("left");
    assert("left"@.len() == 4);
    reveal_strlit("right");
    assert("right"@.len() == 5);
    let a = stick_source_id_of(x);
    let b = stick_source_id_of(y);
    assert(a.len() == b.len());
    assert(a[0] == b[0]);
    assert(a[1] == b[1]);
    assert(a.last() == b.last());
    assert(a[a.len() - 2] == b[b.len() - 2]);
}

/// The id of a trigger source.
pub open spec fn trigger_source_id_of(x: TriggerAnalogSource) -> Seq<char> {
    match x {
        TriggerAnalogSource::Unmapped => "none"@,
        TriggerAnalogSource::L2 => "l2"@,
        TriggerAnalogSource::R2 => "r2"@,
    }
}

/// The id of a trigger source.
pub fn trigger_source_id(x: TriggerAnalogSource) -> (r: &'static str)
    ensures
        r@ == trigger_source_id_of(x),
{
    match x {
        TriggerAnalogSource::Unmapped => "none",
        TriggerAnalogSource::L2 => "l2",
        TriggerAnalogSource::R2 => "r2",
    }
}

/// What a trigger source is shown as.
pub fn trigger_source_label(x: TriggerAnalogSource) -> (r: &'static str)
    ensures
        r@ == (match x {
            TriggerAnalogSource::Unmapped => "(disabled -- stays at 0)"@,
            TriggerAnalogSource::L2 => "Physical L2"@,
            TriggerAnalogSource::R2 => "Physical R2"@,
        }),
{
    match x {
        TriggerAnalogSource::Unmapped => "(disabled -- stays at 0)",
        TriggerAnalogSource::L2 => "Physical L2",
        TriggerAnalogSource::R2 => "Physical R2",
    }
}

/// Finds a trigger source by its id. Any other id stands for the fallback.
pub fn trigger_source_from_id(id: &str) -> (r: TriggerAnalogSource)
    ensures
        trigger_source_id_of(r) == id@ || (r == TriggerAnalogSource::Unmapped && forall|x: TriggerAnalogSource| #[trigger]
            trigger_source_id_of(x) != id@),
{
    if same(id, "none") {
        return TriggerAnalogSource::Unmapped;
    }
    if same(id, "l2") {
        return TriggerAnalogSource::L2;
    }
    if same(id, "r2") {
        return TriggerAnalogSource::R2;
    }
    TriggerAnalogSource::Unmapped
}

/// No two ids are the same, so each names its own choice.
pub proof fn law_trigger_source_ids_differ(x: TriggerAnalogSource, y: TriggerAnalogSource)
    requires
        trigger_source_id_of(x) == trigger_source_id_of(y),
    ensures
        x == y,
{
    reveal_strlit("none");
    assert("none"@.len() == 4);
    reveal_strlit("l2");
    assert("l2"@.len() == 2);
    reveal_strlit("r2");
    assert("r2"@.len() == 2);
    let a = trigger_source_id_of(x);
    let b = trigger_source_id_of(y);
    assert(a.len() == b.len());
    assert(a[0] == b[0]);
    assert(a[1] == b[1]);
    assert(a.last() == b.last());
    assert(a[a.len() - 2] == b[b.len() - 2]);
}

/// The id of a gate button.
pub open spec fn gate_button_id_of(x: GateButton) -> Seq<char> {
    match x {
        GateButton::L1 => "l1"@,
        GateButton::R1 => "r1"@,
        GateButton::L2 => "l2"@,
        GateButton::R2 => "r2"@,
        GateButton::L2Digital => "l2_digital"@,
        GateButton::R2Digital => "r2_digital"@,
        GateButton::L3 => "l3"@,
        GateButton::R3 => "r3"@,
        GateButton::Cross => "cross"@,
        GateButton::Circle => "circle"@,
        GateButton::Square => "square"@,
        GateButton::Triangle => "triangle"@,
        GateButton::Share => "share"@,
        GateButton::Options => "options"@,
        GateButton::Ps => "ps"@,
        GateButton::TouchpadClick => "touchpad_click"@,
    }
}

/// The id of a gate button.
pub fn gate_button_id(x: GateButton) -> (r: &'static str)
    ensures
        r@ == gate_button_id_of(x),
{
    match x {
        GateButton::L1 => "l1",
        GateButton::R1 => "r1",
        GateButton::L2 => "l2",
        GateButton::R2 => "r2",
        GateButton::L2Digital => "l2_digital",
        GateButton::R2Digital => "r2_digital",
        GateButton::L3 => "l3",
        GateButton::R3 => "r3",
        GateButton::Cross => "cross",
        GateButton::Circle => "circle",
        GateButton::Square => "square",
        GateButton::Triangle => "triangle",
        GateButton::Share => "share",
        GateButton::Options => "options",
        GateButton::Ps => "ps",
        GateButton::TouchpadClick => "touchpad_click",
    }
}

/// What a gate button is shown as.
pub fn gate_button_label(x: GateButton) -> (r: &'static str)
    ensures
        r@ == (match x {
            GateButton::L1 => "L1"@,
            GateButton::R1 => "R1"@,
            GateButton::L2 => "L2 (analog threshold)"@,
            GateButton::R2 => "R2 (analog threshold)"@,
            GateButton::L2Digital => "L2 (digital click)"@,
            GateButton::R2Digital => "R2 (digital click)"@,
            GateButton::L3 => "L3 (stick click)"@,
            GateButton::R3 => "R3 (stick click)"@,
            GateButton::Cross => "Cross (X)"@,
            GateButton::Circle => "Circle (O)"@,
            GateButton::Square => "Square"@,
            GateButton::Triangle => "Triangle"@,
            GateButton::Share => "Share"@,
            GateButton::Options => "Options"@,
            GateButton::Ps => "PS button"@,
            GateButton::TouchpadClick => "Touchpad click"@,
        }),
{
    match x {
        GateButton::L1 => "L1",
        GateButton::R1 => "R1",
        GateButton::L2 => "L2 (analog threshold)",
        GateButton::R2 => "R2 (analog threshold)",
        GateButton::L2Digital => "L2 (digital click)",
        GateButton::R2Digital => "R2 (digital click)",
        GateButton::L3 => "L3 (stick click)",
        GateButton::R3 => "R3 (stick click)",
        GateButton::Cross => "Cross (X)",
        GateButton::Circle => "Circle (O)",
        GateButton::Square => "Square",
        GateButton::Triangle => "Triangle",
        GateButton::Share => "Share",
        GateButton::Options => "Options",
        GateButton::Ps => "PS button",
        GateButton::TouchpadClick => "Touchpad click",
    }
}

/// Finds a gate button by its id. Any other id stands for the fallback.
pub fn gate_button_from_id(id: &str) -> (r: GateButton)
    ensures
        gate_button_id_of(r) == id@ || (r == GateButton::L2 && forall|x: GateButton| #[trigger]
            gate_button_id_of(x) != id@),
{
    if same(id, "l1") {
        return GateButton::L1;
    }
    if same(id, "r1") {
        return GateButton::R1;
    }
    if same(id, "l2") {
        return GateButton::L2;
    }
    if same(id, "r2") {
        return GateButton::R2;
    }
    if same(id, "l2_digital") {
        return GateButton::L2Digital;
    }
    if same(id, "r2_digital") {
        return GateButton::R2Digital;
    }
    if same(id, "l3") {
        return GateButton::L3;
    }
    if same(id, "r3") {
        return GateButton::R3;
    }
    if same(id, "cross") {
        return GateButton::Cross;
    }
    if same(id, "circle") {
        return GateButton::Circle;
    }
    if same(id, "square") {
        return GateButton::Square;
    }
    if same(id, "triangle") {
        return GateButton::Triangle;
    }
    if same(id, "share") {
        return GateButton::Share;
    }
    if same(id, "options") {
        return GateButton::Options;
    }
    if same(id, "ps") {
        return GateButton::Ps;
    }
    if same(id, "touchpad_click") {
        return GateButton::TouchpadClick;
    }
    GateButton::L2
}

/// No two ids are the same, so each names its own choice.
pub proof fn law_gate_button_ids_differ(x: GateButton, y: GateButton)
    requires
        gate_button_id_of(x) == gate_button_id_of(y),
    ensures
        x == y,
{
    reveal_strlit("l1");
    assert("l1"@.len() == 2);
    reveal_strlit("r1");
    assert("r1"@.len() == 2);
    reveal_strlit("l2");
    assert("l2"@.len() == 2);
    reveal_strlit("r2");
    assert("r2"@.len() == 2);
    reveal_strlit("l2_digital");
    assert("l2_digital"@.len() == 10);
    reveal_strlit("r2_digital");
    assert("r2_digital"@.len() == 10);
    reveal_strlit("l3");
    assert("l3"@.len() == 2);
    reveal_strlit("r3");
    assert("r3"@.len() == 2);
    reveal_strlit("cross");
    assert("cross"@.len() == 5);
    reveal_strlit("circle");
    assert("circle"@.len() == 6);
    reveal_strlit("square");
    assert("square"@.len() == 6);
    reveal_strlit("triangle");
    assert("triangle"@.len() == 8);
    reveal_strlit("share");
    assert("share"@.len() == 5);
    reveal_strlit("options");
    assert("options"@.len() == 7);
    reveal_strlit("ps");
    assert("ps"@.len() == 2);
    reveal_strlit("touchpad_click");
    assert("touchpad_click"@.len() == 14);
    let a = gate_button_id_of(x);
    let b = gate_button_id_of(y);
    assert(a.len() == b.len());
    assert(a[0] == b[0]);
    assert(a[1] == b[1]);
    assert(a.last() == b.last());
    assert(a[a.len() - 2] == b[b.len() - 2]);
}

/// The id of what a stick does in the keyboard and mouse mode.
pub fn stick_mode_id(mode: &StickKbmMode) -> (r: &'static str)
    ensures
        r@ == (match mode {
            StickKbmMode::Mouse { .. } => "mouse"@,
            StickKbmMode::Digital { .. } => "digital"@,
        }),
{
    match mode {
        StickKbmMode::Mouse { .. } => "mouse",
        StickKbmMode::Digital { .. } => "digital",
    }
}

/// What a stick starts with when it is switched to a mode: as directions,
/// with nothing mapped and a threshold of half; otherwise as a mouse, at the
/// usual speed.
pub fn stick_mode_from_id(id: &str) -> (r: StickKbmMode)
    ensures
        id@ == "digital"@ ==> r == (StickKbmMode::Digital {
            up: KbmTarget::Unmapped,
            down: KbmTarget::Unmapped,
            left: KbmTarget::Unmapped,
            right: KbmTarget::Unmapped,
            threshold: HALF_DEFLECTION_STEPS,
        }),
        id@ != "digital"@ ==> (r matches StickKbmMode::Mouse { counts } && forall|i: int|
            0 <= i < 256 ==> #[trigger] counts@[i] == crate::kbm::proportional(
                DEFAULT_STICK_COUNTS as int,
                i - 128,
            )),
{
    if same(id, "digital") {
        StickKbmMode::Digital {
            up: KbmTarget::Unmapped,
            down: KbmTarget::Unmapped,
            left: KbmTarget::Unmapped,
            right: KbmTarget::Unmapped,
            threshold: HALF_DEFLECTION_STEPS,
        }
    } else {
        StickKbmMode::Mouse { counts: proportional_counts(DEFAULT_STICK_COUNTS) }
    }
}

/// An id is read for what it says, and says nothing else.
pub proof fn law_output_mode_id_is_read(x: OutputMode)
    ensures
        output_mode_id_of(x) == "gamepad"@ <==> x == OutputMode::Gamepad,
        output_mode_id_of(x) == "xbox360"@ <==> x == OutputMode::Xbox360,
        output_mode_id_of(x) == "kbm"@ <==> x == OutputMode::Kbm,
{
    if output_mode_id_of(x) == "gamepad"@ {
        law_output_mode_ids_differ(x, OutputMode::Gamepad);
    }
    if output_mode_id_of(x) == "xbox360"@ {
        law_output_mode_ids_differ(x, OutputMode::Xbox360);
    }
    if output_mode_id_of(x) == "kbm"@ {
        law_output_mode_ids_differ(x, OutputMode::Kbm);
    }
}

/// An id is read for what it says, and says nothing else.
pub proof fn law_gyro_mode_id_is_read(x: GyroMode)
    ensures
        gyro_mode_id_of(x) == "always_on"@ <==> x == GyroMode::AlwaysOn,
        gyro_mode_id_of(x) == "toggle"@ <==> x == GyroMode::Toggle,
        gyro_mode_id_of(x) == "hold"@ <==> x == GyroMode::Hold,
        gyro_mode_id_of(x) == "disabled"@ <==> x == GyroMode::Disabled,
{
    if gyro_mode_id_of(x) == "always_on"@ {
        law_gyro_mode_ids_differ(x, GyroMode::AlwaysOn);
    }
    if gyro_mode_id_of(x) == "toggle"@ {
        law_gyro_mode_ids_differ(x, GyroMode::Toggle);
    }
    if gyro_mode_id_of(x) == "hold"@ {
        law_gyro_mode_ids_differ(x, GyroMode::Hold);
    }
    if gyro_mode_id_of(x) == "disabled"@ {
        law_gyro_mode_ids_differ(x, GyroMode::Disabled);
    }
}

/// An id is read for what it says, and says nothing else.
pub proof fn law_touchpad_mode_id_is_read(x: TouchpadMode)
    ensures
        touchpad_mode_id_of(x) == "passthrough"@ <==> x == TouchpadMode::Passthrough,
        touchpad_mode_id_of(x) == "mouse_remap"@ <==> x == TouchpadMode::MouseRemap,
        touchpad_mode_id_of(x) == "absolute_mouse"@ <==> x == TouchpadMode::AbsoluteMouse,
        touchpad_mode_id_of(x) == "disabled"@ <==> x == TouchpadMode::Disabled,
{
    if touchpad_mode_id_of(x) == "passthrough"@ {
        law_touchpad_mode_ids_differ(x, TouchpadMode::Passthrough);
    }
    if touchpad_mode_id_of(x) == "mouse_remap"@ {
        law_touchpad_mode_ids_differ(x, TouchpadMode::MouseRemap);
    }
    if touchpad_mode_id_of(x) == "absolute_mouse"@ {
        law_touchpad_mode_ids_differ(x, TouchpadMode::AbsoluteMouse);
    }
    if touchpad_mode_id_of(x) == "disabled"@ {
        law_touchpad_mode_ids_differ(x, TouchpadMode::Disabled);
    }
}

/// An id is read for what it says, and says nothing else.
pub proof fn law_stick_source_id_is_read(x: StickAnalogSource)
    ensures
        stick_source_id_of(x) == "none"@ <==> x == StickAnalogSource::Unmapped,
        stick_source_id_of(x) == "left"@ <==> x == StickAnalogSource::Left,
        stick_source_id_of(x) == "right"@ <==> x == StickAnalogSource::Right,
{
    if stick_source_id_of(x) == "none"@ {
        law_stick_source_ids_differ(x, StickAnalogSource::Unmapped);
    }
    if stick_source_id_of(x) == "left"@ {
        law_stick_source_ids_differ(x, StickAnalogSource::Left);
    }
    if stick_source_id_of(x) == "right"@ {
        law_stick_source_ids_differ(x, StickAnalogSource::Right);
    }
}

/// An id is read for what it says, and says nothing else.
pub proof fn law_trigger_source_id_is_read(x: TriggerAnalogSource)
    ensures
        trigger_source_id_of(x) == "none"@ <==> x == TriggerAnalogSource::Unmapped,
        trigger_source_id_of(x) == "l2"@ <==> x == TriggerAnalogSource::L2,
        trigger_source_id_of(x) == "r2"@ <==> x == TriggerAnalogSource::R2,
{
    if trigger_source_id_of(x) == "none"@ {
        law_trigger_source_ids_differ(x, TriggerAnalogSource::Unmapped);
    }
    if trigger_source_id_of(x) == "l2"@ {
        law_trigger_source_ids_differ(x, TriggerAnalogSource::L2);
    }
    if trigger_source_id_of(x) == "r2"@ {
        law_trigger_source_ids_differ(x, TriggerAnalogSource::R2);
    }
}

/// An id is read for what it says, and says nothing else.
pub proof fn law_gate_button_id_is_read(x: GateButton)
    ensures
        gate_button_id_of(x) == "l1"@ <==> x == GateButton::L1,
        gate_button_id_of(x) == "r1"@ <==> x == GateButton::R1,
        gate_button_id_of(x) == "l2"@ <==> x == GateButton::L2,
        gate_button_id_of(x) == "r2"@ <==> x == GateButton::R2,
        gate_button_id_of(x) == "l2_digital"@ <==> x == GateButton::L2Digital,
        gate_button_id_of(x) == "r2_digital"@ <==> x == GateButton::R2Digital,
        gate_button_id_of(x) == "l3"@ <==> x == GateButton::L3,
        gate_button_id_of(x) == "r3"@ <==> x == GateButton::R3,
        gate_button_id_of(x) == "cross"@ <==> x == GateButton::Cross,
        gate_button_id_of(x) == "circle"@ <==> x == GateButton::Circle,
        gate_button_id_of(x) == "square"@ <==> x == GateButton::Square,
        gate_button_id_of(x) == "triangle"@ <==> x == GateButton::Triangle,
        gate_button_id_of(x) == "share"@ <==> x == GateButton::Share,
        gate_button_id_of(x) == "options"@ <==> x == GateButton::Options,
        gate_button_id_of(x) == "ps"@ <==> x == GateButton::Ps,
        gate_button_id_of(x) == "touchpad_click"@ <==> x == GateButton::TouchpadClick,
{
    if gate_button_id_of(x) == "l1"@ {
        law_gate_button_ids_differ(x, GateButton::L1);
    }
    if gate_button_id_of(x) == "r1"@ {
        law_gate_button_ids_differ(x, GateButton::R1);
    }
    if gate_button_id_of(x) == "l2"@ {
        law_gate_button_ids_differ(x, GateButton::L2);
    }
    if gate_button_id_of(x) == "r2"@ {
        law_gate_button_ids_differ(x, GateButton::R2);
    }
    if gate_button_id_of(x) == "l2_digital"@ {
        law_gate_button_ids_differ(x, GateButton::L2Digital);
    }
    if gate_button_id_of(x) == "r2_digital"@ {
        law_gate_button_ids_differ(x, GateButton::R2Digital);
    }
    if gate_button_id_of(x) == "l3"@ {
        law_gate_button_ids_differ(x, GateButton::L3);
    }
    if gate_button_id_of(x) == "r3"@ {
        law_gate_button_ids_differ(x, GateButton::R3);
    }
    if gate_button_id_of(x) == "cross"@ {
        law_gate_button_ids_differ(x, GateButton::Cross);
    }
    if gate_button_id_of(x) == "circle"@ {
        law_gate_button_ids_differ(x, GateButton::Circle);
    }
    if gate_button_id_of(x) == "square"@ {
        law_gate_button_ids_differ(x, GateButton::Square);
    }
    if gate_button_id_of(x) == "triangle"@ {
        law_gate_button_ids_differ(x, GateButton::Triangle);
    }
    if gate_button_id_of(x) == "share"@ {
        law_gate_button_ids_differ(x, GateButton::Share);
    }
    if gate_button_id_of(x) == "options"@ {
        law_gate_button_ids_differ(x, GateButton::Options);
    }
    if gate_button_id_of(x) == "ps"@ {
        law_gate_button_ids_differ(x, GateButton::Ps);
    }
    if gate_button_id_of(x) == "touchpad_click"@ {
        law_gate_button_ids_differ(x, GateButton::TouchpadClick);
    }
}

} // verus!
