//! Button, stick and trigger remapping for the gamepad output modes.
//!
//! Each digital input (a button, a d-pad direction, or one direction of a
//! stick's digital breakdown) has a target: a button, a full push of an output
//! stick, a full pull of an output trigger, or nothing. Inputs that share a
//! target combine: buttons and triggers are on when any of them is, and stick
//! pushes add up before the sum is clamped to the stick's circle once. A stick
//! that nothing pushes passes straight through.
//!
//! Each output stick and trigger also has an analog source, independent of the
//! digital targets. Gyro is blended onto the output right stick afterwards, so
//! it follows the output slot and not the physical stick that feeds it.

use crate::ds4_input::PadState;
use crate::gyro_stick::blend_and_clamp;
use vstd::prelude::*;

verus! {

/// A button of the output pad.
#[derive(Debug, Clone, Copy, PartialEq, Eq, Structural)]
pub enum GamepadButton {
    Cross,
    Circle,
    Square,
    Triangle,
    L1,
    R1,
    L2Digital,
    R2Digital,
    L3,
    R3,
    Share,
    Options,
    Ps,
    TouchpadClick,
    DpadUp,
    DpadDown,
    DpadLeft,
    DpadRight,
}

/// A direction of an output stick.
#[derive(Debug, Clone, Copy, PartialEq, Eq, Structural)]
pub enum AxisDirection {
    Up,
    Down,
    Left,
    Right,
}

impl AxisDirection {
    /// The push in full deflections along (x, y). Up is negative, as in the
    /// raw stick bytes.
    pub open spec fn push(self) -> (int, int) {
        match self {
            AxisDirection::Up => (0, -1),
            AxisDirection::Down => (0, 1),
            AxisDirection::Left => (-1, 0),
            AxisDirection::Right => (1, 0),
        }
    }

    /// The push in full deflections along (x, y).
    fn delta(self) -> (r: (i32, i32))
        ensures
            (r.0 as int, r.1 as int) == self.push(),
    {
        match self {
            AxisDirection::Up => (0, -1),
            AxisDirection::Down => (0, 1),
            AxisDirection::Left => (-1, 0),
            AxisDirection::Right => (1, 0),
        }
    }
}

/// An output stick.
#[derive(Debug, Clone, Copy, PartialEq, Eq, Structural)]
pub enum OutputStick {
    Left,
    Right,
}

/// An output trigger.
#[derive(Debug, Clone, Copy, PartialEq, Eq, Structural)]
pub enum OutputTrigger {
    L2,
    R2,
}

/// What a digital input drives.
#[derive(Debug, Clone, Copy, PartialEq, Eq, Structural)]
pub enum GamepadTarget {
    Unmapped,
    Button(GamepadButton),
    /// Full deflection of the stick in this direction.
    StickPush(OutputStick, AxisDirection),
    /// Full pull of the trigger.
    TriggerPush(OutputTrigger),
}

/// The physical stick that feeds an output stick.
#[derive(Debug, Clone, Copy, PartialEq, Eq, Structural)]
pub enum StickAnalogSource {
    Unmapped,
    Left,
    Right,
}

/// The physical trigger that feeds an output trigger.
#[derive(Debug, Clone, Copy, PartialEq, Eq, Structural)]
pub enum TriggerAnalogSource {
    Unmapped,
    L2,
    R2,
}

/// A stick's digital breakdown into four directions.
#[derive(Debug, Clone, Copy, PartialEq, Eq, Structural)]
pub struct StickDigitalConfig {
    pub up: GamepadTarget,
    pub down: GamepadTarget,
    pub left: GamepadTarget,
    pub right: GamepadTarget,
    /// Least displacement from the centre, in raw steps of which 127 are full
    /// deflection, at which a direction counts as active. Above 128 it never
    /// does.
    pub threshold: i16,
}

/// The displacement that lies just past half deflection.
pub const HALF_DEFLECTION_STEPS: i16 = 64;

impl StickDigitalConfig {
    /// The breakdown that drives nothing.
    pub open spec fn unused() -> StickDigitalConfig {
        StickDigitalConfig {
            up: GamepadTarget::Unmapped,
            down: GamepadTarget::Unmapped,
            left: GamepadTarget::Unmapped,
            right: GamepadTarget::Unmapped,
            threshold: HALF_DEFLECTION_STEPS,
        }
    }
}

impl Default for StickDigitalConfig {
    fn default() -> (r: Self)
        ensures
            r == StickDigitalConfig::unused(),
    {
        StickDigitalConfig {
            up: GamepadTarget::Unmapped,
            down: GamepadTarget::Unmapped,
            left: GamepadTarget::Unmapped,
            right: GamepadTarget::Unmapped,
            threshold: HALF_DEFLECTION_STEPS,
        }
    }
}

/// A complete remapping.
#[derive(Debug, Clone, Copy, PartialEq, Eq, Structural)]
pub struct GamepadRemapConfig {
    pub cross: GamepadTarget,
    pub circle: GamepadTarget,
    pub triangle: GamepadTarget,
    pub square: GamepadTarget,
    pub l1: GamepadTarget,
    pub r1: GamepadTarget,
    pub l2_digital: GamepadTarget,
    pub r2_digital: GamepadTarget,
    pub l3: GamepadTarget,
    pub r3: GamepadTarget,
    pub share: GamepadTarget,
    pub options: GamepadTarget,
    pub ps: GamepadTarget,
    pub touchpad_click: GamepadTarget,
    pub dpad_up: GamepadTarget,
    pub dpad_down: GamepadTarget,
    pub dpad_left: GamepadTarget,
    pub dpad_right: GamepadTarget,
    pub left_stick_analog: StickAnalogSource,
    pub left_stick_digital: StickDigitalConfig,
    pub right_stick_analog: StickAnalogSource,
    pub right_stick_digital: StickDigitalConfig,
    pub l2_analog_target: TriggerAnalogSource,
    pub r2_analog_target: TriggerAnalogSource,
}

impl GamepadRemapConfig {
    /// The remapping in which every input drives itself.
    pub open spec fn identity() -> GamepadRemapConfig {
        GamepadRemapConfig {
            cross: GamepadTarget::Button(GamepadButton::Cross),
            circle: GamepadTarget::Button(GamepadButton::Circle),
            triangle: GamepadTarget::Button(GamepadButton::Triangle),
            square: GamepadTarget::Button(GamepadButton::Square),
            l1: GamepadTarget::Button(GamepadButton::L1),
            r1: GamepadTarget::Button(GamepadButton::R1),
            l2_digital: GamepadTarget::Button(GamepadButton::L2Digital),
            r2_digital: GamepadTarget::Button(GamepadButton::R2Digital),
            l3: GamepadTarget::Button(GamepadButton::L3),
            r3: GamepadTarget::Button(GamepadButton::R3),
            share: GamepadTarget::Button(GamepadButton::Share),
            options: GamepadTarget::Button(GamepadButton::Options),
            ps: GamepadTarget::Button(GamepadButton::Ps),
            touchpad_click: GamepadTarget::Button(GamepadButton::TouchpadClick),
            dpad_up: GamepadTarget::Button(GamepadButton::DpadUp),
            dpad_down: GamepadTarget::Button(GamepadButton::DpadDown),
            dpad_left: GamepadTarget::Button(GamepadButton::DpadLeft),
            dpad_right: GamepadTarget::Button(GamepadButton::DpadRight),
            left_stick_analog: StickAnalogSource::Left,
            left_stick_digital: StickDigitalConfig::unused(),
            right_stick_analog: StickAnalogSource::Right,
            right_stick_digital: StickDigitalConfig::unused(),
            l2_analog_target: TriggerAnalogSource::L2,
            r2_analog_target: TriggerAnalogSource::R2,
        }
    }
}

impl Default for GamepadRemapConfig {
    fn default() -> (r: Self)
        ensures
            r == GamepadRemapConfig::identity(),
    {
        GamepadRemapConfig {
            cross: GamepadTarget::Button(GamepadButton::Cross),
            circle: GamepadTarget::Button(GamepadButton::Circle),
            triangle: GamepadTarget::Button(GamepadButton::Triangle),
            square: GamepadTarget::Button(GamepadButton::Square),
            l1: GamepadTarget::Button(GamepadButton::L1),
            r1: GamepadTarget::Button(GamepadButton::R1),
            l2_digital: GamepadTarget::Button(GamepadButton::L2Digital),
            r2_digital: GamepadTarget::Button(GamepadButton::R2Digital),
            l3: GamepadTarget::Button(GamepadButton::L3),
            r3: GamepadTarget::Button(GamepadButton::R3),
            share: GamepadTarget::Button(GamepadButton::Share),
            options: GamepadTarget::Button(GamepadButton::Options),
            ps: GamepadTarget::Button(GamepadButton::Ps),
            touchpad_click: GamepadTarget::Button(GamepadButton::TouchpadClick),
            dpad_up: GamepadTarget::Button(GamepadButton::DpadUp),
            dpad_down: GamepadTarget::Button(GamepadButton::DpadDown),
            dpad_left: GamepadTarget::Button(GamepadButton::DpadLeft),
            dpad_right: GamepadTarget::Button(GamepadButton::DpadRight),
            left_stick_analog: StickAnalogSource::Left,
            left_stick_digital: StickDigitalConfig::default(),
            right_stick_analog: StickAnalogSource::Right,
            right_stick_digital: StickDigitalConfig::default(),
            l2_analog_target: TriggerAnalogSource::L2,
            r2_analog_target: TriggerAnalogSource::R2,
        }
    }
}

/// The remapped output for one report, before gyro.
#[derive(Debug, Clone, Copy, PartialEq, Eq, Structural)]
pub struct GamepadFrame {
    pub cross: bool,
    pub circle: bool,
    pub square: bool,
    pub triangle: bool,
    pub l1: bool,
    pub r1: bool,
    pub l2_digital: bool,
    pub r2_digital: bool,
    pub l3: bool,
    pub r3: bool,
    pub share: bool,
    pub options: bool,
    pub ps: bool,
    pub touchpad_click: bool,
    pub dpad_up: bool,
    pub dpad_down: bool,
    pub dpad_left: bool,
    pub dpad_right: bool,
    pub left_x: u8,
    pub left_y: u8,
    pub right_x: u8,
    pub right_y: u8,
    pub l2_analog: u8,
    pub r2_analog: u8,
}

impl GamepadFrame {
    /// The frame in which nothing is pressed and every number is zero.
    pub open spec fn zero() -> GamepadFrame {
        GamepadFrame {
            cross: false,
            circle: false,
            square: false,
            triangle: false,
            l1: false,
            r1: false,
            l2_digital: false,
            r2_digital: false,
            l3: false,
            r3: false,
            share: false,
            options: false,
            ps: false,
            touchpad_click: false,
            dpad_up: false,
            dpad_down: false,
            dpad_left: false,
            dpad_right: false,
            left_x: 0,
            left_y: 0,
            right_x: 0,
            right_y: 0,
            l2_analog: 0,
            r2_analog: 0,
        }
    }

    /// This frame with one more button down.
    pub open spec fn with_button(self, b: GamepadButton) -> GamepadFrame {
        match b {
            GamepadButton::Cross => GamepadFrame { cross: true, ..self },
            GamepadButton::Circle => GamepadFrame { circle: true, ..self },
            GamepadButton::Square => GamepadFrame { square: true, ..self },
            GamepadButton::Triangle => GamepadFrame { triangle: true, ..self },
            GamepadButton::L1 => GamepadFrame { l1: true, ..self },
            GamepadButton::R1 => GamepadFrame { r1: true, ..self },
            GamepadButton::L2Digital => GamepadFrame { l2_digital: true, ..self },
            GamepadButton::R2Digital => GamepadFrame { r2_digital: true, ..self },
            GamepadButton::L3 => GamepadFrame { l3: true, ..self },
            GamepadButton::R3 => GamepadFrame { r3: true, ..self },
            GamepadButton::Share => GamepadFrame { share: true, ..self },
            GamepadButton::Options => GamepadFrame { options: true, ..self },
            GamepadButton::Ps => GamepadFrame { ps: true, ..self },
            GamepadButton::TouchpadClick => GamepadFrame { touchpad_click: true, ..self },
            GamepadButton::DpadUp => GamepadFrame { dpad_up: true, ..self },
            GamepadButton::DpadDown => GamepadFrame { dpad_down: true, ..self },
            GamepadButton::DpadLeft => GamepadFrame { dpad_left: true, ..self },
            GamepadButton::DpadRight => GamepadFrame { dpad_right: true, ..self },
        }
    }

    /// This frame with a trigger pulled fully.
    pub open spec fn with_trigger(self, trigger: OutputTrigger) -> GamepadFrame {
        match trigger {
            OutputTrigger::L2 => GamepadFrame { l2_analog: 255, ..self },
            OutputTrigger::R2 => GamepadFrame { r2_analog: 255, ..self },
        }
    }

    fn set_button(self, b: GamepadButton) -> (r: GamepadFrame)
        ensures
            r == self.with_button(b),
    {
        match b {
            GamepadButton::Cross => GamepadFrame { cross: true, ..self },
            GamepadButton::Circle => GamepadFrame { circle: true, ..self },
            GamepadButton::Square => GamepadFrame { square: true, ..self },
            GamepadButton::Triangle => GamepadFrame { triangle: true, ..self },
            GamepadButton::L1 => GamepadFrame { l1: true, ..self },
            GamepadButton::R1 => GamepadFrame { r1: true, ..self },
            GamepadButton::L2Digital => GamepadFrame { l2_digital: true, ..self },
            GamepadButton::R2Digital => GamepadFrame { r2_digital: true, ..self },
            GamepadButton::L3 => GamepadFrame { l3: true, ..self },
            GamepadButton::R3 => GamepadFrame { r3: true, ..self },
            GamepadButton::Share => GamepadFrame { share: true, ..self },
            GamepadButton::Options => GamepadFrame { options: true, ..self },
            GamepadButton::Ps => GamepadFrame { ps: true, ..self },
            GamepadButton::TouchpadClick => GamepadFrame { touchpad_click: true, ..self },
            GamepadButton::DpadUp => GamepadFrame { dpad_up: true, ..self },
            GamepadButton::DpadDown => GamepadFrame { dpad_down: true, ..self },
            GamepadButton::DpadLeft => GamepadFrame { dpad_left: true, ..self },
            GamepadButton::DpadRight => GamepadFrame { dpad_right: true, ..self },
        }
    }

    fn push_trigger(self, trigger: OutputTrigger) -> (r: GamepadFrame)
        ensures
            r == self.with_trigger(trigger),
    {
        match trigger {
            OutputTrigger::L2 => GamepadFrame { l2_analog: 255, ..self },
            OutputTrigger::R2 => GamepadFrame { r2_analog: 255, ..self },
        }
    }
}

impl Default for GamepadFrame {
    fn default() -> (r: Self)
        ensures
            r == GamepadFrame::zero(),
    {
        GamepadFrame {
            cross: false,
            circle: false,
            square: false,
            triangle: false,
            l1: false,
            r1: false,
            l2_digital: false,
            r2_digital: false,
            l3: false,
            r3: false,
            share: false,
            options: false,
            ps: false,
            touchpad_click: false,
            dpad_up: false,
            dpad_down: false,
            dpad_left: false,
            dpad_right: false,
            left_x: 0,
            left_y: 0,
            right_x: 0,
            right_y: 0,
            l2_analog: 0,
            r2_analog: 0,
        }
    }
}

/// Whether a button is down on the physical pad.
pub open spec fn pad_button(pad: PadState, b: GamepadButton) -> bool {
    match b {
        GamepadButton::Cross => pad.cross,
        GamepadButton::Circle => pad.circle,
        GamepadButton::Square => pad.square,
        GamepadButton::Triangle => pad.triangle,
        GamepadButton::L1 => pad.l1,
        GamepadButton::R1 => pad.r1,
        GamepadButton::L2Digital => pad.l2_digital,
        GamepadButton::R2Digital => pad.r2_digital,
        GamepadButton::L3 => pad.l3,
        GamepadButton::R3 => pad.r3,
        GamepadButton::Share => pad.share,
        GamepadButton::Options => pad.options,
        GamepadButton::Ps => pad.ps,
        GamepadButton::TouchpadClick => pad.touchpad_click,
        GamepadButton::DpadUp => crate::ds4_input::dpad_up(pad.dpad),
        GamepadButton::DpadDown => crate::ds4_input::dpad_down(pad.dpad),
        GamepadButton::DpadLeft => crate::ds4_input::dpad_left(pad.dpad),
        GamepadButton::DpadRight => crate::ds4_input::dpad_right(pad.dpad),
    }
}

/// One direction of a stick's digital breakdown: whether the stick at (x, y)
/// leans that way far enough, and what it drives. The directions are up, down,
/// left and right, in this order.
pub open spec fn stick_direction(cfg: StickDigitalConfig, x: u8, y: u8, direction: int) -> (
    bool,
    GamepadTarget,
) {
    if direction == 0 {
        (128 - y >= cfg.threshold, cfg.up)
    } else if direction == 1 {
        (y - 128 >= cfg.threshold, cfg.down)
    } else if direction == 2 {
        (128 - x >= cfg.threshold, cfg.left)
    } else {
        (x - 128 >= cfg.threshold, cfg.right)
    }
}

/// How many digital inputs a report holds.
pub const DIGITAL_INPUTS: usize = 26;

/// A digital input of a report: whether it is active, and what it drives.
pub open spec fn digital_input(pad: PadState, cfg: GamepadRemapConfig, i: usize) -> (
    bool,
    GamepadTarget,
) {
    match i {
        0 => (pad.cross, cfg.cross),
        1 => (pad.circle, cfg.circle),
        2 => (pad.triangle, cfg.triangle),
        3 => (pad.square, cfg.square),
        4 => (pad.l1, cfg.l1),
        5 => (pad.r1, cfg.r1),
        6 => (pad.l2_digital, cfg.l2_digital),
        7 => (pad.r2_digital, cfg.r2_digital),
        8 => (pad.l3, cfg.l3),
        9 => (pad.r3, cfg.r3),
        10 => (pad.share, cfg.share),
        11 => (pad.options, cfg.options),
        12 => (pad.ps, cfg.ps),
        13 => (pad.touchpad_click, cfg.touchpad_click),
        14 => (crate::ds4_input::dpad_up(pad.dpad), cfg.dpad_up),
        15 => (crate::ds4_input::dpad_down(pad.dpad), cfg.dpad_down),
        16 => (crate::ds4_input::dpad_left(pad.dpad), cfg.dpad_left),
        17 => (crate::ds4_input::dpad_right(pad.dpad), cfg.dpad_right),
        18 => stick_direction(cfg.left_stick_digital, pad.lx, pad.ly, 0),
        19 => stick_direction(cfg.left_stick_digital, pad.lx, pad.ly, 1),
        20 => stick_direction(cfg.left_stick_digital, pad.lx, pad.ly, 2),
        21 => stick_direction(cfg.left_stick_digital, pad.lx, pad.ly, 3),
        22 => stick_direction(cfg.right_stick_digital, pad.rx, pad.ry, 0),
        23 => stick_direction(cfg.right_stick_digital, pad.rx, pad.ry, 1),
        24 => stick_direction(cfg.right_stick_digital, pad.rx, pad.ry, 2),
        _ => stick_direction(cfg.right_stick_digital, pad.rx, pad.ry, 3),
    }
}

/// Every digital input of a report: the buttons, the d-pad directions, and the
/// digital breakdown of both sticks.
pub open spec fn digital_inputs(pad: PadState, cfg: GamepadRemapConfig) -> Seq<
    (bool, GamepadTarget),
> {
    Seq::new(DIGITAL_INPUTS as nat, |i: int| digital_input(pad, cfg, i as usize))
}

/// The full deflections along (x, y) that the active inputs add to a stick.
pub open spec fn total_push(inputs: Seq<(bool, GamepadTarget)>, stick: OutputStick) -> (int, int)
    decreases inputs.len(),
{
    if inputs.len() == 0 {
        (0, 0)
    } else {
        let before = total_push(inputs.drop_last(), stick);
        match inputs.last() {
            (true, GamepadTarget::StickPush(s, d)) if s == stick => (
                before.0 + d.push().0,
                before.1 + d.push().1,
            ),
            _ => before,
        }
    }
}

/// Whether some active input pushes the stick, whichever way.
pub open spec fn pushed(inputs: Seq<(bool, GamepadTarget)>, stick: OutputStick) -> bool {
    exists|d: AxisDirection| #[trigger]
        inputs.contains((true, GamepadTarget::StickPush(stick, d)))
}

/// The position of the physical stick that a source names, or the centre.
pub open spec fn stick_source(source: StickAnalogSource, pad: PadState) -> (u8, u8) {
    match source {
        StickAnalogSource::Unmapped => (128, 128),
        StickAnalogSource::Left => (pad.lx, pad.ly),
        StickAnalogSource::Right => (pad.rx, pad.ry),
    }
}

/// The pull of the physical trigger that a source names, or none.
pub open spec fn trigger_source(source: TriggerAnalogSource, pad: PadState) -> u8 {
    match source {
        TriggerAnalogSource::Unmapped => 0,
        TriggerAnalogSource::L2 => pad.l2_analog,
        TriggerAnalogSource::R2 => pad.r2_analog,
    }
}

/// An output stick's position: its analog source, which passes straight through
/// while nothing pushes the stick, or else the source with every active push
/// added and the sum clamped to the stick's circle. Pushes that cancel still
/// count as pushes: they add nothing, and the source is clamped.
pub open spec fn output_stick(
    pad: PadState,
    source: StickAnalogSource,
    inputs: Seq<(bool, GamepadTarget)>,
    stick: OutputStick,
) -> (u8, u8) {
    let base = stick_source(source, pad);
    if pushed(inputs, stick) {
        let push = total_push(inputs, stick);
        crate::gyro_stick::blended(base.0, base.1, push.0, push.1)
    } else {
        base
    }
}

/// An output trigger's pull: full while an active input pushes it, else its
/// analog source.
pub open spec fn output_trigger(
    pad: PadState,
    source: TriggerAnalogSource,
    inputs: Seq<(bool, GamepadTarget)>,
    trigger: OutputTrigger,
) -> u8 {
    if inputs.contains((true, GamepadTarget::TriggerPush(trigger))) {
        255
    } else {
        trigger_source(source, pad)
    }
}

/// Whether some active input drives the button.
pub open spec fn drives(inputs: Seq<(bool, GamepadTarget)>, b: GamepadButton) -> bool {
    inputs.contains((true, GamepadTarget::Button(b)))
}

/// The frame of a report: a button is down exactly when an active input drives
/// it, and sticks and triggers combine their analog source with the pushes.
pub open spec fn frame_of(pad: PadState, cfg: GamepadRemapConfig) -> GamepadFrame {
    frame_from(pad, cfg, digital_inputs(pad, cfg))
}

/// The frame that the given digital inputs make of a report.
pub open spec fn frame_from(
    pad: PadState,
    cfg: GamepadRemapConfig,
    inputs: Seq<(bool, GamepadTarget)>,
) -> GamepadFrame {
    let left = output_stick(pad, cfg.left_stick_analog, inputs, OutputStick::Left);
    let right = output_stick(pad, cfg.right_stick_analog, inputs, OutputStick::Right);
    GamepadFrame {
        cross: drives(inputs, GamepadButton::Cross),
        circle: drives(inputs, GamepadButton::Circle),
        square: drives(inputs, GamepadButton::Square),
        triangle: drives(inputs, GamepadButton::Triangle),
        l1: drives(inputs, GamepadButton::L1),
        r1: drives(inputs, GamepadButton::R1),
        l2_digital: drives(inputs, GamepadButton::L2Digital),
        r2_digital: drives(inputs, GamepadButton::R2Digital),
        l3: drives(inputs, GamepadButton::L3),
        r3: drives(inputs, GamepadButton::R3),
        share: drives(inputs, GamepadButton::Share),
        options: drives(inputs, GamepadButton::Options),
        ps: drives(inputs, GamepadButton::Ps),
        touchpad_click: drives(inputs, GamepadButton::TouchpadClick),
        dpad_up: drives(inputs, GamepadButton::DpadUp),
        dpad_down: drives(inputs, GamepadButton::DpadDown),
        dpad_left: drives(inputs, GamepadButton::DpadLeft),
        dpad_right: drives(inputs, GamepadButton::DpadRight),
        left_x: left.0,
        left_y: left.1,
        right_x: right.0,
        right_y: right.1,
        l2_analog: output_trigger(pad, cfg.l2_analog_target, inputs, OutputTrigger::L2),
        r2_analog: output_trigger(pad, cfg.r2_analog_target, inputs, OutputTrigger::R2),
    }
}

/// What has been gathered from the inputs seen so far.
#[derive(Clone, Copy)]
struct Gathered {
    frame: GamepadFrame,
    left: (i32, i32),
    left_pushed: bool,
    right: (i32, i32),
    right_pushed: bool,
}

/// The frame that the inputs alone lead to, with the sticks left at zero.
spec fn driven(inputs: Seq<(bool, GamepadTarget)>) -> GamepadFrame {
    GamepadFrame {
        cross: drives(inputs, GamepadButton::Cross),
        circle: drives(inputs, GamepadButton::Circle),
        square: drives(inputs, GamepadButton::Square),
        triangle: drives(inputs, GamepadButton::Triangle),
        l1: drives(inputs, GamepadButton::L1),
        r1: drives(inputs, GamepadButton::R1),
        l2_digital: drives(inputs, GamepadButton::L2Digital),
        r2_digital: drives(inputs, GamepadButton::R2Digital),
        l3: drives(inputs, GamepadButton::L3),
        r3: drives(inputs, GamepadButton::R3),
        share: drives(inputs, GamepadButton::Share),
        options: drives(inputs, GamepadButton::Options),
        ps: drives(inputs, GamepadButton::Ps),
        touchpad_click: drives(inputs, GamepadButton::TouchpadClick),
        dpad_up: drives(inputs, GamepadButton::DpadUp),
        dpad_down: drives(inputs, GamepadButton::DpadDown),
        dpad_left: drives(inputs, GamepadButton::DpadLeft),
        dpad_right: drives(inputs, GamepadButton::DpadRight),
        left_x: 0,
        left_y: 0,
        right_x: 0,
        right_y: 0,
        l2_analog: if inputs.contains((true, GamepadTarget::TriggerPush(OutputTrigger::L2))) {
            255
        } else {
            0
        },
        r2_analog: if inputs.contains((true, GamepadTarget::TriggerPush(OutputTrigger::R2))) {
            255
        } else {
            0
        },
    }
}

impl Gathered {
    spec fn holds(self, inputs: Seq<(bool, GamepadTarget)>) -> bool {
        let n = inputs.len();
        &&& self.frame == driven(inputs)
        &&& (self.left.0 as int, self.left.1 as int) == total_push(inputs, OutputStick::Left)
        &&& (self.right.0 as int, self.right.1 as int) == total_push(inputs, OutputStick::Right)
        &&& self.left_pushed == pushed(inputs, OutputStick::Left)
        &&& self.right_pushed == pushed(inputs, OutputStick::Right)
        &&& -n <= self.left.0 <= n
        &&& -n <= self.left.1 <= n
        &&& -n <= self.right.0 <= n
        &&& -n <= self.right.1 <= n
    }
}

/// Pressing what a target names keeps the frame in step with the inputs seen.
proof fn lemma_driven_push(seen: Seq<(bool, GamepadTarget)>, active: bool, target: GamepadTarget)
    ensures
        driven(seen.push((active, target))) == (match target {
            GamepadTarget::Button(b) if active => driven(seen).with_button(b),
            GamepadTarget::TriggerPush(t) if active => driven(seen).with_trigger(t),
            _ => driven(seen),
        }),
{
    crate::sets::lemma_contains_push(seen, (active, target));
}

/// An input that pushes a stick is the only one that makes it pushed.
proof fn lemma_pushed_push(
    seen: Seq<(bool, GamepadTarget)>,
    active: bool,
    target: GamepadTarget,
    stick: OutputStick,
)
    ensures
        pushed(seen.push((active, target)), stick) == (match target {
            GamepadTarget::StickPush(s, _) if active && s == stick => true,
            _ => pushed(seen, stick),
        }),
{
    crate::sets::lemma_contains_push(seen, (active, target));
    let next = seen.push((active, target));
    if pushed(seen, stick) {
        let d = choose|d: AxisDirection| #[trigger]
            seen.contains((true, GamepadTarget::StickPush(stick, d)));
        assert(next.contains((true, GamepadTarget::StickPush(stick, d))));
    }
    match target {
        GamepadTarget::StickPush(s, d) if active && s == stick => {
            assert(next.contains((true, GamepadTarget::StickPush(stick, d))));
        },
        _ => {
            if pushed(next, stick) {
                let d = choose|d: AxisDirection| #[trigger]
                    next.contains((true, GamepadTarget::StickPush(stick, d)));
                assert(seen.contains((true, GamepadTarget::StickPush(stick, d))));
            }
        },
    }
}

/// Applies one more input: what a target does is decided here and nowhere else.
fn apply_target(active: bool, target: GamepadTarget, g: Gathered, Ghost(seen): Ghost<
    Seq<(bool, GamepadTarget)>,
>) -> (r: Gathered)
    requires
        g.holds(seen),
        seen.len() < DIGITAL_INPUTS,
    ensures
        r.holds(seen.push((active, target))),
{
    proof {
        assert(seen.push((active, target)).drop_last() =~= seen);
        lemma_driven_push(seen, active, target);
        lemma_pushed_push(seen, active, target, OutputStick::Left);
        lemma_pushed_push(seen, active, target, OutputStick::Right);
    }
    if !active {
        return g;
    }
    match target {
        GamepadTarget::Unmapped => g,
        GamepadTarget::Button(b) => Gathered { frame: g.frame.set_button(b), ..g },
        GamepadTarget::StickPush(stick, direction) => {
            let d: (i32, i32) = direction.delta();
            match stick {
                OutputStick::Left => Gathered {
                    left: (g.left.0 + d.0, g.left.1 + d.1),
                    left_pushed: true,
                    ..g
                },
                OutputStick::Right => Gathered {
                    right: (g.right.0 + d.0, g.right.1 + d.1),
                    right_pushed: true,
                    ..g
                },
            }
        },
        GamepadTarget::TriggerPush(trigger) => Gathered {
            frame: g.frame.push_trigger(trigger),
            ..g
        },
    }
}

fn stick_direction_input(cfg: StickDigitalConfig, x: u8, y: u8, direction: u8) -> (r: (
    bool,
    GamepadTarget,
))
    ensures
        r == stick_direction(cfg, x, y, direction as int),
{
    match direction {
        0 => (128 - y as i16 >= cfg.threshold, cfg.up),
        1 => (y as i16 - 128 >= cfg.threshold, cfg.down),
        2 => (128 - x as i16 >= cfg.threshold, cfg.left),
        _ => (x as i16 - 128 >= cfg.threshold, cfg.right),
    }
}

fn input_at(pad: &PadState, cfg: &GamepadRemapConfig, i: usize) -> (r: (bool, GamepadTarget))
    requires
        i < DIGITAL_INPUTS,
    ensures
        r == digital_input(*pad, *cfg, i),
{
    match i {
        0 => (pad.cross, cfg.cross),
        1 => (pad.circle, cfg.circle),
        2 => (pad.triangle, cfg.triangle),
        3 => (pad.square, cfg.square),
        4 => (pad.l1, cfg.l1),
        5 => (pad.r1, cfg.r1),
        6 => (pad.l2_digital, cfg.l2_digital),
        7 => (pad.r2_digital, cfg.r2_digital),
        8 => (pad.l3, cfg.l3),
        9 => (pad.r3, cfg.r3),
        10 => (pad.share, cfg.share),
        11 => (pad.options, cfg.options),
        12 => (pad.ps, cfg.ps),
        13 => (pad.touchpad_click, cfg.touchpad_click),
        14 => (pad.dpad_directions().0, cfg.dpad_up),
        15 => (pad.dpad_directions().1, cfg.dpad_down),
        16 => (pad.dpad_directions().2, cfg.dpad_left),
        17 => (pad.dpad_directions().3, cfg.dpad_right),
        18 => stick_direction_input(cfg.left_stick_digital, pad.lx, pad.ly, 0),
        19 => stick_direction_input(cfg.left_stick_digital, pad.lx, pad.ly, 1),
        20 => stick_direction_input(cfg.left_stick_digital, pad.lx, pad.ly, 2),
        21 => stick_direction_input(cfg.left_stick_digital, pad.lx, pad.ly, 3),
        22 => stick_direction_input(cfg.right_stick_digital, pad.rx, pad.ry, 0),
        23 => stick_direction_input(cfg.right_stick_digital, pad.rx, pad.ry, 1),
        24 => stick_direction_input(cfg.right_stick_digital, pad.rx, pad.ry, 2),
        _ => stick_direction_input(cfg.right_stick_digital, pad.rx, pad.ry, 3),
    }
}

/// Gathers every digital input of a report.
fn gather(pad: &PadState, cfg: &GamepadRemapConfig) -> (g: Gathered)
    ensures
        g.holds(digital_inputs(*pad, *cfg)),
{
    let ghost inputs = digital_inputs(*pad, *cfg);
    let mut g = Gathered {
        frame: GamepadFrame::default(),
        left: (0, 0),
        left_pushed: false,
        right: (0, 0),
        right_pushed: false,
    };
    let mut i: usize = 0;
    assert(g.frame == driven(inputs.take(0)));
    while i < DIGITAL_INPUTS
        invariant
            i <= DIGITAL_INPUTS,
            inputs == digital_inputs(*pad, *cfg),
            g.holds(inputs.take(i as int)),
        decreases DIGITAL_INPUTS - i,
    {
        let input = input_at(pad, cfg, i);
        proof {
            assert(inputs.take(i + 1) =~= inputs.take(i as int).push(input));
        }
        g = apply_target(input.0, input.1, g, Ghost(inputs.take(i as int)));
        i = i + 1;
    }
    proof {
        assert(inputs.take(DIGITAL_INPUTS as int) =~= inputs);
    }
    g
}

fn analog_source_value(source: StickAnalogSource, pad: &PadState) -> (r: (u8, u8))
    ensures
        r == stick_source(source, *pad),
{
    match source {
        StickAnalogSource::Unmapped => (128, 128),
        StickAnalogSource::Left => (pad.lx, pad.ly),
        StickAnalogSource::Right => (pad.rx, pad.ry),
    }
}

fn trigger_source_value(source: TriggerAnalogSource, pad: &PadState) -> (r: u8)
    ensures
        r == trigger_source(source, *pad),
{
    match source {
        TriggerAnalogSource::Unmapped => 0,
        TriggerAnalogSource::L2 => pad.l2_analog,
        TriggerAnalogSource::R2 => pad.r2_analog,
    }
}

/// Adds the sum of the pushes to a stick's source. A source that nothing pushes
/// stays as it is.
fn pushed_stick(base: (u8, u8), any: bool, push: (i32, i32)) -> (r: (u8, u8))
    ensures
        r == (if any {
            crate::gyro_stick::blended(base.0, base.1, push.0 as int, push.1 as int)
        } else {
            base
        }),
{
    if any {
        blend_and_clamp(base.0, base.1, push.0, push.1)
    } else {
        base
    }
}

/// The larger of two pulls.
fn stronger(a: u8, b: u8) -> (r: u8)
    ensures
        r == (if a < b {
            b
        } else {
            a
        }),
{
    if a < b {
        b
    } else {
        a
    }
}

/// Combines what the inputs gave with the analog sources.
fn with_sources(state: &PadState, cfg: &GamepadRemapConfig, g: Gathered, Ghost(inputs): Ghost<
    Seq<(bool, GamepadTarget)>,
>) -> (r: GamepadFrame)
    requires
        g.holds(inputs),
    ensures
        r == frame_from(*state, *cfg, inputs),
{
    let left_base = analog_source_value(cfg.left_stick_analog, state);
    let right_base = analog_source_value(cfg.right_stick_analog, state);
    let left = pushed_stick(left_base, g.left_pushed, g.left);
    let right = pushed_stick(right_base, g.right_pushed, g.right);
    let l2: u8 = trigger_source_value(cfg.l2_analog_target, state);
    let r2: u8 = trigger_source_value(cfg.r2_analog_target, state);
    GamepadFrame {
        left_x: left.0,
        left_y: left.1,
        right_x: right.0,
        right_y: right.1,
        l2_analog: stronger(g.frame.l2_analog, l2),
        r2_analog: stronger(g.frame.r2_analog, r2),
        ..g.frame
    }
}

/// Computes the remapped frame for one report. It depends on the report and
/// the remapping alone.
pub fn compute_gamepad_frame(state: &PadState, cfg: &GamepadRemapConfig) -> (r: GamepadFrame)
    ensures
        r == frame_of(*state, *cfg),
{
    let g = gather(state, cfg);
    with_sources(state, cfg, g, Ghost(digital_inputs(*state, *cfg)))
}

/// Which digital input reports the given button.
spec fn own_input(b: GamepadButton) -> usize {
    match b {
        GamepadButton::Cross => 0,
        GamepadButton::Circle => 1,
        GamepadButton::Triangle => 2,
        GamepadButton::Square => 3,
        GamepadButton::L1 => 4,
        GamepadButton::R1 => 5,
        GamepadButton::L2Digital => 6,
        GamepadButton::R2Digital => 7,
        GamepadButton::L3 => 8,
        GamepadButton::R3 => 9,
        GamepadButton::Share => 10,
        GamepadButton::Options => 11,
        GamepadButton::Ps => 12,
        GamepadButton::TouchpadClick => 13,
        GamepadButton::DpadUp => 14,
        GamepadButton::DpadDown => 15,
        GamepadButton::DpadLeft => 16,
        GamepadButton::DpadRight => 17,
    }
}

/// The button that a digital input reports, if it is one.
spec fn button_at(i: usize) -> Option<GamepadButton> {
    match i {
        0 => Some(GamepadButton::Cross),
        1 => Some(GamepadButton::Circle),
        2 => Some(GamepadButton::Triangle),
        3 => Some(GamepadButton::Square),
        4 => Some(GamepadButton::L1),
        5 => Some(GamepadButton::R1),
        6 => Some(GamepadButton::L2Digital),
        7 => Some(GamepadButton::R2Digital),
        8 => Some(GamepadButton::L3),
        9 => Some(GamepadButton::R3),
        10 => Some(GamepadButton::Share),
        11 => Some(GamepadButton::Options),
        12 => Some(GamepadButton::Ps),
        13 => Some(GamepadButton::TouchpadClick),
        14 => Some(GamepadButton::DpadUp),
        15 => Some(GamepadButton::DpadDown),
        16 => Some(GamepadButton::DpadLeft),
        17 => Some(GamepadButton::DpadRight),
        _ => None,
    }
}

/// Each button is reported by its own input and by no other.
proof fn lemma_own_input(i: usize, b: GamepadButton)
    ensures
        button_at(own_input(b)) == Some(b),
        own_input(b) < DIGITAL_INPUTS,
        button_at(i) == Some(b) ==> i == own_input(b),
{
}

/// By default the face buttons, shoulders and triggers drive themselves.
proof fn lemma_default_front(pad: PadState, i: usize)
    requires
        i < 9,
    ensures
        digital_input(pad, GamepadRemapConfig::identity(), i) == (
            pad_button(pad, button_at(i)->0),
            GamepadTarget::Button(button_at(i)->0),
        ),
{
}

/// By default the system buttons and the d-pad drive themselves.
proof fn lemma_default_middle(pad: PadState, i: usize)
    requires
        9 <= i < 18,
    ensures
        digital_input(pad, GamepadRemapConfig::identity(), i) == (
            pad_button(pad, button_at(i)->0),
            GamepadTarget::Button(button_at(i)->0),
        ),
{
}

/// By default the directions of the sticks drive nothing.
proof fn lemma_default_sticks(pad: PadState, i: usize)
    requires
        18 <= i < DIGITAL_INPUTS,
    ensures
        digital_input(pad, GamepadRemapConfig::identity(), i).1 == GamepadTarget::Unmapped,
        button_at(i) is None,
{
}

/// What an input drives by default: its own button, or nothing.
proof fn lemma_default_input(pad: PadState, i: usize)
    requires
        i < DIGITAL_INPUTS,
    ensures
        digital_input(pad, GamepadRemapConfig::identity(), i).1 == (match button_at(i) {
            Some(b) => GamepadTarget::Button(b),
            None => GamepadTarget::Unmapped,
        }),
        button_at(i) is Some ==> digital_input(pad, GamepadRemapConfig::identity(), i).0
            == pad_button(pad, button_at(i)->0),
{
    if i < 9 {
        lemma_default_front(pad, i);
    } else if i < 18 {
        lemma_default_middle(pad, i);
    } else {
        lemma_default_sticks(pad, i);
    }
}

/// With the default remapping an output button is down exactly when the same
/// physical button is.
pub proof fn law_identity_buttons(pad: PadState, b: GamepadButton)
    ensures
        drives(digital_inputs(pad, GamepadRemapConfig::identity()), b) == pad_button(pad, b),
{
    let inputs = digital_inputs(pad, GamepadRemapConfig::identity());
    let own = own_input(b);
    lemma_own_input(own, b);
    lemma_default_input(pad, own);
    assert(inputs[own as int] == (pad_button(pad, b), GamepadTarget::Button(b)));
    if drives(inputs, b) {
        let i = choose|i: int| 0 <= i < inputs.len() && inputs[i] == (true, GamepadTarget::Button(b));
        lemma_default_input(pad, i as usize);
        lemma_own_input(i as usize, b);
    }
}

/// The frame of a pad that nothing remaps: every input drives itself.
pub open spec fn direct(pad: PadState) -> GamepadFrame {
    GamepadFrame {
        cross: pad.cross,
        circle: pad.circle,
        square: pad.square,
        triangle: pad.triangle,
        l1: pad.l1,
        r1: pad.r1,
        l2_digital: pad.l2_digital,
        r2_digital: pad.r2_digital,
        l3: pad.l3,
        r3: pad.r3,
        share: pad.share,
        options: pad.options,
        ps: pad.ps,
        touchpad_click: pad.touchpad_click,
        dpad_up: crate::ds4_input::dpad_up(pad.dpad),
        dpad_down: crate::ds4_input::dpad_down(pad.dpad),
        dpad_left: crate::ds4_input::dpad_left(pad.dpad),
        dpad_right: crate::ds4_input::dpad_right(pad.dpad),
        left_x: pad.lx,
        left_y: pad.ly,
        right_x: pad.rx,
        right_y: pad.ry,
        l2_analog: pad.l2_analog,
        r2_analog: pad.r2_analog,
    }
}

/// Hands a pad's state on as it is, without remapping or clamping anything.
pub fn passthrough_frame(state: &PadState) -> (r: GamepadFrame)
    ensures
        r == direct(*state),
{
    let dpad = state.dpad_directions();
    GamepadFrame {
        cross: state.cross,
        circle: state.circle,
        square: state.square,
        triangle: state.triangle,
        l1: state.l1,
        r1: state.r1,
        l2_digital: state.l2_digital,
        r2_digital: state.r2_digital,
        l3: state.l3,
        r3: state.r3,
        share: state.share,
        options: state.options,
        ps: state.ps,
        touchpad_click: state.touchpad_click,
        dpad_up: dpad.0,
        dpad_down: dpad.1,
        dpad_left: dpad.2,
        dpad_right: dpad.3,
        left_x: state.lx,
        left_y: state.ly,
        right_x: state.rx,
        right_y: state.ry,
        l2_analog: state.l2_analog,
        r2_analog: state.r2_analog,
    }
}

/// The default remapping changes nothing: it gives exactly the frame of a pad
/// that is not remapped, whatever is pressed and wherever the sticks are.
pub proof fn law_default_changes_nothing(pad: PadState)
    ensures
        frame_of(pad, GamepadRemapConfig::identity()) == direct(pad),
{
    let cfg = GamepadRemapConfig::identity();
    let inputs = digital_inputs(pad, cfg);
    assert forall|b: GamepadButton| #[trigger] drives(inputs, b) == pad_button(pad, b) by {
        law_identity_buttons(pad, b);
    }
    assert forall|i: int| 0 <= i < inputs.len() implies !((#[trigger] inputs[i]).1 is StickPush)
        && !(inputs[i].1 is TriggerPush) by {
        lemma_default_input(pad, i as usize);
    }
}

/// A stick that nothing pushes passes straight through: it comes out where its
/// source has it, under any remapping and whatever pushes the other stick.
pub proof fn law_unpushed_stick_passes_through(
    pad: PadState,
    source: StickAnalogSource,
    inputs: Seq<(bool, GamepadTarget)>,
    stick: OutputStick,
)
    requires
        forall|i: int|
            0 <= i < inputs.len() && (#[trigger] inputs[i]).0 ==> !(inputs[i].1 matches
                GamepadTarget::StickPush(s, _) && s == stick),
    ensures
        output_stick(pad, source, inputs, stick) == stick_source(source, pad),
{
}

/// A digital push never makes a trigger read as less pulled than its analog
/// source.
pub proof fn law_push_never_weakens(
    pad: PadState,
    source: TriggerAnalogSource,
    inputs: Seq<(bool, GamepadTarget)>,
    trigger: OutputTrigger,
)
    ensures
        output_trigger(pad, source, inputs, trigger) >= trigger_source(source, pad),
{
}

/// Opposite pushes cancel: an input that pushes a stick one way and one that
/// pushes it the other way leave the sum of the pushes as it was, and so leave a
/// stick that is pushed anyway where it was.
pub proof fn law_opposite_pushes_cancel(
    pad: PadState,
    source: StickAnalogSource,
    inputs: Seq<(bool, GamepadTarget)>,
    stick: OutputStick,
    a: AxisDirection,
    b: AxisDirection,
)
    requires
        a.push().0 + b.push().0 == 0,
        a.push().1 + b.push().1 == 0,
    ensures
        ({
            let both = inputs.push((true, GamepadTarget::StickPush(stick, a))).push(
                (true, GamepadTarget::StickPush(stick, b)),
            );
            &&& total_push(both, stick) == total_push(inputs, stick)
            &&& pushed(inputs, stick) ==> output_stick(pad, source, both, stick) == output_stick(
                pad,
                source,
                inputs,
                stick,
            )
        }),
{
    let one = inputs.push((true, GamepadTarget::StickPush(stick, a)));
    let two = one.push((true, GamepadTarget::StickPush(stick, b)));
    assert(one.drop_last() =~= inputs);
    assert(two.drop_last() =~= one);
    let start = total_push(inputs, stick);
    assert(total_push(one, stick) == (start.0 + a.push().0, start.1 + a.push().1));
    assert(total_push(two, stick) == (
        start.0 + a.push().0 + b.push().0,
        start.1 + a.push().1 + b.push().1,
    ));
    lemma_pushed_push(one, true, GamepadTarget::StickPush(stick, b), stick);
}

} // verus!
