//! What a remapping does, control by control.

use crate::ds4_input::PadState;
use crate::gamepad_remap::{
    digital_input, digital_inputs, direct, frame_of, pushed, stick_source, total_push,
    AxisDirection, GamepadButton, GamepadRemapConfig, GamepadTarget, OutputStick, OutputTrigger,
    StickAnalogSource, StickDigitalConfig, TriggerAnalogSource,
};
use vstd::prelude::*;

verus! {

/// Whether one of the fourteen buttons that are down has the target.
pub open spec fn button_drives(pad: PadState, cfg: GamepadRemapConfig, t: GamepadTarget) -> bool {
    ||| pad.cross && cfg.cross == t
    ||| pad.circle && cfg.circle == t
    ||| pad.triangle && cfg.triangle == t
    ||| pad.square && cfg.square == t
    ||| pad.l1 && cfg.l1 == t
    ||| pad.r1 && cfg.r1 == t
    ||| pad.l2_digital && cfg.l2_digital == t
    ||| pad.r2_digital && cfg.r2_digital == t
    ||| pad.l3 && cfg.l3 == t
    ||| pad.r3 && cfg.r3 == t
    ||| pad.share && cfg.share == t
    ||| pad.options && cfg.options == t
    ||| pad.ps && cfg.ps == t
    ||| pad.touchpad_click && cfg.touchpad_click == t
}

/// Whether a direction that the d-pad leans to has the target. The value counts
/// eighths of a turn clockwise from up.
pub open spec fn dpad_drives(pad: PadState, cfg: GamepadRemapConfig, t: GamepadTarget) -> bool {
    ||| (pad.dpad == 7 || pad.dpad == 0 || pad.dpad == 1) && cfg.dpad_up == t
    ||| (pad.dpad == 1 || pad.dpad == 2 || pad.dpad == 3) && cfg.dpad_right == t
    ||| (pad.dpad == 3 || pad.dpad == 4 || pad.dpad == 5) && cfg.dpad_down == t
    ||| (pad.dpad == 5 || pad.dpad == 6 || pad.dpad == 7) && cfg.dpad_left == t
}

/// Whether a stick at (x, y) lies at least the threshold away from its centre in
/// a direction that has the target. Up and left are the low ends.
pub open spec fn stick_drives(x: u8, y: u8, cfg: StickDigitalConfig, t: GamepadTarget) -> bool {
    ||| y <= 128 - cfg.threshold && cfg.up == t
    ||| y >= 128 + cfg.threshold && cfg.down == t
    ||| x <= 128 - cfg.threshold && cfg.left == t
    ||| x >= 128 + cfg.threshold && cfg.right == t
}

/// Whether some control of the pad drives a target.
pub open spec fn some_control_drives(
    pad: PadState,
    cfg: GamepadRemapConfig,
    t: GamepadTarget,
) -> bool {
    ||| button_drives(pad, cfg, t)
    ||| dpad_drives(pad, cfg, t)
    ||| stick_drives(pad.lx, pad.ly, cfg.left_stick_digital, t)
    ||| stick_drives(pad.rx, pad.ry, cfg.right_stick_digital, t)
}

spec fn drives_at(pad: PadState, cfg: GamepadRemapConfig, t: GamepadTarget, i: usize) -> bool {
    digital_input(pad, cfg, i) == (true, t)
}

proof fn lemma_input_is_a_control(
    pad: PadState,
    cfg: GamepadRemapConfig,
    t: GamepadTarget,
    i: usize,
)
    requires
        i < 26,
        drives_at(pad, cfg, t, i),
    ensures
        some_control_drives(pad, cfg, t),
{
}

proof fn lemma_control_is_an_input(pad: PadState, cfg: GamepadRemapConfig, t: GamepadTarget) -> (i:
    usize)
    requires
        some_control_drives(pad, cfg, t),
    ensures
        i < 26,
        drives_at(pad, cfg, t, i),
{
    if pad.cross && cfg.cross == t {
        0
    } else if pad.circle && cfg.circle == t {
        1
    } else if pad.triangle && cfg.triangle == t {
        2
    } else if pad.square && cfg.square == t {
        3
    } else if pad.l1 && cfg.l1 == t {
        4
    } else if pad.r1 && cfg.r1 == t {
        5
    } else if pad.l2_digital && cfg.l2_digital == t {
        6
    } else if pad.r2_digital && cfg.r2_digital == t {
        7
    } else if pad.l3 && cfg.l3 == t {
        8
    } else if pad.r3 && cfg.r3 == t {
        9
    } else if pad.share && cfg.share == t {
        10
    } else if pad.options && cfg.options == t {
        11
    } else if pad.ps && cfg.ps == t {
        12
    } else if pad.touchpad_click && cfg.touchpad_click == t {
        13
    } else if (pad.dpad == 7 || pad.dpad == 0 || pad.dpad == 1) && cfg.dpad_up == t {
        14
    } else if (pad.dpad == 3 || pad.dpad == 4 || pad.dpad == 5) && cfg.dpad_down == t {
        15
    } else if (pad.dpad == 5 || pad.dpad == 6 || pad.dpad == 7) && cfg.dpad_left == t {
        16
    } else if (pad.dpad == 1 || pad.dpad == 2 || pad.dpad == 3) && cfg.dpad_right == t {
        17
    } else if pad.ly <= 128 - cfg.left_stick_digital.threshold && cfg.left_stick_digital.up == t {
        18
    } else if pad.ly >= 128 + cfg.left_stick_digital.threshold && cfg.left_stick_digital.down == t {
        19
    } else if pad.lx <= 128 - cfg.left_stick_digital.threshold && cfg.left_stick_digital.left == t {
        20
    } else if pad.lx >= 128 + cfg.left_stick_digital.threshold && cfg.left_stick_digital.right == t {
        21
    } else if pad.ry <= 128 - cfg.right_stick_digital.threshold && cfg.right_stick_digital.up == t {
        22
    } else if pad.ry >= 128 + cfg.right_stick_digital.threshold && cfg.right_stick_digital.down == t {
        23
    } else if pad.rx <= 128 - cfg.right_stick_digital.threshold && cfg.right_stick_digital.left == t {
        24
    } else {
        25
    }
}

/// A target is driven exactly when a control that is mapped to it is active: each
/// button by itself, the d-pad by its value, and each direction of a stick by the
/// position of that same stick.
pub proof fn law_target_follows_its_controls(pad: PadState, cfg: GamepadRemapConfig, t: GamepadTarget)
    ensures
        digital_inputs(pad, cfg).len() == 26,
        digital_inputs(pad, cfg).contains((true, t)) <==> some_control_drives(pad, cfg, t),
{
    let inputs = digital_inputs(pad, cfg);
    if inputs.contains((true, t)) {
        let i = choose|i: int| 0 <= i < inputs.len() && inputs[i] == (true, t);
        lemma_input_is_a_control(pad, cfg, t, i as usize);
    }
    if some_control_drives(pad, cfg, t) {
        let i = lemma_control_is_an_input(pad, cfg, t);
        assert(inputs[i as int] == (true, t));
    }
}

/// Whether a button of a frame is down.
pub open spec fn down(f: crate::gamepad_remap::GamepadFrame, b: GamepadButton) -> bool {
    match b {
        GamepadButton::Cross => f.cross,
        GamepadButton::Circle => f.circle,
        GamepadButton::Triangle => f.triangle,
        GamepadButton::Square => f.square,
        GamepadButton::L1 => f.l1,
        GamepadButton::R1 => f.r1,
        GamepadButton::L2Digital => f.l2_digital,
        GamepadButton::R2Digital => f.r2_digital,
        GamepadButton::L3 => f.l3,
        GamepadButton::R3 => f.r3,
        GamepadButton::Share => f.share,
        GamepadButton::Options => f.options,
        GamepadButton::Ps => f.ps,
        GamepadButton::TouchpadClick => f.touchpad_click,
        GamepadButton::DpadUp => f.dpad_up,
        GamepadButton::DpadDown => f.dpad_down,
        GamepadButton::DpadLeft => f.dpad_left,
        GamepadButton::DpadRight => f.dpad_right,
    }
}

/// A button of the frame is down exactly when some control drives it, and each
/// shows in its own place.
pub proof fn law_button_follows_its_controls(pad: PadState, cfg: GamepadRemapConfig, b: GamepadButton)
    ensures
        down(frame_of(pad, cfg), b) <==> some_control_drives(pad, cfg, GamepadTarget::Button(b)),
{
    law_target_follows_its_controls(pad, cfg, GamepadTarget::Button(b));
}

/// A trigger of the frame is pulled fully while some control pushes it, and
/// otherwise as far as the physical trigger that feeds it.
pub proof fn law_trigger_follows_its_controls(pad: PadState, cfg: GamepadRemapConfig)
    ensures
        ({
            let f = frame_of(pad, cfg);
            let l2 = some_control_drives(pad, cfg, GamepadTarget::TriggerPush(OutputTrigger::L2));
            let r2 = some_control_drives(pad, cfg, GamepadTarget::TriggerPush(OutputTrigger::R2));
            &&& l2 ==> f.l2_analog == 255
            &&& r2 ==> f.r2_analog == 255
            &&& !l2 && cfg.l2_analog_target == TriggerAnalogSource::L2 ==> f.l2_analog == pad.l2_analog
            &&& !l2 && cfg.l2_analog_target == TriggerAnalogSource::R2 ==> f.l2_analog == pad.r2_analog
            &&& !l2 && cfg.l2_analog_target == TriggerAnalogSource::Unmapped ==> f.l2_analog == 0
            &&& !r2 && cfg.r2_analog_target == TriggerAnalogSource::L2 ==> f.r2_analog == pad.l2_analog
            &&& !r2 && cfg.r2_analog_target == TriggerAnalogSource::R2 ==> f.r2_analog == pad.r2_analog
            &&& !r2 && cfg.r2_analog_target == TriggerAnalogSource::Unmapped ==> f.r2_analog == 0
        }),
{
    law_target_follows_its_controls(pad, cfg, GamepadTarget::TriggerPush(OutputTrigger::L2));
    law_target_follows_its_controls(pad, cfg, GamepadTarget::TriggerPush(OutputTrigger::R2));
}

/// Whether some control pushes a stick, whichever way.
pub open spec fn some_control_pushes(
    pad: PadState,
    cfg: GamepadRemapConfig,
    stick: OutputStick,
) -> bool {
    ||| some_control_drives(pad, cfg, GamepadTarget::StickPush(stick, AxisDirection::Up))
    ||| some_control_drives(pad, cfg, GamepadTarget::StickPush(stick, AxisDirection::Down))
    ||| some_control_drives(pad, cfg, GamepadTarget::StickPush(stick, AxisDirection::Left))
    ||| some_control_drives(pad, cfg, GamepadTarget::StickPush(stick, AxisDirection::Right))
}

/// Whether an output stick stands where the physical stick that feeds it stands,
/// or in the centre where none does.
pub open spec fn stands_at(x: u8, y: u8, source: StickAnalogSource, pad: PadState) -> bool {
    match source {
        StickAnalogSource::Left => x == pad.lx && y == pad.ly,
        StickAnalogSource::Right => x == pad.rx && y == pad.ry,
        StickAnalogSource::Unmapped => x == 128 && y == 128,
    }
}

/// An output stick that no control pushes stands where its source stands, on
/// each side, whatever happens to the other stick.
pub proof fn law_stick_follows_its_source(pad: PadState, cfg: GamepadRemapConfig)
    ensures
        ({
            let f = frame_of(pad, cfg);
            &&& !some_control_pushes(pad, cfg, OutputStick::Left) ==> stands_at(
                f.left_x,
                f.left_y,
                cfg.left_stick_analog,
                pad,
            )
            &&& !some_control_pushes(pad, cfg, OutputStick::Right) ==> stands_at(
                f.right_x,
                f.right_y,
                cfg.right_stick_analog,
                pad,
            )
        }),
{
    lemma_pushed_by_a_control(pad, cfg, OutputStick::Left);
    lemma_pushed_by_a_control(pad, cfg, OutputStick::Right);
}

proof fn lemma_pushed_by_a_control(pad: PadState, cfg: GamepadRemapConfig, stick: OutputStick)
    ensures
        pushed(digital_inputs(pad, cfg), stick) <==> some_control_pushes(pad, cfg, stick),
{
    let inputs = digital_inputs(pad, cfg);
    assert forall|d: AxisDirection| #[trigger]
        inputs.contains((true, GamepadTarget::StickPush(stick, d))) <==> some_control_drives(
            pad,
            cfg,
            GamepadTarget::StickPush(stick, d),
        ) by {
        law_target_follows_its_controls(pad, cfg, GamepadTarget::StickPush(stick, d));
    }
    if some_control_pushes(pad, cfg, stick) {
        assert(inputs.contains((true, GamepadTarget::StickPush(stick, AxisDirection::Up)))
            || inputs.contains((true, GamepadTarget::StickPush(stick, AxisDirection::Down)))
            || inputs.contains((true, GamepadTarget::StickPush(stick, AxisDirection::Left)))
            || inputs.contains((true, GamepadTarget::StickPush(stick, AxisDirection::Right))));
    }
}

/// A direction of a stick's digital breakdown looks at that stick alone: reports
/// that differ in the other stick only drive the same targets through it.
pub proof fn law_stick_directions_are_independent(
    pad: PadState,
    other: PadState,
    cfg: GamepadRemapConfig,
    i: usize,
)
    requires
        i < 26,
    ensures
        pad == (PadState { lx: pad.lx, ly: pad.ly, ..other }) && (i < 18 || i >= 22)
            ==> digital_input(pad, cfg, i) == digital_input(other, cfg, i),
        pad == (PadState { rx: pad.rx, ry: pad.ry, ..other }) && i < 22 ==> digital_input(
            pad,
            cfg,
            i,
        ) == digital_input(other, cfg, i),
{
}

/// Each active push moves the sum by one full deflection its own way: up and left
/// count down, down and right count up. Nothing else moves it.
pub proof fn law_each_push_counts_once(
    inputs: Seq<(bool, GamepadTarget)>,
    active: bool,
    t: GamepadTarget,
    stick: OutputStick,
)
    ensures
        ({
            let before = total_push(inputs, stick);
            let after = total_push(inputs.push((active, t)), stick);
            let dx = after.0 - before.0;
            let dy = after.1 - before.1;
            &&& total_push(Seq::<(bool, GamepadTarget)>::empty(), stick) == (0int, 0int)
            &&& active && t == GamepadTarget::StickPush(stick, AxisDirection::Up) ==> (dx, dy) == (
                0int,
                -1int,
            )
            &&& active && t == GamepadTarget::StickPush(stick, AxisDirection::Down) ==> (dx, dy) == (
                0int,
                1int,
            )
            &&& active && t == GamepadTarget::StickPush(stick, AxisDirection::Left) ==> (dx, dy) == (
                -1int,
                0int,
            )
            &&& active && t == GamepadTarget::StickPush(stick, AxisDirection::Right) ==> (dx, dy)
                == (1int, 0int)
            &&& !active || !(t is StickPush) || t->StickPush_0 != stick ==> (dx, dy) == (0int, 0int)
        }),
{
    assert(inputs.push((active, t)).drop_last() =~= inputs);
}

/// A pushed stick comes out as the blend of its source and the sum of its own
/// pushes, on each side.
pub proof fn law_pushed_stick_is_blended(pad: PadState, cfg: GamepadRemapConfig)
    ensures
        ({
            let f = frame_of(pad, cfg);
            let inputs = digital_inputs(pad, cfg);
            let l = total_push(inputs, OutputStick::Left);
            let r = total_push(inputs, OutputStick::Right);
            let ls = stick_source(cfg.left_stick_analog, pad);
            let rs = stick_source(cfg.right_stick_analog, pad);
            &&& stands_at(ls.0, ls.1, cfg.left_stick_analog, pad)
            &&& stands_at(rs.0, rs.1, cfg.right_stick_analog, pad)
            &&& some_control_pushes(pad, cfg, OutputStick::Left) ==> (f.left_x, f.left_y)
                == crate::gyro_stick::blended(ls.0, ls.1, l.0, l.1)
            &&& some_control_pushes(pad, cfg, OutputStick::Right) ==> (f.right_x, f.right_y)
                == crate::gyro_stick::blended(rs.0, rs.1, r.0, r.1)
        }),
{
    lemma_pushed_by_a_control(pad, cfg, OutputStick::Left);
    lemma_pushed_by_a_control(pad, cfg, OutputStick::Right);
}

/// A pad that is not remapped shows every control in its own place.
pub proof fn law_direct_frame_is_the_pad(pad: PadState, b: GamepadButton)
    ensures
        ({
            let f = direct(pad);
            &&& down(f, b) <==> (match b {
                GamepadButton::Cross => pad.cross,
                GamepadButton::Circle => pad.circle,
                GamepadButton::Triangle => pad.triangle,
                GamepadButton::Square => pad.square,
                GamepadButton::L1 => pad.l1,
                GamepadButton::R1 => pad.r1,
                GamepadButton::L2Digital => pad.l2_digital,
                GamepadButton::R2Digital => pad.r2_digital,
                GamepadButton::L3 => pad.l3,
                GamepadButton::R3 => pad.r3,
                GamepadButton::Share => pad.share,
                GamepadButton::Options => pad.options,
                GamepadButton::Ps => pad.ps,
                GamepadButton::TouchpadClick => pad.touchpad_click,
                GamepadButton::DpadUp => pad.dpad == 7 || pad.dpad == 0 || pad.dpad == 1,
                GamepadButton::DpadRight => pad.dpad == 1 || pad.dpad == 2 || pad.dpad == 3,
                GamepadButton::DpadDown => pad.dpad == 3 || pad.dpad == 4 || pad.dpad == 5,
                GamepadButton::DpadLeft => pad.dpad == 5 || pad.dpad == 6 || pad.dpad == 7,
            })
            &&& (f.left_x, f.left_y) == (pad.lx, pad.ly)
            &&& (f.right_x, f.right_y) == (pad.rx, pad.ry)
            &&& (f.l2_analog, f.r2_analog) == (pad.l2_analog, pad.r2_analog)
        }),
{
}

/// A breakdown that drives nothing takes half of full deflection, 127 steps, for
/// its threshold: no step up to half counts and every further one does.
pub proof fn law_half_deflection(steps: int)
    ensures
        steps >= StickDigitalConfig::unused().threshold <==> 2 * steps > 127,
{
}

} // verus!
