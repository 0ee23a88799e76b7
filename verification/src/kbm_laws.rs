//! What keyboard and mouse output holds down, control by control.

use crate::ds4_input::PadState;
use crate::kbm::{
    code_of, cursor_counts, frame_events, input_active, input_target, key_events, mapped,
    missing_from, proportional, wanted, KbmConfig, KbmFrame, KbmTarget, PressedKey, StickKbmMode,
};
use crate::uinput::InputEvent;
use vstd::prelude::*;

verus! {

/// Whether one of the buttons that are down holds a key through its target.
pub open spec fn button_holds(s: PadState, cfg: KbmConfig, k: PressedKey) -> bool {
    ||| s.cross && cfg.cross.holds(k)
    ||| s.circle && cfg.circle.holds(k)
    ||| s.triangle && cfg.triangle.holds(k)
    ||| s.square && cfg.square.holds(k)
    ||| s.l1 && cfg.l1.holds(k)
    ||| s.r1 && cfg.r1.holds(k)
    ||| s.l3 && cfg.l3.holds(k)
    ||| s.r3 && cfg.r3.holds(k)
    ||| s.share && cfg.share.holds(k)
    ||| s.options && cfg.options.holds(k)
    ||| s.ps && cfg.ps.holds(k)
    ||| s.touchpad_click && cfg.touchpad_click.holds(k)
}

/// Whether a trigger that is pulled beyond the threshold holds a key.
pub open spec fn trigger_holds(s: PadState, cfg: KbmConfig, k: PressedKey) -> bool {
    ||| s.l2_analog > cfg.trigger_threshold && cfg.l2.holds(k)
    ||| s.r2_analog > cfg.trigger_threshold && cfg.r2.holds(k)
}

/// Whether a direction that the d-pad leans to holds a key. The value counts
/// eighths of a turn clockwise from up.
pub open spec fn dpad_holds(s: PadState, cfg: KbmConfig, k: PressedKey) -> bool {
    ||| (s.dpad == 7 || s.dpad == 0 || s.dpad == 1) && cfg.dpad_up.holds(k)
    ||| (s.dpad == 1 || s.dpad == 2 || s.dpad == 3) && cfg.dpad_right.holds(k)
    ||| (s.dpad == 3 || s.dpad == 4 || s.dpad == 5) && cfg.dpad_down.holds(k)
    ||| (s.dpad == 5 || s.dpad == 6 || s.dpad == 7) && cfg.dpad_left.holds(k)
}

/// Whether a stick at (x, y) holds a key: it lies at least the threshold away
/// from its centre in a direction with that key. A stick that moves the cursor
/// holds none.
pub open spec fn stick_holds(x: u8, y: u8, mode: StickKbmMode, k: PressedKey) -> bool {
    mode matches StickKbmMode::Digital { up, down, left, right, threshold } && {
        ||| y <= 128 - threshold && up.holds(k)
        ||| y >= 128 + threshold && down.holds(k)
        ||| x <= 128 - threshold && left.holds(k)
        ||| x >= 128 + threshold && right.holds(k)
    }
}

/// Whether some control of the pad holds a key down.
pub open spec fn some_control_holds(s: PadState, cfg: KbmConfig, k: PressedKey) -> bool {
    ||| button_holds(s, cfg, k)
    ||| trigger_holds(s, cfg, k)
    ||| dpad_holds(s, cfg, k)
    ||| stick_holds(s.lx, s.ly, cfg.left_stick, k)
    ||| stick_holds(s.rx, s.ry, cfg.right_stick, k)
}

proof fn lemma_input_is_a_control(s: PadState, cfg: KbmConfig, k: PressedKey, i: usize)
    requires
        i < 26,
        input_active(s, cfg, i),
        input_target(cfg, i).holds(k),
    ensures
        some_control_holds(s, cfg, k),
{
}

proof fn lemma_control_is_an_input(s: PadState, cfg: KbmConfig, k: PressedKey) -> (i: usize)
    requires
        some_control_holds(s, cfg, k),
    ensures
        i < 26,
        input_active(s, cfg, i),
        input_target(cfg, i).holds(k),
{
    if button_holds(s, cfg, k) {
        if s.cross && cfg.cross.holds(k) {
            0
        } else if s.circle && cfg.circle.holds(k) {
            1
        } else if s.triangle && cfg.triangle.holds(k) {
            2
        } else if s.square && cfg.square.holds(k) {
            3
        } else if s.l1 && cfg.l1.holds(k) {
            4
        } else if s.r1 && cfg.r1.holds(k) {
            5
        } else if s.l3 && cfg.l3.holds(k) {
            6
        } else if s.r3 && cfg.r3.holds(k) {
            7
        } else if s.share && cfg.share.holds(k) {
            8
        } else if s.options && cfg.options.holds(k) {
            9
        } else if s.ps && cfg.ps.holds(k) {
            10
        } else {
            11
        }
    } else if trigger_holds(s, cfg, k) {
        if s.l2_analog > cfg.trigger_threshold && cfg.l2.holds(k) {
            12
        } else {
            13
        }
    } else if dpad_holds(s, cfg, k) {
        if (s.dpad == 7 || s.dpad == 0 || s.dpad == 1) && cfg.dpad_up.holds(k) {
            14
        } else if (s.dpad == 3 || s.dpad == 4 || s.dpad == 5) && cfg.dpad_down.holds(k) {
            15
        } else if (s.dpad == 5 || s.dpad == 6 || s.dpad == 7) && cfg.dpad_left.holds(k) {
            16
        } else {
            17
        }
    } else if stick_holds(s.lx, s.ly, cfg.left_stick, k) {
        let i = lemma_stick_direction(s.lx, s.ly, cfg.left_stick, k);
        (18 + i) as usize
    } else {
        let i = lemma_stick_direction(s.rx, s.ry, cfg.right_stick, k);
        (22 + i) as usize
    }
}

proof fn lemma_stick_direction(x: u8, y: u8, mode: StickKbmMode, k: PressedKey) -> (i: int)
    requires
        stick_holds(x, y, mode, k),
    ensures
        0 <= i < 4,
        crate::kbm::stick_leans(mode, x, y, i),
        crate::kbm::stick_target(mode, i).holds(k),
{
    match mode {
        StickKbmMode::Digital { up, down, left, right, threshold } => {
            if y <= 128 - threshold && up.holds(k) {
                0
            } else if y >= 128 + threshold && down.holds(k) {
                1
            } else if x <= 128 - threshold && left.holds(k) {
                2
            } else {
                3
            }
        },
        StickKbmMode::Mouse { .. } => 0,
    }
}

/// A key is held exactly when a control that is mapped to it is active: each
/// button by itself, a trigger by its own pull, the d-pad by its value, and each
/// direction of a stick by the position of that same stick.
pub proof fn law_key_follows_its_controls(s: PadState, cfg: KbmConfig, k: PressedKey)
    ensures
        wanted(s, cfg, k) <==> some_control_holds(s, cfg, k),
{
    if wanted(s, cfg, k) {
        let i = choose|i: usize|
            #![trigger input_target(cfg, i)]
            i < crate::kbm::KBM_INPUTS && input_active(s, cfg, i) && input_target(cfg, i).holds(k);
        lemma_input_is_a_control(s, cfg, k, i);
    }
    if some_control_holds(s, cfg, k) {
        let i = lemma_control_is_an_input(s, cfg, k);
        assert(input_target(cfg, i).holds(k));
    }
}

/// Whether a pad is at rest under a configuration: nothing is pressed or pulled,
/// and each stick stays clear of the threshold of its directions.
pub open spec fn at_rest(s: PadState, cfg: KbmConfig) -> bool {
    &&& !s.cross && !s.circle && !s.triangle && !s.square
    &&& !s.l1 && !s.r1 && !s.l3 && !s.r3
    &&& !s.share && !s.options && !s.ps && !s.touchpad_click
    &&& s.l2_analog <= cfg.trigger_threshold && s.r2_analog <= cfg.trigger_threshold
    &&& s.dpad >= 8
    &&& clear_of(cfg.left_stick, s.lx) && clear_of(cfg.left_stick, s.ly)
    &&& clear_of(cfg.right_stick, s.rx) && clear_of(cfg.right_stick, s.ry)
}

/// Whether a stick byte stays clear of the threshold of a stick's directions.
pub open spec fn clear_of(mode: StickKbmMode, byte: u8) -> bool {
    mode matches StickKbmMode::Digital { threshold, .. } ==> 128 - threshold < byte < 128
        + threshold
}

/// On a pad at rest a single button holds down exactly what the target of the
/// same name holds, and with no button nothing is held.
pub proof fn law_one_button_holds_its_own_keys(s: PadState, cfg: KbmConfig, k: PressedKey)
    requires
        at_rest(s, cfg),
    ensures
        !wanted(s, cfg, k),
        wanted(PadState { cross: true, ..s }, cfg, k) <==> cfg.cross.holds(k),
        wanted(PadState { circle: true, ..s }, cfg, k) <==> cfg.circle.holds(k),
        wanted(PadState { triangle: true, ..s }, cfg, k) <==> cfg.triangle.holds(k),
        wanted(PadState { square: true, ..s }, cfg, k) <==> cfg.square.holds(k),
        wanted(PadState { l1: true, ..s }, cfg, k) <==> cfg.l1.holds(k),
        wanted(PadState { r1: true, ..s }, cfg, k) <==> cfg.r1.holds(k),
        wanted(PadState { l3: true, ..s }, cfg, k) <==> cfg.l3.holds(k),
        wanted(PadState { r3: true, ..s }, cfg, k) <==> cfg.r3.holds(k),
        wanted(PadState { share: true, ..s }, cfg, k) <==> cfg.share.holds(k),
        wanted(PadState { options: true, ..s }, cfg, k) <==> cfg.options.holds(k),
        wanted(PadState { ps: true, ..s }, cfg, k) <==> cfg.ps.holds(k),
        wanted(PadState { touchpad_click: true, ..s }, cfg, k) <==> cfg.touchpad_click.holds(k),
{
    law_key_follows_its_controls(s, cfg, k);
    law_key_follows_its_controls(PadState { cross: true, ..s }, cfg, k);
    law_key_follows_its_controls(PadState { circle: true, ..s }, cfg, k);
    law_key_follows_its_controls(PadState { triangle: true, ..s }, cfg, k);
    law_key_follows_its_controls(PadState { square: true, ..s }, cfg, k);
    law_key_follows_its_controls(PadState { l1: true, ..s }, cfg, k);
    law_key_follows_its_controls(PadState { r1: true, ..s }, cfg, k);
    law_key_follows_its_controls(PadState { l3: true, ..s }, cfg, k);
    law_key_follows_its_controls(PadState { r3: true, ..s }, cfg, k);
    law_key_follows_its_controls(PadState { share: true, ..s }, cfg, k);
    law_key_follows_its_controls(PadState { options: true, ..s }, cfg, k);
    law_key_follows_its_controls(PadState { ps: true, ..s }, cfg, k);
    law_key_follows_its_controls(PadState { touchpad_click: true, ..s }, cfg, k);
}

/// Whether some target of the configuration holds a key.
pub open spec fn some_target_holds(cfg: KbmConfig, k: PressedKey) -> bool {
    ||| cfg.cross.holds(k)
    ||| cfg.circle.holds(k)
    ||| cfg.triangle.holds(k)
    ||| cfg.square.holds(k)
    ||| cfg.l1.holds(k)
    ||| cfg.r1.holds(k)
    ||| cfg.l3.holds(k)
    ||| cfg.r3.holds(k)
    ||| cfg.share.holds(k)
    ||| cfg.options.holds(k)
    ||| cfg.ps.holds(k)
    ||| cfg.touchpad_click.holds(k)
    ||| cfg.l2.holds(k)
    ||| cfg.r2.holds(k)
    ||| cfg.dpad_up.holds(k)
    ||| cfg.dpad_down.holds(k)
    ||| cfg.dpad_left.holds(k)
    ||| cfg.dpad_right.holds(k)
    ||| direction_holds(cfg.left_stick, k)
    ||| direction_holds(cfg.right_stick, k)
}

/// Whether a direction of a stick holds a key.
pub open spec fn direction_holds(mode: StickKbmMode, k: PressedKey) -> bool {
    mode matches StickKbmMode::Digital { up, down, left, right, .. } && (up.holds(k) || down.holds(
        k,
    ) || left.holds(k) || right.holds(k))
}

/// A key is mapped exactly when some target of the configuration holds it, so the
/// device declares every key that can be pressed and no other.
pub proof fn law_mapped_keys_are_the_targets(cfg: KbmConfig, k: PressedKey)
    ensures
        mapped(cfg, k) <==> some_target_holds(cfg, k),
{
    if mapped(cfg, k) {
        let i = choose|i: usize|
            i < crate::kbm::KBM_INPUTS && (#[trigger] input_target(cfg, i)).holds(k);
        assert(input_target(cfg, i).holds(k));
        if i >= 18 {
            assert(direction_holds(cfg.left_stick, k) || direction_holds(cfg.right_stick, k));
        }
    }
    if some_target_holds(cfg, k) {
        let i: usize = lemma_target_place(cfg, k);
        assert(input_target(cfg, i).holds(k));
    }
}

proof fn lemma_target_place(cfg: KbmConfig, k: PressedKey) -> (i: usize)
    requires
        some_target_holds(cfg, k),
    ensures
        i < 26,
        input_target(cfg, i).holds(k),
{
    if cfg.cross.holds(k) {
        0
    } else if cfg.circle.holds(k) {
        1
    } else if cfg.triangle.holds(k) {
        2
    } else if cfg.square.holds(k) {
        3
    } else if cfg.l1.holds(k) {
        4
    } else if cfg.r1.holds(k) {
        5
    } else if cfg.l3.holds(k) {
        6
    } else if cfg.r3.holds(k) {
        7
    } else if cfg.share.holds(k) {
        8
    } else if cfg.options.holds(k) {
        9
    } else if cfg.ps.holds(k) {
        10
    } else if cfg.touchpad_click.holds(k) {
        11
    } else if cfg.l2.holds(k) {
        12
    } else if cfg.r2.holds(k) {
        13
    } else if cfg.dpad_up.holds(k) {
        14
    } else if cfg.dpad_down.holds(k) {
        15
    } else if cfg.dpad_left.holds(k) {
        16
    } else if cfg.dpad_right.holds(k) {
        17
    } else if direction_holds(cfg.left_stick, k) {
        (18 + lemma_direction_place(cfg.left_stick, k)) as usize
    } else {
        (22 + lemma_direction_place(cfg.right_stick, k)) as usize
    }
}

proof fn lemma_direction_place(mode: StickKbmMode, k: PressedKey) -> (i: int)
    requires
        direction_holds(mode, k),
    ensures
        0 <= i < 4,
        crate::kbm::stick_target(mode, i).holds(k),
{
    match mode {
        StickKbmMode::Digital { up, down, left, right, .. } => {
            if up.holds(k) {
                0
            } else if down.holds(k) {
                1
            } else if left.holds(k) {
                2
            } else {
                3
            }
        },
        StickKbmMode::Mouse { .. } => 0,
    }
}

/// What a target holds is what it lists, and a combination holds what its keys
/// hold one by one.
pub proof fn law_target_holds_what_it_lists(t: KbmTarget, k: PressedKey)
    ensures
        t.holds(k) <==> t.keys().contains(k),
        t matches KbmTarget::Combo(slots) ==> (t.holds(k) <==> exists|i: int|
            0 <= i < 4 && (#[trigger] slots@[i]) is Some && k == PressedKey::Key(slots@[i]->0)),
        t matches KbmTarget::Key(code) ==> (t.holds(k) <==> k == PressedKey::Key(code)),
        t == KbmTarget::MouseLeft ==> (t.holds(k) <==> k == PressedKey::MouseLeft),
        t == KbmTarget::MouseRight ==> (t.holds(k) <==> k == PressedKey::MouseRight),
        t == KbmTarget::Unmapped ==> !t.holds(k),
{
    match t {
        KbmTarget::Combo(slots) => {
            lemma_filled(slots@, k);
            if t.holds(k) {
                let i = choose|i: int| 0 <= i < slots@.len() && slots@[i] == Some(k->Key_0);
                assert(slots@[i] is Some);
            }
            if exists|i: int|
                0 <= i < 4 && (#[trigger] slots@[i]) is Some && k == PressedKey::Key(slots@[i]->0) {
                let i = choose|i: int|
                    0 <= i < 4 && (#[trigger] slots@[i]) is Some && k == PressedKey::Key(
                        slots@[i]->0,
                    );
                assert(slots@[i] == Some(k->Key_0));
            }
        },
        KbmTarget::Unmapped => {},
        _ => {
            assert(t.keys().contains(t.keys()[0]));
        },
    }
}

proof fn lemma_filled(slots: Seq<Option<u16>>, k: PressedKey)
    ensures
        crate::kbm::filled(slots).contains(k) <==> exists|i: int|
            0 <= i < slots.len() && (#[trigger] slots[i]) is Some && k == PressedKey::Key(slots[i]->0),
    decreases slots.len(),
{
    if slots.len() > 0 {
        let rest = slots.drop_last();
        lemma_filled(rest, k);
        if let Some(code) = slots.last() {
            crate::sets::lemma_contains_push(crate::kbm::filled(rest), PressedKey::Key(code));
            assert(slots[slots.len() - 1] is Some);
        }
        if crate::kbm::filled(rest).contains(k) {
            let i = choose|i: int|
                0 <= i < rest.len() && (#[trigger] rest[i]) is Some && k == PressedKey::Key(
                    rest[i]->0,
                );
            assert(slots[i] is Some);
        }
        if exists|i: int|
            0 <= i < slots.len() && (#[trigger] slots[i]) is Some && k == PressedKey::Key(
                slots[i]->0,
            ) {
            let i = choose|i: int|
                0 <= i < slots.len() && (#[trigger] slots[i]) is Some && k == PressedKey::Key(
                    slots[i]->0,
                );
            if i < rest.len() {
                assert(rest[i] is Some);
            }
        }
    }
}

/// A combination lists its keys in the order of its slots: what two runs of slots
/// list, one after the other, is what they list together.
pub proof fn law_combo_lists_in_slot_order(a: Seq<Option<u16>>, b: Seq<Option<u16>>, code: u16)
    ensures
        crate::kbm::filled(a + b) == crate::kbm::filled(a) + crate::kbm::filled(b),
        crate::kbm::filled(seq![Some(code)]) == seq![PressedKey::Key(code)],
        crate::kbm::filled(seq![None]) == Seq::<PressedKey>::empty(),
    decreases b.len(),
{
    let one = seq![Some(code)];
    assert(one.drop_last() =~= Seq::empty());
    let none: Seq<Option<u16>> = seq![None];
    assert(none.drop_last() =~= Seq::empty());
    reveal_with_fuel(crate::kbm::filled, 2);
    if b.len() == 0 {
        assert(a + b =~= a);
        assert(crate::kbm::filled(b) =~= Seq::empty());
    } else {
        law_combo_lists_in_slot_order(a, b.drop_last(), code);
        assert((a + b).drop_last() =~= a + b.drop_last());
        assert((a + b).last() == b.last());
        assert(crate::kbm::filled(a + b) =~= crate::kbm::filled(a) + crate::kbm::filled(b));
    }
}

/// The cursor follows the sticks that move it: horizontal counts come from the
/// horizontal bytes and vertical counts from the vertical ones, those of both
/// sticks are added, and a byte within ten steps of the centre counts nothing.
pub proof fn law_cursor_follows_the_sticks(s: PadState, cfg: KbmConfig)
    ensures
        ({
            let (dx, dy) = cursor_counts(s, cfg);
            &&& dx == moved(cfg.left_stick, s.lx) + moved(cfg.right_stick, s.rx)
            &&& dy == moved(cfg.left_stick, s.ly) + moved(cfg.right_stick, s.ry)
        }),
{
}

/// What a stick byte moves the cursor by.
pub open spec fn moved(mode: StickKbmMode, byte: u8) -> int {
    match mode {
        StickKbmMode::Mouse { counts } if byte < 118 || byte > 138 => counts@[byte as int] as int,
        _ => 0,
    }
}

/// The usual table is proportional: the counts are the whole number nearest to
/// the displacement's share of full deflection, 127 steps, they point the way the
/// stick does, and a stick pushed as far the other way undoes them.
pub proof fn law_counts_are_proportional(full: int, d: int)
    requires
        0 <= full,
    ensures
        -127 <= 2 * (127 * proportional(full, d) - full * d) <= 127,
        proportional(full, -d) == -proportional(full, d),
        proportional(full, 127) == full,
        proportional(full, 0) == 0,
        d >= 0 ==> proportional(full, d) >= 0,
{
    let p = proportional(full, d);
    assert(2 * full * d == 2 * (full * d)) by (nonlinear_arith);
    assert(2 * full * -d == -(2 * (full * d))) by (nonlinear_arith);
    if d >= 0 {
        assert(full * d >= 0) by (nonlinear_arith)
            requires
                full >= 0,
                d >= 0,
        ;
    }
    if d == 0 {
        assert(full * d == 0) by (nonlinear_arith)
            requires
                d == 0,
        ;
    }
}

/// Whether a list of events holds a key event: kind 1, with value 1 for a press
/// and 0 for a release.
pub open spec fn tells(events: Seq<InputEvent>, code: u16, value: i32) -> bool {
    events.contains(InputEvent { kind: 1, code, value })
}

/// What is newly held is pressed, what is no longer held is released, and nothing
/// else is told of any key. The mouse buttons have the codes 0x110 and 0x111.
pub proof fn law_events_tell_the_changes(prev: Seq<PressedKey>, frame: KbmFrame, code: u16)
    ensures
        ({
            let events = frame_events(prev, frame);
            let held = frame.held@;
            &&& tells(events, code, 1) <==> exists|k: PressedKey| #[trigger]
                held.contains(k) && !prev.contains(k) && has_code(k, code)
            &&& tells(events, code, 0) <==> exists|k: PressedKey| #[trigger]
                prev.contains(k) && !held.contains(k) && has_code(k, code)
        }),
{
    let held = frame.held@;
    let down = missing_from(held, prev);
    let up = missing_from(prev, held);
    lemma_key_events(down, true, code);
    lemma_key_events(up, false, code);
    crate::sets::lemma_filter_members(held, |x: PressedKey| !prev.contains(x));
    crate::sets::lemma_filter_members(prev, |x: PressedKey| !held.contains(x));
    let a = key_events(down, true);
    let b = key_events(up, false);
    let c = crate::kbm::cursor_events(frame.mouse_dx, frame.mouse_dy) + seq![crate::uinput::syn()];
    let events = frame_events(prev, frame);
    assert(events =~= a + b + c);
    let press = InputEvent { kind: 1, code, value: 1 };
    let release = InputEvent { kind: 1, code, value: 0 };
    assert(!c.contains(press) && !c.contains(release)) by {
        assert forall|i: int| 0 <= i < c.len() implies (#[trigger] c[i]).kind != 1 by {}
    }
    lemma_contains_three(a, b, c, press);
    lemma_contains_three(a, b, c, release);
    if tells(events, code, 1) {
        let k = choose|k: PressedKey| #[trigger] down.contains(k) && code_of(k) == code;
        assert(held.contains(k));
    }
    if exists|k: PressedKey| #[trigger]
        held.contains(k) && !prev.contains(k) && has_code(k, code) {
        let k = choose|k: PressedKey| #[trigger]
            held.contains(k) && !prev.contains(k) && has_code(k, code);
        assert(down.contains(k));
    }
    if tells(events, code, 0) {
        let k = choose|k: PressedKey| #[trigger] up.contains(k) && code_of(k) == code;
        assert(prev.contains(k));
    }
    if exists|k: PressedKey| #[trigger]
        prev.contains(k) && !held.contains(k) && has_code(k, code) {
        let k = choose|k: PressedKey| #[trigger]
            prev.contains(k) && !held.contains(k) && has_code(k, code);
        assert(up.contains(k));
    }
}

/// Whether a held key is told under a code.
pub open spec fn has_code(k: PressedKey, code: u16) -> bool {
    match k {
        PressedKey::Key(c) => c == code,
        PressedKey::MouseLeft => code == 0x110,
        PressedKey::MouseRight => code == 0x111,
    }
}

proof fn lemma_contains_three(
    a: Seq<InputEvent>,
    b: Seq<InputEvent>,
    c: Seq<InputEvent>,
    e: InputEvent,
)
    ensures
        (a + b + c).contains(e) <==> a.contains(e) || b.contains(e) || c.contains(e),
{
    let all = a + b + c;
    if all.contains(e) {
        let i = choose|i: int| 0 <= i < all.len() && all[i] == e;
        if i < a.len() {
            assert(a[i] == e);
        } else if i < a.len() + b.len() {
            assert(b[i - a.len()] == e);
        } else {
            assert(c[i - a.len() - b.len()] == e);
        }
    }
    if a.contains(e) {
        let i = choose|i: int| 0 <= i < a.len() && a[i] == e;
        assert(all[i] == e);
    }
    if b.contains(e) {
        let i = choose|i: int| 0 <= i < b.len() && b[i] == e;
        assert(all[a.len() + i] == e);
    }
    if c.contains(e) {
        let i = choose|i: int| 0 <= i < c.len() && c[i] == e;
        assert(all[a.len() + b.len() + i] == e);
    }
}

proof fn lemma_key_events(keys: Seq<PressedKey>, pressed: bool, code: u16)
    ensures
        tells(key_events(keys, pressed), code, 1) <==> pressed && exists|k: PressedKey| #[trigger]
            keys.contains(k) && code_of(k) == code,
        tells(key_events(keys, pressed), code, 0) <==> !pressed && exists|k: PressedKey| #[trigger]
            keys.contains(k) && code_of(k) == code,
{
    let events = key_events(keys, pressed);
    let value: i32 = if pressed {
        1
    } else {
        0
    };
    if tells(events, code, 1) || tells(events, code, 0) {
        let i = choose|i: int|
            0 <= i < events.len() && ((#[trigger] events[i]) == (InputEvent { kind: 1, code, value: 1 })
                || events[i] == (InputEvent { kind: 1, code, value: 0 }));
        assert(keys.contains(keys[i]) && code_of(keys[i]) == code);
        assert(events[i].value == value);
    }
    if exists|k: PressedKey| #[trigger] keys.contains(k) && code_of(k) == code {
        let k = choose|k: PressedKey| #[trigger] keys.contains(k) && code_of(k) == code;
        let i = choose|i: int| 0 <= i < keys.len() && keys[i] == k;
        assert(events[i] == (InputEvent { kind: 1, code, value }));
    }
}

/// A cursor that moves is told by how far it moves, horizontally under code 0 and
/// vertically under code 1 of the relative axes; one that rests is not told; and
/// the end of the report comes last.
pub proof fn law_events_tell_the_motion(prev: Seq<PressedKey>, frame: KbmFrame, code: u16, value: i32)
    ensures
        ({
            let events = frame_events(prev, frame);
            &&& events.contains(InputEvent { kind: 2, code, value }) <==> value != 0 && (code == 0
                && value == frame.mouse_dx || code == 1 && value == frame.mouse_dy)
            &&& events.last() == (InputEvent { kind: 0, code: 0, value: 0 })
        }),
{
    let a = key_events(missing_from(frame.held@, prev), true);
    let b = key_events(missing_from(prev, frame.held@), false);
    let m = crate::kbm::cursor_events(frame.mouse_dx, frame.mouse_dy);
    let c = m + seq![crate::uinput::syn()];
    let events = frame_events(prev, frame);
    assert(events =~= a + b + c);
    let e = InputEvent { kind: 2, code, value };
    assert(!a.contains(e)) by {
        assert forall|i: int| 0 <= i < a.len() implies (#[trigger] a[i]).kind == 1 by {}
    }
    assert(!b.contains(e)) by {
        assert forall|i: int| 0 <= i < b.len() implies (#[trigger] b[i]).kind == 1 by {}
    }
    lemma_contains_three(a, b, c, e);
    if value != 0 && code == 0 && value == frame.mouse_dx {
        assert(c[0] == e);
    }
    if value != 0 && code == 1 && value == frame.mouse_dy {
        assert(c[m.len() - 1] == e);
    }
}

/// The usual mapping, by codes: the left stick walks, the face buttons and
/// shoulders act, R2 and R1 are the mouse buttons, and the right stick moves the
/// cursor.
pub proof fn law_usual_mapping(cfg: KbmConfig, k: PressedKey, pull: u8)
    requires
        cfg.is_standard(),
    ensures
        cfg.cross.holds(k) <==> k == PressedKey::Key(57),
        cfg.circle.holds(k) <==> k == PressedKey::Key(29),
        cfg.triangle.holds(k) <==> k == PressedKey::Key(18),
        cfg.square.holds(k) <==> k == PressedKey::Key(19),
        cfg.l1.holds(k) <==> k == PressedKey::Key(16),
        cfg.l3.holds(k) <==> k == PressedKey::Key(42),
        cfg.share.holds(k) <==> k == PressedKey::Key(15),
        cfg.options.holds(k) <==> k == PressedKey::Key(1),
        cfg.dpad_up.holds(k) <==> k == PressedKey::Key(2),
        cfg.r1.holds(k) <==> k == PressedKey::MouseRight,
        cfg.r2.holds(k) <==> k == PressedKey::MouseLeft,
        !cfg.l2.holds(k) && !cfg.r3.holds(k) && !cfg.ps.holds(k) && !cfg.touchpad_click.holds(k),
        !cfg.dpad_down.holds(k) && !cfg.dpad_left.holds(k) && !cfg.dpad_right.holds(k),
        cfg.left_stick matches StickKbmMode::Digital { up, down, left, right, threshold } && (up.holds(
            k,
        ) <==> k == PressedKey::Key(17)) && (down.holds(k) <==> k == PressedKey::Key(31)) && (
        left.holds(k) <==> k == PressedKey::Key(30)) && (right.holds(k) <==> k == PressedKey::Key(
            32,
        )) && threshold == 64,
        cfg.right_stick is Mouse,
        pull > cfg.trigger_threshold <==> 2 * pull > 255,
{
}

/// A report can be turned into a frame exactly when the counts of both sticks add
/// up to numbers of 32 bits along both axes.
pub proof fn law_counts_fit_means_both_sums_do(s: PadState, cfg: KbmConfig)
    ensures
        crate::kbm::counts_fit(s, cfg) <==> (-0x8000_0000 <= moved(cfg.left_stick, s.lx) + moved(
            cfg.right_stick,
            s.rx,
        ) < 0x8000_0000 && -0x8000_0000 <= moved(cfg.left_stick, s.ly) + moved(cfg.right_stick, s.ry)
            < 0x8000_0000),
{
}

/// Presses are told before releases, and both before the cursor moves.
pub proof fn law_presses_are_told_first(prev: Seq<PressedKey>, frame: KbmFrame, i: int, j: int)
    requires
        0 <= i < frame_events(prev, frame).len(),
        0 <= j < frame_events(prev, frame).len(),
    ensures
        ({
            let a = frame_events(prev, frame)[i];
            let b = frame_events(prev, frame)[j];
            &&& a.kind == 1 && a.value == 1 && b.kind == 1 && b.value == 0 ==> i < j
            &&& a.kind == 1 && b.kind == 2 ==> i < j
        }),
{
    let down = key_events(missing_from(frame.held@, prev), true);
    let up = key_events(missing_from(prev, frame.held@), false);
    let events = frame_events(prev, frame);
    let n = down.len() as int;
    let m = n + up.len();
    assert forall|k: int| 0 <= k < events.len() implies (k < n ==> #[trigger] events[k].value == 1
        && events[k].kind == 1) && (n <= k < m ==> events[k].value == 0 && events[k].kind == 1) && (k
        >= m ==> events[k].kind != 1) by {
        if k < n {
            assert(events[k] == down[k]);
        } else if k < m {
            assert(events[k] == up[k - n]);
        } else {
            let c = crate::kbm::cursor_events(frame.mouse_dx, frame.mouse_dy) + seq![
                crate::uinput::syn(),
            ];
            assert(events[k] == c[k - m]);
        }
    }
    assert(events[i].kind == events[i].kind && events[j].kind == events[j].kind);
}

} // verus!
