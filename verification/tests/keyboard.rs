//! Keyboard and mouse output.

use ds4l::ds4_input::PadState;
use ds4l::kbm::{
    apply_kbm_frame, collect_mapped_keys, compute_frame, counts_fit_in_frame, frame_sent,
    proportional_counts, KbmConfig, KbmState, KbmTarget, KeySet, PressedKey, StickKbmMode, KEY_1,
    KEY_A, KEY_D, KEY_E, KEY_ESC, KEY_F24, KEY_LEFTCTRL, KEY_LEFTSHIFT, KEY_Q, KEY_R, KEY_S,
    KEY_SPACE, KEY_TAB, KEY_W,
};
use ds4l::uinput::{InputEvent, EV_KEY, EV_REL, EV_SYN};
use ds4l::uinput_mouse::{BTN_LEFT, BTN_RIGHT, REL_X, REL_Y};

fn centred() -> PadState {
    PadState { lx: 128, ly: 128, rx: 128, ry: 128, dpad: 8, ..PadState::default() }
}

fn quiet() -> KbmConfig {
    KbmConfig { trigger_threshold: 255, ..KbmConfig::default() }
}

fn frame_keys(pad: &PadState, cfg: &KbmConfig) -> Vec<PressedKey> {
    let mut state = KbmState::default();
    assert!(counts_fit_in_frame(pad, cfg));
    compute_frame(pad, cfg, &mut state).held.to_vec()
}

fn key(code: u16, value: i32) -> InputEvent {
    InputEvent { kind: EV_KEY, code, value }
}

fn syn() -> InputEvent {
    InputEvent { kind: EV_SYN, code: 0, value: 0 }
}

#[test]
fn key_codes() {
    assert_eq!((KEY_ESC, KEY_1, KEY_Q, KEY_W, KEY_A), (1, 2, 16, 17, 30));
    assert_eq!((KEY_SPACE, KEY_F24), (57, 194));
}

#[test]
fn default_mapping() {
    let cfg = KbmConfig::default();
    assert_eq!(cfg.cross, KbmTarget::Key(KEY_SPACE));
    assert_eq!(cfg.circle, KbmTarget::Key(KEY_LEFTCTRL));
    assert_eq!(cfg.triangle, KbmTarget::Key(KEY_E));
    assert_eq!(cfg.square, KbmTarget::Key(KEY_R));
    assert_eq!(cfg.l1, KbmTarget::Key(KEY_Q));
    assert_eq!(cfg.r1, KbmTarget::MouseRight);
    assert_eq!(cfg.r2, KbmTarget::MouseLeft);
    assert_eq!(cfg.l3, KbmTarget::Key(KEY_LEFTSHIFT));
    assert_eq!(cfg.share, KbmTarget::Key(KEY_TAB));
    assert_eq!(cfg.options, KbmTarget::Key(KEY_ESC));
    assert_eq!(cfg.dpad_up, KbmTarget::Key(KEY_1));
    assert_eq!(cfg.l2, KbmTarget::Unmapped);
    assert_eq!(cfg.trigger_threshold, 127);
}

#[test]
fn targets_expand_to_keys() {
    assert_eq!(KbmTarget::Unmapped.to_pressed_keys(), vec![]);
    assert_eq!(KbmTarget::Key(5).to_pressed_keys(), vec![PressedKey::Key(5)]);
    assert_eq!(KbmTarget::MouseLeft.to_pressed_keys(), vec![PressedKey::MouseLeft]);
    assert_eq!(KbmTarget::MouseRight.to_pressed_keys(), vec![PressedKey::MouseRight]);
    assert_eq!(
        KbmTarget::Combo([Some(29), None, Some(42), None]).to_pressed_keys(),
        vec![PressedKey::Key(29), PressedKey::Key(42)]
    );
    assert_eq!(
        KbmTarget::Combo([Some(42), Some(29), Some(42), Some(3)]).to_pressed_keys(),
        vec![PressedKey::Key(42), PressedKey::Key(29), PressedKey::Key(42), PressedKey::Key(3)]
    );
    assert_eq!(KbmTarget::Combo([None; 4]).to_pressed_keys(), vec![]);
}

#[test]
fn buttons_hold_their_keys() {
    let pad = PadState { cross: true, r1: true, options: true, ..centred() };
    assert_eq!(
        frame_keys(&pad, &quiet()),
        vec![PressedKey::Key(KEY_SPACE), PressedKey::MouseRight, PressedKey::Key(KEY_ESC)]
    );
    assert_eq!(frame_keys(&centred(), &quiet()), vec![]);
}

#[test]
fn a_key_is_held_once() {
    let cfg = KbmConfig {
        circle: KbmTarget::Key(KEY_SPACE),
        square: KbmTarget::Combo([Some(KEY_SPACE), Some(KEY_A), None, None]),
        ..quiet()
    };
    let pad = PadState { cross: true, circle: true, square: true, ..centred() };
    let keys = frame_keys(&pad, &cfg);
    assert_eq!(keys.len(), 2);
    assert!(keys.contains(&PressedKey::Key(KEY_SPACE)) && keys.contains(&PressedKey::Key(KEY_A)));
}

#[test]
fn triggers_need_their_threshold() {
    let cfg = KbmConfig { l2: KbmTarget::Key(7), ..KbmConfig::default() };
    assert_eq!(frame_keys(&PadState { l2_analog: 127, ..centred() }, &cfg), vec![]);
    assert_eq!(frame_keys(&PadState { l2_analog: 128, ..centred() }, &cfg), vec![PressedKey::Key(7)]);
    assert_eq!(frame_keys(&PadState { r2_analog: 127, ..centred() }, &cfg), vec![]);
    assert_eq!(frame_keys(&PadState { r2_analog: 255, ..centred() }, &cfg), vec![PressedKey::MouseLeft]);
    // Any pull lies beyond a threshold of zero, and a trigger at rest does not.
    let light = KbmConfig { trigger_threshold: 0, ..cfg };
    assert_eq!(frame_keys(&centred(), &light), vec![]);
    assert_eq!(frame_keys(&PadState { l2_analog: 1, ..centred() }, &light), vec![PressedKey::Key(7)]);
}

#[test]
fn left_stick_is_wasd() {
    let up_left = PadState { lx: 0, ly: 0, ..centred() };
    let keys = frame_keys(&up_left, &quiet());
    assert_eq!(keys, vec![PressedKey::Key(KEY_W), PressedKey::Key(KEY_A)]);
    let down_right = PadState { lx: 255, ly: 255, ..centred() };
    assert_eq!(frame_keys(&down_right, &quiet()), vec![PressedKey::Key(KEY_S), PressedKey::Key(KEY_D)]);
    assert_eq!(frame_keys(&PadState { lx: 191, ..centred() }, &quiet()), vec![]);
    assert_eq!(frame_keys(&PadState { lx: 192, ..centred() }, &quiet()), vec![PressedKey::Key(KEY_D)]);
}

#[test]
fn dpad_diagonal_is_both_keys() {
    let cfg = KbmConfig { dpad_right: KbmTarget::Key(106), ..quiet() };
    let keys = frame_keys(&PadState { dpad: 1, ..centred() }, &cfg);
    assert_eq!(keys, vec![PressedKey::Key(KEY_1), PressedKey::Key(106)]);
}

#[test]
fn right_stick_moves_the_cursor() {
    let mut state = KbmState::default();
    let cfg = quiet();
    let full = compute_frame(&PadState { rx: 255, ry: 0, ..centred() }, &cfg, &mut state);
    assert_eq!((full.mouse_dx, full.mouse_dy), (8, -8));
    let half = compute_frame(&PadState { rx: 192, ..centred() }, &cfg, &mut state);
    assert_eq!((half.mouse_dx, half.mouse_dy), (4, 0));
    let rest = compute_frame(&PadState { rx: 138, ry: 118, ..centred() }, &cfg, &mut state);
    assert_eq!((rest.mouse_dx, rest.mouse_dy), (0, 0));
    let edge = compute_frame(&PadState { rx: 139, ..centred() }, &cfg, &mut state);
    assert_eq!(edge.mouse_dx, (11.0f64 / 127.0 * 8.0).round() as i32);
}

#[test]
fn proportional_table_is_the_rounded_formula() {
    for full in [1u16, 8, 30, 1000] {
        let table = proportional_counts(full);
        for i in 0..256usize {
            let expected = ((i as f64 - 128.0) / 127.0 * full as f64).round() as i32;
            assert_eq!(table[i], expected);
        }
    }
}

#[test]
fn both_sticks_add_their_motion() {
    let mouse = StickKbmMode::Mouse { counts: proportional_counts(8) };
    let cfg = KbmConfig { left_stick: mouse, ..quiet() };
    let mut state = KbmState::default();
    let f = compute_frame(&PadState { lx: 255, rx: 255, ..centred() }, &cfg, &mut state);
    assert_eq!(f.mouse_dx, 16);
}

#[test]
fn motion_that_does_not_fit_is_noticed() {
    let huge = StickKbmMode::Mouse { counts: [i32::MAX; 256] };
    let cfg = KbmConfig { left_stick: huge, right_stick: huge, ..quiet() };
    assert!(!counts_fit_in_frame(&PadState { lx: 255, rx: 255, ..centred() }, &cfg));
    assert!(counts_fit_in_frame(&centred(), &cfg));
}

#[test]
fn only_changes_are_sent() {
    let cfg = quiet();
    let mut state = KbmState::default();
    let first = compute_frame(&PadState { cross: true, ..centred() }, &cfg, &mut state);
    assert_eq!(apply_kbm_frame(&state, &first), vec![key(KEY_SPACE, 1), syn()]);
    frame_sent(&mut state, first);
    let same = compute_frame(&PadState { cross: true, ..centred() }, &cfg, &mut state);
    assert_eq!(apply_kbm_frame(&state, &same), vec![syn()]);
    frame_sent(&mut state, same);
    let moved = compute_frame(
        &PadState { r1: true, rx: 255, ry: 255, ..centred() },
        &cfg,
        &mut state,
    );
    assert_eq!(
        apply_kbm_frame(&state, &moved),
        vec![
            key(BTN_RIGHT, 1),
            key(KEY_SPACE, 0),
            InputEvent { kind: EV_REL, code: REL_X, value: 8 },
            InputEvent { kind: EV_REL, code: REL_Y, value: 8 },
            syn(),
        ]
    );
    frame_sent(&mut state, moved);
    assert!(state.prev_pressed.contains(PressedKey::MouseRight));
    let released = compute_frame(&centred(), &cfg, &mut state);
    assert_eq!(apply_kbm_frame(&state, &released), vec![key(BTN_RIGHT, 0), syn()]);
    assert_eq!(BTN_LEFT, 0x110);
}

#[test]
fn a_set_keeps_each_key_once() {
    let s = KeySet::new().insert(PressedKey::Key(1)).insert(PressedKey::MouseLeft).insert(PressedKey::Key(1));
    assert_eq!(s.to_vec(), vec![PressedKey::Key(1), PressedKey::MouseLeft]);
    let t = KeySet::new().insert(PressedKey::MouseLeft);
    assert_eq!(s.difference(&t), vec![PressedKey::Key(1)]);
    assert_eq!(t.difference(&s), vec![]);
    assert!(!t.contains(PressedKey::Key(1)));
}

#[test]
fn mapped_keys_are_listed_once() {
    let cfg = KbmConfig {
        square: KbmTarget::Combo([Some(KEY_SPACE), Some(100), None, None]),
        ..KbmConfig::default()
    };
    let mut keys = collect_mapped_keys(&cfg);
    keys.sort();
    let mut expected = vec![
        KEY_SPACE, KEY_LEFTCTRL, KEY_E, 100, KEY_Q, KEY_LEFTSHIFT, KEY_TAB, KEY_ESC, KEY_1, KEY_W,
        KEY_A, KEY_S, KEY_D,
    ];
    expected.sort();
    assert_eq!(keys, expected);
}
