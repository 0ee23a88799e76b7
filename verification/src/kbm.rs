//! Keyboard and mouse output.
//!
//! Each input of the pad has a target: a key, a mouse button, a combination of
//! keys, or nothing. A frame lists everything that is held down in one report;
//! what goes to the device is the difference to the previous frame.

use crate::ds4_input::PadState;
use crate::uinput::{key_event, rel_event, sync_event, InputEvent};
use crate::uinput_mouse::{BTN_LEFT, BTN_RIGHT, REL_X, REL_Y};
use vstd::prelude::*;

verus! {

pub const KEY_ESC: u16 = 1;

pub const KEY_1: u16 = 2;

pub const KEY_2: u16 = 3;

pub const KEY_3: u16 = 4;

pub const KEY_4: u16 = 5;

pub const KEY_5: u16 = 6;

pub const KEY_6: u16 = 7;

pub const KEY_7: u16 = 8;

pub const KEY_8: u16 = 9;

pub const KEY_9: u16 = 10;

pub const KEY_0: u16 = 11;

pub const KEY_MINUS: u16 = 12;

pub const KEY_EQUAL: u16 = 13;

pub const KEY_BACKSPACE: u16 = 14;

pub const KEY_TAB: u16 = 15;

pub const KEY_Q: u16 = 16;

pub const KEY_W: u16 = 17;

pub const KEY_E: u16 = 18;

pub const KEY_R: u16 = 19;

pub const KEY_T: u16 = 20;

pub const KEY_Y: u16 = 21;

pub const KEY_U: u16 = 22;

pub const KEY_I: u16 = 23;

pub const KEY_O: u16 = 24;

pub const KEY_P: u16 = 25;

pub const KEY_LEFTBRACE: u16 = 26;

pub const KEY_RIGHTBRACE: u16 = 27;

pub const KEY_ENTER: u16 = 28;

pub const KEY_LEFTCTRL: u16 = 29;

pub const KEY_A: u16 = 30;

pub const KEY_S: u16 = 31;

pub const KEY_D: u16 = 32;

pub const KEY_F: u16 = 33;

pub const KEY_G: u16 = 34;

pub const KEY_H: u16 = 35;

pub const KEY_J: u16 = 36;

pub const KEY_K: u16 = 37;

pub const KEY_L: u16 = 38;

pub const KEY_SEMICOLON: u16 = 39;

pub const KEY_APOSTROPHE: u16 = 40;

pub const KEY_GRAVE: u16 = 41;

pub const KEY_LEFTSHIFT: u16 = 42;

pub const KEY_BACKSLASH: u16 = 43;

pub const KEY_Z: u16 = 44;

pub const KEY_X: u16 = 45;

pub const KEY_C: u16 = 46;

pub const KEY_V: u16 = 47;

pub const KEY_B: u16 = 48;

pub const KEY_N: u16 = 49;

pub const KEY_M: u16 = 50;

pub const KEY_COMMA: u16 = 51;

pub const KEY_DOT: u16 = 52;

pub const KEY_SLASH: u16 = 53;

pub const KEY_RIGHTSHIFT: u16 = 54;

pub const KEY_KPASTERISK: u16 = 55;

pub const KEY_LEFTALT: u16 = 56;

pub const KEY_SPACE: u16 = 57;

pub const KEY_CAPSLOCK: u16 = 58;

pub const KEY_F1: u16 = 59;

pub const KEY_F2: u16 = 60;

pub const KEY_F3: u16 = 61;

pub const KEY_F4: u16 = 62;

pub const KEY_F5: u16 = 63;

pub const KEY_F6: u16 = 64;

pub const KEY_F7: u16 = 65;

pub const KEY_F8: u16 = 66;

pub const KEY_F9: u16 = 67;

pub const KEY_F10: u16 = 68;

pub const KEY_NUMLOCK: u16 = 69;

pub const KEY_SCROLLLOCK: u16 = 70;

pub const KEY_KP7: u16 = 71;

pub const KEY_KP8: u16 = 72;

pub const KEY_KP9: u16 = 73;

pub const KEY_KPMINUS: u16 = 74;

pub const KEY_KP4: u16 = 75;

pub const KEY_KP5: u16 = 76;

pub const KEY_KP6: u16 = 77;

pub const KEY_KPPLUS: u16 = 78;

pub const KEY_KP1: u16 = 79;

pub const KEY_KP2: u16 = 80;

pub const KEY_KP3: u16 = 81;

pub const KEY_KP0: u16 = 82;

pub const KEY_KPDOT: u16 = 83;

pub const KEY_102ND: u16 = 86;

pub const KEY_F11: u16 = 87;

pub const KEY_F12: u16 = 88;

pub const KEY_KPENTER: u16 = 96;

pub const KEY_RIGHTCTRL: u16 = 97;

pub const KEY_KPSLASH: u16 = 98;

pub const KEY_SYSRQ: u16 = 99;

pub const KEY_RIGHTALT: u16 = 100;

pub const KEY_HOME: u16 = 102;

pub const KEY_UP: u16 = 103;

pub const KEY_PAGEUP: u16 = 104;

pub const KEY_LEFT: u16 = 105;

pub const KEY_RIGHT: u16 = 106;

pub const KEY_END: u16 = 107;

pub const KEY_DOWN: u16 = 108;

pub const KEY_PAGEDOWN: u16 = 109;

pub const KEY_INSERT: u16 = 110;

pub const KEY_DELETE: u16 = 111;

pub const KEY_MUTE: u16 = 113;

pub const KEY_VOLUMEDOWN: u16 = 114;

pub const KEY_VOLUMEUP: u16 = 115;

pub const KEY_PAUSE: u16 = 119;

pub const KEY_LEFTMETA: u16 = 125;

pub const KEY_RIGHTMETA: u16 = 126;

pub const KEY_COMPOSE: u16 = 127;

pub const KEY_F13: u16 = 183;

pub const KEY_F14: u16 = 184;

pub const KEY_F15: u16 = 185;

pub const KEY_F16: u16 = 186;

pub const KEY_F17: u16 = 187;

pub const KEY_F18: u16 = 188;

pub const KEY_F19: u16 = 189;

pub const KEY_F20: u16 = 190;

pub const KEY_F21: u16 = 191;

pub const KEY_F22: u16 = 192;

pub const KEY_F23: u16 = 193;

pub const KEY_F24: u16 = 194;

/// What an input holds down.
#[derive(Debug, Clone, Copy, PartialEq, Eq)]
pub enum KbmTarget {
    Unmapped,
    Key(u16),
    MouseLeft,
    MouseRight,
    /// Up to four keys at once. Empty slots add nothing.
    Combo([Option<u16>; 4]),
}

/// A key or mouse button that is held down.
#[derive(Debug, Clone, Copy, PartialEq, Eq, Hash, Structural)]
pub enum PressedKey {
    Key(u16),
    MouseLeft,
    MouseRight,
}

impl KbmTarget {
    /// Whether this target holds the given key down.
    pub open spec fn holds(self, k: PressedKey) -> bool {
        match self {
            KbmTarget::Unmapped => false,
            KbmTarget::Key(code) => k == PressedKey::Key(code),
            KbmTarget::MouseLeft => k == PressedKey::MouseLeft,
            KbmTarget::MouseRight => k == PressedKey::MouseRight,
            KbmTarget::Combo(keys) => match k {
                PressedKey::Key(code) => keys@.contains(Some(code)),
                _ => false,
            },
        }
    }

    /// What this target holds down, as a list: a combination's keys in the order
    /// of their slots.
    pub open spec fn keys(self) -> Seq<PressedKey> {
        match self {
            KbmTarget::Unmapped => Seq::empty(),
            KbmTarget::Key(code) => seq![PressedKey::Key(code)],
            KbmTarget::MouseLeft => seq![PressedKey::MouseLeft],
            KbmTarget::MouseRight => seq![PressedKey::MouseRight],
            KbmTarget::Combo(slots) => filled(slots@),
        }
    }

    /// Lists what this target holds down: nothing, one key, or up to four.
    pub fn to_pressed_keys(self) -> (r: Vec<PressedKey>)
        ensures
            r@ == self.keys(),
            r@.len() <= 4,
            forall|k: PressedKey| #[trigger] r@.contains(k) <==> self.holds(k),
    {
        match self {
            KbmTarget::Unmapped => Vec::new(),
            KbmTarget::Key(code) => one_key(PressedKey::Key(code)),
            KbmTarget::MouseLeft => one_key(PressedKey::MouseLeft),
            KbmTarget::MouseRight => one_key(PressedKey::MouseRight),
            KbmTarget::Combo(keys) => combo_keys(&keys),
        }
    }
}

/// The keys of the slots that hold one, in order.
pub open spec fn filled(slots: Seq<Option<u16>>) -> Seq<PressedKey>
    decreases slots.len(),
{
    if slots.len() == 0 {
        Seq::empty()
    } else {
        match slots.last() {
            Some(code) => filled(slots.drop_last()).push(PressedKey::Key(code)),
            None => filled(slots.drop_last()),
        }
    }
}

fn one_key(key: PressedKey) -> (r: Vec<PressedKey>)
    ensures
        r@ == seq![key],
        forall|k: PressedKey| #[trigger] r@.contains(k) <==> k == key,
{
    let mut r: Vec<PressedKey> = Vec::new();
    r.push(key);
    assert(r@[0] == key);
    r
}

fn combo_keys(keys: &[Option<u16>; 4]) -> (r: Vec<PressedKey>)
    ensures
        r@ == filled(keys@),
        r@.len() <= 4,
        forall|k: PressedKey| #[trigger] r@.contains(k) <==> KbmTarget::Combo(*keys).holds(k),
{
    let mut r: Vec<PressedKey> = Vec::new();
    let mut i: usize = 0;
    while i < 4
        invariant
            i <= 4,
            keys@.len() == 4,
            r@ == filled(keys@.take(i as int)),
            r@.len() <= i,
            forall|k: PressedKey| #[trigger]
                r@.contains(k) <==> exists|n: int|
                    0 <= n < i && #[trigger] keys@[n] is Some && k == PressedKey::Key(
                        keys@[n]->0,
                    ),
        decreases 4 - i,
    {
        let ghost before = r@;
        proof {
            assert(keys@.take(i + 1).drop_last() =~= keys@.take(i as int));
        }
        if let Some(code) = keys[i] {
            r.push(PressedKey::Key(code));
            proof {
                crate::sets::lemma_contains_push(before, PressedKey::Key(code));
                assert(keys@[i as int] is Some && PressedKey::Key(code) == PressedKey::Key(
                    keys@[i as int]->0,
                ));
            }
        }
        i = i + 1;
    }
    proof {
        assert(keys@.take(4) =~= keys@);
        assert forall|k: PressedKey| #[trigger] r@.contains(k) implies KbmTarget::Combo(
            *keys,
        ).holds(k) by {
            let n = choose|n: int|
                0 <= n < 4 && #[trigger] keys@[n] is Some && k == PressedKey::Key(keys@[n]->0);
            assert(keys@[n] == Some(k->0));
        }
        assert forall|k: PressedKey| KbmTarget::Combo(*keys).holds(k) implies #[trigger] r@.contains(
            k,
        ) by {
            let n = choose|n: int| 0 <= n < 4 && keys@[n] == Some(k->0);
            assert(keys@[n] is Some);
        }
    }
    r
}

/// How a stick behaves.
#[derive(Debug, Clone, Copy)]
pub enum StickKbmMode {
    /// The stick moves the cursor for as long as it is off centre. The table
    /// gives the counts per report for each stick byte.
    Mouse { counts: [i32; 256] },
    /// Each direction is an input of its own.
    Digital {
        up: KbmTarget,
        down: KbmTarget,
        left: KbmTarget,
        right: KbmTarget,
        /// Least displacement from the centre, in raw steps of which 127 are
        /// full deflection, at which a direction counts as pressed.
        threshold: i16,
    },
}

impl Default for StickKbmMode {
    fn default() -> (r: Self)
        ensures
            r == (StickKbmMode::Digital {
                up: KbmTarget::Key(KEY_W),
                down: KbmTarget::Key(KEY_S),
                left: KbmTarget::Key(KEY_A),
                right: KbmTarget::Key(KEY_D),
                threshold: crate::gamepad_remap::HALF_DEFLECTION_STEPS,
            }),
    {
        StickKbmMode::Digital {
            up: KbmTarget::Key(KEY_W),
            down: KbmTarget::Key(KEY_S),
            left: KbmTarget::Key(KEY_A),
            right: KbmTarget::Key(KEY_D),
            threshold: crate::gamepad_remap::HALF_DEFLECTION_STEPS,
        }
    }
}

/// The whole number nearest to `full * d / 127`.
pub open spec fn proportional(full: int, d: int) -> int {
    if d >= 0 {
        (2 * full * d + 127) / 254
    } else {
        -((2 * full * -d + 127) / 254)
    }
}

/// Builds the table of a stick whose full deflection moves the cursor by
/// `full` counts per report.
pub fn proportional_counts(full: u16) -> (r: [i32; 256])
    ensures
        forall|i: int| 0 <= i < 256 ==> #[trigger] r@[i] == proportional(full as int, i - 128),
{
    let mut r: [i32; 256] = [0i32; 256];
    let mut i: usize = 0;
    while i < 256
        invariant
            i <= 256,
            forall|k: int| 0 <= k < i ==> #[trigger] r@[k] == proportional(full as int, k - 128),
        decreases 256 - i,
    {
        let d: i64 = i as i64 - 128;
        let size: i64 = if d >= 0 {
            d
        } else {
            -d
        };
        assert(0 <= 2 * full * size <= 2 * 65535 * 128) by (nonlinear_arith)
            requires
                0 <= size <= 128,
                0 <= full <= 65535,
        ;
        let steps: i64 = (2 * full as i64 * size + 127) / 254;
        r[i] = if d >= 0 {
            steps as i32
        } else {
            -steps as i32
        };
        i = i + 1;
    }
    r
}

/// The targets of every input and the thresholds of the analog ones.
#[derive(Debug, Clone, Copy)]
pub struct KbmConfig {
    pub cross: KbmTarget,
    pub circle: KbmTarget,
    pub triangle: KbmTarget,
    pub square: KbmTarget,
    pub l1: KbmTarget,
    pub r1: KbmTarget,
    pub l2: KbmTarget,
    pub r2: KbmTarget,
    pub l3: KbmTarget,
    pub r3: KbmTarget,
    pub share: KbmTarget,
    pub options: KbmTarget,
    pub ps: KbmTarget,
    pub touchpad_click: KbmTarget,
    pub dpad_up: KbmTarget,
    pub dpad_down: KbmTarget,
    pub dpad_left: KbmTarget,
    pub dpad_right: KbmTarget,
    pub left_stick: StickKbmMode,
    pub right_stick: StickKbmMode,
    /// Analog value beyond which a trigger counts as pressed.
    pub trigger_threshold: u8,
}

/// The last analog value that does not lie beyond half travel.
pub const HALF_TRIGGER: u8 = 127;

/// Cursor counts per report at full deflection, where nothing else is set.
pub const DEFAULT_STICK_COUNTS: u16 = 8;

impl KbmConfig {
    /// Whether this is the mapping of a new profile.
    pub open spec fn is_standard(self) -> bool {
        &&& self.cross == KbmTarget::Key(KEY_SPACE)
        &&& self.circle == KbmTarget::Key(KEY_LEFTCTRL)
        &&& self.triangle == KbmTarget::Key(KEY_E)
        &&& self.square == KbmTarget::Key(KEY_R)
        &&& self.l1 == KbmTarget::Key(KEY_Q)
        &&& self.r1 == KbmTarget::MouseRight
        &&& self.l2 == KbmTarget::Unmapped
        &&& self.r2 == KbmTarget::MouseLeft
        &&& self.l3 == KbmTarget::Key(KEY_LEFTSHIFT)
        &&& self.r3 == KbmTarget::Unmapped
        &&& self.share == KbmTarget::Key(KEY_TAB)
        &&& self.options == KbmTarget::Key(KEY_ESC)
        &&& self.ps == KbmTarget::Unmapped
        &&& self.touchpad_click == KbmTarget::Unmapped
        &&& self.dpad_up == KbmTarget::Key(KEY_1)
        &&& self.dpad_down == KbmTarget::Unmapped
        &&& self.dpad_left == KbmTarget::Unmapped
        &&& self.dpad_right == KbmTarget::Unmapped
        &&& self.left_stick == (StickKbmMode::Digital {
            up: KbmTarget::Key(KEY_W),
            down: KbmTarget::Key(KEY_S),
            left: KbmTarget::Key(KEY_A),
            right: KbmTarget::Key(KEY_D),
            threshold: crate::gamepad_remap::HALF_DEFLECTION_STEPS,
        })
        &&& (self.right_stick matches StickKbmMode::Mouse { counts } && forall|i: int|
            0 <= i < 256 ==> #[trigger] counts@[i] == proportional(
                DEFAULT_STICK_COUNTS as int,
                i - 128,
            ))
        &&& self.trigger_threshold == HALF_TRIGGER
    }
}

impl Default for KbmConfig {
    fn default() -> (r: Self)
        ensures
            r.is_standard(),
    {
        KbmConfig {
            cross: KbmTarget::Key(KEY_SPACE),
            circle: KbmTarget::Key(KEY_LEFTCTRL),
            triangle: KbmTarget::Key(KEY_E),
            square: KbmTarget::Key(KEY_R),
            l1: KbmTarget::Key(KEY_Q),
            r1: KbmTarget::MouseRight,
            l2: KbmTarget::Unmapped,
            r2: KbmTarget::MouseLeft,
            l3: KbmTarget::Key(KEY_LEFTSHIFT),
            r3: KbmTarget::Unmapped,
            share: KbmTarget::Key(KEY_TAB),
            options: KbmTarget::Key(KEY_ESC),
            ps: KbmTarget::Unmapped,
            touchpad_click: KbmTarget::Unmapped,
            dpad_up: KbmTarget::Key(KEY_1),
            dpad_down: KbmTarget::Unmapped,
            dpad_left: KbmTarget::Unmapped,
            dpad_right: KbmTarget::Unmapped,
            left_stick: StickKbmMode::default(),
            right_stick: StickKbmMode::Mouse { counts: proportional_counts(DEFAULT_STICK_COUNTS) },
            trigger_threshold: HALF_TRIGGER,
        }
    }
}

/// A set of held keys. Nothing occurs in it twice.
#[derive(Debug)]
pub struct KeySet {
    keys: Vec<PressedKey>,
}

impl View for KeySet {
    type V = Seq<PressedKey>;

    closed spec fn view(&self) -> Seq<PressedKey> {
        self.keys@
    }
}

impl KeySet {
    #[verifier::type_invariant]
    spec fn distinct(self) -> bool {
        self.keys@.no_duplicates()
    }

    /// Whether a key is in the set.
    pub open spec fn has(self, k: PressedKey) -> bool {
        self@.contains(k)
    }

    /// The empty set.
    pub fn new() -> (r: KeySet)
        ensures
            r@ == Seq::<PressedKey>::empty(),
    {
        KeySet { keys: Vec::new() }
    }

    /// Whether a key is in the set.
    pub fn contains(&self, k: PressedKey) -> (r: bool)
        ensures
            r == self.has(k),
    {
        let mut i: usize = 0;
        while i < self.keys.len()
            invariant
                i <= self.keys.len(),
                forall|n: int| 0 <= n < i ==> #[trigger] self.keys@[n] != k,
            decreases self.keys.len() - i,
        {
            if self.keys[i] == k {
                assert(self.keys@[i as int] == k);
                return true;
            }
            i = i + 1;
        }
        false
    }

    /// The set with a key added.
    pub fn insert(self, k: PressedKey) -> (r: KeySet)
        ensures
            forall|other: PressedKey| #[trigger] r.has(other) <==> other == k || self.has(other),
    {
        proof {
            use_type_invariant(&self);
            crate::sets::lemma_contains_push(self.keys@, k);
        }
        if self.contains(k) {
            return self;
        }
        let mut keys = self.keys;
        keys.push(k);
        assert(keys@.no_duplicates());
        KeySet { keys }
    }

    /// Lists the keys, each once.
    pub fn to_vec(&self) -> (r: Vec<PressedKey>)
        ensures
            r@ == self@,
            r@.no_duplicates(),
    {
        proof {
            use_type_invariant(self);
        }
        let mut r: Vec<PressedKey> = Vec::new();
        let mut i: usize = 0;
        while i < self.keys.len()
            invariant
                i <= self.keys.len(),
                r@ == self.keys@.take(i as int),
            decreases self.keys.len() - i,
        {
            r.push(self.keys[i]);
            i = i + 1;
            assert(r@ =~= self.keys@.take(i as int));
        }
        assert(self.keys@.take(i as int) =~= self.keys@);
        r
    }

    /// Lists the keys of this set that the other lacks, each once.
    pub fn difference(&self, other: &KeySet) -> (r: Vec<PressedKey>)
        ensures
            r@ == missing_from(self@, other@),
            r@.no_duplicates(),
            forall|k: PressedKey| #[trigger] r@.contains(k) <==> self.has(k) && !other.has(k),
    {
        proof {
            use_type_invariant(self);
        }
        let mut r: Vec<PressedKey> = Vec::new();
        let mut i: usize = 0;
        while i < self.keys.len()
            invariant
                i <= self.keys.len(),
                r@ == missing_from(self.keys@.take(i as int), other@),
            decreases self.keys.len() - i,
        {
            let ghost before = self.keys@.take(i as int);
            proof {
                assert(self.keys@.take(i + 1) =~= before.push(self.keys@[i as int]));
                crate::sets::lemma_filter_push(
                    before,
                    self.keys@[i as int],
                    |k: PressedKey| !other@.contains(k),
                );
            }
            if !other.contains(self.keys[i]) {
                r.push(self.keys[i]);
            }
            i = i + 1;
        }
        proof {
            assert(self.keys@.take(i as int) =~= self.keys@);
            crate::sets::lemma_filter_members(self.keys@, |k: PressedKey| !other@.contains(k));
        }
        r
    }
}

/// The keys of the first list that the second lacks, in order.
pub open spec fn missing_from(keys: Seq<PressedKey>, other: Seq<PressedKey>) -> Seq<PressedKey> {
    keys.filter(|k: PressedKey| !other.contains(k))
}

/// What was held down in the previous report.
#[derive(Debug)]
pub struct KbmState {
    pub prev_pressed: KeySet,
}

impl Default for KbmState {
    fn default() -> (r: Self)
        ensures
            r.prev_pressed@ == Seq::<PressedKey>::empty(),
    {
        KbmState { prev_pressed: KeySet::new() }
    }
}

/// Everything that one report holds down, and how far it moves the cursor.
#[derive(Debug)]
pub struct KbmFrame {
    pub held: KeySet,
    pub mouse_dx: i32,
    pub mouse_dy: i32,
}

/// How many inputs can hold something down.
pub const KBM_INPUTS: usize = 26;

/// One direction of a stick: up, down, left and right, in this order. A stick
/// that moves the cursor holds nothing down.
pub open spec fn stick_target(mode: StickKbmMode, direction: int) -> KbmTarget {
    match mode {
        StickKbmMode::Mouse { .. } => KbmTarget::Unmapped,
        StickKbmMode::Digital { up, down, left, right, .. } => if direction == 0 {
            up
        } else if direction == 1 {
            down
        } else if direction == 2 {
            left
        } else {
            right
        },
    }
}

/// Whether a stick at (x, y) leans far enough in a direction.
pub open spec fn stick_leans(mode: StickKbmMode, x: u8, y: u8, direction: int) -> bool {
    match mode {
        StickKbmMode::Mouse { .. } => false,
        StickKbmMode::Digital { threshold, .. } => if direction == 0 {
            128 - y >= threshold
        } else if direction == 1 {
            y - 128 >= threshold
        } else if direction == 2 {
            128 - x >= threshold
        } else {
            x - 128 >= threshold
        },
    }
}

/// The target of an input: the buttons, the triggers, the d-pad directions and
/// the directions of both sticks.
pub open spec fn input_target(cfg: KbmConfig, i: usize) -> KbmTarget {
    match i {
        0 => cfg.cross,
        1 => cfg.circle,
        2 => cfg.triangle,
        3 => cfg.square,
        4 => cfg.l1,
        5 => cfg.r1,
        6 => cfg.l3,
        7 => cfg.r3,
        8 => cfg.share,
        9 => cfg.options,
        10 => cfg.ps,
        11 => cfg.touchpad_click,
        12 => cfg.l2,
        13 => cfg.r2,
        14 => cfg.dpad_up,
        15 => cfg.dpad_down,
        16 => cfg.dpad_left,
        17 => cfg.dpad_right,
        18 => stick_target(cfg.left_stick, 0),
        19 => stick_target(cfg.left_stick, 1),
        20 => stick_target(cfg.left_stick, 2),
        21 => stick_target(cfg.left_stick, 3),
        22 => stick_target(cfg.right_stick, 0),
        23 => stick_target(cfg.right_stick, 1),
        24 => stick_target(cfg.right_stick, 2),
        _ => stick_target(cfg.right_stick, 3),
    }
}

/// Whether an input is active in a report.
pub open spec fn input_active(state: PadState, cfg: KbmConfig, i: usize) -> bool {
    match i {
        0 => state.cross,
        1 => state.circle,
        2 => state.triangle,
        3 => state.square,
        4 => state.l1,
        5 => state.r1,
        6 => state.l3,
        7 => state.r3,
        8 => state.share,
        9 => state.options,
        10 => state.ps,
        11 => state.touchpad_click,
        12 => state.l2_analog > cfg.trigger_threshold,
        13 => state.r2_analog > cfg.trigger_threshold,
        14 => crate::ds4_input::dpad_up(state.dpad),
        15 => crate::ds4_input::dpad_down(state.dpad),
        16 => crate::ds4_input::dpad_left(state.dpad),
        17 => crate::ds4_input::dpad_right(state.dpad),
        18 => stick_leans(cfg.left_stick, state.lx, state.ly, 0),
        19 => stick_leans(cfg.left_stick, state.lx, state.ly, 1),
        20 => stick_leans(cfg.left_stick, state.lx, state.ly, 2),
        21 => stick_leans(cfg.left_stick, state.lx, state.ly, 3),
        22 => stick_leans(cfg.right_stick, state.rx, state.ry, 0),
        23 => stick_leans(cfg.right_stick, state.rx, state.ry, 1),
        24 => stick_leans(cfg.right_stick, state.rx, state.ry, 2),
        _ => stick_leans(cfg.right_stick, state.rx, state.ry, 3),
    }
}

/// Whether a report holds a key down: some active input does.
pub open spec fn wanted(state: PadState, cfg: KbmConfig, k: PressedKey) -> bool {
    exists|i: usize|
        #![trigger input_target(cfg, i)]
        i < KBM_INPUTS && input_active(state, cfg, i) && input_target(cfg, i).holds(k)
}

/// Whether some input of the configuration can hold a key down.
pub open spec fn mapped(cfg: KbmConfig, k: PressedKey) -> bool {
    exists|i: usize| i < KBM_INPUTS && (#[trigger] input_target(cfg, i)).holds(k)
}

/// Whether a stick byte lies in the dead zone, where a stick at rest wobbles.
pub open spec fn in_dead_zone(byte: u8) -> bool {
    -10 <= byte - 128 <= 10
}

/// The cursor counts that a stick adds along one axis: none in the dead zone,
/// else what the table says for the displacement.
pub open spec fn stick_counts(mode: StickKbmMode, byte: u8) -> int {
    match mode {
        StickKbmMode::Mouse { counts } => if in_dead_zone(byte) {
            0
        } else {
            counts@[byte as int] as int
        },
        StickKbmMode::Digital { .. } => 0,
    }
}

/// How far a report moves the cursor along (x, y).
pub open spec fn cursor_counts(state: PadState, cfg: KbmConfig) -> (int, int) {
    (
        stick_counts(cfg.left_stick, state.lx) + stick_counts(cfg.right_stick, state.rx),
        stick_counts(cfg.left_stick, state.ly) + stick_counts(cfg.right_stick, state.ry),
    )
}

/// Whether the counts of both sticks add up to numbers that fit.
pub open spec fn counts_fit(state: PadState, cfg: KbmConfig) -> bool {
    &&& i32::MIN <= cursor_counts(state, cfg).0 <= i32::MAX
    &&& i32::MIN <= cursor_counts(state, cfg).1 <= i32::MAX
}

fn stick_target_at(mode: &StickKbmMode, direction: u8) -> (r: KbmTarget)
    ensures
        r == stick_target(*mode, direction as int),
{
    match mode {
        StickKbmMode::Mouse { .. } => KbmTarget::Unmapped,
        StickKbmMode::Digital { up, down, left, right, .. } => match direction {
            0 => *up,
            1 => *down,
            2 => *left,
            _ => *right,
        },
    }
}

fn stick_leans_at(mode: &StickKbmMode, x: u8, y: u8, direction: u8) -> (r: bool)
    ensures
        r == stick_leans(*mode, x, y, direction as int),
{
    match mode {
        StickKbmMode::Mouse { .. } => false,
        StickKbmMode::Digital { threshold, .. } => match direction {
            0 => 128 - y as i16 >= *threshold,
            1 => y as i16 - 128 >= *threshold,
            2 => 128 - x as i16 >= *threshold,
            _ => x as i16 - 128 >= *threshold,
        },
    }
}

fn target_at(cfg: &KbmConfig, i: usize) -> (r: KbmTarget)
    requires
        i < KBM_INPUTS,
    ensures
        r == input_target(*cfg, i),
{
    match i {
        0 => cfg.cross,
        1 => cfg.circle,
        2 => cfg.triangle,
        3 => cfg.square,
        4 => cfg.l1,
        5 => cfg.r1,
        6 => cfg.l3,
        7 => cfg.r3,
        8 => cfg.share,
        9 => cfg.options,
        10 => cfg.ps,
        11 => cfg.touchpad_click,
        12 => cfg.l2,
        13 => cfg.r2,
        14 => cfg.dpad_up,
        15 => cfg.dpad_down,
        16 => cfg.dpad_left,
        17 => cfg.dpad_right,
        18 => stick_target_at(&cfg.left_stick, 0),
        19 => stick_target_at(&cfg.left_stick, 1),
        20 => stick_target_at(&cfg.left_stick, 2),
        21 => stick_target_at(&cfg.left_stick, 3),
        22 => stick_target_at(&cfg.right_stick, 0),
        23 => stick_target_at(&cfg.right_stick, 1),
        24 => stick_target_at(&cfg.right_stick, 2),
        _ => stick_target_at(&cfg.right_stick, 3),
    }
}

fn active_at(state: &PadState, cfg: &KbmConfig, i: usize) -> (r: bool)
    requires
        i < KBM_INPUTS,
    ensures
        r == input_active(*state, *cfg, i),
{
    match i {
        0 => state.cross,
        1 => state.circle,
        2 => state.triangle,
        3 => state.square,
        4 => state.l1,
        5 => state.r1,
        6 => state.l3,
        7 => state.r3,
        8 => state.share,
        9 => state.options,
        10 => state.ps,
        11 => state.touchpad_click,
        12 => state.l2_analog > cfg.trigger_threshold,
        13 => state.r2_analog > cfg.trigger_threshold,
        14 => state.dpad_directions().0,
        15 => state.dpad_directions().1,
        16 => state.dpad_directions().2,
        17 => state.dpad_directions().3,
        18 => stick_leans_at(&cfg.left_stick, state.lx, state.ly, 0),
        19 => stick_leans_at(&cfg.left_stick, state.lx, state.ly, 1),
        20 => stick_leans_at(&cfg.left_stick, state.lx, state.ly, 2),
        21 => stick_leans_at(&cfg.left_stick, state.lx, state.ly, 3),
        22 => stick_leans_at(&cfg.right_stick, state.rx, state.ry, 0),
        23 => stick_leans_at(&cfg.right_stick, state.rx, state.ry, 1),
        24 => stick_leans_at(&cfg.right_stick, state.rx, state.ry, 2),
        _ => stick_leans_at(&cfg.right_stick, state.rx, state.ry, 3),
    }
}

/// Adds everything that a target holds down.
fn add_target(held: KeySet, target: KbmTarget) -> (r: KeySet)
    ensures
        forall|k: PressedKey| #[trigger] r.has(k) <==> held.has(k) || target.holds(k),
{
    let keys = target.to_pressed_keys();
    let ghost start = held;
    let mut held = held;
    let mut i: usize = 0;
    while i < keys.len()
        invariant
            i <= keys.len(),
            forall|k: PressedKey| #[trigger]
                held.has(k) <==> start.has(k) || keys@.take(i as int).contains(k),
        decreases keys.len() - i,
    {
        proof {
            assert(keys@.take(i + 1) =~= keys@.take(i as int).push(keys@[i as int]));
            crate::sets::lemma_contains_push(keys@.take(i as int), keys@[i as int]);
        }
        held = held.insert(keys[i]);
        i = i + 1;
    }
    assert(keys@.take(i as int) =~= keys@);
    assert(forall|k: PressedKey| #[trigger] held.has(k) ==> (start.has(k) || keys@.contains(k)));
    assert(forall|k: PressedKey| #[trigger] keys@.contains(k) <==> target.holds(k));
    assert forall|k: PressedKey| #[trigger] held.has(k) <==> start.has(k) || target.holds(k) by {
        assert(keys@.contains(k) <==> target.holds(k));
    }
    held
}

/// The cursor counts that a stick adds along one axis.
fn counts_at(mode: &StickKbmMode, byte: u8) -> (r: i32)
    ensures
        r == stick_counts(*mode, byte),
{
    match mode {
        StickKbmMode::Mouse { counts } => {
            if 118 <= byte && byte <= 138 {
                0
            } else {
                counts[byte as usize]
            }
        },
        StickKbmMode::Digital { .. } => 0,
    }
}

/// Whether the cursor counts of a report fit, which `compute_frame` needs.
pub fn counts_fit_in_frame(state: &PadState, cfg: &KbmConfig) -> (r: bool)
    ensures
        r == counts_fit(*state, *cfg),
{
    let dx: i64 = counts_at(&cfg.left_stick, state.lx) as i64 + counts_at(
        &cfg.right_stick,
        state.rx,
    ) as i64;
    let dy: i64 = counts_at(&cfg.left_stick, state.ly) as i64 + counts_at(
        &cfg.right_stick,
        state.ry,
    ) as i64;
    i32::MIN as i64 <= dx && dx <= i32::MAX as i64 && i32::MIN as i64 <= dy && dy <= i32::MAX as i64
}

/// Computes everything that a report holds down. The previous frame plays no
/// part in it and stays as it is.
pub fn compute_frame(state: &PadState, cfg: &KbmConfig, _kbm_state: &mut KbmState) -> (r: KbmFrame)
    requires
        counts_fit(*state, *cfg),
    ensures
        forall|k: PressedKey| #[trigger] r.held.has(k) <==> wanted(*state, *cfg, k),
        (r.mouse_dx as int, r.mouse_dy as int) == cursor_counts(*state, *cfg),
        *final(_kbm_state) == *old(_kbm_state),
{
    let mut held = KeySet::new();
    let mut i: usize = 0;
    while i < KBM_INPUTS
        invariant
            i <= KBM_INPUTS,
            forall|k: PressedKey| #[trigger]
                held.has(k) <==> exists|n: usize|
                    #![trigger input_target(*cfg, n)]
                    n < i && input_active(*state, *cfg, n) && input_target(*cfg, n).holds(k),
        decreases KBM_INPUTS - i,
    {
        let ghost before = held;
        let target = target_at(cfg, i);
        if active_at(state, cfg, i) {
            held = add_target(held, target);
        }
        proof {
            assert forall|k: PressedKey| #[trigger] held.has(k) implies exists|n: usize|
                #![trigger input_target(*cfg, n)]
                n < i + 1 && input_active(*state, *cfg, n) && input_target(*cfg, n).holds(k) by {
                if before.has(k) {
                    let n = choose|n: usize|
                        #![trigger input_target(*cfg, n)]
                        n < i && input_active(*state, *cfg, n) && input_target(*cfg, n).holds(k);
                    assert(input_target(*cfg, n).holds(k));
                } else {
                    assert(input_target(*cfg, i).holds(k));
                }
            }
        }
        i = i + 1;
    }
    let mouse_dx: i32 = counts_at(&cfg.left_stick, state.lx) + counts_at(
        &cfg.right_stick,
        state.rx,
    );
    let mouse_dy: i32 = counts_at(&cfg.left_stick, state.ly) + counts_at(
        &cfg.right_stick,
        state.ry,
    );
    KbmFrame { held, mouse_dx, mouse_dy }
}

/// The event code of a held key.
pub open spec fn code_of(k: PressedKey) -> u16 {
    match k {
        PressedKey::Key(code) => code,
        PressedKey::MouseLeft => BTN_LEFT,
        PressedKey::MouseRight => BTN_RIGHT,
    }
}

fn key_code(k: PressedKey) -> (r: u16)
    ensures
        r == code_of(k),
{
    match k {
        PressedKey::Key(code) => code,
        PressedKey::MouseLeft => BTN_LEFT,
        PressedKey::MouseRight => BTN_RIGHT,
    }
}

/// The events of some keys all going down or all going up.
pub open spec fn key_events(keys: Seq<PressedKey>, pressed: bool) -> Seq<InputEvent> {
    keys.map_values(|k: PressedKey| crate::uinput::key(code_of(k), pressed))
}

/// The events of a cursor motion. An axis that does not move has none.
pub open spec fn cursor_events(dx: i32, dy: i32) -> Seq<InputEvent> {
    (if dx == 0 {
        Seq::empty()
    } else {
        seq![crate::uinput::rel(REL_X, dx)]
    }) + (if dy == 0 {
        Seq::empty()
    } else {
        seq![crate::uinput::rel(REL_Y, dy)]
    })
}

/// The events that lead from the previous frame to this one: what is newly
/// held goes down, what is no longer held goes up, then the cursor moves.
pub open spec fn frame_events(prev: Seq<PressedKey>, frame: KbmFrame) -> Seq<InputEvent> {
    key_events(missing_from(frame.held@, prev), true) + key_events(
        missing_from(prev, frame.held@),
        false,
    ) + cursor_events(frame.mouse_dx, frame.mouse_dy) + seq![crate::uinput::syn()]
}

/// Appends the events of some keys all going down or all going up.
fn emit_pressed_keys(out: Vec<InputEvent>, keys: &Vec<PressedKey>, pressed: bool) -> (r: Vec<
    InputEvent,
>)
    ensures
        r@ == out@ + key_events(keys@, pressed),
{
    let ghost start = out@;
    let ghost all = key_events(keys@, pressed);
    let mut out = out;
    let mut i: usize = 0;
    while i < keys.len()
        invariant
            i <= keys.len(),
            all == key_events(keys@, pressed),
            out@ == start + all.take(i as int),
        decreases keys.len() - i,
    {
        out.push(key_event(key_code(keys[i]), pressed));
        i = i + 1;
        assert(all.take(i as int) =~= all.take(i - 1).push(all[i - 1]));
    }
    assert(all.take(i as int) =~= all);
    out
}

/// Lists the events of a frame. Only changes are sent, not the whole frame.
pub fn apply_kbm_frame(state: &KbmState, frame: &KbmFrame) -> (r: Vec<InputEvent>)
    ensures
        r@ == frame_events(state.prev_pressed@, *frame),
{
    let pressed = frame.held.difference(&state.prev_pressed);
    let released = state.prev_pressed.difference(&frame.held);
    let mut r: Vec<InputEvent> = emit_pressed_keys(Vec::new(), &pressed, true);
    r = emit_pressed_keys(r, &released, false);
    if frame.mouse_dx != 0 {
        r.push(rel_event(REL_X, frame.mouse_dx));
    }
    if frame.mouse_dy != 0 {
        r.push(rel_event(REL_Y, frame.mouse_dy));
    }
    r.push(sync_event());
    r
}

/// Remembers a frame whose events have all been sent.
pub fn frame_sent(state: &mut KbmState, frame: KbmFrame)
    ensures
        final(state).prev_pressed@ == frame.held@,
{
    *state = KbmState { prev_pressed: frame.held };
}

fn insert_code(codes: Vec<u16>, code: u16) -> (r: Vec<u16>)
    requires
        codes@.no_duplicates(),
    ensures
        r@.no_duplicates(),
        forall|c: u16| #[trigger] r@.contains(c) <==> c == code || codes@.contains(c),
{
    proof {
        crate::sets::lemma_contains_push(codes@, code);
    }
    let mut i: usize = 0;
    while i < codes.len()
        invariant
            i <= codes.len(),
            codes@.no_duplicates(),
            forall|n: int| 0 <= n < i ==> #[trigger] codes@[n] != code,
        decreases codes.len() - i,
    {
        if codes[i] == code {
            assert(codes@[i as int] == code);
            return codes;
        }
        i = i + 1;
    }
    let mut codes = codes;
    codes.push(code);
    codes
}

/// Adds the keyboard codes that a target holds down.
fn add_codes(codes: Vec<u16>, target: KbmTarget) -> (r: Vec<u16>)
    requires
        codes@.no_duplicates(),
    ensures
        r@.no_duplicates(),
        forall|c: u16| #[trigger]
            r@.contains(c) <==> codes@.contains(c) || target.holds(PressedKey::Key(c)),
{
    let keys = target.to_pressed_keys();
    let ghost start = codes@;
    let mut codes = codes;
    let mut i: usize = 0;
    while i < keys.len()
        invariant
            i <= keys.len(),
            codes@.no_duplicates(),
            forall|c: u16| #[trigger]
                codes@.contains(c) <==> start.contains(c) || keys@.take(i as int).contains(
                    PressedKey::Key(c),
                ),
        decreases keys.len() - i,
    {
        proof {
            assert(keys@.take(i + 1) =~= keys@.take(i as int).push(keys@[i as int]));
            crate::sets::lemma_contains_push(keys@.take(i as int), keys@[i as int]);
        }
        if let PressedKey::Key(code) = keys[i] {
            codes = insert_code(codes, code);
        }
        i = i + 1;
    }
    assert(keys@.take(i as int) =~= keys@);
    assert forall|c: u16| #[trigger] codes@.contains(c) <==> start.contains(c) || target.holds(
        PressedKey::Key(c),
    ) by {
        assert(keys@.contains(PressedKey::Key(c)) <==> target.holds(PressedKey::Key(c)));
    }
    codes
}

/// Lists every keyboard code that a configuration can hold down, each once, so
/// that the device declares what it needs and no more.
pub fn collect_mapped_keys(cfg: &KbmConfig) -> (r: Vec<u16>)
    ensures
        r@.no_duplicates(),
        forall|c: u16| #[trigger] r@.contains(c) <==> mapped(*cfg, PressedKey::Key(c)),
{
    let mut codes: Vec<u16> = Vec::new();
    let mut i: usize = 0;
    while i < KBM_INPUTS
        invariant
            i <= KBM_INPUTS,
            codes@.no_duplicates(),
            forall|c: u16| #[trigger]
                codes@.contains(c) <==> exists|n: usize|
                    n < i && (#[trigger] input_target(*cfg, n)).holds(PressedKey::Key(c)),
        decreases KBM_INPUTS - i,
    {
        let ghost before = codes@;
        codes = add_codes(codes, target_at(cfg, i));
        proof {
            assert forall|c: u16| #[trigger] codes@.contains(c) implies exists|n: usize|
                n < i + 1 && (#[trigger] input_target(*cfg, n)).holds(PressedKey::Key(c)) by {
                if before.contains(c) {
                    let n = choose|n: usize|
                        n < i && (#[trigger] input_target(*cfg, n)).holds(PressedKey::Key(c));
                    assert(input_target(*cfg, n).holds(PressedKey::Key(c)));
                } else {
                    assert(input_target(*cfg, i).holds(PressedKey::Key(c)));
                }
            }
        }
        i = i + 1;
    }
    codes
}

/// No report can hold down a key that the configuration does not map, so every
/// key event has a code that the device declares.
pub proof fn law_held_keys_are_mapped(state: PadState, cfg: KbmConfig, k: PressedKey)
    requires
        wanted(state, cfg, k),
    ensures
        mapped(cfg, k),
{
    let i = choose|i: usize|
        #![trigger input_target(cfg, i)]
        i < KBM_INPUTS && input_active(state, cfg, i) && input_target(cfg, i).holds(k);
    assert(input_target(cfg, i).holds(k));
}

/// The changes lead exactly from one frame to the next: what was held, with
/// the newly pressed keys added and the newly released ones taken away, is
/// what is held now.
pub proof fn law_changes_reach_frame(prev: Seq<PressedKey>, held: Seq<PressedKey>, k: PressedKey)
    ensures
        held.contains(k) <==> (prev.contains(k) || missing_from(held, prev).contains(k))
            && !missing_from(prev, held).contains(k),
{
    crate::sets::lemma_filter_members(held, |x: PressedKey| !prev.contains(x));
    crate::sets::lemma_filter_members(prev, |x: PressedKey| !held.contains(x));
}

/// A frame that holds what the previous one held sends no key event.
pub proof fn law_no_change_no_events(prev: Seq<PressedKey>, frame: KbmFrame)
    requires
        forall|k: PressedKey| prev.contains(k) <==> #[trigger] frame.held@.contains(k),
    ensures
        frame_events(prev, frame) == cursor_events(frame.mouse_dx, frame.mouse_dy)
            + seq![crate::uinput::syn()],
{
    let held = frame.held@;
    crate::sets::lemma_filter_members(held, |x: PressedKey| !prev.contains(x));
    crate::sets::lemma_filter_members(prev, |x: PressedKey| !held.contains(x));
    lemma_memberless(missing_from(held, prev));
    lemma_memberless(missing_from(prev, held));
}

proof fn lemma_memberless(s: Seq<PressedKey>)
    requires
        forall|k: PressedKey| !(#[trigger] s.contains(k)),
    ensures
        s == Seq::<PressedKey>::empty(),
{
    if s.len() > 0 {
        assert(s.contains(s[0]));
    }
}

/// A combination whose slots are all empty behaves as no target at all.
pub proof fn law_empty_combo_is_unmapped(keys: [Option<u16>; 4], k: PressedKey)
    requires
        forall|i: int| 0 <= i < 4 ==> #[trigger] keys@[i] is None,
    ensures
        KbmTarget::Combo(keys).holds(k) == KbmTarget::Unmapped.holds(k),
{
}

/// Sticks that rest in the dead zone never move the cursor, whatever their
/// tables say.
pub proof fn law_dead_zone_is_still(state: PadState, cfg: KbmConfig)
    requires
        in_dead_zone(state.lx) && in_dead_zone(state.ly),
        in_dead_zone(state.rx) && in_dead_zone(state.ry),
    ensures
        cursor_counts(state, cfg) == (0int, 0int),
        counts_fit(state, cfg),
{
}

} // verus!
