//! Gyro activation and the circular stick range.
//!
//! The activation mode decides whether gyro motion may reach the stick at all.
//! The blend adds directional pushes to a stick position and keeps the result inside the
//! circle that a real stick can reach, so a diagonal is never faster than a
//! straight push.

use crate::ds4_input::PadState;
use vstd::prelude::*;

verus! {

/// When gyro motion contributes to the stick.
#[derive(Debug, Clone, Copy, PartialEq, Eq, Structural)]
pub enum GyroMode {
    AlwaysOn,
    /// Each press of the activation button flips between on and off.
    Toggle,
    /// On while the activation button is held.
    Hold,
    /// Never.
    Disabled,
}

/// The button that gates gyro in `Toggle` and `Hold` mode.
#[derive(Debug, Clone, Copy, PartialEq, Eq, Structural)]
pub enum GateButton {
    L1,
    R1,
    /// L2 pulled past the analog threshold.
    L2,
    /// R2 pulled past the analog threshold.
    R2,
    L2Digital,
    R2Digital,
    L3,
    R3,
    Cross,
    Circle,
    Square,
    Triangle,
    Share,
    Options,
    Ps,
    TouchpadClick,
}

/// Analog trigger value from which a trigger counts as held.
pub const GATE_PRESS_THRESHOLD: u8 = 128;

/// Centre of a stick axis in raw bytes.
pub const STICK_CENTER: u8 = 128;

/// Radius of the stick's circle in raw bytes.
pub const STICK_RADIUS: i32 = 127;

impl GateButton {
    /// Whether this button is down in the given state.
    pub open spec fn pressed_in(self, pad: PadState) -> bool {
        match self {
            GateButton::L1 => pad.l1,
            GateButton::R1 => pad.r1,
            GateButton::L2 => pad.l2_analog >= GATE_PRESS_THRESHOLD,
            GateButton::R2 => pad.r2_analog >= GATE_PRESS_THRESHOLD,
            GateButton::L2Digital => pad.l2_digital,
            GateButton::R2Digital => pad.r2_digital,
            GateButton::L3 => pad.l3,
            GateButton::R3 => pad.r3,
            GateButton::Cross => pad.cross,
            GateButton::Circle => pad.circle,
            GateButton::Square => pad.square,
            GateButton::Triangle => pad.triangle,
            GateButton::Share => pad.share,
            GateButton::Options => pad.options,
            GateButton::Ps => pad.ps,
            GateButton::TouchpadClick => pad.touchpad_click,
        }
    }

    /// Whether this button is down in the given state.
    pub fn is_pressed(self, pad: &PadState) -> (r: bool)
        ensures
            r == self.pressed_in(*pad),
    {
        match self {
            GateButton::L1 => pad.l1,
            GateButton::R1 => pad.r1,
            GateButton::L2 => pad.l2_analog >= GATE_PRESS_THRESHOLD,
            GateButton::R2 => pad.r2_analog >= GATE_PRESS_THRESHOLD,
            GateButton::L2Digital => pad.l2_digital,
            GateButton::R2Digital => pad.r2_digital,
            GateButton::L3 => pad.l3,
            GateButton::R3 => pad.r3,
            GateButton::Cross => pad.cross,
            GateButton::Circle => pad.circle,
            GateButton::Square => pad.square,
            GateButton::Triangle => pad.triangle,
            GateButton::Share => pad.share,
            GateButton::Options => pad.options,
            GateButton::Ps => pad.ps,
            GateButton::TouchpadClick => pad.touchpad_click,
        }
    }
}

/// The activation part of the gyro settings. Sensitivity, smoothing and deadzone
/// scale the motion itself and live with the code that computes it.
#[derive(Debug, Clone, Copy, PartialEq, Eq, Structural)]
pub struct GyroStickConfig {
    pub mode: GyroMode,
    pub gate_button: GateButton,
}

impl Default for GyroStickConfig {
    fn default() -> (r: Self)
        ensures
            r == (GyroStickConfig { mode: GyroMode::Hold, gate_button: GateButton::L2 }),
    {
        GyroStickConfig { mode: GyroMode::Hold, gate_button: GateButton::L2 }
    }
}

/// What is remembered between reports.
#[derive(Debug, Clone, Copy, PartialEq, Eq, Structural)]
pub struct GyroStickState {
    pub toggle_active: bool,
    /// Whether the activation button was down in the previous report, so that a
    /// toggle flips on the press and not again while the button stays down.
    pub prev_gate_pressed: bool,
}

impl Default for GyroStickState {
    fn default() -> (r: Self)
        ensures
            r == (GyroStickState { toggle_active: false, prev_gate_pressed: false }),
    {
        GyroStickState { toggle_active: false, prev_gate_pressed: false }
    }
}

/// What is remembered after a report in which the button is `pressed`.
pub open spec fn gate_after(s: GyroStickState, mode: GyroMode, pressed: bool) -> GyroStickState {
    GyroStickState {
        toggle_active: if mode == GyroMode::Toggle && pressed && !s.prev_gate_pressed {
            !s.toggle_active
        } else {
            s.toggle_active
        },
        prev_gate_pressed: pressed,
    }
}

/// Whether gyro is on in a report, given what is remembered after it.
pub open spec fn gate_open(after: GyroStickState, mode: GyroMode) -> bool {
    match mode {
        GyroMode::AlwaysOn => true,
        GyroMode::Hold => after.prev_gate_pressed,
        GyroMode::Toggle => after.toggle_active,
        GyroMode::Disabled => false,
    }
}

/// Takes in one report and says whether gyro motion may contribute.
pub fn update_gate(state: &mut GyroStickState, cfg: &GyroStickConfig, pad: &PadState) -> (active:
    bool)
    ensures
        *final(state) == gate_after(*old(state), cfg.mode, cfg.gate_button.pressed_in(*pad)),
        active == gate_open(*final(state), cfg.mode),
{
    let pressed = cfg.gate_button.is_pressed(pad);
    let active = match cfg.mode {
        GyroMode::AlwaysOn => true,
        GyroMode::Hold => pressed,
        GyroMode::Toggle => {
            if pressed && !state.prev_gate_pressed {
                state.toggle_active = !state.toggle_active;
            }
            state.toggle_active
        },
        GyroMode::Disabled => false,
    };
    state.prev_gate_pressed = pressed;
    active
}

/// What is remembered after a run of reports.
pub open spec fn gate_run(s: GyroStickState, mode: GyroMode, presses: Seq<bool>) -> GyroStickState
    decreases presses.len(),
{
    if presses.len() == 0 {
        s
    } else {
        gate_after(gate_run(s, mode, presses.drop_last()), mode, presses.last())
    }
}

/// How many reports of a run show the button down after one that did not.
pub open spec fn rising_edges(before: bool, presses: Seq<bool>) -> nat
    decreases presses.len(),
{
    if presses.len() == 0 {
        0
    } else {
        let previous = if presses.len() == 1 {
            before
        } else {
            presses[presses.len() - 2]
        };
        rising_edges(before, presses.drop_last()) + (if presses.last() && !previous {
            1nat
        } else {
            0nat
        })
    }
}

/// Holding the activation button never re-toggles: after any run of reports the latch
/// has flipped exactly once per press.
pub proof fn law_toggle_counts_presses(s: GyroStickState, presses: Seq<bool>)
    ensures
        gate_run(s, GyroMode::Toggle, presses).toggle_active == (s.toggle_active != (rising_edges(
            s.prev_gate_pressed,
            presses,
        ) % 2 == 1)),
        gate_run(s, GyroMode::Toggle, presses).prev_gate_pressed == (if presses.len() == 0 {
            s.prev_gate_pressed
        } else {
            presses.last()
        }),
    decreases presses.len(),
{
    if presses.len() > 0 {
        law_toggle_counts_presses(s, presses.drop_last());
    }
}

/// Only `Toggle` mode touches the latch, so gyro in the other modes leaves no
/// trace beyond the last button sample.
pub proof fn law_latch_untouched(s: GyroStickState, mode: GyroMode, presses: Seq<bool>)
    requires
        mode != GyroMode::Toggle,
    ensures
        gate_run(s, mode, presses).toggle_active == s.toggle_active,
    decreases presses.len(),
{
    if presses.len() > 0 {
        law_latch_untouched(s, mode, presses.drop_last());
    }
}

/// The largest `k` up to `limit` with `k - 1/2 <= 127 * a / sqrt(s)`, that is
/// `127 * a / sqrt(s)` rounded to the nearest integer and capped.
pub open spec fn rounded_share(a: int, s: int, limit: nat) -> int
    decreases limit,
{
    if limit == 0 {
        0
    } else if (2 * limit - 1) * (2 * limit - 1) * s <= (254 * a) * (254 * a) {
        limit as int
    } else {
        rounded_share(a, s, (limit - 1) as nat)
    }
}

/// One axis of the point `(n, other)` after pulling it back onto the circle of
/// radius 127 if it lies outside, rounded to whole steps; `s` is the squared
/// distance of the point from the centre.
pub open spec fn on_circle(n: int, s: int) -> int {
    if s <= 127 * 127 {
        n
    } else if n < 0 {
        -rounded_share(-n, s, 127)
    } else {
        rounded_share(n, s, 127)
    }
}

/// A stick byte's offset from the centre with `push` full deflections added.
pub open spec fn pushed(byte: u8, push: int) -> int {
    byte - 128 + 127 * push
}

/// Squared distance of a pushed position from the centre.
pub open spec fn reach(x: u8, y: u8, px: int, py: int) -> int {
    pushed(x, px) * pushed(x, px) + pushed(y, py) * pushed(y, py)
}

/// The stick bytes that result from adding pushes to a position.
pub open spec fn blended(x: u8, y: u8, px: int, py: int) -> (u8, u8) {
    let s = reach(x, y, px, py);
    ((128 + on_circle(pushed(x, px), s)) as u8, (128 + on_circle(pushed(y, py), s)) as u8)
}

proof fn lemma_rounded_share_range(a: int, s: int, limit: nat)
    ensures
        0 <= rounded_share(a, s, limit) <= limit,
    decreases limit,
{
    if limit > 0 {
        lemma_rounded_share_range(a, s, (limit - 1) as nat);
    }
}

proof fn lemma_square_bound(n: int, s: int, other: int)
    requires
        s == n * n + other * other,
        s <= 127 * 127,
    ensures
        -127 <= n <= 127,
{
    assert(n <= 127 && n >= -127) by (nonlinear_arith)
        requires
            n * n + other * other <= 127 * 127,
    ;
}

/// A blended position stays within 127 steps of the centre on each axis.
pub proof fn law_blend_in_range(x: u8, y: u8, px: int, py: int)
    ensures
        ({
            let s = reach(x, y, px, py);
            &&& -127 <= on_circle(pushed(x, px), s) <= 127
            &&& -127 <= on_circle(pushed(y, py), s) <= 127
        }),
{
    let s = reach(x, y, px, py);
    let nx = pushed(x, px);
    let ny = pushed(y, py);
    if s <= 127 * 127 {
        lemma_square_bound(nx, s, ny);
        lemma_square_bound(ny, s, nx);
    } else {
        lemma_rounded_share_range(-nx, s, 127);
        lemma_rounded_share_range(nx, s, 127);
        lemma_rounded_share_range(-ny, s, 127);
        lemma_rounded_share_range(ny, s, 127);
    }
}

/// Computes `rounded_share(a, s, 127)`.
fn share_of_radius(a: i128, s: i128) -> (k: i128)
    requires
        0 <= a <= 0x1_0000_0000_00,
        0 <= s <= 2 * 0x1_0000_0000_00 * 0x1_0000_0000_00,
    ensures
        k == rounded_share(a as int, s as int, 127),
{
    let mut k: i128 = 127;
    assert((254 * a) * (254 * a) <= 254 * 254 * 0x1_0000_0000_00 * 0x1_0000_0000_00)
        by (nonlinear_arith)
        requires
            0 <= a <= 0x1_0000_0000_00,
    ;
    assert(0 <= (254 * a) * (254 * a)) by (nonlinear_arith);
    let scaled: i128 = (254 * a) * (254 * a);
    while k > 0
        invariant
            0 <= k <= 127,
            0 <= s <= 2 * 0x1_0000_0000_00 * 0x1_0000_0000_00,
            scaled == (254 * a) * (254 * a),
            rounded_share(a as int, s as int, 127) == rounded_share(a as int, s as int, k as nat),
        decreases k,
    {
        let odd: i128 = 2 * k - 1;
        assert(1 <= odd * odd <= 253 * 253) by (nonlinear_arith)
            requires
                1 <= odd <= 253,
        ;
        let square: i128 = odd * odd;
        assert(0 <= square * s <= 253 * 253 * (2 * 0x1_0000_0000_00 * 0x1_0000_0000_00))
            by (nonlinear_arith)
            requires
                1 <= square <= 253 * 253,
                0 <= s <= 2 * 0x1_0000_0000_00 * 0x1_0000_0000_00,
        ;
        if square * s <= scaled {
            return k;
        }
        k = k - 1;
    }
    0
}

fn axis_on_circle(n: i128, s: i128) -> (r: i128)
    requires
        -0x1_0000_0000_00 <= n <= 0x1_0000_0000_00,
        0 <= s <= 2 * 0x1_0000_0000_00 * 0x1_0000_0000_00,
    ensures
        r == on_circle(n as int, s as int),
{
    if s <= 127 * 127 {
        n
    } else if n < 0 {
        proof {
            lemma_rounded_share_range(-n as int, s as int, 127);
        }
        -share_of_radius(-n, s)
    } else {
        share_of_radius(n, s)
    }
}

/// Adds `push_x` and `push_y` full deflections to a stick position and clamps
/// the sum to the stick's circle, not each axis on its own.
pub fn blend_and_clamp(real_x: u8, real_y: u8, push_x: i32, push_y: i32) -> (r: (u8, u8))
    ensures
        r == blended(real_x, real_y, push_x as int, push_y as int),
{
    let nx: i128 = real_x as i128 - 128 + 127 * push_x as i128;
    let ny: i128 = real_y as i128 - 128 + 127 * push_y as i128;
    assert(0 <= nx * nx <= 0x1_0000_0000_00 * 0x1_0000_0000_00) by (nonlinear_arith)
        requires
            -0x1_0000_0000_00 <= nx <= 0x1_0000_0000_00,
    ;
    assert(0 <= ny * ny <= 0x1_0000_0000_00 * 0x1_0000_0000_00) by (nonlinear_arith)
        requires
            -0x1_0000_0000_00 <= ny <= 0x1_0000_0000_00,
    ;
    let s: i128 = nx * nx + ny * ny;
    proof {
        law_blend_in_range(real_x, real_y, push_x as int, push_y as int);
    }
    let x: i128 = 128 + axis_on_circle(nx, s);
    let y: i128 = 128 + axis_on_circle(ny, s);
    (x as u8, y as u8)
}

/// The share of the radius is the nearest whole step: it lies within half a
/// step of `127 * a / sqrt(s)`, so a clamped stick sits on the circle up to
/// rounding and a diagonal is no faster than a straight push.
pub proof fn law_share_is_nearest(a: int, s: int)
    requires
        0 <= a,
        a * a <= s,
        0 < s,
    ensures
        ({
            let k = rounded_share(a, s, 127);
            &&& k == 0 || (2 * k - 1) * (2 * k - 1) * s <= (254 * a) * (254 * a)
            &&& (254 * a) * (254 * a) < (2 * k + 1) * (2 * k + 1) * s
        }),
{
    assert((254 * a) * (254 * a) < 255 * 255 * s) by (nonlinear_arith)
        requires
            a * a <= s,
            0 < s,
    ;
    lemma_share_nearest(a, s, 127);
}

proof fn lemma_share_nearest(a: int, s: int, limit: nat)
    requires
        (254 * a) * (254 * a) < (2 * limit + 1) * (2 * limit + 1) * s,
    ensures
        ({
            let k = rounded_share(a, s, limit);
            &&& k == 0 || (2 * k - 1) * (2 * k - 1) * s <= (254 * a) * (254 * a)
            &&& (254 * a) * (254 * a) < (2 * k + 1) * (2 * k + 1) * s
        }),
    decreases limit,
{
    if limit > 0 && (2 * limit - 1) * (2 * limit - 1) * s > (254 * a) * (254 * a) {
        let below = (limit - 1) as nat;
        assert(2 * below + 1 == 2 * limit - 1);
        lemma_share_nearest(a, s, below);
    }
}

proof fn lemma_share_self(a: int, s: int, limit: nat)
    requires
        0 <= a <= limit,
        s > 127 * 127,
    ensures
        (rounded_share(a, s, limit) == a) <==> (a == 0 || (2 * a - 1) * (2 * a - 1) * s <= (254 * a)
            * (254 * a)),
    decreases limit,
{
    if limit > a {
        let odd = 2 * limit - 1;
        assert(odd * odd * s > (254 * a) * (254 * a)) by (nonlinear_arith)
            requires
                odd >= 2 * a + 1,
                a >= 0,
                s > 127 * 127,
        ;
        lemma_share_self(a, s, (limit - 1) as nat);
    } else if limit > 0 {
        lemma_rounded_share_range(a, s, (limit - 1) as nat);
    }
}

/// Whether an axis offset survives the clamp: the position lies inside the
/// circle, or pulling it back onto the circle moves this axis by no more than
/// rounding takes back.
pub open spec fn kept_by_clamp(n: int, s: int) -> bool {
    ||| s <= 127 * 127
    ||| n == 0
    ||| n > 0 && n <= 127 && (2 * n - 1) * (2 * n - 1) * s <= (254 * n) * (254 * n)
    ||| n < 0 && n >= -127 && (2 * n + 1) * (2 * n + 1) * s <= (254 * n) * (254 * n)
}

/// A stick without pushes comes out as it went in on exactly those axes that
/// the clamp keeps; in particular everywhere inside the circle.
pub proof fn law_rest_position_kept(x: u8, y: u8)
    ensures
        ({
            let s = reach(x, y, 0, 0);
            &&& (blended(x, y, 0, 0).0 == x) <==> kept_by_clamp(pushed(x, 0), s)
            &&& (blended(x, y, 0, 0).1 == y) <==> kept_by_clamp(pushed(y, 0), s)
        }),
{
    let s = reach(x, y, 0, 0);
    law_blend_in_range(x, y, 0, 0);
    lemma_axis_kept(pushed(x, 0), s);
    lemma_axis_kept(pushed(y, 0), s);
}

proof fn lemma_axis_kept(n: int, s: int)
    requires
        -128 <= n <= 127,
    ensures
        (on_circle(n, s) == n) <==> kept_by_clamp(n, s),
{
    if s > 127 * 127 {
        if n == -128 {
            lemma_rounded_share_range(128, s, 127);
        } else if n < 0 {
            lemma_share_self(-n, s, 127);
            assert((2 * (-n) - 1) * (2 * (-n) - 1) == (2 * n + 1) * (2 * n + 1)) by (nonlinear_arith);
            assert((254 * (-n)) * (254 * (-n)) == (254 * n) * (254 * n)) by (nonlinear_arith);
        } else {
            lemma_share_self(n, s, 127);
        }
    }
}

/// Whether a stick byte is the offset `n` of a point at squared distance `s` after
/// pulling the point back onto the circle: inside the circle it stays, and outside
/// it keeps its sign and becomes the whole step nearest to `127 * n / sqrt(s)`.
pub open spec fn lands_on(byte: u8, n: int, s: int) -> bool {
    let r = byte - 128;
    if s <= 127 * 127 {
        r == n
    } else {
        &&& (n >= 0 ==> r >= 0) && (n <= 0 ==> r <= 0)
        &&& r > 0 ==> (2 * r - 1) * (2 * r - 1) * s <= (254 * n) * (254 * n)
        &&& r < 0 ==> (2 * r + 1) * (2 * r + 1) * s <= (254 * n) * (254 * n)
        &&& r >= 0 && n >= 0 ==> (254 * n) * (254 * n) < (2 * r + 1) * (2 * r + 1) * s
        &&& r <= 0 && n <= 0 ==> (254 * n) * (254 * n) < (2 * r - 1) * (2 * r - 1) * s
    }
}

/// A blended stick stands where the position and the pushes put it: the offsets
/// from the centre with 127 steps added for each push, pulled back onto the circle
/// of 127 steps where they leave it.
pub proof fn law_blend_lands_on_the_circle(x: u8, y: u8, px: int, py: int)
    ensures
        ({
            let nx = x - 128 + 127 * px;
            let ny = y - 128 + 127 * py;
            let s = nx * nx + ny * ny;
            &&& lands_on(blended(x, y, px, py).0, nx, s)
            &&& lands_on(blended(x, y, px, py).1, ny, s)
        }),
{
    law_blend_in_range(x, y, px, py);
    let nx = x - 128 + 127 * px;
    let ny = y - 128 + 127 * py;
    let s = nx * nx + ny * ny;
    assert(s == reach(x, y, px, py));
    assert(nx * nx <= s && ny * ny <= s) by (nonlinear_arith)
        requires
            s == nx * nx + ny * ny,
    ;
    if s > 127 * 127 {
        lemma_lands(nx, s);
        lemma_lands(ny, s);
    }
}

proof fn lemma_lands(n: int, s: int)
    requires
        n * n <= s,
        s > 127 * 127,
    ensures
        -127 <= on_circle(n, s) <= 127,
        lands_on((128 + on_circle(n, s)) as u8, n, s),
{
    let r = on_circle(n, s);
    if n < 0 {
        let a = -n;
        assert(a * a == n * n) by (nonlinear_arith)
            requires
                a == -n,
        ;
        assert((254 * a) * (254 * a) == (254 * n) * (254 * n)) by (nonlinear_arith)
            requires
                a == -n,
        ;
        lemma_rounded_share_range(a, s, 127);
        law_share_is_nearest(a, s);
        let k = rounded_share(a, s, 127);
        assert(r == -k);
        assert((2 * k - 1) * (2 * k - 1) == (2 * r + 1) * (2 * r + 1)) by (nonlinear_arith)
            requires
                r == -k,
        ;
        assert((2 * k + 1) * (2 * k + 1) == (2 * r - 1) * (2 * r - 1)) by (nonlinear_arith)
            requires
                r == -k,
        ;
    } else {
        lemma_rounded_share_range(n, s, 127);
        law_share_is_nearest(n, s);
        if n == 0 && r > 0 {
            assert((2 * r - 1) * (2 * r - 1) * s > 0) by (nonlinear_arith)
                requires
                    r > 0,
                    s > 0,
            ;
        }
        if n == 0 {
            assert((254 * n) * (254 * n) < (2 * r - 1) * (2 * r - 1) * s) by (nonlinear_arith)
                requires
                    n == 0,
                    r == 0,
                    s > 0,
            ;
        }
    }
}

/// Each activation button follows its own button of the pad; the two analog ones
/// follow the pull of their own trigger and count as down beyond half of its travel.
pub proof fn law_gate_button_follows_its_own(pad: PadState)
    ensures
        pad.l1 <==> GateButton::L1.pressed_in(pad),
        pad.r1 <==> GateButton::R1.pressed_in(pad),
        pad.l2_digital <==> GateButton::L2Digital.pressed_in(pad),
        pad.r2_digital <==> GateButton::R2Digital.pressed_in(pad),
        pad.l3 <==> GateButton::L3.pressed_in(pad),
        pad.r3 <==> GateButton::R3.pressed_in(pad),
        pad.cross <==> GateButton::Cross.pressed_in(pad),
        pad.circle <==> GateButton::Circle.pressed_in(pad),
        pad.square <==> GateButton::Square.pressed_in(pad),
        pad.triangle <==> GateButton::Triangle.pressed_in(pad),
        pad.share <==> GateButton::Share.pressed_in(pad),
        pad.options <==> GateButton::Options.pressed_in(pad),
        pad.ps <==> GateButton::Ps.pressed_in(pad),
        pad.touchpad_click <==> GateButton::TouchpadClick.pressed_in(pad),
        2 * pad.l2_analog > 255 <==> GateButton::L2.pressed_in(pad),
        2 * pad.r2_analog > 255 <==> GateButton::R2.pressed_in(pad),
{
}

/// A mode means what it says, after any run of reports: always on, on while the
/// button is down, on after an odd number of presses of a latch that was off, or
/// never.
pub proof fn law_mode_means_what_it_says(s: GyroStickState, mode: GyroMode, presses: Seq<bool>)
    requires
        presses.len() > 0,
        !s.toggle_active,
    ensures
        gate_open(gate_run(s, mode, presses), mode) <==> (match mode {
            GyroMode::AlwaysOn => true,
            GyroMode::Hold => presses.last(),
            GyroMode::Toggle => rising_edges(s.prev_gate_pressed, presses) % 2 == 1,
            GyroMode::Disabled => false,
        }),
{
    law_toggle_counts_presses(s, presses);
}

/// A press counts once, however long it is held: a run of reports with the button
/// down has one press in it if the button was up before, and none otherwise.
pub proof fn law_held_button_is_one_press(before: bool, presses: Seq<bool>)
    requires
        presses.len() > 0,
        forall|i: int| 0 <= i < presses.len() ==> #[trigger] presses[i],
    ensures
        rising_edges(before, presses) == (if before {
            0nat
        } else {
            1nat
        }),
    decreases presses.len(),
{
    assert(presses[presses.len() - 1]);
    if presses.len() > 1 {
        let rest = presses.drop_last();
        assert forall|i: int| 0 <= i < rest.len() implies #[trigger] rest[i] by {
            assert(presses[i]);
        }
        law_held_button_is_one_press(before, rest);
        assert(presses[presses.len() - 2]);
    } else {
        assert(rising_edges(before, presses.drop_last()) == 0);
    }
}

} // verus!
