//! Lightbar and rumble: what a loaded profile sends, and the lightbar effects.
//!
//! Every report that rumbles also carries the lightbar colour. Controllers
//! apply the colour bytes whether or not the report says so, so a report that
//! left them at zero would turn the lightbar off.

use crate::ds4_input::OutputReport;
use crate::profile::{Ds4FeedbackConfig, LightbarColor};
use vstd::prelude::*;

verus! {

/// The report that sets the lightbar and leaves the motors alone.
pub open spec fn light(color: LightbarColor) -> OutputReport {
    OutputReport {
        led_red: color.red,
        led_green: color.green,
        led_blue: color.blue,
        set_led: true,
        ..OutputReport::silent()
    }
}

/// The report that sets both motors to a strength and keeps the lightbar.
pub open spec fn pulse(color: LightbarColor, strength: u8) -> OutputReport {
    OutputReport {
        rumble_weak: strength,
        rumble_strong: strength,
        set_rumble: true,
        ..light(color)
    }
}

/// Builds the report that sets the lightbar.
pub fn lightbar_report(color: LightbarColor) -> (r: OutputReport)
    ensures
        r == light(color),
{
    OutputReport {
        rumble_weak: 0,
        rumble_strong: 0,
        led_red: color.red,
        led_green: color.green,
        led_blue: color.blue,
        led_blink_on: 0,
        led_blink_off: 0,
        set_rumble: false,
        set_led: true,
    }
}

fn pulse_report(color: LightbarColor, strength: u8) -> (r: OutputReport)
    ensures
        r == pulse(color, strength),
{
    OutputReport {
        rumble_weak: strength,
        rumble_strong: strength,
        led_red: color.red,
        led_green: color.green,
        led_blue: color.blue,
        led_blink_on: 0,
        led_blink_off: 0,
        set_rumble: true,
        set_led: true,
    }
}

/// Strength of the rumble on loading.
pub const LOAD_RUMBLE_STRENGTH: u8 = 150;

/// Length of the rumble on loading, in milliseconds.
pub const LOAD_RUMBLE_MS: u64 = 250;

/// One step of the feedback on loading.
#[derive(Debug, Clone, Copy, PartialEq, Eq, Structural)]
pub enum FeedbackStep {
    Send(OutputReport),
    PauseMs(u64),
}

/// What loading a profile sends: the colour, then, if the profile asks for it,
/// a short rumble.
pub open spec fn load_feedback(feedback: Ds4FeedbackConfig) -> Seq<FeedbackStep> {
    let color = feedback.lightbar;
    if feedback.rumble_on_load {
        seq![
            FeedbackStep::Send(light(color)),
            FeedbackStep::Send(pulse(color, LOAD_RUMBLE_STRENGTH)),
            FeedbackStep::PauseMs(LOAD_RUMBLE_MS),
            FeedbackStep::Send(pulse(color, 0)),
        ]
    } else {
        seq![FeedbackStep::Send(light(color))]
    }
}

/// Lists what loading a profile sends.
pub fn apply_feedback(feedback: &Ds4FeedbackConfig) -> (r: Vec<FeedbackStep>)
    ensures
        r@ == load_feedback(*feedback),
{
    let color = feedback.lightbar;
    if feedback.rumble_on_load {
        vec![
            FeedbackStep::Send(lightbar_report(color)),
            FeedbackStep::Send(pulse_report(color, LOAD_RUMBLE_STRENGTH)),
            FeedbackStep::PauseMs(LOAD_RUMBLE_MS),
            FeedbackStep::Send(pulse_report(color, 0)),
        ]
    } else {
        vec![FeedbackStep::Send(lightbar_report(color))]
    }
}

/// Every report that loading a profile sends shows the profile's colour, so
/// the rumble never turns the lightbar off.
pub proof fn law_rumble_keeps_the_colour(feedback: Ds4FeedbackConfig, i: int)
    requires
        0 <= i < load_feedback(feedback).len(),
    ensures
        load_feedback(feedback)[i] matches FeedbackStep::Send(report) ==> {
            &&& report.set_led
            &&& report.led_red == feedback.lightbar.red
            &&& report.led_green == feedback.lightbar.green
            &&& report.led_blue == feedback.lightbar.blue
        },
{
}

/// Loading a profile leaves the motors off: the last report that touches them
/// stops them.
pub proof fn law_rumble_stops(feedback: Ds4FeedbackConfig)
    ensures
        load_feedback(feedback).last() matches FeedbackStep::Send(report) && report.rumble_weak == 0
            && report.rumble_strong == 0,
{
}

/// Battery level, in percent, at and below which the warning flashes.
pub const LOW_BATTERY_THRESHOLD_PERCENT: u8 = 20;

/// Time between two changes of the flashing warning, in nanoseconds.
pub const BATTERY_FLASH_INTERVAL_NS: u64 = 500_000_000;

/// Time between two colours of the rainbow, in nanoseconds.
pub const RAINBOW_UPDATE_INTERVAL_NS: u64 = 50_000_000;

/// What the lightbar effects remember between reports. Times are nanoseconds
/// on a clock that never goes back.
#[derive(Debug, Clone, Copy, PartialEq, Eq, Structural)]
pub struct LightbarEffectState {
    pub battery_flash_active: bool,
    pub battery_flash_on: bool,
    pub last_battery_toggle: Option<u64>,
    pub rainbow_active: bool,
    pub last_rainbow_update: Option<u64>,
}

impl LightbarEffectState {
    /// No effect has run yet.
    pub open spec fn idle() -> LightbarEffectState {
        LightbarEffectState {
            battery_flash_active: false,
            battery_flash_on: false,
            last_battery_toggle: None,
            rainbow_active: false,
            last_rainbow_update: None,
        }
    }
}

impl Default for LightbarEffectState {
    fn default() -> (r: Self)
        ensures
            r == LightbarEffectState::idle(),
    {
        LightbarEffectState {
            battery_flash_active: false,
            battery_flash_on: false,
            last_battery_toggle: None,
            rainbow_active: false,
            last_rainbow_update: None,
        }
    }
}

/// What the effects do in one report: first paint a fixed colour, then move the
/// rainbow on by the given time and paint where it is.
#[derive(Debug, Clone, Copy, PartialEq, Eq, Structural)]
pub struct EffectStep {
    pub paint: Option<LightbarColor>,
    pub rainbow: Option<u64>,
}

/// Time since an earlier moment, or none where there was no such moment.
pub open spec fn elapsed(last: Option<u64>, now: u64) -> int {
    match last {
        Some(t) => if now >= t {
            now - t
        } else {
            0
        },
        None => 0,
    }
}

/// Whether enough time has passed; the first time is always due.
pub open spec fn due(last: Option<u64>, now: u64, interval: u64) -> bool {
    last is None || elapsed(last, now) >= interval
}

/// Whether the battery warning is on.
pub open spec fn battery_warning(feedback: Ds4FeedbackConfig, percent: u8, charging: bool) -> bool {
    feedback.low_battery_flash && percent <= LOW_BATTERY_THRESHOLD_PERCENT && !charging
}

/// The warning's colour.
pub open spec fn warning_color(on: bool) -> LightbarColor {
    LightbarColor {
        red: if on {
            255
        } else {
            0
        },
        green: 0,
        blue: 0,
    }
}

/// A report during the warning: the rainbow stops, and the lightbar changes
/// between red and off whenever it is due.
pub open spec fn warned(s: LightbarEffectState, now: u64) -> (LightbarEffectState, EffectStep) {
    if due(s.last_battery_toggle, now, BATTERY_FLASH_INTERVAL_NS) {
        (
            LightbarEffectState {
                battery_flash_active: true,
                battery_flash_on: !s.battery_flash_on,
                last_battery_toggle: Some(now),
                rainbow_active: false,
                ..s
            },
            EffectStep { paint: Some(warning_color(!s.battery_flash_on)), rainbow: None },
        )
    } else {
        (
            LightbarEffectState { battery_flash_active: true, rainbow_active: false, ..s },
            EffectStep { paint: None, rainbow: None },
        )
    }
}

/// The state once a warning that was on has ended.
pub open spec fn warning_over(s: LightbarEffectState) -> LightbarEffectState {
    if s.battery_flash_active {
        LightbarEffectState {
            battery_flash_active: false,
            battery_flash_on: false,
            last_battery_toggle: None,
            ..s
        }
    } else {
        s
    }
}

/// A report without the warning: the end of a warning or of the rainbow paints
/// the profile's colour once, and the rainbow moves on whenever it is due.
pub open spec fn unwarned(s: LightbarEffectState, feedback: Ds4FeedbackConfig, now: u64) -> (
    LightbarEffectState,
    EffectStep,
) {
    let over = warning_over(s);
    let restore = if s.battery_flash_active {
        Some(feedback.lightbar)
    } else {
        None
    };
    if feedback.rainbow {
        if due(s.last_rainbow_update, now, RAINBOW_UPDATE_INTERVAL_NS) {
            (
                LightbarEffectState {
                    rainbow_active: true,
                    last_rainbow_update: Some(now),
                    ..over
                },
                EffectStep {
                    paint: restore,
                    rainbow: Some(elapsed(s.last_rainbow_update, now) as u64),
                },
            )
        } else {
            (
                LightbarEffectState { rainbow_active: true, ..over },
                EffectStep { paint: restore, rainbow: None },
            )
        }
    } else if s.rainbow_active {
        (
            LightbarEffectState { rainbow_active: false, last_rainbow_update: None, ..over },
            EffectStep { paint: Some(feedback.lightbar), rainbow: None },
        )
    } else {
        (over, EffectStep { paint: restore, rainbow: None })
    }
}

/// What the effects do in a report, and what they remember of it.
pub open spec fn effects(
    s: LightbarEffectState,
    feedback: Ds4FeedbackConfig,
    percent: u8,
    charging: bool,
    now: u64,
) -> (LightbarEffectState, EffectStep) {
    if battery_warning(feedback, percent, charging) {
        warned(s, now)
    } else {
        unwarned(s, feedback, now)
    }
}

fn since(last: Option<u64>, now: u64) -> (r: u64)
    ensures
        r == elapsed(last, now),
{
    match last {
        Some(t) => if now >= t {
            now - t
        } else {
            0
        },
        None => 0,
    }
}

fn is_due(last: Option<u64>, now: u64, interval: u64) -> (r: bool)
    ensures
        r == due(last, now, interval),
{
    last.is_none() || since(last, now) >= interval
}

/// Feeds one report to the lightbar effects. A low battery warning goes before
/// the rainbow.
pub fn update_lightbar_effects(
    state: &mut LightbarEffectState,
    feedback: &Ds4FeedbackConfig,
    battery_percent: u8,
    battery_charging: bool,
    now: u64,
) -> (r: EffectStep)
    ensures
        (*final(state), r) == effects(
            *old(state),
            *feedback,
            battery_percent,
            battery_charging,
            now,
        ),
{
    let low = feedback.low_battery_flash && battery_percent <= LOW_BATTERY_THRESHOLD_PERCENT
        && !battery_charging;
    if low {
        let mut paint: Option<LightbarColor> = None;
        state.rainbow_active = false;
        if is_due(state.last_battery_toggle, now, BATTERY_FLASH_INTERVAL_NS) {
            state.battery_flash_on = !state.battery_flash_on;
            state.last_battery_toggle = Some(now);
            paint = Some(
                if state.battery_flash_on {
                    LightbarColor { red: 255, green: 0, blue: 0 }
                } else {
                    LightbarColor { red: 0, green: 0, blue: 0 }
                },
            );
        }
        state.battery_flash_active = true;
        return EffectStep { paint, rainbow: None };
    }
    let mut paint: Option<LightbarColor> = None;
    if state.battery_flash_active {
        paint = Some(feedback.lightbar);
        state.battery_flash_active = false;
        state.battery_flash_on = false;
        state.last_battery_toggle = None;
    }
    let mut rainbow: Option<u64> = None;
    if feedback.rainbow {
        if is_due(state.last_rainbow_update, now, RAINBOW_UPDATE_INTERVAL_NS) {
            rainbow = Some(since(state.last_rainbow_update, now));
            state.last_rainbow_update = Some(now);
        }
        state.rainbow_active = true;
    } else if state.rainbow_active {
        paint = Some(feedback.lightbar);
        state.rainbow_active = false;
        state.last_rainbow_update = None;
    }
    EffectStep { paint, rainbow }
}

/// A low battery warning always goes before the rainbow.
pub proof fn law_warning_goes_first(
    s: LightbarEffectState,
    feedback: Ds4FeedbackConfig,
    percent: u8,
    charging: bool,
    now: u64,
)
    requires
        battery_warning(feedback, percent, charging),
    ensures
        effects(s, feedback, percent, charging, now).1.rainbow is None,
        !effects(s, feedback, percent, charging, now).0.rainbow_active,
{
}

/// The colour comes back exactly once: the first report after a warning paints
/// the profile's colour, and the next one paints nothing, as long as neither
/// effect is on.
pub proof fn law_colour_comes_back_once(
    s: LightbarEffectState,
    feedback: Ds4FeedbackConfig,
    percent: u8,
    charging: bool,
    t1: u64,
    t2: u64,
)
    requires
        s.battery_flash_active,
        !battery_warning(feedback, percent, charging),
        !feedback.rainbow,
    ensures
        ({
            let (s1, first) = effects(s, feedback, percent, charging, t1);
            let (s2, second) = effects(s1, feedback, percent, charging, t2);
            &&& first == (EffectStep { paint: Some(feedback.lightbar), rainbow: None })
            &&& second == (EffectStep { paint: None, rainbow: None })
            &&& s2 == s1
        }),
{
}

/// During a warning the lightbar changes no faster than the interval: a report
/// that comes sooner after a change leaves it alone.
pub proof fn law_flash_is_unhurried(
    s: LightbarEffectState,
    feedback: Ds4FeedbackConfig,
    percent: u8,
    charging: bool,
    t1: u64,
    t2: u64,
)
    requires
        battery_warning(feedback, percent, charging),
        effects(s, feedback, percent, charging, t1).1.paint is Some,
        t1 <= t2,
        t2 - t1 < BATTERY_FLASH_INTERVAL_NS,
    ensures
        effects(
            effects(s, feedback, percent, charging, t1).0,
            feedback,
            percent,
            charging,
            t2,
        ).1.paint is None,
{
}

/// Two changes of the warning show the two colours in turn.
pub proof fn law_flash_alternates(
    s: LightbarEffectState,
    feedback: Ds4FeedbackConfig,
    percent: u8,
    charging: bool,
    t1: u64,
    t2: u64,
)
    requires
        battery_warning(feedback, percent, charging),
        effects(s, feedback, percent, charging, t1).1.paint is Some,
        effects(
            effects(s, feedback, percent, charging, t1).0,
            feedback,
            percent,
            charging,
            t2,
        ).1.paint is Some,
    ensures
        ({
            let (s1, first) = effects(s, feedback, percent, charging, t1);
            let second = effects(s1, feedback, percent, charging, t2).1;
            first.paint->0.red + second.paint->0.red == 255
        }),
{
}

/// With both effects off and none to end, nothing is ever sent.
pub proof fn law_no_effect_sends_nothing(
    s: LightbarEffectState,
    feedback: Ds4FeedbackConfig,
    percent: u8,
    charging: bool,
    now: u64,
)
    requires
        !battery_warning(feedback, percent, charging),
        !feedback.rainbow,
        !s.battery_flash_active,
        !s.rainbow_active,
    ensures
        effects(s, feedback, percent, charging, now) == (
            s,
            EffectStep { paint: None, rainbow: None },
        ),
{
}

/// Loading a profile shows its colour first and leaves the motors alone meanwhile;
/// a rumble turns both motors on equally, lasts a quarter of a second and is
/// turned off again. Nothing blinks.
pub proof fn law_load_feedback_runs_its_course(feedback: Ds4FeedbackConfig)
    ensures
        ({
            let steps = load_feedback(feedback);
            &&& steps.len() == (if feedback.rumble_on_load {
                4int
            } else {
                1
            })
            &&& (steps[0] matches FeedbackStep::Send(first) && first.set_led && !first.set_rumble)
            &&& feedback.rumble_on_load ==> {
                &&& (steps[1] matches FeedbackStep::Send(on) && on.set_rumble && on.rumble_weak == 150
                    && on.rumble_strong == 150)
                &&& steps[2] == FeedbackStep::PauseMs(250)
                &&& (steps[3] matches FeedbackStep::Send(off) && off.set_rumble && off.rumble_weak
                    == 0 && off.rumble_strong == 0)
            }
            &&& forall|i: int|
                0 <= i < steps.len() ==> (#[trigger] steps[i] matches FeedbackStep::Send(r)
                    ==> r.led_blink_on == 0 && r.led_blink_off == 0)
        }),
{
}

/// A lightbar report shows the colour, each part in its own place, and does not
/// touch the motors.
pub proof fn law_light_shows_the_colour(color: LightbarColor)
    ensures
        ({
            let r = light(color);
            &&& (r.led_red, r.led_green, r.led_blue) == (color.red, color.green, color.blue)
            &&& r.set_led && !r.set_rumble
            &&& r.rumble_weak == 0 && r.rumble_strong == 0
            &&& r.led_blink_on == 0 && r.led_blink_off == 0
        }),
{
}

/// The warning is on exactly while the profile asks for it, the battery is at a
/// fifth or less and does not charge.
pub proof fn law_warning_means_a_low_battery(
    s: LightbarEffectState,
    feedback: Ds4FeedbackConfig,
    percent: u8,
    charging: bool,
    now: u64,
)
    ensures
        effects(s, feedback, percent, charging, now).0.battery_flash_active
            <==> feedback.low_battery_flash && 5 * percent <= 100 && !charging,
{
}

/// The warning starts red at once, whatever ran before it, and changes between
/// red and off half a second after each change and not sooner.
pub proof fn law_warning_flashes_red(
    s: LightbarEffectState,
    feedback: Ds4FeedbackConfig,
    percent: u8,
    charging: bool,
    t1: u64,
    t2: u64,
)
    requires
        feedback.low_battery_flash && percent <= 20 && !charging,
        !s.battery_flash_on && s.last_battery_toggle is None,
        t1 <= t2,
    ensures
        ({
            let (s1, first) = effects(s, feedback, percent, charging, t1);
            let second = effects(s1, feedback, percent, charging, t2).1;
            &&& first.paint == Some(LightbarColor { red: 255, green: 0, blue: 0 })
            &&& t2 - t1 >= 500_000_000 ==> second.paint == Some(
                LightbarColor { red: 0, green: 0, blue: 0 },
            )
            &&& t2 - t1 < 500_000_000 ==> second.paint is None
        }),
{
}

/// The rainbow loses no time: each step moves on by exactly what has passed since
/// the step before, which is at least a twentieth of a second, and the first step
/// starts it where it is.
pub proof fn law_rainbow_loses_no_time(
    s: LightbarEffectState,
    feedback: Ds4FeedbackConfig,
    percent: u8,
    charging: bool,
    t1: u64,
    t2: u64,
)
    requires
        feedback.rainbow,
        !feedback.low_battery_flash,
        s.last_rainbow_update is None,
        t1 <= t2,
    ensures
        ({
            let (s1, first) = effects(s, feedback, percent, charging, t1);
            let (s2, second) = effects(s1, feedback, percent, charging, t2);
            &&& first.rainbow == Some(0u64)
            &&& t2 - t1 >= 50_000_000 ==> second.rainbow == Some((t2 - t1) as u64)
                && s2.last_rainbow_update == Some(t2)
            &&& t2 - t1 < 50_000_000 ==> second.rainbow is None && s2.last_rainbow_update == Some(t1)
        }),
{
}

/// An effect that ends gives the profile's colour back, be it the warning or the
/// rainbow.
pub proof fn law_ended_effect_restores_the_colour(
    s: LightbarEffectState,
    feedback: Ds4FeedbackConfig,
    percent: u8,
    charging: bool,
    now: u64,
)
    requires
        !feedback.low_battery_flash || percent > 20 || charging,
        s.battery_flash_active || (s.rainbow_active && !feedback.rainbow),
    ensures
        effects(s, feedback, percent, charging, now).1.paint == Some(feedback.lightbar),
        !effects(s, feedback, percent, charging, now).0.battery_flash_active,
        effects(s, feedback, percent, charging, now).0.rainbow_active == feedback.rainbow,
{
}

/// A warning leaves the rainbow's clock alone, and a warning that is over leaves
/// nothing behind, so the next one starts red at once.
pub proof fn law_warning_leaves_nothing_behind(
    s: LightbarEffectState,
    feedback: Ds4FeedbackConfig,
    percent: u8,
    charging: bool,
    now: u64,
)
    ensures
        ({
            let after = effects(s, feedback, percent, charging, now).0;
            let warns = feedback.low_battery_flash && percent <= 20 && !charging;
            &&& warns ==> after.last_rainbow_update == s.last_rainbow_update
            &&& !warns && s.battery_flash_active ==> !after.battery_flash_on
                && after.last_battery_toggle is None
            &&& !warns && !feedback.rainbow && s.rainbow_active ==> after.last_rainbow_update is None
        }),
{
}

} // verus!
