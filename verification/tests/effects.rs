//! Lightbar and rumble.

use ds4l::ds4_input::OutputReport;
use ds4l::feedback::{
    apply_feedback, lightbar_report, update_lightbar_effects, EffectStep, FeedbackStep,
    LightbarEffectState,
};
use ds4l::profile::{Ds4FeedbackConfig, LightbarColor};

const BLUE: LightbarColor = LightbarColor { red: 0, green: 0, blue: 255 };
const RED: LightbarColor = LightbarColor { red: 255, green: 0, blue: 0 };
const OFF: LightbarColor = LightbarColor { red: 0, green: 0, blue: 0 };
const MS: u64 = 1_000_000;

fn warning() -> Ds4FeedbackConfig {
    Ds4FeedbackConfig { low_battery_flash: true, ..Ds4FeedbackConfig::default() }
}

fn rainbow() -> Ds4FeedbackConfig {
    Ds4FeedbackConfig { rainbow: true, ..Ds4FeedbackConfig::default() }
}

fn nothing() -> EffectStep {
    EffectStep { paint: None, rainbow: None }
}

#[test]
fn loading_shows_the_colour_and_rumbles() {
    let steps = apply_feedback(&Ds4FeedbackConfig::default());
    let light = OutputReport { led_blue: 255, set_led: true, ..OutputReport::default() };
    let on = OutputReport { rumble_weak: 150, rumble_strong: 150, set_rumble: true, ..light };
    let off = OutputReport { set_rumble: true, ..light };
    assert_eq!(
        steps,
        vec![
            FeedbackStep::Send(light),
            FeedbackStep::Send(on),
            FeedbackStep::PauseMs(250),
            FeedbackStep::Send(off),
        ]
    );
    assert_eq!(lightbar_report(BLUE), light);
}

#[test]
fn loading_without_rumble() {
    let quiet = Ds4FeedbackConfig { rumble_on_load: false, ..Ds4FeedbackConfig::default() };
    assert_eq!(apply_feedback(&quiet), vec![FeedbackStep::Send(lightbar_report(BLUE))]);
}

#[test]
fn no_effect_does_nothing() {
    let mut s = LightbarEffectState::default();
    let plain = Ds4FeedbackConfig::default();
    assert_eq!(update_lightbar_effects(&mut s, &plain, 5, false, 0), nothing());
    assert_eq!(s, LightbarEffectState::default());
}

#[test]
fn low_battery_flashes() {
    let mut s = LightbarEffectState::default();
    let cfg = warning();
    let paint = |c| EffectStep { paint: Some(c), rainbow: None };
    assert_eq!(update_lightbar_effects(&mut s, &cfg, 20, false, 10 * MS), paint(RED));
    assert_eq!(update_lightbar_effects(&mut s, &cfg, 20, false, 509 * MS), nothing());
    assert_eq!(update_lightbar_effects(&mut s, &cfg, 20, false, 510 * MS), paint(OFF));
    assert_eq!(update_lightbar_effects(&mut s, &cfg, 19, false, 1010 * MS), paint(RED));
    // Charging ends the warning and brings the colour back, once.
    assert_eq!(update_lightbar_effects(&mut s, &cfg, 19, true, 1011 * MS), paint(BLUE));
    assert_eq!(update_lightbar_effects(&mut s, &cfg, 19, true, 1012 * MS), nothing());
    // A new warning starts with red at once.
    assert_eq!(update_lightbar_effects(&mut s, &cfg, 1, false, 1013 * MS), paint(RED));
}

#[test]
fn a_full_battery_does_not_flash() {
    let mut s = LightbarEffectState::default();
    assert_eq!(update_lightbar_effects(&mut s, &warning(), 21, false, 0), nothing());
}

#[test]
fn rainbow_moves_on() {
    let mut s = LightbarEffectState::default();
    let cfg = rainbow();
    assert_eq!(
        update_lightbar_effects(&mut s, &cfg, 100, false, 7 * MS),
        EffectStep { paint: None, rainbow: Some(0) }
    );
    assert_eq!(update_lightbar_effects(&mut s, &cfg, 100, false, 56 * MS), nothing());
    assert_eq!(
        update_lightbar_effects(&mut s, &cfg, 100, false, 57 * MS),
        EffectStep { paint: None, rainbow: Some(50 * MS) }
    );
    let plain = Ds4FeedbackConfig::default();
    assert_eq!(
        update_lightbar_effects(&mut s, &plain, 100, false, 58 * MS),
        EffectStep { paint: Some(BLUE), rainbow: None }
    );
    assert_eq!(update_lightbar_effects(&mut s, &plain, 100, false, 59 * MS), nothing());
}

#[test]
fn the_warning_goes_before_the_rainbow() {
    let mut s = LightbarEffectState::default();
    let both = Ds4FeedbackConfig { low_battery_flash: true, rainbow: true, ..Ds4FeedbackConfig::default() };
    update_lightbar_effects(&mut s, &both, 100, false, 0);
    assert!(s.rainbow_active);
    assert_eq!(
        update_lightbar_effects(&mut s, &both, 10, false, 100 * MS),
        EffectStep { paint: Some(RED), rainbow: None }
    );
    assert!(!s.rainbow_active);
    assert_eq!(
        update_lightbar_effects(&mut s, &both, 90, false, 200 * MS),
        EffectStep { paint: Some(BLUE), rainbow: Some(200 * MS) }
    );
}
