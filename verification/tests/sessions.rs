//! A controller's session.

use ds4l::discovery::Connection;
use ds4l::gamepad_remap::{GamepadRemapConfig, GamepadTarget};
use ds4l::kbm::{KbmConfig, KbmTarget, KEY_W};
use ds4l::profile::{OutputMode, Profile};
use ds4l::session::{
    count_errors, creation_error, extra_keys, is_disconnected, needed_devices,
    passthrough_exclusions, sends_feedback, starting_profile, DeviceKind, Session, SwitchAction,
    SwitchEvent,
};
use ds4l::touchpad::{TouchpadConfig, TouchpadMode};

fn profile(name: &str) -> Profile {
    Profile::named(name)
}

#[test]
fn devices_that_a_profile_needs() {
    let (ds4, x360, mouse, absmouse) = (DeviceKind::Ds4, DeviceKind::X360, DeviceKind::Mouse, DeviceKind::AbsMouse);
    assert_eq!(needed_devices(OutputMode::Gamepad, TouchpadMode::Passthrough), vec![ds4]);
    assert_eq!(needed_devices(OutputMode::Gamepad, TouchpadMode::MouseRemap), vec![ds4, mouse]);
    assert_eq!(needed_devices(OutputMode::Xbox360, TouchpadMode::AbsoluteMouse), vec![x360, absmouse]);
    assert_eq!(needed_devices(OutputMode::Kbm, TouchpadMode::Disabled), vec![mouse]);
    assert_eq!(needed_devices(OutputMode::Kbm, TouchpadMode::AbsoluteMouse), vec![mouse, absmouse]);
    assert_eq!(needed_devices(OutputMode::Kbm, TouchpadMode::MouseRemap), vec![mouse]);
}

#[test]
fn keys_are_declared_for_keyboard_output_only() {
    let kbm = Profile { output_mode: OutputMode::Kbm, ..profile("K") };
    assert!(extra_keys(&kbm).contains(&KEY_W));
    assert_eq!(extra_keys(&profile("G")), Vec::<u16>::new());
    let bare = Profile {
        output_mode: OutputMode::Kbm,
        kbm: KbmConfig { cross: KbmTarget::Key(99), ..KbmConfig::default() },
        ..profile("K")
    };
    assert!(extra_keys(&bare).contains(&99));
}

#[test]
fn creation_errors() {
    assert_eq!(creation_error(DeviceKind::Ds4, "e"), "failed to create virtual DS4: e");
    assert_eq!(creation_error(DeviceKind::X360, "e"), "failed to create virtual Xbox 360 pad: e");
    assert_eq!(creation_error(DeviceKind::Mouse, "e"), "failed to create virtual mouse: e");
    assert_eq!(
        creation_error(DeviceKind::AbsMouse, "e"),
        "failed to create virtual absolute-position pointer: e"
    );
}

#[test]
fn siblings_that_stay_visible() {
    assert_eq!(passthrough_exclusions(TouchpadMode::Passthrough, true), vec![" Touchpad", " Motion Sensors"]);
    assert_eq!(passthrough_exclusions(TouchpadMode::Passthrough, false), vec![" Touchpad"]);
    assert_eq!(passthrough_exclusions(TouchpadMode::Disabled, true), vec![" Motion Sensors"]);
    assert_eq!(passthrough_exclusions(TouchpadMode::MouseRemap, false), Vec::<String>::new());
}

#[test]
fn feedback_over_bluetooth_is_opt_in() {
    assert!(sends_feedback(Connection::Usb, false));
    assert!(!sends_feedback(Connection::Bluetooth, false));
    assert!(sends_feedback(Connection::Bluetooth, true));
}

#[test]
fn a_session_starts() {
    let s = Session::start(profile("Racing"), Connection::Bluetooth, true);
    assert_eq!(s.live.profile.name, "Racing");
    assert_eq!(s.live.status.profile_name, "Racing");
    assert_eq!(s.live.status.output_mode, "Gamepad");
    assert_eq!(s.live.status.connection, "Bluetooth");
    assert!(s.live.status.hidden);
    assert_eq!((s.live.status.battery_percent, s.live.status.battery_charging), (0, false));
    assert!(s.pending.is_none());
}

#[test]
fn a_profile_that_cannot_be_loaded_is_replaced() {
    let fallback = starting_profile("Racing", Err("gone".to_string()));
    assert_eq!(fallback.name, "Racing");
    assert_eq!(fallback.gamepad_remap, GamepadRemapConfig::default());
    let custom = Profile {
        gamepad_remap: GamepadRemapConfig { cross: GamepadTarget::Unmapped, ..GamepadRemapConfig::default() },
        ..profile("Racing")
    };
    assert_eq!(starting_profile("Other", Ok(custom)).name, "Racing");
}

#[test]
fn a_switch_runs_to_its_end() {
    let mut s = Session::start(profile("Old"), Connection::Usb, false);
    s.note_battery(55, true);
    s.live.memory.gyro.toggle_active = true;
    let next = Profile {
        output_mode: OutputMode::Kbm,
        touchpad: TouchpadConfig { mode: TouchpadMode::Passthrough },
        hide_real_controller: true,
        gyro_passthrough: true,
        ..profile("New")
    };
    let loaded = SwitchEvent::Loaded { name: "New".to_string(), result: Ok(next) };
    match s.apply_profile_switch(loaded, Connection::Usb) {
        SwitchAction::CreateDevices(kinds) => assert_eq!(kinds, vec![DeviceKind::Mouse]),
        other => panic!("{:?}", other),
    }
    assert_eq!(s.live.profile.name, "Old");
    match s.apply_profile_switch(SwitchEvent::DevicesCreated(Ok(())), Connection::Usb) {
        SwitchAction::Rehide(suffixes) => assert_eq!(suffixes, vec![" Touchpad", " Motion Sensors"]),
        other => panic!("{:?}", other),
    }
    assert_eq!(s.live.status.profile_name, "Old");
    let last = s.apply_profile_switch(SwitchEvent::Hidden(true), Connection::Usb);
    assert!(matches!(last, SwitchAction::Done));
    assert_eq!(s.live.profile.name, "New");
    assert_eq!(s.live.status.profile_name, "New");
    assert_eq!(s.live.status.output_mode, "Kbm");
    assert!(s.live.status.hidden);
    assert_eq!((s.live.status.battery_percent, s.live.status.battery_charging), (55, true));
    assert!(!s.live.memory.gyro.toggle_active);
    assert!(s.pending.is_none());
}

#[test]
fn a_switch_without_hiding() {
    let mut s = Session::start(profile("Old"), Connection::Usb, true);
    let loaded = SwitchEvent::Loaded { name: "New".to_string(), result: Ok(profile("New")) };
    s.apply_profile_switch(loaded, Connection::Usb);
    let second = s.apply_profile_switch(SwitchEvent::DevicesCreated(Ok(())), Connection::Usb);
    assert!(matches!(second, SwitchAction::Unhide));
    s.apply_profile_switch(SwitchEvent::Hidden(false), Connection::Usb);
    assert!(!s.live.status.hidden);
}

#[test]
fn a_failed_load_changes_nothing() {
    let mut s = Session::start(profile("Old"), Connection::Usb, false);
    s.live.memory.gyro.toggle_active = true;
    let loaded = SwitchEvent::Loaded { name: "New".to_string(), result: Err("I/O error: x".to_string()) };
    match s.apply_profile_switch(loaded, Connection::Usb) {
        SwitchAction::Failed(e) => assert_eq!(e, "failed to load profile \"New\": I/O error: x"),
        other => panic!("{:?}", other),
    }
    assert_eq!(s.live.profile.name, "Old");
    assert!(s.live.memory.gyro.toggle_active);
    let stray = s.apply_profile_switch(SwitchEvent::Hidden(true), Connection::Usb);
    assert!(matches!(stray, SwitchAction::Ignored));
    assert!(!s.live.status.hidden);
}

#[test]
fn failed_devices_change_nothing() {
    let mut s = Session::start(profile("Old"), Connection::Usb, false);
    let loaded = SwitchEvent::Loaded { name: "New".to_string(), result: Ok(profile("New")) };
    s.apply_profile_switch(loaded, Connection::Usb);
    let failed = SwitchEvent::DevicesCreated(Err("failed to create virtual DS4: x".to_string()));
    match s.apply_profile_switch(failed, Connection::Usb) {
        SwitchAction::Failed(e) => assert_eq!(e, "failed to create virtual DS4: x"),
        other => panic!("{:?}", other),
    }
    assert_eq!(s.live.profile.name, "Old");
    assert!(s.pending.is_none());
}

#[test]
fn ten_failures_in_a_row() {
    let mut errors: u32 = 0;
    for _ in 0..9 {
        errors = count_errors(errors, true);
        assert!(!is_disconnected(errors));
    }
    errors = count_errors(errors, false);
    assert_eq!(errors, 0);
    for _ in 0..10 {
        assert!(!is_disconnected(errors));
        errors = count_errors(errors, true);
    }
    assert!(is_disconnected(errors));
}
