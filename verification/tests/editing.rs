//! The editor and the tray.

use ds4l::choices::{
    gate_button_from_id, gate_button_id, gate_button_label, gyro_mode_from_id, gyro_mode_id,
    gyro_mode_label, output_mode_from_id, output_mode_id, output_mode_label, stick_mode_from_id,
    stick_mode_id, stick_source_from_id, stick_source_id, stick_source_label,
    touchpad_mode_from_id, touchpad_mode_id, touchpad_mode_label, trigger_source_from_id,
    trigger_source_id, trigger_source_label,
};
use ds4l::combo::{gdk_keycode_to_evdev, is_x11_session, ComboRecorder};
use ds4l::editor::{
    accepted_name, applied_message, apply_after_save, controller_choices, create_outcome,
    delete_message, delete_question, duplicate_outcome, format_controller_status, load_message,
    rename_needed, rename_outcome, save_message, selected_controller, status_label_text,
    suggested_copy_name, ApplyStep,
};
use ds4l::gamepad_remap::{
    AxisDirection, GamepadButton, GamepadTarget, OutputStick, OutputTrigger, StickAnalogSource,
    TriggerAnalogSource,
};
use ds4l::gamepad_targets::{
    gamepad_target_at, gamepad_target_from_id, gamepad_target_id, gamepad_target_label,
    gamepad_target_options, TARGET_COUNT,
};
use ds4l::gyro_stick::{GateButton, GyroMode};
use ds4l::kbm::{KbmTarget, StickKbmMode};
use ds4l::kbm_targets::{describe_kbm_target, kbm_target_from_id, kbm_target_id};
use ds4l::key_names::{key_name, key_option, KEY_OPTION_COUNT};
use ds4l::profile::OutputMode;
use ds4l::touchpad::TouchpadMode;
use ds4l::tray::{
    format_status_line, icon_name, menu, place_of, status_flag, Ds4lTray, MenuEntry, TrayEvent,
};

fn strings(items: &[&str]) -> Vec<String> {
    items.iter().map(|s| s.to_string()).collect()
}

const STATUS: &str =
    "OK profile=Racing mode=Gamepad connection=USB hidden=true battery=72 charging=true";

#[test]
fn output_mode_choices() {
    for m in [OutputMode::Gamepad, OutputMode::Xbox360, OutputMode::Kbm] {
        assert_eq!(output_mode_from_id(output_mode_id(m)), m);
    }
    assert_eq!(output_mode_from_id("?"), OutputMode::Gamepad);
    assert_eq!(output_mode_label(OutputMode::Xbox360), "Xbox 360 (Xinput-compatible)");
}

#[test]
fn gyro_choices() {
    for m in [GyroMode::AlwaysOn, GyroMode::Toggle, GyroMode::Hold, GyroMode::Disabled] {
        assert_eq!(gyro_mode_from_id(gyro_mode_id(m)), m);
    }
    assert_eq!(gyro_mode_from_id(""), GyroMode::Hold);
    assert_eq!(gyro_mode_label(GyroMode::Toggle), "Toggle (press L2)");
    assert_eq!(gate_button_id(GateButton::L2Digital), "l2_digital");
    assert_eq!(gate_button_from_id("touchpad_click"), GateButton::TouchpadClick);
    assert_eq!(gate_button_from_id("nonsense"), GateButton::L2);
    assert_eq!(gate_button_label(GateButton::R2), "R2 (analog threshold)");
}

#[test]
fn touchpad_choices() {
    for m in [
        TouchpadMode::Passthrough,
        TouchpadMode::MouseRemap,
        TouchpadMode::AbsoluteMouse,
        TouchpadMode::Disabled,
    ] {
        assert_eq!(touchpad_mode_from_id(touchpad_mode_id(m)), m);
    }
    assert_eq!(touchpad_mode_from_id("x"), TouchpadMode::Passthrough);
    assert_eq!(touchpad_mode_label(TouchpadMode::AbsoluteMouse), "Absolute Mouse (tablet-style)");
}

#[test]
fn source_choices() {
    assert_eq!(stick_source_from_id("left"), StickAnalogSource::Left);
    assert_eq!(stick_source_from_id("x"), StickAnalogSource::Unmapped);
    assert_eq!(stick_source_id(StickAnalogSource::Right), "right");
    assert_eq!(stick_source_label(StickAnalogSource::Unmapped), "(disabled -- stays centered)");
    assert_eq!(trigger_source_from_id("r2"), TriggerAnalogSource::R2);
    assert_eq!(trigger_source_from_id(""), TriggerAnalogSource::Unmapped);
    assert_eq!(trigger_source_id(TriggerAnalogSource::L2), "l2");
    assert_eq!(trigger_source_label(TriggerAnalogSource::Unmapped), "(disabled -- stays at 0)");
}

#[test]
fn stick_mode_choices() {
    let digital = stick_mode_from_id("digital");
    assert_eq!(stick_mode_id(&digital), "digital");
    match digital {
        StickKbmMode::Digital { up, down, left, right, threshold } => {
            assert_eq!([up, down, left, right], [KbmTarget::Unmapped; 4]);
            assert_eq!(threshold, 64);
        }
        other => panic!("{:?}", other),
    }
    let mouse = stick_mode_from_id("");
    assert_eq!(stick_mode_id(&mouse), "mouse");
    match mouse {
        StickKbmMode::Mouse { counts } => assert_eq!((counts[255], counts[1]), (8, -8)),
        other => panic!("{:?}", other),
    }
}

#[test]
fn every_key_has_a_name() {
    assert_eq!(key_option(0), ("Esc", 1));
    assert_eq!(key_option(KEY_OPTION_COUNT - 1), ("F24", 194));
    let mut last: u16 = 0;
    for i in 0..KEY_OPTION_COUNT {
        let (name, code) = key_option(i);
        assert!(code > last);
        last = code;
        assert_eq!(key_name(code), name);
    }
    assert_eq!(key_name(0), "Key 0");
    assert_eq!(key_name(700), "Key 700");
}

#[test]
fn keyboard_target_ids() {
    let targets = [
        (KbmTarget::Unmapped, "none"),
        (KbmTarget::MouseLeft, "mouseleft"),
        (KbmTarget::MouseRight, "mouseright"),
        (KbmTarget::Key(57), "key_57"),
        (KbmTarget::Combo([Some(29), Some(42), Some(1), None]), "combo_29_42_1_0"),
    ];
    for (target, id) in targets {
        assert_eq!(kbm_target_id(target), id);
        assert_eq!(kbm_target_from_id(id), target);
    }
    assert_eq!(kbm_target_from_id("key_"), KbmTarget::Unmapped);
    assert_eq!(kbm_target_from_id("key_70000"), KbmTarget::Unmapped);
    assert_eq!(kbm_target_from_id("key_+7"), KbmTarget::Key(7));
    assert_eq!(kbm_target_from_id("other"), KbmTarget::Unmapped);
    assert_eq!(kbm_target_from_id("combo_"), KbmTarget::Combo([None; 4]));
    assert_eq!(kbm_target_from_id("combo_x_5_0_6_7_8"), KbmTarget::Combo([Some(5), None, Some(6), Some(7)]));
}

#[test]
fn keyboard_targets_are_described() {
    assert_eq!(describe_kbm_target(KbmTarget::Unmapped), "(none)");
    assert_eq!(describe_kbm_target(KbmTarget::MouseLeft), "Mouse Left Click");
    assert_eq!(describe_kbm_target(KbmTarget::Key(28)), "Enter");
    assert_eq!(describe_kbm_target(KbmTarget::Combo([None; 4])), "(none)");
    assert_eq!(
        describe_kbm_target(KbmTarget::Combo([Some(29), None, Some(42), Some(1)])),
        "Combo: Left Ctrl + Left Shift + Esc"
    );
}

#[test]
fn gamepad_targets_are_listed_and_found() {
    let options = gamepad_target_options();
    assert_eq!(options.len(), TARGET_COUNT);
    for (i, (id, label, target)) in options.iter().enumerate() {
        assert_eq!(gamepad_target_at(i), *target);
        assert_eq!(&gamepad_target_id(*target), id);
        assert_eq!(&gamepad_target_label(*target), label);
        assert_eq!(gamepad_target_from_id(id), *target);
    }
    assert_eq!(options[0].0, "none");
    assert_eq!(options[1].1, "Button: Cross (X)");
    assert_eq!(gamepad_target_id(GamepadTarget::Button(GamepadButton::DpadUp)), "button_dpad_up");
    assert_eq!(
        gamepad_target_id(GamepadTarget::StickPush(OutputStick::Right, AxisDirection::Left)),
        "stickpush_right_left"
    );
    assert_eq!(
        gamepad_target_label(GamepadTarget::StickPush(OutputStick::Left, AxisDirection::Up)),
        "Push: Left Stick Up"
    );
    assert_eq!(gamepad_target_label(GamepadTarget::TriggerPush(OutputTrigger::L2)), "Push: L2 (full)");
    assert_eq!(gamepad_target_from_id("bogus"), GamepadTarget::Unmapped);
}

#[test]
fn combinations_are_recorded() {
    let mut r = ComboRecorder::new();
    assert_eq!(r.release(9), None);
    r.press(29);
    r.press(42);
    r.press(29);
    r.press(1);
    assert_eq!(r.captured(), "Left Ctrl + Left Shift + Esc");
    assert_eq!(r.release(1), None);
    assert_eq!(r.release(29), None);
    assert_eq!(r.release(42), Some([Some(29), Some(42), Some(1), None]));
}

#[test]
fn only_four_keys_are_kept() {
    let mut r = ComboRecorder::new();
    for code in [5u16, 6, 7, 8, 9] {
        r.press(code);
    }
    let mut result = None;
    for code in [9u16, 8, 7, 6, 5] {
        result = r.release(code);
    }
    assert_eq!(result, Some([Some(5), Some(6), Some(7), Some(8)]));
}

#[test]
fn key_codes_of_the_window_system() {
    assert_eq!(gdk_keycode_to_evdev(25, true), 17);
    assert_eq!(gdk_keycode_to_evdev(25, false), 25);
    assert_eq!(gdk_keycode_to_evdev(3, true), 0);
    assert_eq!(gdk_keycode_to_evdev(0x1_0005, false), 5);
    assert!(is_x11_session(Some("x11")) && is_x11_session(Some("X11")));
    assert!(!is_x11_session(Some("wayland")) && !is_x11_session(None));
}

#[test]
fn editor_status_text() {
    assert_eq!(format_controller_status(STATUS), "Gamepad, USB, 72% \u{26a1}, hidden from other apps");
    assert_eq!(
        format_controller_status("OK mode=Kbm connection=Bluetooth hidden=false battery=5 charging=false"),
        "Kbm, Bluetooth, 5%"
    );
    assert_eq!(format_controller_status("OK mode=Kbm connection=USB"), "Kbm, USB");
    assert_eq!(format_controller_status("ERR what"), "ERR what");
    assert_eq!(status_label_text(false, &Some(STATUS.to_string())), "");
    assert_eq!(status_label_text(true, &None), "(unreachable)");
    assert_eq!(status_label_text(true, &Some("OK mode=A connection=B".to_string())), "A, B");
}

#[test]
fn controllers_to_choose_from() {
    let two = Ok(strings(&["a", "b"]));
    let kept = controller_choices(&two, Some("b"));
    assert_eq!(kept.entries, vec![("a".to_string(), "a".to_string()), ("b".to_string(), "b".to_string())]);
    assert_eq!(kept.active, 1);
    assert_eq!(controller_choices(&two, Some("gone")).active, 0);
    assert_eq!(controller_choices(&two, None).active, 0);
    let none = controller_choices(&Ok(vec![]), Some("a"));
    assert_eq!(none.entries, vec![("".to_string(), "(no controllers connected)".to_string())]);
    let dead = controller_choices(&Err("x".to_string()), None);
    assert_eq!(dead.entries, vec![("".to_string(), "(daemon not running)".to_string())]);
    assert_eq!((none.active, dead.active), (0, 0));
    assert_eq!(selected_controller(Some("")), None);
    assert_eq!(selected_controller(None), None);
    assert_eq!(selected_controller(Some("a")).unwrap(), "a");
}

#[test]
fn names_from_dialogs() {
    assert_eq!(accepted_name("  My Profile \t").unwrap(), "My Profile");
    assert_eq!(accepted_name(" \u{3000}"), None);
    assert_eq!(accepted_name(""), None);
    assert_eq!(suggested_copy_name("A"), "A copy");
    assert!(!rename_needed("A", "A") && rename_needed("A", "a"));
}

#[test]
fn outcomes_of_edits() {
    let ok: Result<(), String> = Ok(());
    let err: Result<(), String> = Err("E".to_string());
    let c = create_outcome("N", &ok);
    assert!(c.adopt && c.remove_file.is_none());
    assert_eq!(c.message, "Created \"N\".");
    let f = create_outcome("N", &err);
    assert!(!f.adopt);
    assert_eq!(f.message, "Failed to create \"N\": E");
    let r = rename_outcome("O", "N", &ok);
    assert!(r.adopt);
    assert_eq!(r.remove_file.unwrap(), "O.toml");
    assert_eq!(r.message, "Renamed \"O\" to \"N\".");
    let g = rename_outcome("O", "N", &err);
    assert!(!g.adopt && g.remove_file.is_none());
    assert_eq!(g.message, "Failed to rename \"O\" to \"N\": E");
    let d = duplicate_outcome("N", &ok);
    assert!(d.adopt && d.remove_file.is_none());
    assert_eq!(d.message, "Duplicated as \"N\".");
    assert_eq!(duplicate_outcome("N", &err).message, "Failed to duplicate as \"N\": E");
}

#[test]
fn editor_messages() {
    let ok: Result<(), String> = Ok(());
    let err: Result<(), String> = Err("E".to_string());
    assert_eq!(delete_question("N"), "Delete profile \"N\"? This cannot be undone.");
    assert_eq!(delete_message("N", &ok), "Deleted \"N\".");
    assert_eq!(delete_message("N", &err), "Failed to delete \"N\": E");
    assert_eq!(load_message("N", &ok), "");
    assert_eq!(load_message("N", &err), "Failed to load \"N\": E");
    assert_eq!(save_message("N", &ok), "Saved \"N\".");
    assert_eq!(save_message("N", &err), "Save failed: E");
    assert_eq!(applied_message("N", "c0", &ok), "Saved and applied \"N\" live to c0.");
    assert_eq!(applied_message("N", "c0", &err), "Saved \"N\", but could not apply live to c0: E");
}

#[test]
fn saving_and_applying() {
    let ok: Result<(), String> = Ok(());
    let err: Result<(), String> = Err("E".to_string());
    assert!(matches!(apply_after_save("N", Some("c0"), &ok), ApplyStep::Switch(id) if id == "c0"));
    assert!(matches!(apply_after_save("N", Some("c0"), &err), ApplyStep::Say(m) if m == "Save failed: E"));
    match apply_after_save("N", None, &ok) {
        ApplyStep::Say(m) => assert_eq!(
            m,
            "Saved \"N\", but no controller is connected to apply it to (is ds4l_daemon running with a controller plugged in?)."
        ),
        other => panic!("{:?}", other),
    }
}

#[test]
fn tray_status_text() {
    assert_eq!(format_status_line(STATUS), "Racing (Gamepad, USB, 72% \u{26a1}charging)");
    assert_eq!(
        format_status_line("OK profile=P mode=M connection=C battery=9 charging=false"),
        "P (M, C, 9%)"
    );
    assert_eq!(format_status_line("OK profile=P mode=M connection=C"), "P (M, C)");
    assert_eq!(format_status_line("ERR x"), "ERR x");
    assert!(status_flag("a=true", "a") && !status_flag("a=yes", "a") && !status_flag("", "a"));
    assert_eq!((icon_name(true), icon_name(false)), ("input-gaming", "dialog-warning"));
}

#[test]
fn tray_menu_without_controllers() {
    let texts = |m: Vec<MenuEntry>| -> Vec<String> { m.iter().map(|e| format!("{:?}", e)).collect() };
    let dead = texts(menu(&Err("x".to_string()), &vec![], &vec![]));
    assert_eq!(dead, vec!["Note(\"Daemon not running\")", "Separator", "EditProfiles", "Quit"]);
    let none = texts(menu(&Ok(vec![]), &vec![], &strings(&["A"])));
    assert_eq!(none[0], "Note(\"Daemon running, but no controllers connected\")");
    assert_eq!(none.len(), 4);
}

#[test]
fn tray_menu_with_controllers() {
    let ids = Ok(strings(&["c0", "c1"]));
    let statuses = vec![Some(STATUS.to_string()), None];
    let m = menu(&ids, &statuses, &strings(&["Default", "Racing"]));
    assert_eq!(m.len(), 5);
    assert!(matches!(&m[0], MenuEntry::Controller { label, selected: Some(1) }
        if label == "c0 \u{2014} Racing (Gamepad, USB, 72% \u{26a1}charging)"));
    assert!(matches!(&m[1], MenuEntry::Controller { label, selected: None } if label == "c1 \u{2014} (unreachable)"));
    assert!(matches!(m[2], MenuEntry::Separator));
    assert!(matches!(m[3], MenuEntry::EditProfiles));
    assert!(matches!(m[4], MenuEntry::Quit));
    let bare = menu(&ids, &statuses, &vec![]);
    assert!(matches!(&bare[0], MenuEntry::ControllerWithoutProfiles { .. }));
    assert_eq!(place_of(&strings(&["a", "b", "b"]), "b"), Some(1));
    assert_eq!(place_of(&strings(&["a"]), "b"), None);
}

#[test]
fn tray_keeps_its_channel() {
    let (tx, rx) = std::sync::mpsc::channel();
    let tray = Ds4lTray::new(tx);
    tray.show_editor_tx.send(TrayEvent::ShowEditor).unwrap();
    assert_eq!(rx.recv(), Ok(TrayEvent::ShowEditor));
}
