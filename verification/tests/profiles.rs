//! Profiles, their files and the command line.

use ds4l::cli::parse_args;
use ds4l::gamepad_remap::GamepadRemapConfig;
use ds4l::gyro_stick::GyroMode;
use ds4l::kbm::{KbmTarget, KEY_SPACE};
use ds4l::order::{does_not_follow, sort};
use ds4l::profile::{
    list_profile_names, load_step, profile_file_name, profile_of_file, Ds4FeedbackConfig,
    LightbarColor, LoadStep, OutputMode, Profile, ProfileError, ReadOutcome,
};
use ds4l::touchpad::TouchpadMode;

fn strings(items: &[&str]) -> Vec<String> {
    items.iter().map(|s| s.to_string()).collect()
}

#[test]
fn a_new_profile() {
    let p = Profile::default();
    assert_eq!(p.name, "Default");
    assert_eq!(p.output_mode, OutputMode::Gamepad);
    assert_eq!(p.gyro.mode, GyroMode::Hold);
    assert_eq!(p.touchpad.mode, TouchpadMode::MouseRemap);
    assert_eq!(p.gamepad_remap, GamepadRemapConfig::default());
    assert_eq!(p.kbm.cross, KbmTarget::Key(KEY_SPACE));
    assert!(!p.hide_real_controller && !p.gyro_passthrough);
    let f = p.feedback;
    assert_eq!(f.lightbar, LightbarColor { red: 0, green: 0, blue: 255 });
    assert!(f.rumble_on_load && !f.low_battery_flash && !f.rainbow);
    assert_eq!(f, Ds4FeedbackConfig::default());
    assert_eq!(Profile::named("Racing").name, "Racing");
}

#[test]
fn output_mode_names() {
    assert_eq!(OutputMode::Gamepad.label(), "Gamepad");
    assert_eq!(OutputMode::Kbm.label(), "Kbm");
    assert_eq!(OutputMode::Xbox360.label(), "Xbox360");
    assert_eq!(OutputMode::default(), OutputMode::Gamepad);
}

#[test]
fn profile_files() {
    assert_eq!(profile_file_name("My Profile"), "My Profile.toml");
    assert_eq!(profile_of_file("My Profile.toml").unwrap(), "My Profile");
    assert_eq!(profile_of_file("a.b.toml").unwrap(), "a.b");
    assert_eq!(profile_of_file(".toml"), None);
    assert_eq!(profile_of_file("notes.txt"), None);
    assert_eq!(profile_of_file("toml"), None);
    assert_eq!(profile_of_file("x.TOML"), None);
    assert_eq!(profile_of_file(&profile_file_name("x")).unwrap(), "x");
}

#[test]
fn profiles_are_listed_in_order() {
    let files = strings(&["b.toml", "readme.md", "Z.toml", "a.toml", "a.toml.bak", "ä.toml"]);
    assert_eq!(list_profile_names(&files), strings(&["Z", "a", "b", "ä"]));
    assert_eq!(list_profile_names(&vec![]), Vec::<String>::new());
}

#[test]
fn sorting_is_by_character() {
    assert_eq!(sort(&strings(&["b", "a", "ab", "", "b"])), strings(&["", "a", "ab", "b", "b"]));
    assert!(does_not_follow("a", "a"));
    assert!(does_not_follow("a", "ab"));
    assert!(!does_not_follow("ab", "a"));
    assert!(does_not_follow("Z", "a"));
    let mut odd = strings(&["\u{ffff}", "\u{10000}", "z", "é"]);
    let ours = sort(&odd);
    odd.sort();
    assert_eq!(ours, odd);
}

#[test]
fn loading_a_profile() {
    assert_eq!(load_step("Racing", ReadOutcome::Contents), LoadStep::Parse);
    assert_eq!(load_step("Racing", ReadOutcome::NotFound), LoadStep::Fail);
    assert_eq!(load_step("Default", ReadOutcome::NotFound), LoadStep::CreateDefault);
    assert_eq!(load_step("default", ReadOutcome::NotFound), LoadStep::Fail);
    assert_eq!(load_step("Default", ReadOutcome::Failed), LoadStep::Fail);
}

#[test]
fn profile_error_messages() {
    assert_eq!(ProfileError::Io("x".to_string()).message(), "I/O error: x");
    assert_eq!(ProfileError::Toml("x".to_string()).message(), "failed to parse profile TOML: x");
    assert_eq!(ProfileError::TomlWrite("x".to_string()).message(), "failed to serialize profile to TOML: x");
    assert_eq!(
        ProfileError::NoConfigDir.message(),
        "could not determine user config directory (no $HOME?)"
    );
}

#[test]
fn command_line() {
    let none = parse_args(&strings(&["ds4l_daemon"]));
    assert_eq!(none.profile_name, "Default");
    assert!(!none.force_bluetooth && !none.allow_bt_feedback);
    let all = parse_args(&strings(&["d", "--profile", "A", "--bluetooth", "--profile", "B", "--bt-feedback"]));
    assert_eq!(all.profile_name, "B");
    assert!(all.force_bluetooth && all.allow_bt_feedback);
    assert_eq!(parse_args(&strings(&["d", "--profile"])).profile_name, "Default");
    assert_eq!(parse_args(&strings(&["d", "--profile", "A", "--profile"])).profile_name, "A");
    let flag_as_name = parse_args(&strings(&["d", "--profile", "--bluetooth"]));
    assert_eq!(flag_as_name.profile_name, "--bluetooth");
    assert!(flag_as_name.force_bluetooth);
    assert_eq!(parse_args(&strings(&["--profile", "A"])).profile_name, "Default");
    assert_eq!(parse_args(&vec![]).profile_name, "Default");
}
