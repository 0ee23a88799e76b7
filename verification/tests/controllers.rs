//! Finding controllers and hiding them.

use ds4l::discovery::{
    classify, connection_of, controller_id, enumerate_controllers, Bus, Connection, HidEntry,
    DS4_V2_BT_PID,
};
use ds4l::hide_controller::{
    device_name_file, device_node_path, has_suffix, hidden_mode, hidraw_device_dir,
    is_device_entry, is_input_dir, left_visible, matching_suffix, permission_error_hint,
    HiddenController, HideOutcome, SiblingNode,
};

fn pad(bus: Bus, serial: Option<&str>, path: &str) -> HidEntry {
    HidEntry {
        vendor_id: 0x054C,
        product_id: 0x09CC,
        usage_page: 1,
        usage: 5,
        bus,
        serial: serial.map(|s| s.to_string()),
        path: path.to_string(),
    }
}

#[test]
fn only_gamepad_interfaces_count() {
    let d = pad(Bus::Usb, None, "a");
    assert_eq!(classify(&d, false), Some(Connection::Usb));
    assert_eq!(classify(&d, true), None);
    assert_eq!(classify(&pad(Bus::Bluetooth, None, "a"), true), Some(Connection::Bluetooth));
    assert_eq!(classify(&pad(Bus::Other, None, "a"), false), None);
    assert_eq!(classify(&HidEntry { vendor_id: 1, ..pad(Bus::Usb, None, "a") }, false), None);
    assert_eq!(classify(&HidEntry { product_id: 0x05C4, ..pad(Bus::Usb, None, "a") }, false), None);
    assert_eq!(classify(&HidEntry { usage_page: 2, ..pad(Bus::Usb, None, "a") }, false), None);
    assert_eq!(classify(&HidEntry { usage: 6, ..pad(Bus::Usb, None, "a") }, false), None);
    assert_eq!(connection_of(&pad(Bus::Bluetooth, None, "a")), Connection::Bluetooth);
    assert_eq!(connection_of(&d), Connection::Usb);
    assert_eq!((Connection::Usb.label(), Connection::Bluetooth.label()), ("USB", "Bluetooth"));
    assert_eq!(DS4_V2_BT_PID, 0x09CC);
}

#[test]
fn usb_comes_first_and_wins() {
    let devices = vec![
        pad(Bus::Bluetooth, Some("s1"), "bt1"),
        pad(Bus::Usb, Some("s2"), "usb2"),
        pad(Bus::Usb, Some("s1"), "usb1"),
        pad(Bus::Bluetooth, Some("s3"), "bt3"),
    ];
    assert_eq!(enumerate_controllers(&devices, false, &vec![]), vec![1, 2, 3]);
    assert_eq!(enumerate_controllers(&devices, true, &vec![]), vec![0, 3]);
}

#[test]
fn running_controllers_are_left_alone() {
    let devices = vec![pad(Bus::Usb, Some("s1"), "usb1"), pad(Bus::Usb, Some("s2"), "usb2")];
    assert_eq!(enumerate_controllers(&devices, false, &vec!["usb1".to_string()]), vec![1]);
    let both = vec!["usb1".to_string(), "usb2".to_string()];
    assert_eq!(enumerate_controllers(&devices, false, &both), Vec::<usize>::new());
}

#[test]
fn a_pad_that_runs_over_usb_is_not_started_over_bluetooth() {
    let devices = vec![pad(Bus::Bluetooth, Some("s1"), "bt1"), pad(Bus::Usb, Some("s1"), "usb1")];
    assert_eq!(enumerate_controllers(&devices, false, &vec!["usb1".to_string()]), Vec::<usize>::new());
}

#[test]
fn pads_without_serial_are_distinct() {
    let devices = vec![
        pad(Bus::Usb, None, "a"),
        pad(Bus::Usb, None, "b"),
        pad(Bus::Usb, Some(""), "c"),
        pad(Bus::Bluetooth, Some(""), "d"),
    ];
    assert_eq!(enumerate_controllers(&devices, false, &vec![]), vec![0, 1, 2, 3]);
}

#[test]
fn controller_ids() {
    assert_eq!(controller_id(Some("aa:bb"), 3), "aa:bb");
    assert_eq!(controller_id(Some(""), 3), "ctrl3");
    assert_eq!(controller_id(None, 12), "ctrl12");
}

#[test]
fn hidden_modes() {
    assert_eq!(hidden_mode(0o100660), 0o600);
    assert_eq!(hidden_mode(0o777), 0o700);
    assert_eq!(hidden_mode(0o600), 0o600);
    assert_eq!(hidden_mode(0o066), 0);
    assert_eq!(hidden_mode(hidden_mode(0o20664)), hidden_mode(0o20664));
}

fn siblings() -> Vec<SiblingNode> {
    let node = |path: &str, name: Option<&str>| SiblingNode {
        path: path.to_string(),
        name: name.map(|s| s.to_string()),
    };
    vec![
        node("/dev/input/event1", Some("Wireless Controller")),
        node("/dev/input/event2", Some("Wireless Controller Touchpad")),
        node("/dev/input/event3", Some("Wireless Controller Motion Sensors")),
        node("/dev/input/js0", None),
    ]
}

fn suffixes() -> Vec<String> {
    vec![" Touchpad".to_string(), " Motion Sensors".to_string()]
}

#[test]
fn suffixes_are_matched() {
    assert!(has_suffix("Pad Touchpad", " Touchpad"));
    assert!(!has_suffix("Touchpad", " Touchpad"));
    assert!(has_suffix("x", ""));
    assert_eq!(matching_suffix("A Motion Sensors", &suffixes()), Some(1));
    assert_eq!(matching_suffix("A", &suffixes()), None);
}

#[test]
fn excluded_siblings_stay_visible() {
    let hiding = HiddenController::start_hiding("/dev/hidraw3", &siblings(), &suffixes());
    assert_eq!(hiding.nodes, vec!["/dev/input/event1", "/dev/input/js0", "/dev/hidraw3"]);
    assert_eq!(
        left_visible(&siblings(), &suffixes()),
        vec![
            "/dev/input/event2 (Wireless Controller Touchpad, matched \" Touchpad\")",
            "/dev/input/event3 (Wireless Controller Motion Sensors, matched \" Motion Sensors\")",
        ]
    );
    let everything = HiddenController::start_hiding("/dev/hidraw3", &siblings(), &vec![]);
    assert_eq!(everything.nodes.len(), 5);
    assert_eq!(left_visible(&siblings(), &vec![]), Vec::<String>::new());
}

#[test]
fn hiding_remembers_every_mode() {
    let mut hiding = HiddenController::start_hiding("/dev/hidraw3", &siblings(), &suffixes());
    assert_eq!(hiding.next(), "/dev/input/event1");
    hiding = match hiding.attempted(Ok(0o660)) {
        HideOutcome::Continue(h) => h,
        other => panic!("{:?}", other),
    };
    assert_eq!(hiding.next(), "/dev/input/js0");
    hiding = match hiding.attempted(Ok(0o664)) {
        HideOutcome::Continue(h) => h,
        other => panic!("{:?}", other),
    };
    assert_eq!(hiding.next(), "/dev/hidraw3");
    let done = match hiding.attempted(Ok(0o666)) {
        HideOutcome::Complete(h) => h,
        other => panic!("{:?}", other),
    };
    let expected = vec![
        ("/dev/input/event1".to_string(), 0o660u32),
        ("/dev/input/js0".to_string(), 0o664),
        ("/dev/hidraw3".to_string(), 0o666),
    ];
    assert_eq!(done.restore(), expected);
    assert_eq!(done.restore(), expected);
}

#[test]
fn a_failed_hiding_gives_back_what_it_took() {
    let hiding = HiddenController::start_hiding("/dev/hidraw3", &siblings(), &suffixes());
    let second = match hiding.attempted(Ok(0o660)) {
        HideOutcome::Continue(h) => h,
        other => panic!("{:?}", other),
    };
    match second.attempted(Err("denied".to_string())) {
        HideOutcome::Failed { partial, message } => {
            assert_eq!(message, "failed to hide /dev/input/js0: denied");
            assert_eq!(partial.restore(), vec![("/dev/input/event1".to_string(), 0o660u32)]);
        }
        other => panic!("{:?}", other),
    }
}

#[test]
fn refused_modes_come_with_a_hint() {
    assert_eq!(permission_error_hint("gone", false), "gone");
    let hint = permission_error_hint("denied", true);
    assert!(hint.starts_with("denied -- changing permissions on a device node"));
    assert!(hint.contains("cap_fowner,cap_dac_override+ep"));
    assert!(hint.ends_with("`cargo build`/`cargo clean`."));
}

#[test]
fn system_paths() {
    assert!(is_input_dir("input12") && !is_input_dir("event3"));
    assert!(is_device_entry("js0") && is_device_entry("event12") && !is_device_entry("input1"));
    assert_eq!(device_node_path("event12"), "/dev/input/event12");
    assert_eq!(hidraw_device_dir("hidraw3"), "/sys/class/hidraw/hidraw3/device");
    assert_eq!(device_name_file("event12"), "/sys/class/input/event12/device/name");
}
