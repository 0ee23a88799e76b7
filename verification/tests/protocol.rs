//! The control socket's protocol.

use ds4l::ipc::{
    fallback_dir, handle_line, list_controllers, list_profiles, parse_command, parse_csv_ok,
    parse_status_field, ping, profiles_reply, socket_step, status, status_line, status_request,
    switch_profile, switch_reply, switch_request, Answer, Command, ControllerHandle, Registry,
    SocketStep, StatusSnapshot, SwitchOutcome,
};

fn snapshot(name: &str) -> StatusSnapshot {
    StatusSnapshot {
        profile_name: name.to_string(),
        output_mode: "Gamepad".to_string(),
        connection: "USB".to_string(),
        hidden: true,
        battery_percent: 72,
        battery_charging: false,
    }
}

fn registry() -> Registry {
    let mut r = Registry::new();
    r.insert(ControllerHandle { id: "aa:bb".to_string(), status: snapshot("Racing") });
    r.insert(ControllerHandle { id: "ctrl1".to_string(), status: snapshot("Default") });
    r
}

fn line(a: Answer) -> String {
    match a {
        Answer::Line(s) => s,
        other => panic!("{:?}", other),
    }
}

#[test]
fn commands_are_recognised() {
    assert!(matches!(parse_command("PING"), Command::Ping));
    assert!(matches!(parse_command("LIST_CONTROLLERS"), Command::ListControllers));
    assert!(matches!(parse_command("LIST_PROFILES"), Command::ListProfiles));
    assert!(matches!(parse_command("STATUS ctrl0"), Command::Status(id) if id == "ctrl0"));
    assert!(matches!(parse_command("STATUS "), Command::Unknown));
    assert!(matches!(parse_command("STATUS"), Command::Unknown));
    assert!(matches!(parse_command("ping"), Command::Unknown));
    assert!(matches!(parse_command(""), Command::Unknown));
}

#[test]
fn profile_names_keep_their_spaces() {
    match parse_command("SWITCH_PROFILE ctrl0 My Racing Profile") {
        Command::SwitchProfile(id, name) => {
            assert_eq!(id, "ctrl0");
            assert_eq!(name, "My Racing Profile");
        }
        other => panic!("{:?}", other),
    }
    match parse_command("SWITCH_PROFILE ctrl0  odd") {
        Command::SwitchProfile(id, name) => assert_eq!((id.as_str(), name.as_str()), ("ctrl0", " odd")),
        other => panic!("{:?}", other),
    }
    assert!(matches!(parse_command("SWITCH_PROFILE ctrl0"), Command::Unknown));
    assert!(matches!(parse_command("SWITCH_PROFILE ctrl0  "), Command::Unknown));
    assert!(matches!(parse_command("SWITCH_PROFILE  name"), Command::Unknown));
}

#[test]
fn ping_is_answered() {
    assert_eq!(line(handle_line("PING\n", &registry())), "OK PONG");
    assert!(ping(Some("OK PONG")));
    assert!(!ping(Some("OK")));
    assert!(!ping(None));
}

#[test]
fn unknown_lines_are_refused() {
    assert_eq!(line(handle_line("NONSENSE\n", &registry())), "ERR unknown command");
    assert_eq!(line(handle_line("\n", &registry())), "ERR unknown command");
}

#[test]
fn controllers_are_listed() {
    let reply = line(handle_line("LIST_CONTROLLERS\r\n", &registry()));
    assert_eq!(reply, "OK aa:bb,ctrl1");
    assert_eq!(list_controllers(&reply).unwrap(), vec!["aa:bb", "ctrl1"]);
    let none = line(handle_line("LIST_CONTROLLERS\n", &Registry::new()));
    assert_eq!(none, "OK");
    assert_eq!(list_controllers(&none).unwrap(), Vec::<String>::new());
}

#[test]
fn status_is_reported_and_read_back() {
    let reply = line(handle_line("STATUS aa:bb\n", &registry()));
    assert_eq!(reply, "OK profile=Racing mode=Gamepad connection=USB hidden=true battery=72 charging=false");
    assert_eq!(reply, status_line(&snapshot("Racing")));
    assert_eq!(parse_status_field(&reply, "profile").unwrap(), "Racing");
    assert_eq!(parse_status_field(&reply, "mode").unwrap(), "Gamepad");
    assert_eq!(parse_status_field(&reply, "connection").unwrap(), "USB");
    assert_eq!(parse_status_field(&reply, "hidden").unwrap(), "true");
    assert_eq!(parse_status_field(&reply, "battery").unwrap(), "72");
    assert_eq!(parse_status_field(&reply, "charging").unwrap(), "false");
    assert_eq!(parse_status_field(&reply, "nothing"), None);
    assert_eq!(parse_status_field("", "profile"), None);
    assert_eq!(parse_status_field("x=1\tbattery=\u{a0}battery=9", "battery").unwrap(), "");
}

#[test]
fn a_name_with_spaces_is_read_back_up_to_the_first() {
    let reply = status_line(&snapshot("My Racing Profile"));
    assert_eq!(parse_status_field(&reply, "profile").unwrap(), "My");
    assert_eq!(parse_status_field(&reply, "battery").unwrap(), "72");
}

#[test]
fn unknown_controllers_are_refused() {
    assert_eq!(line(handle_line("STATUS nobody", &registry())), "ERR unknown controller \"nobody\"");
    assert_eq!(
        line(handle_line("SWITCH_PROFILE nobody Default", &registry())),
        "ERR unknown controller \"nobody\""
    );
}

#[test]
fn switches_are_passed_on() {
    let request = switch_request("aa:bb", "My Profile");
    assert_eq!(request, "SWITCH_PROFILE aa:bb My Profile");
    match handle_line(&format!("{}\n", request), &registry()) {
        Answer::Switch { id, name } => assert_eq!((id.as_str(), name.as_str()), ("aa:bb", "My Profile")),
        other => panic!("{:?}", other),
    }
    assert!(matches!(handle_line("LIST_PROFILES", &registry()), Answer::ListProfiles));
    assert_eq!(status_request("x"), "STATUS x");
}

#[test]
fn the_name_in_a_line_is_taken_as_it_stands() {
    let asked = |line: &str| match handle_line(line, &registry()) {
        Answer::Switch { id, name } => format!("{}|{}", id, name),
        Answer::Line(reply) => reply,
        Answer::ListProfiles => panic!("{}", line),
    };
    assert_eq!(asked("SWITCH_PROFILE ctrl1 Racing \n"), "ctrl1|Racing ");
    assert_eq!(asked("SWITCH_PROFILE ctrl1  Racing\n"), "ctrl1| Racing");
    assert_eq!(asked("  SWITCH_PROFILE ctrl1 Racing"), "ctrl1|Racing");
    assert_eq!(asked("SWITCH_PROFILE ctrl1  \n"), "ERR unknown command");
    assert_eq!(asked("SWITCH_PROFILE ctrl1\n"), "ERR unknown command");
    // White space around other commands does not count.
    assert_eq!(asked(" PING \r\n"), "OK PONG");
    assert_eq!(asked("\tSTATUS nobody \n"), "ERR unknown controller \"nobody\"");
    assert_eq!(asked("\n"), "ERR unknown command");
    assert_eq!(asked(""), "ERR unknown command");
}

#[test]
fn switch_replies() {
    assert_eq!(switch_reply(&SwitchOutcome::Applied), "OK");
    assert_eq!(switch_reply(&SwitchOutcome::Failed("no".to_string())), "ERR no");
    assert_eq!(
        switch_reply(&SwitchOutcome::NotAccepting),
        "ERR that controller's thread is not accepting commands (shutting down?)"
    );
    assert_eq!(
        switch_reply(&SwitchOutcome::TimedOut),
        "ERR timed out waiting for the controller to apply the switch"
    );
    assert_eq!(switch_profile("OK"), Ok(()));
    assert_eq!(switch_profile("ERR no"), Err("ERR no".to_string()));
}

#[test]
fn profiles_are_listed() {
    let names = Ok(vec!["Default".to_string(), "My Racing Profile".to_string()]);
    let reply = profiles_reply(&names);
    assert_eq!(reply, "OK Default,My Racing Profile");
    assert_eq!(list_profiles(&reply), names);
    assert_eq!(profiles_reply(&Err("I/O error: x".to_string())), "ERR failed to list profiles: I/O error: x");
    assert_eq!(profiles_reply(&Ok(vec![])), "OK ");
}

#[test]
fn lists_are_trimmed_and_blanks_dropped() {
    assert_eq!(parse_csv_ok("OK a, b ,,c").unwrap(), vec!["a", "b", "c"]);
    assert_eq!(parse_csv_ok("OK").unwrap(), Vec::<String>::new());
    assert_eq!(parse_csv_ok("OKAY"), Err("OKAY".to_string()));
    assert_eq!(parse_csv_ok("ERR x"), Err("ERR x".to_string()));
}

#[test]
fn registry_replaces_and_removes() {
    let mut r = registry();
    r.insert(ControllerHandle { id: "ctrl1".to_string(), status: snapshot("Other") });
    assert_eq!(r.ids(), vec!["aa:bb", "ctrl1"]);
    assert_eq!(r.get("ctrl1").unwrap().profile_name, "Other");
    r.remove("aa:bb");
    assert_eq!(r.ids(), vec!["ctrl1"]);
    assert!(r.get("aa:bb").is_none());
    r.remove("aa:bb");
    assert_eq!(r.ids(), vec!["ctrl1"]);
    let s = StatusSnapshot::default();
    assert_eq!((s.profile_name.as_str(), s.battery_percent, s.hidden), ("", 0, false));
}

#[test]
fn socket_location_and_conflicts() {
    assert_eq!(fallback_dir(1000), "/tmp/ds4l-1000");
    assert_eq!(fallback_dir(0), "/tmp/ds4l-0");
    assert_eq!(socket_step(false, false), SocketStep::Bind);
    assert_eq!(socket_step(true, true), SocketStep::InUse);
    assert_eq!(socket_step(true, false), SocketStep::RemoveThenBind);
}

#[test]
fn status_reply_of_an_unknown_controller_is_an_error() {
    let line = status_line(&snapshot("Racing"));
    assert_eq!(status(&line), Ok(line.clone()));
    let unknown = "ERR unknown controller \"x\"";
    assert_eq!(status(unknown), Err(unknown.to_string()));
    assert_eq!(status("OK"), Err("OK".to_string()));
    assert_eq!(status(""), Err(String::new()));
}
