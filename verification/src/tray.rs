//! The tray icon: its state, its menu and its labels.

use crate::ipc::parse_status_field;
use crate::text::same;
use vstd::prelude::*;
use vstd::string::*;

verus! {

/// What the tray asks the editor for.
#[derive(Debug, Clone, Copy, PartialEq, Eq, Structural)]
pub enum TrayEvent {
    ShowEditor,
}

/// The tray, with the channel on which it asks for the editor.
#[derive(Debug)]
pub struct Ds4lTray<T> {
    pub show_editor_tx: T,
}

impl<T> Ds4lTray<T> {
    /// A tray that asks on the given channel.
    pub fn new(show_editor_tx: T) -> (r: Self)
        ensures
            r.show_editor_tx == show_editor_tx,
    {
        Ds4lTray { show_editor_tx }
    }
}

/// The icon, which shows whether a daemon is running.
pub fn icon_name(daemon_alive: bool) -> (r: &'static str)
    ensures
        r@ == (if daemon_alive {
            "input-gaming"@
        } else {
            "dialog-warning"@
        }),
{
    if daemon_alive {
        "input-gaming"
    } else {
        "dialog-warning"
    }
}

/// Whether a status line says that a flag is on.
pub open spec fn flag_in(raw: Seq<char>, key: Seq<char>) -> bool {
    crate::ipc::status_field(raw, key) == Some("true"@)
}

/// Whether a status line says that a flag is on.
pub fn status_flag(raw: &str, key: &str) -> (r: bool)
    ensures
        r == flag_in(raw@, key@),
{
    match parse_status_field(raw, key) {
        Some(value) => same(value.as_str(), "true"),
        None => false,
    }
}

/// A status line for the menu: the profile, and in brackets the rest. A line
/// that lacks a field is shown as it is.
pub open spec fn menu_status(raw: Seq<char>) -> Seq<char> {
    match (
        crate::ipc::status_field(raw, "profile"@),
        crate::ipc::status_field(raw, "mode"@),
        crate::ipc::status_field(raw, "connection"@),
    ) {
        (Some(p), Some(m), Some(c)) => {
            let head = p + " ("@ + m + ", "@ + c;
            match crate::ipc::status_field(raw, "battery"@) {
                Some(pct) => if flag_in(raw, "charging"@) {
                    head + ", "@ + pct + "% \u{26a1}charging)"@
                } else {
                    head + ", "@ + pct + "%)"@
                },
                None => head + ")"@,
            }
        },
        _ => raw,
    }
}

/// Writes a status line for the menu.
pub fn format_status_line(raw: &str) -> (r: String)
    ensures
        r@ == menu_status(raw@),
{
    let profile = parse_status_field(raw, "profile");
    let mode = parse_status_field(raw, "mode");
    let connection = parse_status_field(raw, "connection");
    let battery = parse_status_field(raw, "battery");
    let charging = status_flag(raw, "charging");
    match (profile, mode, connection) {
        (Some(p), Some(m), Some(c)) => {
            let head = p.concat(" (").concat(m.as_str()).concat(", ").concat(c.as_str());
            match battery {
                Some(pct) => {
                    let with_battery = head.concat(", ").concat(pct.as_str());
                    if charging {
                        with_battery.concat("% \u{26a1}charging)")
                    } else {
                        with_battery.concat("%)")
                    }
                },
                None => head.concat(")"),
            }
        },
        _ => raw.to_owned(),
    }
}

/// An entry of the menu.
#[derive(Debug)]
pub enum MenuEntry {
    /// A line that only tells something.
    Note(String),
    Separator,
    /// A controller, with the position of its profile among all profiles.
    Controller { label: String, selected: Option<usize> },
    /// A controller while there are no profiles to choose from.
    ControllerWithoutProfiles { label: String },
    EditProfiles,
    Quit,
}

/// An entry of the menu, over texts.
pub enum MenuText {
    Note(Seq<char>),
    Separator,
    Controller(Seq<char>, Option<usize>),
    ControllerWithoutProfiles(Seq<char>),
    EditProfiles,
    Quit,
}

impl View for MenuEntry {
    type V = MenuText;

    open spec fn view(&self) -> MenuText {
        match self {
            MenuEntry::Note(text) => MenuText::Note(text@),
            MenuEntry::Separator => MenuText::Separator,
            MenuEntry::Controller { label, selected } => MenuText::Controller(label@, *selected),
            MenuEntry::ControllerWithoutProfiles { label } => MenuText::ControllerWithoutProfiles(
                label@,
            ),
            MenuEntry::EditProfiles => MenuText::EditProfiles,
            MenuEntry::Quit => MenuText::Quit,
        }
    }
}

/// The texts of a menu.
pub open spec fn menu_texts(entries: Seq<MenuEntry>) -> Seq<MenuText> {
    entries.map_values(|e: MenuEntry| e@)
}

/// The first place from `i` on where a list holds a text.
pub open spec fn place_from(names: Seq<Seq<char>>, name: Seq<char>, i: int) -> Option<usize>
    decreases names.len() - i,
{
    if i < 0 || i >= names.len() {
        None
    } else if names[i] == name {
        Some(i as usize)
    } else {
        place_from(names, name, i + 1)
    }
}

/// Finds the first place where a list holds a text.
pub fn place_of(names: &Vec<String>, name: &str) -> (r: Option<usize>)
    ensures
        r == place_from(crate::text::texts(names@), name@, 0),
{
    let ghost all = crate::text::texts(names@);
    let mut i: usize = 0;
    while i < names.len()
        invariant
            i <= names.len(),
            all == crate::text::texts(names@),
            place_from(all, name@, 0) == place_from(all, name@, i as int),
        decreases names.len() - i,
    {
        assert(all[i as int] == names@[i as int]@);
        if same(names[i].as_str(), name) {
            return Some(i);
        }
        i = i + 1;
    }
    None
}

/// The label of a controller, with its status if that could be had.
pub open spec fn controller_label_of(id: Seq<char>, status: Option<Seq<char>>) -> Seq<char> {
    id + " \u{2014} "@ + (match status {
        Some(raw) => menu_status(raw),
        None => "(unreachable)"@,
    })
}

fn controller_label(id: &str, status: &Option<String>) -> (r: String)
    ensures
        r@ == controller_label_of(id@, crate::ipc::view_of(*status)),
{
    let head = id.to_owned().concat(" \u{2014} ");
    match status {
        Some(raw) => head.concat(format_status_line(raw.as_str()).as_str()),
        None => head.concat("(unreachable)"),
    }
}

/// The place of the profile that a status line names.
pub open spec fn active_place(profiles: Seq<Seq<char>>, status: Option<Seq<char>>) -> Option<usize> {
    match status {
        Some(raw) => match crate::ipc::status_field(raw, "profile"@) {
            Some(name) => place_from(profiles, name, 0),
            None => None,
        },
        None => None,
    }
}

fn find_active(profiles: &Vec<String>, status: &Option<String>) -> (r: Option<usize>)
    ensures
        r == active_place(crate::text::texts(profiles@), crate::ipc::view_of(*status)),
{
    match status {
        Some(raw) => match parse_status_field(raw.as_str(), "profile") {
            Some(name) => place_of(profiles, name.as_str()),
            None => None,
        },
        None => None,
    }
}

/// The entry of a controller.
pub open spec fn controller_entry(
    id: Seq<char>,
    status: Option<Seq<char>>,
    profiles: Seq<Seq<char>>,
) -> MenuText {
    let label = controller_label_of(id, status);
    if profiles.len() == 0 {
        MenuText::ControllerWithoutProfiles(label)
    } else {
        MenuText::Controller(label, active_place(profiles, status))
    }
}

/// The entries of all controllers.
pub open spec fn controller_entries(
    ids: Seq<Seq<char>>,
    statuses: Seq<Option<String>>,
    profiles: Seq<Seq<char>>,
) -> Seq<MenuText> {
    Seq::new(
        ids.len(),
        |i: int| controller_entry(ids[i], crate::ipc::view_of(statuses[i]), profiles),
    )
}

/// What every menu ends with.
pub open spec fn footer() -> Seq<MenuText> {
    seq![MenuText::Separator, MenuText::EditProfiles, MenuText::Quit]
}

/// The menu: an entry for each controller, or a note why there is none, and
/// always the way to the editor and out.
pub open spec fn menu_of(
    controllers: Result<Vec<String>, String>,
    statuses: Seq<Option<String>>,
    profiles: Seq<Seq<char>>,
) -> Seq<MenuText> {
    (match controllers {
        Ok(ids) => if ids@.len() > 0 {
            controller_entries(crate::text::texts(ids@), statuses, profiles)
        } else {
            seq![MenuText::Note("Daemon running, but no controllers connected"@)]
        },
        Err(_) => seq![MenuText::Note("Daemon not running"@)],
    }) + footer()
}

/// Lists the entries of the menu from what the daemon answered: its
/// controllers, the status of each, and the profiles.
pub fn menu(
    controllers: &Result<Vec<String>, String>,
    statuses: &Vec<Option<String>>,
    profiles: &Vec<String>,
) -> (r: Vec<MenuEntry>)
    requires
        controllers is Ok ==> statuses@.len() == controllers->Ok_0@.len(),
    ensures
        menu_texts(r@) == menu_of(*controllers, statuses@, crate::text::texts(profiles@)),
{
    let mut r: Vec<MenuEntry> = Vec::new();
    match controllers {
        Ok(ids) => if ids.len() > 0 {
            let ghost names = crate::text::texts(profiles@);
            let ghost all = controller_entries(crate::text::texts(ids@), statuses@, names);
            let mut i: usize = 0;
            assert(menu_texts(r@) =~= all.take(0));
            while i < ids.len()
                invariant
                    i <= ids.len(),
                    statuses@.len() == ids@.len(),
                    names == crate::text::texts(profiles@),
                    all == controller_entries(crate::text::texts(ids@), statuses@, names),
                    menu_texts(r@) == all.take(i as int),
                decreases ids.len() - i,
            {
                let ghost before = r@;
                let label = controller_label(ids[i].as_str(), &statuses[i]);
                let entry = if profiles.len() == 0 {
                    MenuEntry::ControllerWithoutProfiles { label }
                } else {
                    MenuEntry::Controller { label, selected: find_active(profiles, &statuses[i]) }
                };
                r.push(entry);
                i = i + 1;
                assert(menu_texts(r@) =~= menu_texts(before).push(all[i - 1]));
                assert(all.take(i as int) =~= all.take(i - 1).push(all[i - 1]));
            }
            assert(all.take(i as int) =~= all);
        } else {
            r.push(MenuEntry::Note("Daemon running, but no controllers connected".to_owned()));
        },
        Err(_) => {
            r.push(MenuEntry::Note("Daemon not running".to_owned()));
        },
    }
    let ghost before = r@;
    r.push(MenuEntry::Separator);
    r.push(MenuEntry::EditProfiles);
    r.push(MenuEntry::Quit);
    assert(menu_texts(r@) =~= menu_texts(before) + footer());
    assert(menu_texts(r@) =~= menu_of(*controllers, statuses@, crate::text::texts(profiles@)));
    r
}

/// Whatever the daemon answered, the menu leads to the editor and out.
pub proof fn law_menu_always_leads_on(
    controllers: Result<Vec<String>, String>,
    statuses: Seq<Option<String>>,
    profiles: Seq<Seq<char>>,
)
    ensures
        menu_of(controllers, statuses, profiles).last() == MenuText::Quit,
        menu_of(controllers, statuses, profiles).contains(MenuText::EditProfiles),
{
    let m = menu_of(controllers, statuses, profiles);
    assert(m[m.len() - 2] == MenuText::EditProfiles);
}

/// A place is the first one that holds the text, and without one the list does not
/// hold it.
pub proof fn law_place_is_the_first(names: Seq<Seq<char>>, name: Seq<char>, from: int)
    requires
        0 <= from,
        names.len() <= usize::MAX,
    ensures
        place_from(names, name, from) matches Some(i) ==> from <= i < names.len() && names[i as int]
            == name && forall|k: int| from <= k < i ==> #[trigger] names[k] != name,
        place_from(names, name, from) is None ==> forall|k: int|
            from <= k < names.len() ==> #[trigger] names[k] != name,
    decreases names.len() - from,
{
    if from < names.len() && names[from] != name {
        law_place_is_the_first(names, name, from + 1);
    }
}

/// The menu shows a controller's status as it is: its profile, and in brackets the
/// mode, the connection and the battery, with a note while it charges.
pub proof fn law_menu_shows_the_status(s: crate::ipc::StatusSnapshot)
    requires
        crate::ipc_laws::one_word(s.profile_name@),
        crate::ipc_laws::one_word(s.output_mode@),
        crate::ipc_laws::one_word(s.connection@),
        crate::ipc_laws::undisturbing(s.profile_name@),
        crate::ipc_laws::unbroken(s.profile_name@),
    ensures
        menu_status(crate::ipc_laws::read_back(crate::ipc::status_line_of(s))) == s.profile_name@
            + " ("@ + s.output_mode@ + ", "@ + s.connection@ + ", "@ + crate::text::decimal(
            s.battery_percent as nat,
        ) + (if s.battery_charging {
            "% \u{26a1}charging)"@
        } else {
            "%)"@
        }),
{
    crate::ipc_laws::law_status_reply_understood(s);
    crate::ipc_laws::law_status_flags_understood(s);
}

/// The menu marks the profile that a controller runs, where it is listed, and no
/// other.
pub proof fn law_menu_marks_the_running_profile(
    profiles: Seq<Seq<char>>,
    s: crate::ipc::StatusSnapshot,
)
    requires
        profiles.len() <= usize::MAX,
        crate::ipc_laws::one_word(s.profile_name@),
        crate::ipc_laws::one_word(s.output_mode@),
        crate::ipc_laws::one_word(s.connection@),
        crate::ipc_laws::undisturbing(s.profile_name@),
        crate::ipc_laws::unbroken(s.profile_name@),
    ensures
        ({
            let place = active_place(
                profiles,
                Some(crate::ipc_laws::read_back(crate::ipc::status_line_of(s))),
            );
            &&& place matches Some(i) ==> i < profiles.len() && profiles[i as int] == s.profile_name@
            &&& place is None ==> !profiles.contains(s.profile_name@)
        }),
        active_place(profiles, None) is None,
{
    crate::ipc_laws::law_status_reply_understood(s);
    law_place_is_the_first(profiles, s.profile_name@, 0);
}

/// The menu has an entry for each controller, in order, that starts with its id,
/// and offers profiles exactly where there are any.
pub proof fn law_menu_lists_every_controller(
    controllers: Result<Vec<String>, String>,
    statuses: Seq<Option<String>>,
    profiles: Seq<Seq<char>>,
    i: int,
)
    requires
        controllers is Ok,
        0 <= i < controllers->Ok_0@.len(),
    ensures
        ({
            let m = menu_of(controllers, statuses, profiles);
            let id = controllers->Ok_0@[i]@;
            &&& m.len() == controllers->Ok_0@.len() + 3
            &&& m[m.len() - 3] == MenuText::Separator && m[m.len() - 2] == MenuText::EditProfiles
            &&& m[m.len() - 1] == MenuText::Quit
            &&& profiles.len() == 0 ==> (m[i] matches MenuText::ControllerWithoutProfiles(label)
                && id.is_prefix_of(label))
            &&& profiles.len() > 0 ==> (m[i] matches MenuText::Controller(label, place)
                && id.is_prefix_of(label) && place == active_place(
                profiles,
                crate::ipc::view_of(statuses[i]),
            ))
        }),
{
    let id = controllers->Ok_0@[i]@;
    let label = controller_label_of(id, crate::ipc::view_of(statuses[i]));
    assert(label.take(id.len() as int) =~= id);
}

/// A menu without a controller tells why: no daemon, or a daemon with no
/// controller.
pub proof fn law_empty_menu_tells_why(
    controllers: Result<Vec<String>, String>,
    statuses: Seq<Option<String>>,
    profiles: Seq<Seq<char>>,
)
    ensures
        ({
            let m = menu_of(controllers, statuses, profiles);
            &&& m[0] == MenuText::Note("Daemon not running"@) <==> controllers is Err
            &&& m[0] == MenuText::Note("Daemon running, but no controllers connected"@)
                <==> controllers is Ok && controllers->Ok_0@.len() == 0
        }),
{
    reveal_strlit("Daemon not running");
    reveal_strlit("Daemon running, but no controllers connected");
    assert("Daemon not running"@.len() == 18);
    assert("Daemon running, but no controllers connected"@.len() == 44);
}

} // verus!
