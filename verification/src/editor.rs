//! The profile editor's decisions and messages.

use crate::ipc::parse_status_field;
use crate::profile::profile_file_name;
use crate::text::{join, same, trim};
use crate::tray::{place_of, status_flag};
use vstd::prelude::*;
use vstd::string::*;

verus! {

/// A battery level as it is shown.
pub open spec fn battery_text(pct: Seq<char>, charging: bool) -> Seq<char> {
    if charging {
        pct + "% \u{26a1}"@
    } else {
        pct + "%"@
    }
}

/// The parts of a controller's status that are shown: the mode and the
/// connection, then the battery if it is known, then whether it is hidden.
pub open spec fn status_parts(raw: Seq<char>, m: Seq<char>, c: Seq<char>) -> Seq<Seq<char>> {
    seq![m, c] + (match crate::ipc::status_field(raw, "battery"@) {
        Some(pct) => seq![battery_text(pct, crate::tray::flag_in(raw, "charging"@))],
        None => Seq::empty(),
    }) + (if crate::tray::flag_in(raw, "hidden"@) {
        seq!["hidden from other apps"@]
    } else {
        Seq::empty()
    })
}

/// A status line for the editor. A line that lacks a field is shown as it is.
pub open spec fn editor_status(raw: Seq<char>) -> Seq<char> {
    match (crate::ipc::status_field(raw, "mode"@), crate::ipc::status_field(raw, "connection"@)) {
        (Some(m), Some(c)) => crate::text::joined(status_parts(raw, m, c), ", "@),
        _ => raw,
    }
}

/// Writes a status line for the editor.
pub fn format_controller_status(raw: &str) -> (r: String)
    ensures
        r@ == editor_status(raw@),
{
    let mode = parse_status_field(raw, "mode");
    let connection = parse_status_field(raw, "connection");
    let hidden = status_flag(raw, "hidden");
    let battery = parse_status_field(raw, "battery");
    let charging = status_flag(raw, "charging");
    match (mode, connection) {
        (Some(m), Some(c)) => {
            let mut parts: Vec<String> = Vec::new();
            parts.push(m);
            parts.push(c);
            if let Some(pct) = battery {
                parts.push(
                    if charging {
                        pct.concat("% \u{26a1}")
                    } else {
                        pct.concat("%")
                    },
                );
            }
            if hidden {
                parts.push("hidden from other apps".to_owned());
            }
            assert(crate::text::texts(parts@) =~= status_parts(raw@, m@, c@));
            join(&parts, ", ")
        },
        _ => raw.to_owned(),
    }
}

/// The controller that a list entry stands for; a placeholder stands for none.
pub fn selected_controller(active_id: Option<&str>) -> (r: Option<String>)
    ensures
        r is Some <==> active_id is Some && active_id->0@.len() > 0,
        r is Some ==> r->0@ == active_id->0@,
{
    match active_id {
        Some(id) => if id.unicode_len() > 0 {
            Some(id.to_owned())
        } else {
            None
        },
        None => None,
    }
}

/// What the status label shows: nothing without a controller, else its status,
/// if the daemon gave one.
pub fn status_label_text(has_controller: bool, status: &Option<String>) -> (r: String)
    ensures
        r@ == (if !has_controller {
            Seq::empty()
        } else {
            match status {
                Some(raw) => editor_status(raw@),
                None => "(unreachable)"@,
            }
        }),
{
    if !has_controller {
        return String::new();
    }
    match status {
        Some(raw) => format_controller_status(raw.as_str()),
        None => "(unreachable)".to_owned(),
    }
}

/// The list of controllers: each entry's id and label, and which is selected.
#[derive(Debug)]
pub struct ControllerChoices {
    pub entries: Vec<(String, String)>,
    pub active: usize,
}

/// The entries of a list, over texts.
pub open spec fn entry_texts(entries: Seq<(String, String)>) -> Seq<(Seq<char>, Seq<char>)> {
    entries.map_values(|e: (String, String)| (e.0@, e.1@))
}

/// The entries for what the daemon answered: the controllers, or a placeholder
/// with a blank id.
pub open spec fn choices_of(listing: Result<Vec<String>, String>) -> Seq<(Seq<char>, Seq<char>)> {
    match listing {
        Ok(ids) => if ids@.len() > 0 {
            crate::text::texts(ids@).map_values(|id: Seq<char>| (id, id))
        } else {
            seq![(Seq::empty(), "(no controllers connected)"@)]
        },
        Err(_) => seq![(Seq::empty(), "(daemon not running)"@)],
    }
}

/// Which entry is selected: the one selected before, if it is still there,
/// else the first.
pub open spec fn active_choice(
    listing: Result<Vec<String>, String>,
    previous: Option<Seq<char>>,
) -> usize {
    match (listing, previous) {
        (Ok(ids), Some(id)) => match crate::tray::place_from(crate::text::texts(ids@), id, 0) {
            Some(i) => i,
            None => 0,
        },
        _ => 0,
    }
}

/// Lists the controllers for the editor.
pub fn controller_choices(listing: &Result<Vec<String>, String>, previous: Option<&str>) -> (r:
    ControllerChoices)
    ensures
        entry_texts(r.entries@) == choices_of(*listing),
        r.active == active_choice(
            *listing,
            match previous {
                Some(id) => Some(id@),
                None => None,
            },
        ),
{
    let mut entries: Vec<(String, String)> = Vec::new();
    match listing {
        Ok(ids) => {
            if ids.len() > 0 {
                let ghost all = choices_of(*listing);
                let mut i: usize = 0;
                assert(entry_texts(entries@) =~= all.take(0));
                while i < ids.len()
                    invariant
                        i <= ids.len(),
                        all == crate::text::texts(ids@).map_values(|id: Seq<char>| (id, id)),
                        entry_texts(entries@) == all.take(i as int),
                    decreases ids.len() - i,
                {
                    let ghost before = entries@;
                    entries.push((ids[i].clone(), ids[i].clone()));
                    i = i + 1;
                    assert(entry_texts(entries@) =~= entry_texts(before).push(all[i - 1]));
                    assert(all.take(i as int) =~= all.take(i - 1).push(all[i - 1]));
                }
                assert(all.take(i as int) =~= all);
            } else {
                entries.push((String::new(), "(no controllers connected)".to_owned()));
                assert(entries@[0].0@ =~= Seq::empty());
                assert(entry_texts(entries@) =~= choices_of(*listing));
            }
            let active: usize = match previous {
                Some(id) => match place_of(ids, id) {
                    Some(i) => i,
                    None => 0,
                },
                None => 0,
            };
            ControllerChoices { entries, active }
        },
        Err(_) => {
            entries.push((String::new(), "(daemon not running)".to_owned()));
            assert(entries@[0].0@ =~= Seq::empty());
            assert(entry_texts(entries@) =~= choices_of(*listing));
            ControllerChoices { entries, active: 0 }
        },
    }
}

/// The name that a dialog's text stands for, if it is not blank.
pub fn accepted_name(text: &str) -> (r: Option<String>)
    ensures
        r is Some <==> crate::text::trimmed(text@).len() > 0,
        r is Some ==> r->0@ == crate::text::trimmed(text@),
{
    let name = trim(text);
    if name.unicode_len() > 0 {
        Some(name.to_owned())
    } else {
        None
    }
}

/// The name that is suggested for a copy.
pub fn suggested_copy_name(name: &str) -> (r: String)
    ensures
        r@ == name@ + " copy"@,
{
    name.to_owned().concat(" copy")
}

/// What a finished edit leads to.
#[derive(Debug)]
pub struct EditOutcome {
    /// Whether the edited profile becomes the current one.
    pub adopt: bool,
    /// A file to remove.
    pub remove_file: Option<String>,
    /// What the editor says.
    pub message: String,
}

/// A message about one name.
pub open spec fn about(head: Seq<char>, name: Seq<char>, tail: Seq<char>) -> Seq<char> {
    head + name + tail
}

fn message_about(head: &str, name: &str, tail: &str) -> (r: String)
    ensures
        r@ == about(head@, name@, tail@),
{
    head.to_owned().concat(name).concat(tail)
}

fn failure_about(head: &str, name: &str, e: &str) -> (r: String)
    ensures
        r@ == about(head@, name@, "\": "@) + e@,
{
    message_about(head, name, "\": ").concat(e)
}

/// What follows from saving a new profile.
pub fn create_outcome(name: &str, saved: &Result<(), String>) -> (r: EditOutcome)
    ensures
        r.adopt == saved is Ok,
        r.remove_file is None,
        r.message@ == (match saved {
            Ok(_) => about("Created \""@, name@, "\"."@),
            Err(e) => about("Failed to create \""@, name@, "\": "@) + e@,
        }),
{
    match saved {
        Ok(_) => EditOutcome {
            adopt: true,
            remove_file: None,
            message: message_about("Created \"", name, "\"."),
        },
        Err(e) => EditOutcome {
            adopt: false,
            remove_file: None,
            message: failure_about("Failed to create \"", name, e.as_str()),
        },
    }
}

/// Whether a rename does anything.
pub fn rename_needed(old_name: &str, new_name: &str) -> (r: bool)
    ensures
        r == (old_name@ != new_name@),
{
    !same(old_name, new_name)
}

/// What follows from saving a profile under its new name. The old file goes
/// only when the new one is there.
pub fn rename_outcome(old_name: &str, new_name: &str, saved: &Result<(), String>) -> (r: EditOutcome)
    ensures
        r.adopt == saved is Ok,
        r.remove_file is Some <==> saved is Ok,
        r.remove_file is Some ==> r.remove_file->0@ == old_name@ + ".toml"@,
        r.message@ == (match saved {
            Ok(_) => about("Renamed \""@, old_name@, "\" to \""@) + new_name@ + "\"."@,
            Err(e) => about("Failed to rename \""@, old_name@, "\" to \""@) + new_name@ + "\": "@
                + e@,
        }),
{
    match saved {
        Ok(_) => EditOutcome {
            adopt: true,
            remove_file: Some(profile_file_name(old_name)),
            message: message_about("Renamed \"", old_name, "\" to \"").concat(new_name).concat(
                "\".",
            ),
        },
        Err(e) => EditOutcome {
            adopt: false,
            remove_file: None,
            message: message_about("Failed to rename \"", old_name, "\" to \"").concat(
                new_name,
            ).concat("\": ").concat(e.as_str()),
        },
    }
}

/// What follows from saving a copy. The original's file stays as it is.
pub fn duplicate_outcome(new_name: &str, saved: &Result<(), String>) -> (r: EditOutcome)
    ensures
        r.adopt == saved is Ok,
        r.remove_file is None,
        r.message@ == (match saved {
            Ok(_) => about("Duplicated as \""@, new_name@, "\"."@),
            Err(e) => about("Failed to duplicate as \""@, new_name@, "\": "@) + e@,
        }),
{
    match saved {
        Ok(_) => EditOutcome {
            adopt: true,
            remove_file: None,
            message: message_about("Duplicated as \"", new_name, "\"."),
        },
        Err(e) => EditOutcome {
            adopt: false,
            remove_file: None,
            message: failure_about("Failed to duplicate as \"", new_name, e.as_str()),
        },
    }
}

/// What the editor asks before it deletes a profile.
pub fn delete_question(name: &str) -> (r: String)
    ensures
        r@ == about("Delete profile \""@, name@, "\"? This cannot be undone."@),
{
    message_about("Delete profile \"", name, "\"? This cannot be undone.")
}

/// What the editor says of a deletion.
pub fn delete_message(name: &str, removed: &Result<(), String>) -> (r: String)
    ensures
        r@ == (match removed {
            Ok(_) => about("Deleted \""@, name@, "\"."@),
            Err(e) => about("Failed to delete \""@, name@, "\": "@) + e@,
        }),
{
    match removed {
        Ok(_) => message_about("Deleted \"", name, "\"."),
        Err(e) => failure_about("Failed to delete \"", name, e.as_str()),
    }
}

/// What the editor says of loading a profile: nothing unless it failed.
pub fn load_message(name: &str, loaded: &Result<(), String>) -> (r: String)
    ensures
        r@ == (match loaded {
            Ok(_) => Seq::empty(),
            Err(e) => about("Failed to load \""@, name@, "\": "@) + e@,
        }),
{
    match loaded {
        Ok(_) => String::new(),
        Err(e) => failure_about("Failed to load \"", name, e.as_str()),
    }
}

/// What the editor says of saving a profile.
pub fn save_message(name: &str, saved: &Result<(), String>) -> (r: String)
    ensures
        r@ == (match saved {
            Ok(_) => about("Saved \""@, name@, "\"."@),
            Err(e) => "Save failed: "@ + e@,
        }),
{
    match saved {
        Ok(_) => message_about("Saved \"", name, "\"."),
        Err(e) => "Save failed: ".to_owned().concat(e.as_str()),
    }
}

/// What saving and applying does after the save.
#[derive(Debug)]
pub enum ApplyStep {
    /// Nothing more; say this.
    Say(String),
    /// Ask the daemon to switch this controller.
    Switch(String),
}

/// What saving and applying does after the save, over texts.
pub enum ApplyText {
    Say(Seq<char>),
    Switch(Seq<char>),
}

impl View for ApplyStep {
    type V = ApplyText;

    open spec fn view(&self) -> ApplyText {
        match self {
            ApplyStep::Say(message) => ApplyText::Say(message@),
            ApplyStep::Switch(id) => ApplyText::Switch(id@),
        }
    }
}

/// Decides what follows a save: a profile that could not be saved is never
/// applied.
pub fn apply_after_save(name: &str, controller: Option<&str>, saved: &Result<(), String>) -> (r:
    ApplyStep)
    ensures
        r@ == (match (saved, controller) {
            (Err(e), _) => ApplyText::Say("Save failed: "@ + e@),
            (Ok(_), Some(id)) => ApplyText::Switch(id@),
            (Ok(_), None) => ApplyText::Say(
                about(
                    "Saved \""@,
                    name@,
                    "\", but no controller is connected to apply it to (is ds4l_daemon running with a controller plugged in?)."@,
                ),
            ),
        }),
{
    match saved {
        Err(e) => ApplyStep::Say("Save failed: ".to_owned().concat(e.as_str())),
        Ok(_) => match controller {
            Some(id) => ApplyStep::Switch(id.to_owned()),
            None => ApplyStep::Say(
                message_about(
                    "Saved \"",
                    name,
                    "\", but no controller is connected to apply it to (is ds4l_daemon running with a controller plugged in?).",
                ),
            ),
        },
    }
}

/// What the editor says of applying a saved profile.
pub fn applied_message(name: &str, controller: &str, applied: &Result<(), String>) -> (r: String)
    ensures
        r@ == (match applied {
            Ok(_) => about("Saved and applied \""@, name@, "\" live to "@) + controller@ + "."@,
            Err(e) => about("Saved \""@, name@, "\", but could not apply live to "@) + controller@
                + ": "@ + e@,
        }),
{
    match applied {
        Ok(_) => message_about("Saved and applied \"", name, "\" live to ").concat(
            controller,
        ).concat("."),
        Err(e) => message_about("Saved \"", name, "\", but could not apply live to ").concat(
            controller,
        ).concat(": ").concat(e.as_str()),
    }
}

/// The editor shows a controller's status as it is: the mode, the connection and
/// the battery, with a mark while it charges, and that it is hidden if it is.
pub proof fn law_editor_shows_the_status(s: crate::ipc::StatusSnapshot)
    requires
        crate::ipc_laws::one_word(s.output_mode@),
        crate::ipc_laws::one_word(s.connection@),
        crate::ipc_laws::undisturbing(s.profile_name@),
        crate::ipc_laws::unbroken(s.profile_name@),
    ensures
        editor_status(crate::ipc_laws::read_back(crate::ipc::status_line_of(s))) == s.output_mode@
            + ", "@ + s.connection@ + ", "@ + crate::text::decimal(s.battery_percent as nat) + (
        if s.battery_charging {
            "% \u{26a1}"@
        } else {
            "%"@
        }) + (if s.hidden {
            ", hidden from other apps"@
        } else {
            Seq::empty()
        }),
{
    crate::ipc_laws::law_status_reply_understood(s);
    crate::ipc_laws::law_status_flags_understood(s);
    let raw = crate::ipc_laws::read_back(crate::ipc::status_line_of(s));
    let m = s.output_mode@;
    let c = s.connection@;
    let level = battery_text(crate::text::decimal(s.battery_percent as nat), s.battery_charging);
    let sep = ", "@;
    let two = seq![m, c];
    let three = seq![m, c, level];
    let parts = status_parts(raw, m, c);
    reveal_with_fuel(crate::text::joined, 5);
    assert(two.drop_last() =~= seq![m]);
    assert(three.drop_last() =~= two);
    assert(crate::text::joined(three, sep) == m + sep + c + sep + level);
    if s.hidden {
        let note = "hidden from other apps"@;
        assert(parts =~= three.push(note));
        assert(parts.drop_last() =~= three);
        reveal_strlit(", ");
        reveal_strlit("hidden from other apps");
        reveal_strlit(", hidden from other apps");
        assert(sep + note =~= ", hidden from other apps"@);
    } else {
        assert(parts =~= three);
    }
    assert(editor_status(raw) =~= m + sep + c + sep + crate::text::decimal(
        s.battery_percent as nat,
    ) + (if s.battery_charging {
        "% \u{26a1}"@
    } else {
        "%"@
    }) + (if s.hidden {
        ", hidden from other apps"@
    } else {
        Seq::empty()
    }));
}

/// The controller that was selected stays selected as long as it is listed;
/// otherwise the first entry is, and there always is one.
pub proof fn law_selection_stays(ids: Vec<String>, previous: Seq<char>)
    requires
        ids@.len() <= usize::MAX,
    ensures
        ({
            let listing = Ok::<Vec<String>, String>(ids);
            let entries = choices_of(listing);
            let active = active_choice(listing, Some(previous));
            &&& active < entries.len()
            &&& crate::text::texts(ids@).contains(previous) ==> entries[active as int] == (
                previous,
                previous,
            )
            &&& !crate::text::texts(ids@).contains(previous) ==> active == 0
            &&& active_choice(listing, None) == 0
            &&& ids@.len() > 0 ==> entries.len() == ids@.len()
        }),
{
    let all = crate::text::texts(ids@);
    crate::tray::law_place_is_the_first(all, previous, 0);
    if all.contains(previous) {
        let i = choose|i: int| 0 <= i < all.len() && all[i] == previous;
        assert(all[i] == previous);
    }
}

/// A listing without a controller shows one entry that stands for none: its id is
/// blank.
pub proof fn law_placeholder_stands_for_none(listing: Result<Vec<String>, String>)
    requires
        listing is Err || listing->Ok_0@.len() == 0,
    ensures
        choices_of(listing).len() == 1,
        choices_of(listing)[0].0.len() == 0,
        choices_of(listing)[0].1 == (if listing is Err {
            "(daemon not running)"@
        } else {
            "(no controllers connected)"@
        }),
{
}

} // verus!
