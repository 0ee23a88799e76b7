//! One controller's session: the virtual devices a profile needs, switching to
//! another profile while running, and telling a lost controller from a quiet
//! one.

use crate::discovery::Connection;
use crate::gamepad_remap::GamepadFrame;
use crate::gyro_stick::GyroStickState;
use crate::ipc::StatusSnapshot;
use crate::kbm::{collect_mapped_keys, KbmState};
use crate::profile::{OutputMode, Profile};
use crate::touchpad::{TouchpadMode, TouchpadMouseState};
use crate::uinput::InputEvent;
use crate::uinput_ds4::emit_gamepad_state;
use crate::uinput_x360::emit_x360_state;
use vstd::prelude::*;
use vstd::string::*;

verus! {

/// A kind of virtual device.
#[derive(Debug, Clone, Copy, PartialEq, Eq, Structural)]
pub enum DeviceKind {
    Ds4,
    X360,
    Mouse,
    AbsMouse,
}

/// Whether an output mode needs a kind of device under a touchpad mode: the
/// pad that the mode drives, the mouse for keyboard output and for touchpad
/// dragging, and the absolute pointer for touchpad positioning.
pub open spec fn needs(output: OutputMode, touchpad: TouchpadMode, kind: DeviceKind) -> bool {
    match kind {
        DeviceKind::Ds4 => output == OutputMode::Gamepad,
        DeviceKind::X360 => output == OutputMode::Xbox360,
        DeviceKind::Mouse => output == OutputMode::Kbm || touchpad == TouchpadMode::MouseRemap,
        DeviceKind::AbsMouse => touchpad == TouchpadMode::AbsoluteMouse,
    }
}

/// A device in a list, if it is needed.
pub open spec fn if_needed(output: OutputMode, touchpad: TouchpadMode, kind: DeviceKind) -> Seq<
    DeviceKind,
> {
    if needs(output, touchpad, kind) {
        seq![kind]
    } else {
        Seq::empty()
    }
}

/// The devices that a profile needs, in the order in which they are created.
pub open spec fn devices_of(output: OutputMode, touchpad: TouchpadMode) -> Seq<DeviceKind> {
    if_needed(output, touchpad, DeviceKind::Ds4) + if_needed(output, touchpad, DeviceKind::X360)
        + if_needed(output, touchpad, DeviceKind::Mouse) + if_needed(
        output,
        touchpad,
        DeviceKind::AbsMouse,
    )
}

/// Lists the devices that a profile needs.
pub fn needed_devices(output: OutputMode, touchpad: TouchpadMode) -> (r: Vec<DeviceKind>)
    ensures
        r@ == devices_of(output, touchpad),
{
    let mut r: Vec<DeviceKind> = Vec::new();
    if output == OutputMode::Gamepad {
        r.push(DeviceKind::Ds4);
    }
    if output == OutputMode::Xbox360 {
        r.push(DeviceKind::X360);
    }
    if output == OutputMode::Kbm || touchpad == TouchpadMode::MouseRemap {
        r.push(DeviceKind::Mouse);
    }
    if touchpad == TouchpadMode::AbsoluteMouse {
        r.push(DeviceKind::AbsMouse);
    }
    r
}

/// Lists the keys that a profile's mouse device declares besides its buttons.
pub fn extra_keys(profile: &Profile) -> (r: Vec<u16>)
    ensures
        r@.no_duplicates(),
        forall|c: u16| #[trigger]
            r@.contains(c) <==> profile.output_mode == OutputMode::Kbm && crate::kbm::mapped(
                profile.kbm,
                crate::kbm::PressedKey::Key(c),
            ),
{
    if profile.output_mode == OutputMode::Kbm {
        collect_mapped_keys(&profile.kbm)
    } else {
        Vec::new()
    }
}

/// Every output mode has a device to put its output on, and touchpad output has
/// the pointer that it goes to.
pub proof fn law_output_has_a_device(output: OutputMode, touchpad: TouchpadMode)
    ensures
        output == OutputMode::Gamepad ==> devices_of(output, touchpad).contains(DeviceKind::Ds4),
        output == OutputMode::Xbox360 ==> devices_of(output, touchpad).contains(DeviceKind::X360),
        output == OutputMode::Kbm ==> devices_of(output, touchpad).contains(DeviceKind::Mouse),
        touchpad == TouchpadMode::MouseRemap ==> devices_of(output, touchpad).contains(
            DeviceKind::Mouse,
        ),
        touchpad == TouchpadMode::AbsoluteMouse ==> devices_of(output, touchpad).contains(
            DeviceKind::AbsMouse,
        ),
{
    let d = devices_of(output, touchpad);
    assert(d.len() >= 1);
    if touchpad == TouchpadMode::MouseRemap || output == OutputMode::Kbm {
        if output == OutputMode::Kbm {
            assert(d[0] == DeviceKind::Mouse);
        } else {
            assert(d[1] == DeviceKind::Mouse);
        }
    }
    if touchpad == TouchpadMode::AbsoluteMouse {
        assert(d[1] == DeviceKind::AbsMouse);
    }
    if output == OutputMode::Gamepad {
        assert(d[0] == DeviceKind::Ds4);
    }
    if output == OutputMode::Xbox360 {
        assert(d[0] == DeviceKind::X360);
    }
}

/// What went wrong when a device was to be created.
pub open spec fn creation_error_text(kind: DeviceKind, e: Seq<char>) -> Seq<char> {
    (match kind {
        DeviceKind::Ds4 => "failed to create virtual DS4: "@,
        DeviceKind::X360 => "failed to create virtual Xbox 360 pad: "@,
        DeviceKind::Mouse => "failed to create virtual mouse: "@,
        DeviceKind::AbsMouse => "failed to create virtual absolute-position pointer: "@,
    }) + e
}

/// Writes what went wrong when a device was to be created.
pub fn creation_error(kind: DeviceKind, e: &str) -> (r: String)
    ensures
        r@ == creation_error_text(kind, e@),
{
    (match kind {
        DeviceKind::Ds4 => "failed to create virtual DS4: ",
        DeviceKind::X360 => "failed to create virtual Xbox 360 pad: ",
        DeviceKind::Mouse => "failed to create virtual mouse: ",
        DeviceKind::AbsMouse => "failed to create virtual absolute-position pointer: ",
    }).to_owned().concat(e)
}

/// The sibling devices that stay visible while the controller is hidden.
pub open spec fn exclusions_of(touchpad: TouchpadMode, gyro_passthrough: bool) -> Seq<Seq<char>> {
    (if touchpad == TouchpadMode::Passthrough {
        seq![" Touchpad"@]
    } else {
        Seq::empty()
    }) + (if gyro_passthrough {
        seq![" Motion Sensors"@]
    } else {
        Seq::empty()
    })
}

/// Lists the name suffixes of the siblings that stay visible.
pub fn passthrough_exclusions(touchpad: TouchpadMode, gyro_passthrough: bool) -> (r: Vec<String>)
    ensures
        crate::text::texts(r@) == exclusions_of(touchpad, gyro_passthrough),
{
    let mut r: Vec<String> = Vec::new();
    if touchpad == TouchpadMode::Passthrough {
        r.push(" Touchpad".to_owned());
    }
    if gyro_passthrough {
        r.push(" Motion Sensors".to_owned());
    }
    assert(crate::text::texts(r@) =~= exclusions_of(touchpad, gyro_passthrough));
    r
}

/// Whether lightbar and rumble are used on a connection.
pub fn sends_feedback(connection: Connection, allow_bt_feedback: bool) -> (r: bool)
    ensures
        r == (connection == Connection::Usb || allow_bt_feedback),
{
    connection == Connection::Usb || allow_bt_feedback
}

/// What a session remembers between reports besides its profile. A new profile
/// starts it afresh: held keys or a latched gyro make no sense under it.
#[derive(Debug)]
pub struct InputMemory {
    pub gyro: GyroStickState,
    pub touchpad: TouchpadMouseState,
    pub kbm: KbmState,
}

impl InputMemory {
    /// Whether nothing is remembered.
    pub open spec fn is_fresh(self) -> bool {
        &&& self.gyro == (GyroStickState { toggle_active: false, prev_gate_pressed: false })
        &&& self.touchpad == (TouchpadMouseState { prev_x: 0, prev_y: 0, prev_finger_count: 0 })
        &&& self.kbm.prev_pressed@ == Seq::<crate::kbm::PressedKey>::empty()
    }

    /// Nothing remembered yet.
    pub fn new() -> (r: InputMemory)
        ensures
            r.is_fresh(),
    {
        InputMemory {
            gyro: GyroStickState::default(),
            touchpad: TouchpadMouseState::default(),
            kbm: KbmState::default(),
        }
    }
}

/// What runs: the profile, what is remembered under it, and what the control
/// socket reports of it.
#[derive(Debug)]
pub struct Live {
    pub profile: Profile,
    pub memory: InputMemory,
    pub status: StatusSnapshot,
}

/// A session, with the profile that a switch in progress leads to.
#[derive(Debug)]
pub struct Session {
    pub live: Live,
    pub pending: Option<Profile>,
}

/// What happened on the way to another profile.
#[derive(Debug)]
pub enum SwitchEvent {
    /// The profile's file was read.
    Loaded { name: String, result: Result<Profile, String> },
    /// The devices that the profile needs were created, or one was not.
    DevicesCreated(Result<(), String>),
    /// The controller was given its permissions back and, where the profile
    /// asks for it, hidden again; the flag says whether it is hidden now.
    Hidden(bool),
}

/// What to do next on the way to another profile.
#[derive(Debug)]
pub enum SwitchAction {
    /// Create the devices, without touching those in use.
    CreateDevices(Vec<DeviceKind>),
    /// Give the controller its permissions back, then hide it again except for
    /// the siblings with these suffixes.
    Rehide(Vec<String>),
    /// Give the controller its permissions back and leave it visible.
    Unhide,
    /// The new profile runs: swap the devices.
    Done,
    /// Nothing has changed; report the error.
    Failed(String),
    /// The event does not belong to a switch in progress.
    Ignored,
}

/// What to do next, over plain values.
pub enum ActionView {
    CreateDevices(Seq<DeviceKind>),
    Rehide(Seq<Seq<char>>),
    Unhide,
    Done,
    Failed(Seq<char>),
    Ignored,
}

impl View for SwitchAction {
    type V = ActionView;

    open spec fn view(&self) -> ActionView {
        match self {
            SwitchAction::CreateDevices(kinds) => ActionView::CreateDevices(kinds@),
            SwitchAction::Rehide(suffixes) => ActionView::Rehide(crate::text::texts(suffixes@)),
            SwitchAction::Unhide => ActionView::Unhide,
            SwitchAction::Done => ActionView::Done,
            SwitchAction::Failed(e) => ActionView::Failed(e@),
            SwitchAction::Ignored => ActionView::Ignored,
        }
    }
}

/// The error of a profile that could not be loaded.
pub open spec fn load_error_text(name: Seq<char>, e: Seq<char>) -> Seq<char> {
    "failed to load profile \""@ + name + "\": "@ + e
}

/// What to do after the profile's file was read.
pub open spec fn after_loading(name: Seq<char>, result: Result<Profile, String>) -> ActionView {
    match result {
        Err(e) => ActionView::Failed(load_error_text(name, e@)),
        Ok(profile) => ActionView::CreateDevices(
            devices_of(profile.output_mode, profile.touchpad.mode),
        ),
    }
}

/// What to do after the devices for a profile were created, or were not.
pub open spec fn after_creating(profile: Profile, result: Result<(), String>) -> ActionView {
    match result {
        Err(e) => ActionView::Failed(e@),
        Ok(_) => if profile.hide_real_controller {
            ActionView::Rehide(exclusions_of(profile.touchpad.mode, profile.gyro_passthrough))
        } else {
            ActionView::Unhide
        },
    }
}

/// What to do after an event. Only a loaded profile starts a switch; any other
/// event without a switch in progress is ignored.
pub open spec fn next_action(pending: Option<Profile>, event: SwitchEvent) -> ActionView {
    match (event, pending) {
        (SwitchEvent::Loaded { name, result }, _) => after_loading(name@, result),
        (_, None) => ActionView::Ignored,
        (SwitchEvent::DevicesCreated(result), Some(profile)) => after_creating(profile, result),
        (SwitchEvent::Hidden(_), Some(_)) => ActionView::Done,
    }
}

/// The profile that a switch leads to after an event. A failure ends the switch.
pub open spec fn next_pending(pending: Option<Profile>, event: SwitchEvent) -> Option<Profile> {
    match event {
        SwitchEvent::Loaded { result, .. } => match result {
            Ok(profile) => Some(profile),
            Err(_) => None,
        },
        SwitchEvent::DevicesCreated(result) => match result {
            Ok(_) => pending,
            Err(_) => None,
        },
        SwitchEvent::Hidden(_) => None,
    }
}

/// Whether a live state is the one that follows from switching to a profile:
/// fresh memory, and a status that tells of the new profile. The battery does
/// not depend on the profile and stays.
pub open spec fn switched(
    before: Live,
    after: Live,
    profile: Profile,
    connection: Connection,
    hidden: bool,
) -> bool {
    &&& after.profile == profile
    &&& after.memory.is_fresh()
    &&& after.status.profile_name@ == profile.name@
    &&& after.status.output_mode@ == profile.output_mode.text()
    &&& after.status.connection@ == connection.text()
    &&& after.status.hidden == hidden
    &&& after.status.battery_percent == before.status.battery_percent
    &&& after.status.battery_charging == before.status.battery_charging
}

/// Writes the status of a session that just started.
pub fn initial_status(profile: &Profile, connection: Connection, hidden: bool) -> (r: StatusSnapshot)
    ensures
        r.profile_name@ == profile.name@,
        r.output_mode@ == profile.output_mode.text(),
        r.connection@ == connection.text(),
        r.hidden == hidden,
        r.battery_percent == 0,
        !r.battery_charging,
{
    StatusSnapshot {
        profile_name: profile.name.clone(),
        output_mode: profile.output_mode.label().to_owned(),
        connection: connection.label().to_owned(),
        hidden,
        battery_percent: 0,
        battery_charging: false,
    }
}

impl Session {
    /// A session that runs a profile.
    pub fn start(profile: Profile, connection: Connection, hidden: bool) -> (r: Session)
        ensures
            r.pending is None,
            r.live.profile == profile,
            r.live.memory.is_fresh(),
            r.live.status.profile_name@ == profile.name@,
            r.live.status.output_mode@ == profile.output_mode.text(),
            r.live.status.connection@ == connection.text(),
            r.live.status.hidden == hidden,
            r.live.status.battery_percent == 0,
            !r.live.status.battery_charging,
    {
        let status = initial_status(&profile, connection, hidden);
        Session { live: Live { profile, memory: InputMemory::new(), status }, pending: None }
    }

    /// Takes a loaded profile: everything that it needs is created before
    /// anything in use is touched.
    fn profile_loaded(&mut self, name: String, result: Result<Profile, String>) -> (r: SwitchAction)
        ensures
            final(self).live == old(self).live,
            final(self).pending == (match result {
                Ok(profile) => Some(profile),
                Err(_) => None,
            }),
            r@ == after_loading(name@, result),
    {
        match result {
            Err(e) => {
                self.pending = None;
                let mut m = "failed to load profile \"".to_owned();
                m.append(name.as_str());
                m.append("\": ");
                m.append(e.as_str());
                SwitchAction::Failed(m)
            },
            Ok(profile) => {
                let kinds = needed_devices(profile.output_mode, profile.touchpad.mode);
                self.pending = Some(profile);
                SwitchAction::CreateDevices(kinds)
            },
        }
    }

    /// Takes the outcome of creating the devices.
    fn devices_created(&mut self, result: Result<(), String>) -> (r: SwitchAction)
        requires
            old(self).pending is Some,
        ensures
            final(self).live == old(self).live,
            final(self).pending == (match result {
                Ok(_) => old(self).pending,
                Err(_) => None,
            }),
            r@ == after_creating(old(self).pending->0, result),
    {
        match result {
            Err(e) => {
                self.pending = None;
                SwitchAction::Failed(e)
            },
            Ok(()) => match &self.pending {
                Some(profile) => if profile.hide_real_controller {
                    SwitchAction::Rehide(
                        passthrough_exclusions(profile.touchpad.mode, profile.gyro_passthrough),
                    )
                } else {
                    SwitchAction::Unhide
                },
                None => SwitchAction::Ignored,
            },
        }
    }

    /// Makes the pending profile the live one. Nothing can fail any more.
    fn commit(&mut self, connection: Connection, hidden: bool)
        requires
            old(self).pending is Some,
        ensures
            final(self).pending is None,
            switched(old(self).live, final(self).live, old(self).pending->0, connection, hidden),
    {
        let mut pending: Option<Profile> = None;
        std::mem::swap(&mut pending, &mut self.pending);
        if let Some(profile) = pending {
            let percent: u8 = self.live.status.battery_percent;
            let charging = self.live.status.battery_charging;
            let status = StatusSnapshot {
                battery_percent: percent,
                battery_charging: charging,
                ..initial_status(&profile, connection, hidden)
            };
            self.live = Live { profile, memory: InputMemory::new(), status };
        }
    }

    /// Takes the next event of a switch and says what to do. The live state
    /// changes only with the last event, when everything else has succeeded.
    pub fn apply_profile_switch(&mut self, event: SwitchEvent, connection: Connection) -> (r:
        SwitchAction)
        ensures
            r@ == next_action(old(self).pending, event),
            final(self).pending == next_pending(old(self).pending, event),
            r@ is Done ==> switched(
                old(self).live,
                final(self).live,
                old(self).pending->0,
                connection,
                event->Hidden_0,
            ),
            !(r@ is Done) ==> final(self).live == old(self).live,
    {
        match event {
            SwitchEvent::Loaded { name, result } => self.profile_loaded(name, result),
            SwitchEvent::DevicesCreated(result) => {
                if self.pending.is_none() {
                    return SwitchAction::Ignored;
                }
                self.devices_created(result)
            },
            SwitchEvent::Hidden(hidden) => {
                if self.pending.is_none() {
                    return SwitchAction::Ignored;
                }
                self.commit(connection, hidden);
                SwitchAction::Done
            },
        }
    }

    /// Notes the battery of a report in the status.
    pub fn note_battery(&mut self, percent: u8, charging: bool)
        ensures
            final(self).pending == old(self).pending,
            final(self).live.profile == old(self).live.profile,
            final(self).live.memory == old(self).live.memory,
            final(self).live.status == (StatusSnapshot {
                battery_percent: percent,
                battery_charging: charging,
                ..old(self).live.status
            }),
    {
        self.live.status.battery_percent = percent;
        self.live.status.battery_charging = charging;
    }
}

/// How many read errors in a row mean that the controller is gone.
pub const DISCONNECT_ERROR_THRESHOLD: u32 = 10;

/// How long to wait after a read error, in milliseconds.
pub const ERROR_PAUSE_MS: u64 = 500;

/// How often to look for new controllers, in seconds.
pub const RESCAN_INTERVAL_SECS: u64 = 1;

/// How long a read waits for a report, in milliseconds.
pub const READ_TIMEOUT_MS: i32 = 100;

/// Counts read errors in a row. A read that brings nothing is no error.
pub fn count_errors(errors: u32, failed: bool) -> (r: u32)
    requires
        errors < DISCONNECT_ERROR_THRESHOLD,
    ensures
        r == (if failed {
            errors + 1
        } else {
            0
        }),
        forall|reads: Seq<bool>| #[trigger]
            errors_after(reads) == errors ==> errors_after(reads.push(failed)) == r,
{
    proof {
        assert forall|reads: Seq<bool>| #[trigger] errors_after(reads)
            == errors implies errors_after(reads.push(failed)) == (if failed {
            errors + 1
        } else {
            0
        }) by {
            law_failures_count_in_a_row(reads, failed);
        }
    }
    if failed {
        errors + 1
    } else {
        0
    }
}

/// Whether the controller counts as gone.
pub fn is_disconnected(errors: u32) -> (r: bool)
    ensures
        r == (errors >= DISCONNECT_ERROR_THRESHOLD),
        forall|reads: Seq<bool>| #[trigger]
            errors_after(reads) == errors && r ==> reads.len() >= 10 && !reads.subrange(
                reads.len() - 10,
                reads.len() as int,
            ).contains(false),
{
    proof {
        assert forall|reads: Seq<bool>| #[trigger]
            errors_after(reads) == errors && errors >= DISCONNECT_ERROR_THRESHOLD implies reads.len()
            >= 10 && !reads.subrange(reads.len() - 10, reads.len() as int).contains(false) by {
            law_failures_count_in_a_row(reads, true);
        }
    }
    errors >= DISCONNECT_ERROR_THRESHOLD
}

/// The error count after a run of reads.
pub open spec fn errors_after(reads: Seq<bool>) -> nat
    decreases reads.len(),
{
    if reads.len() == 0 || !reads.last() {
        0
    } else {
        errors_after(reads.drop_last()) + 1
    }
}

/// A controller counts as gone exactly when the last ten reads all failed: one
/// read that works, even without data, starts the count anew.
pub proof fn law_gone_after_ten_failures(reads: Seq<bool>)
    ensures
        errors_after(reads) >= DISCONNECT_ERROR_THRESHOLD <==> reads.len()
            >= DISCONNECT_ERROR_THRESHOLD && forall|i: int|
            reads.len() - DISCONNECT_ERROR_THRESHOLD <= i < reads.len() ==> #[trigger] reads[i],
{
    lemma_trailing_failures(reads, DISCONNECT_ERROR_THRESHOLD as nat);
}

proof fn lemma_trailing_failures(reads: Seq<bool>, n: nat)
    ensures
        errors_after(reads) >= n <==> reads.len() >= n && forall|i: int|
            reads.len() - n <= i < reads.len() ==> #[trigger] reads[i],
    decreases n,
{
    if n > 0 && reads.len() > 0 {
        let rest = reads.drop_last();
        lemma_trailing_failures(rest, (n - 1) as nat);
        if reads.last() {
            if reads.len() >= n && forall|i: int|
                reads.len() - n <= i < reads.len() ==> #[trigger] reads[i] {
                assert forall|i: int| rest.len() - (n - 1) <= i < rest.len() implies #[trigger]
                    rest[i] by {
                    assert(reads[i]);
                }
            }
            if errors_after(reads) >= n {
                assert forall|i: int| reads.len() - n <= i < reads.len() implies #[trigger]
                    reads[i] by {
                    if i < rest.len() {
                        assert(rest[i]);
                    }
                }
            }
        } else {
            assert(!reads[reads.len() - 1]);
        }
    }
}

/// The profile that a controller starts with: the one that was asked for, or
/// where it could not be loaded the built-in defaults under its name.
pub fn starting_profile(name: &str, loaded: Result<Profile, String>) -> (r: Profile)
    ensures
        match loaded {
            Ok(profile) => r == profile,
            Err(_) => r.name@ == name@ && r.is_standard(),
        },
{
    match loaded {
        Ok(profile) => profile,
        Err(_) => Profile::named(name),
    }
}

/// A frame whose right stick has been moved to a position, as gyro motion does.
pub open spec fn with_right_stick(frame: GamepadFrame, x: u8, y: u8) -> GamepadFrame {
    GamepadFrame { right_x: x, right_y: y, ..frame }
}

fn move_right_stick(frame: &GamepadFrame, x: u8, y: u8) -> (r: GamepadFrame)
    ensures
        r == with_right_stick(*frame, x, y),
{
    GamepadFrame { right_x: x, right_y: y, ..*frame }
}

/// The events of a pad in the state of a frame. Keyboard output has no pad.
pub open spec fn pad_events(mode: OutputMode, frame: GamepadFrame) -> Seq<InputEvent> {
    match mode {
        OutputMode::Gamepad => crate::uinput_ds4::ds4_events(frame),
        OutputMode::Xbox360 => crate::uinput_x360::x360_events(frame),
        OutputMode::Kbm => Seq::empty(),
    }
}

fn emit_pad_state(mode: OutputMode, frame: &GamepadFrame) -> (r: Vec<InputEvent>)
    ensures
        r@ == pad_events(mode, *frame),
{
    match mode {
        OutputMode::Gamepad => emit_gamepad_state(frame),
        OutputMode::Xbox360 => emit_x360_state(frame),
        OutputMode::Kbm => Vec::new(),
    }
}

/// Lists the events of a pad for a remapped frame and the position that gyro
/// motion gave its right stick. Gyro moves the stick that comes out of the
/// remapping, whatever feeds it.
pub fn gamepad_events(mode: OutputMode, frame: &GamepadFrame, right_x: u8, right_y: u8) -> (r: Vec<
    InputEvent,
>)
    ensures
        r@ == pad_events(mode, with_right_stick(*frame, right_x, right_y)),
{
    let moved = move_right_stick(frame, right_x, right_y);
    emit_pad_state(mode, &moved)
}

/// A profile gets the devices it needs and no others, each once: the pad of its
/// output mode, a mouse for keyboard output or for touchpad dragging, and the
/// absolute pointer for touchpad positioning. Pads come before pointers.
pub proof fn law_devices_are_those_needed(output: OutputMode, touchpad: TouchpadMode, i: int)
    requires
        0 <= i < devices_of(output, touchpad).len(),
    ensures
        ({
            let d = devices_of(output, touchpad);
            &&& d.len() <= 2
            &&& d[i] == DeviceKind::Ds4 ==> output == OutputMode::Gamepad && i == 0
            &&& d[i] == DeviceKind::X360 ==> output == OutputMode::Xbox360 && i == 0
            &&& d[i] == DeviceKind::Mouse ==> output == OutputMode::Kbm || touchpad
                == TouchpadMode::MouseRemap
            &&& d[i] == DeviceKind::AbsMouse ==> touchpad == TouchpadMode::AbsoluteMouse && i
                == d.len() - 1
            &&& d.no_duplicates()
        }),
{
}

/// A sibling stays visible exactly where the profile leaves it to the kernel: the
/// touchpad in passthrough mode, and the motion sensors if the profile says so.
pub proof fn law_exclusions_follow_the_profile(touchpad: TouchpadMode, gyro_passthrough: bool)
    ensures
        ({
            let e = exclusions_of(touchpad, gyro_passthrough);
            &&& e.contains(" Touchpad"@) <==> touchpad == TouchpadMode::Passthrough
            &&& e.contains(" Motion Sensors"@) <==> gyro_passthrough
            &&& forall|i: int|
                0 <= i < e.len() ==> #[trigger] e[i] == " Touchpad"@ || e[i] == " Motion Sensors"@
        }),
{
    reveal_strlit(" Touchpad");
    reveal_strlit(" Motion Sensors");
    assert(" Touchpad"@.len() == 9);
    assert(" Motion Sensors"@.len() == 15);
    let e = exclusions_of(touchpad, gyro_passthrough);
    if touchpad == TouchpadMode::Passthrough {
        assert(e[0] == " Touchpad"@);
    }
    if gyro_passthrough {
        assert(e[e.len() - 1] == " Motion Sensors"@);
    }
}

/// A switch that nothing stops goes through its stages in order: the profile's
/// devices are created, then the controller is hidden or shown as the profile
/// says, and then the profile runs.
pub proof fn law_switch_goes_through_its_stages(name: String, profile: Profile, hidden: bool)
    ensures
        ({
            let loaded = SwitchEvent::Loaded { name, result: Ok(profile) };
            let created = SwitchEvent::DevicesCreated(Ok(()));
            let p1 = next_pending(None, loaded);
            let p2 = next_pending(p1, created);
            &&& next_action(None, loaded) == ActionView::CreateDevices(
                devices_of(profile.output_mode, profile.touchpad.mode),
            )
            &&& p1 == Some(profile)
            &&& profile.hide_real_controller ==> next_action(p1, created) == ActionView::Rehide(
                exclusions_of(profile.touchpad.mode, profile.gyro_passthrough),
            )
            &&& !profile.hide_real_controller ==> next_action(p1, created) == ActionView::Unhide
            &&& p2 == Some(profile)
            &&& next_action(p2, SwitchEvent::Hidden(hidden)) == ActionView::Done
            &&& next_pending(p2, SwitchEvent::Hidden(hidden)) is None
        }),
{
}

/// A switch that fails is over: the failure is reported, no profile is left
/// waiting, and later events of that switch change nothing.
pub proof fn law_failed_switch_is_over(pending: Option<Profile>, event: SwitchEvent, later: SwitchEvent)
    requires
        next_action(pending, event) is Failed,
        !(later is Loaded),
    ensures
        next_pending(pending, event) is None,
        next_action(None, later) == ActionView::Ignored,
        next_pending(None, later) is None,
{
}

/// What failed is told: the error of a profile names the profile and ends in the
/// cause, and the error of a device ends in the cause.
pub proof fn law_failures_tell_the_cause(name: Seq<char>, kind: DeviceKind, e: Seq<char>)
    ensures
        crate::hide_controller::ends_in(load_error_text(name, e), e),
        crate::hide_controller::ends_in(creation_error_text(kind, e), e),
        exists|head: Seq<char>, tail: Seq<char>| #[trigger]
            (head + name + tail) == load_error_text(name, e),
{
    let a = load_error_text(name, e);
    assert(a.skip(a.len() - e.len()) =~= e);
    let b = creation_error_text(kind, e);
    assert(b.skip(b.len() - e.len()) =~= e);
    let head = "failed to load profile \""@;
    let tail = "\": "@ + e;
    assert(head + name + tail =~= a);
}

/// One read that works starts the count of failures anew, and each failure adds
/// one, so ten in a row are what it takes.
pub proof fn law_failures_count_in_a_row(reads: Seq<bool>, failed: bool)
    ensures
        errors_after(reads.push(failed)) == (if failed {
            errors_after(reads) + 1
        } else {
            0
        }),
        errors_after(reads) >= 10 ==> reads.len() >= 10 && !reads.subrange(
            reads.len() - 10,
            reads.len() as int,
        ).contains(false),
{
    assert(reads.push(failed).drop_last() =~= reads);
    if errors_after(reads) >= 10 {
        lemma_trailing_failures(reads, 10);
        let last = reads.subrange(reads.len() - 10, reads.len() as int);
        if last.contains(false) {
            let i = choose|i: int| 0 <= i < last.len() && last[i] == false;
            assert(reads[reads.len() - 10 + i]);
        }
    }
}

/// Moving the right stick of a frame changes where that stick is and nothing else.
pub proof fn law_gyro_moves_the_right_stick_only(frame: GamepadFrame, x: u8, y: u8)
    ensures
        ({
            let f = with_right_stick(frame, x, y);
            &&& (f.right_x, f.right_y) == (x, y)
            &&& (GamepadFrame { right_x: frame.right_x, right_y: frame.right_y, ..f }) == frame
        }),
{
}

/// A switched session tells of the profile that it runs, over the connection it
/// has, and keeps what it knew of the battery; nothing of the time before the
/// switch is held or latched.
pub proof fn law_switched_session_is_the_new_profile(
    before: Live,
    after: Live,
    profile: Profile,
    connection: Connection,
    hidden: bool,
)
    requires
        switched(before, after, profile, connection, hidden),
    ensures
        after.profile == profile,
        after.status.profile_name@ == profile.name@,
        after.status.output_mode@ == profile.output_mode.text(),
        after.status.connection@ == connection.text(),
        after.status.hidden == hidden,
        (after.status.battery_percent, after.status.battery_charging) == (
            before.status.battery_percent,
            before.status.battery_charging,
        ),
        after.memory.kbm.prev_pressed@.len() == 0,
        !after.memory.gyro.toggle_active && !after.memory.gyro.prev_gate_pressed,
        after.memory.touchpad.prev_finger_count == 0,
{
}

/// The names of modes and connections say which they are.
pub proof fn law_names_say_what_they_name(mode: OutputMode, connection: Connection)
    ensures
        mode.text() == "Gamepad"@ <==> mode == OutputMode::Gamepad,
        mode.text() == "Kbm"@ <==> mode == OutputMode::Kbm,
        mode.text() == "Xbox360"@ <==> mode == OutputMode::Xbox360,
        connection.text() == "USB"@ <==> connection == Connection::Usb,
        connection.text() == "Bluetooth"@ <==> connection == Connection::Bluetooth,
{
    reveal_strlit("Gamepad");
    reveal_strlit("Kbm");
    reveal_strlit("Xbox360");
    reveal_strlit("USB");
    reveal_strlit("Bluetooth");
    assert("Gamepad"@.len() == 7 && "Gamepad"@[0] == 'G');
    assert("Kbm"@.len() == 3);
    assert("Xbox360"@.len() == 7 && "Xbox360"@[0] == 'X');
    assert("USB"@.len() == 3);
    assert("Bluetooth"@.len() == 9);
}

/// The error of a device says which device could not be created.
pub proof fn law_creation_error_names_the_device(kind: DeviceKind, e: Seq<char>)
    ensures
        creation_error_text(kind, e) == "failed to create virtual "@ + (match kind {
            DeviceKind::Ds4 => "DS4: "@,
            DeviceKind::X360 => "Xbox 360 pad: "@,
            DeviceKind::Mouse => "mouse: "@,
            DeviceKind::AbsMouse => "absolute-position pointer: "@,
        }) + e,
{
    reveal_strlit("failed to create virtual ");
    reveal_strlit("DS4: ");
    reveal_strlit("Xbox 360 pad: ");
    reveal_strlit("mouse: ");
    reveal_strlit("absolute-position pointer: ");
    reveal_strlit("failed to create virtual DS4: ");
    reveal_strlit("failed to create virtual Xbox 360 pad: ");
    reveal_strlit("failed to create virtual mouse: ");
    reveal_strlit("failed to create virtual absolute-position pointer: ");
    let head = "failed to create virtual "@;
    assert(head + "DS4: "@ =~= "failed to create virtual DS4: "@);
    assert(head + "Xbox 360 pad: "@ =~= "failed to create virtual Xbox 360 pad: "@);
    assert(head + "mouse: "@ =~= "failed to create virtual mouse: "@);
    assert(head + "absolute-position pointer: "@
        =~= "failed to create virtual absolute-position pointer: "@);
}

} // verus!
