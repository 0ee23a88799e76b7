//! Profiles: what one consists of, where it is stored and how it is found.

use crate::gamepad_remap::GamepadRemapConfig;
use crate::gyro_stick::GyroStickConfig;
use crate::kbm::KbmConfig;
use crate::order::sort;
use crate::text::same;
use crate::touchpad::TouchpadConfig;
use vstd::prelude::*;
use vstd::string::*;

verus! {

/// The virtual device that a profile drives.
#[derive(Debug, Clone, Copy, PartialEq, Eq, Structural)]
pub enum OutputMode {
    Gamepad,
    Kbm,
    Xbox360,
}

impl Default for OutputMode {
    fn default() -> (r: Self)
        ensures
            r == OutputMode::Gamepad,
    {
        OutputMode::Gamepad
    }
}

impl OutputMode {
    /// The mode's name.
    pub open spec fn text(self) -> Seq<char> {
        match self {
            OutputMode::Gamepad => "Gamepad"@,
            OutputMode::Kbm => "Kbm"@,
            OutputMode::Xbox360 => "Xbox360"@,
        }
    }

    /// The mode's name.
    pub fn label(self) -> (r: &'static str)
        ensures
            r@ == self.text(),
    {
        match self {
            OutputMode::Gamepad => "Gamepad",
            OutputMode::Kbm => "Kbm",
            OutputMode::Xbox360 => "Xbox360",
        }
    }
}

/// A lightbar colour.
#[derive(Debug, Clone, Copy, PartialEq, Eq, Structural)]
pub struct LightbarColor {
    pub red: u8,
    pub green: u8,
    pub blue: u8,
}

impl Default for LightbarColor {
    fn default() -> (r: Self)
        ensures
            r == (LightbarColor { red: 0, green: 0, blue: 255 }),
    {
        LightbarColor { red: 0, green: 0, blue: 255 }
    }
}

/// What the controller shows and does on its own.
#[derive(Debug, Clone, Copy, PartialEq, Eq, Structural)]
pub struct Ds4FeedbackConfig {
    pub lightbar: LightbarColor,
    /// Whether loading the profile gives a short rumble.
    pub rumble_on_load: bool,
    /// Whether a low battery flashes the lightbar.
    pub low_battery_flash: bool,
    /// Whether the lightbar cycles through all colours. A low battery warning
    /// goes first.
    pub rainbow: bool,
}

impl Ds4FeedbackConfig {
    /// A blue lightbar, a rumble on loading, and no effects.
    pub open spec fn standard() -> Ds4FeedbackConfig {
        Ds4FeedbackConfig {
            lightbar: LightbarColor { red: 0, green: 0, blue: 255 },
            rumble_on_load: true,
            low_battery_flash: false,
            rainbow: false,
        }
    }
}

impl Default for Ds4FeedbackConfig {
    fn default() -> (r: Self)
        ensures
            r == Ds4FeedbackConfig::standard(),
    {
        Ds4FeedbackConfig {
            lightbar: LightbarColor::default(),
            rumble_on_load: true,
            low_battery_flash: false,
            rainbow: false,
        }
    }
}

/// A complete profile.
#[derive(Debug)]
pub struct Profile {
    /// The name it is shown under, which also names its file.
    pub name: String,
    pub gyro: GyroStickConfig,
    pub touchpad: TouchpadConfig,
    pub feedback: Ds4FeedbackConfig,
    pub output_mode: OutputMode,
    pub kbm: KbmConfig,
    pub gamepad_remap: GamepadRemapConfig,
    /// Whether other processes lose access to the real controller meanwhile.
    pub hide_real_controller: bool,
    /// Whether a hidden controller's motion sensors stay visible.
    pub gyro_passthrough: bool,
}

impl Profile {
    /// Whether everything but the name is as in a new profile.
    pub open spec fn is_standard(self) -> bool {
        &&& self.gyro == (GyroStickConfig {
            mode: crate::gyro_stick::GyroMode::Hold,
            gate_button: crate::gyro_stick::GateButton::L2,
        })
        &&& self.touchpad.mode == crate::touchpad::TouchpadMode::MouseRemap
        &&& self.feedback == Ds4FeedbackConfig::standard()
        &&& self.output_mode == OutputMode::Gamepad
        &&& self.kbm.is_standard()
        &&& self.gamepad_remap == GamepadRemapConfig::identity()
        &&& !self.hide_real_controller
        &&& !self.gyro_passthrough
    }

    /// A new profile under the given name.
    pub fn named(name: &str) -> (r: Profile)
        ensures
            r.name@ == name@,
            r.is_standard(),
    {
        Profile { name: name.to_owned(), ..Profile::default() }
    }
}

impl Default for Profile {
    fn default() -> (r: Self)
        ensures
            r.name@ == "Default"@,
            r.is_standard(),
    {
        Profile {
            name: "Default".to_owned(),
            gyro: GyroStickConfig::default(),
            touchpad: TouchpadConfig::default(),
            feedback: Ds4FeedbackConfig::default(),
            output_mode: OutputMode::default(),
            kbm: KbmConfig::default(),
            gamepad_remap: GamepadRemapConfig::default(),
            hide_real_controller: false,
            gyro_passthrough: false,
        }
    }
}

/// Why a profile could not be loaded or saved. The texts are those of the
/// underlying errors.
#[derive(Debug)]
pub enum ProfileError {
    Io(String),
    Toml(String),
    TomlWrite(String),
    NoConfigDir,
}

impl ProfileError {
    /// The error as one line.
    pub open spec fn text(self) -> Seq<char> {
        match self {
            ProfileError::Io(e) => "I/O error: "@ + e@,
            ProfileError::Toml(e) => "failed to parse profile TOML: "@ + e@,
            ProfileError::TomlWrite(e) => "failed to serialize profile to TOML: "@ + e@,
            ProfileError::NoConfigDir =>
                "could not determine user config directory (no $HOME?)"@,
        }
    }

    /// Writes the error as one line.
    pub fn message(&self) -> (r: String)
        ensures
            r@ == self.text(),
    {
        match self {
            ProfileError::Io(e) => "I/O error: ".to_owned().concat(e.as_str()),
            ProfileError::Toml(e) => "failed to parse profile TOML: ".to_owned().concat(e.as_str()),
            ProfileError::TomlWrite(e) => "failed to serialize profile to TOML: ".to_owned().concat(
                e.as_str(),
            ),
            ProfileError::NoConfigDir =>
                "could not determine user config directory (no $HOME?)".to_owned(),
        }
    }
}

/// Writes the name of the file that a profile is stored in.
pub fn profile_file_name(name: &str) -> (r: String)
    ensures
        r@ == name@ + ".toml"@,
{
    name.to_owned().concat(".toml")
}

/// The profile that a file stores: the file's name without its extension, if
/// the extension is the right one. A name that is only an extension has none.
pub open spec fn profile_in_file(file: Seq<char>) -> Option<Seq<char>> {
    let n = file.len() - 5;
    if n > 0 && file.skip(n) == ".toml"@ {
        Some(file.take(n))
    } else {
        None
    }
}

/// Finds out which profile a file stores.
pub fn profile_of_file(file: &str) -> (r: Option<String>)
    ensures
        crate::ipc::view_of(r) == profile_in_file(file@),
{
    let len: usize = file.unicode_len();
    if len > 5 && same(file.substring_char(len - 5, len), ".toml") {
        assert(file@.subrange(len - 5, len as int) =~= file@.skip(len - 5));
        assert(file@.subrange(0, len - 5) =~= file@.take(len - 5));
        Some(file.substring_char(0, len - 5).to_owned())
    } else {
        assert(len > 5 ==> file@.subrange(len - 5, len as int) =~= file@.skip(len - 5));
        None
    }
}

/// A profile is found again under the name it was stored under.
pub proof fn law_stored_profile_found(name: Seq<char>)
    requires
        name.len() > 0,
    ensures
        profile_in_file(name + ".toml"@) == Some(name),
{
    reveal_strlit(".toml");
    let file = name + ".toml"@;
    let n = file.len() - 5;
    assert(file.skip(n) =~= ".toml"@);
    assert(file.take(n) =~= name);
}

/// Two profiles share a file only if they share the name.
pub proof fn law_files_are_distinct(a: Seq<char>, b: Seq<char>)
    requires
        a + ".toml"@ == b + ".toml"@,
    ensures
        a == b,
{
    let n = a.len() as int;
    assert((a + ".toml"@).len() == a.len() + ".toml"@.len());
    assert((b + ".toml"@).len() == b.len() + ".toml"@.len());
    assert((a + ".toml"@).take(n) =~= a);
    assert((b + ".toml"@).take(n) =~= b);
}

/// The profiles that some files store, in the order of the files.
pub open spec fn profiles_in_files(files: Seq<Seq<char>>) -> Seq<Seq<char>>
    decreases files.len(),
{
    if files.len() == 0 {
        Seq::empty()
    } else {
        let rest = profiles_in_files(files.drop_last());
        match profile_in_file(files.last()) {
            Some(name) => rest.push(name),
            None => rest,
        }
    }
}

/// Lists the profiles in a directory, sorted by name, from its file names.
pub fn list_profile_names(files: &Vec<String>) -> (r: Vec<String>)
    ensures
        crate::order::sorted(crate::text::texts(r@)),
        crate::text::texts(r@).to_multiset() == profiles_in_files(
            crate::text::texts(files@),
        ).to_multiset(),
{
    let mut names: Vec<String> = Vec::new();
    let mut i: usize = 0;
    let ghost all = crate::text::texts(files@);
    assert(crate::text::texts(names@) =~= profiles_in_files(all.take(0)));
    while i < files.len()
        invariant
            i <= files.len(),
            all == crate::text::texts(files@),
            crate::text::texts(names@) == profiles_in_files(all.take(i as int)),
        decreases files.len() - i,
    {
        let ghost before = names@;
        proof {
            assert(all.take(i + 1).drop_last() =~= all.take(i as int));
            assert(all.take(i + 1).last() == files@[i as int]@);
        }
        if let Some(name) = profile_of_file(files[i].as_str()) {
            names.push(name);
            assert(crate::text::texts(names@) =~= crate::text::texts(before).push(name@));
        }
        i = i + 1;
    }
    assert(all.take(i as int) =~= all);
    sort(&names)
}

/// What reading a profile's file gave.
#[derive(Debug, Clone, Copy, PartialEq, Eq, Structural)]
pub enum ReadOutcome {
    Contents,
    NotFound,
    Failed,
}

/// How loading goes on.
#[derive(Debug, Clone, Copy, PartialEq, Eq, Structural)]
pub enum LoadStep {
    /// Parse what was read.
    Parse,
    /// Save a fresh default profile and use it.
    CreateDefault,
    /// Report the error.
    Fail,
}

/// Decides how loading goes on. Only the profile named `Default` comes into
/// being by itself, and only when its file does not exist.
pub fn load_step(name: &str, outcome: ReadOutcome) -> (r: LoadStep)
    ensures
        r == (match outcome {
            ReadOutcome::Contents => LoadStep::Parse,
            ReadOutcome::NotFound => if name@ == "Default"@ {
                LoadStep::CreateDefault
            } else {
                LoadStep::Fail
            },
            ReadOutcome::Failed => LoadStep::Fail,
        }),
{
    match outcome {
        ReadOutcome::Contents => LoadStep::Parse,
        ReadOutcome::NotFound => if same(name, "Default") {
            LoadStep::CreateDefault
        } else {
            LoadStep::Fail
        },
        ReadOutcome::Failed => LoadStep::Fail,
    }
}

/// A profile is listed exactly when its file is there, whatever other files are.
pub proof fn law_listed_profiles_have_files(files: Seq<Seq<char>>, name: Seq<char>)
    requires
        name.len() > 0,
    ensures
        profiles_in_files(files).contains(name) <==> files.contains(name + ".toml"@),
    decreases files.len(),
{
    if files.len() > 0 {
        let rest = files.drop_last();
        law_listed_profiles_have_files(rest, name);
        law_stored_profile_found(name);
        assert(files =~= rest.push(files.last()));
        crate::sets::lemma_contains_push(rest, files.last());
        if let Some(found) = profile_in_file(files.last()) {
            crate::sets::lemma_contains_push(profiles_in_files(rest), found);
            reveal_strlit(".toml");
            let n = files.last().len() - 5;
            assert(files.last() =~= found + ".toml"@);
        }
    }
}

/// A file that is listed is named after the profile, with the extension behind it.
pub proof fn law_file_is_named_after_its_profile(file: Seq<char>)
    ensures
        profile_in_file(file) matches Some(name) ==> name.len() > 0 && file == name + ".toml"@,
        profile_in_file(file) is None ==> file.len() <= 5 || file.skip(file.len() - 5) != ".toml"@,
{
    reveal_strlit(".toml");
    if let Some(name) = profile_in_file(file) {
        assert(file =~= name + ".toml"@);
    }
}

/// An error says what failed and ends in the cause.
pub proof fn law_profile_error_says_what_failed(e: ProfileError)
    ensures
        e matches ProfileError::Io(cause) ==> e.text() == "I/O error: "@ + cause@,
        e matches ProfileError::Toml(cause) ==> e.text() == "failed to parse profile TOML: "@ + cause@,
        e matches ProfileError::TomlWrite(cause) ==> e.text()
            == "failed to serialize profile to TOML: "@ + cause@,
        e == ProfileError::NoConfigDir ==> e.text()
            == "could not determine user config directory (no $HOME?)"@,
{
}

/// A new profile drives a gamepad unchanged, drags a mouse with the touchpad, aims
/// with the gyro while L2 is held, shows a blue light and rumbles once, and leaves
/// the real controller visible.
pub proof fn law_new_profile(p: Profile, pad: crate::ds4_input::PadState)
    requires
        p.is_standard(),
    ensures
        p.output_mode == OutputMode::Gamepad,
        p.touchpad.mode == crate::touchpad::TouchpadMode::MouseRemap,
        p.gyro.mode == crate::gyro_stick::GyroMode::Hold,
        p.gyro.gate_button.pressed_in(pad) <==> pad.l2_analog >= 128,
        crate::gamepad_remap::frame_of(pad, p.gamepad_remap) == crate::gamepad_remap::direct(pad),
        (p.feedback.lightbar.red, p.feedback.lightbar.green, p.feedback.lightbar.blue) == (
            0u8,
            0u8,
            255u8,
        ),
        p.feedback.rumble_on_load && !p.feedback.low_battery_flash && !p.feedback.rainbow,
        !p.hide_real_controller && !p.gyro_passthrough,
{
    crate::gamepad_remap::law_default_changes_nothing(pad);
}

} // verus!
