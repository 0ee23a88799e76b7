//! The control socket's protocol: one line of text in, one line out.
//!
//! ```text
//! PING                       OK PONG
//! LIST_CONTROLLERS           OK <id>,<id>,..., or OK where there is none
//! STATUS <id>                OK profile=.. mode=.. connection=.. hidden=.. battery=.. charging=..
//! LIST_PROFILES              OK <name>,<name>,...
//! SWITCH_PROFILE <id> <name> OK, or ERR <message>
//! ```
//!
//! Everything after the controller id and one space, up to the line end, is the
//! profile name as it stands, so a name may contain spaces and end in them. Any other line is answered `ERR unknown command`.

use crate::text::{
    bool_text, chars_of, decimal_text, join, same, space, split, split_once, strip_prefix, trim,
    trim_start,
};
use vstd::prelude::*;
use vstd::string::*;

verus! {

/// What a line asks for.
#[derive(Debug)]
pub enum Command {
    Ping,
    ListControllers,
    Status(String),
    ListProfiles,
    SwitchProfile(String, String),
    Unknown,
}

/// What a line asks for, over texts.
pub enum Request {
    Ping,
    ListControllers,
    Status(Seq<char>),
    ListProfiles,
    SwitchProfile(Seq<char>, Seq<char>),
    Unknown,
}

impl View for Command {
    type V = Request;

    open spec fn view(&self) -> Request {
        match self {
            Command::Ping => Request::Ping,
            Command::ListControllers => Request::ListControllers,
            Command::Status(id) => Request::Status(id@),
            Command::ListProfiles => Request::ListProfiles,
            Command::SwitchProfile(id, name) => Request::SwitchProfile(id@, name@),
            Command::Unknown => Request::Unknown,
        }
    }
}

/// What the rest of a `STATUS` line asks for.
pub open spec fn status_request_in(rest: Seq<char>) -> Request {
    let id = crate::text::trimmed(rest);
    if id.len() == 0 {
        Request::Unknown
    } else {
        Request::Status(id)
    }
}

/// What the rest of a `SWITCH_PROFILE` line asks for. The first space ends the
/// controller id, and all that follows it is the name; an id or a name that is
/// blank asks for nothing.
pub open spec fn switch_request_in(rest: Seq<char>) -> Request {
    let at = crate::text::first_at(rest, ' ');
    let id = crate::text::trimmed(rest.take(at));
    let name = rest.skip(at + 1);
    if rest.contains(' ') && id.len() > 0 && crate::text::trimmed(name).len() > 0 {
        Request::SwitchProfile(id, name)
    } else {
        Request::Unknown
    }
}

/// What a command asks for.
pub open spec fn request_in(line: Seq<char>) -> Request {
    if line == "PING"@ {
        Request::Ping
    } else if line == "LIST_CONTROLLERS"@ {
        Request::ListControllers
    } else if line == "LIST_PROFILES"@ {
        Request::ListProfiles
    } else if "STATUS "@.is_prefix_of(line) {
        status_request_in(line.skip("STATUS "@.len() as int))
    } else if "SWITCH_PROFILE "@.is_prefix_of(line) {
        switch_request_in(line.skip("SWITCH_PROFILE "@.len() as int))
    } else {
        Request::Unknown
    }
}

/// Parses a command.
pub fn parse_command(line: &str) -> (r: Command)
    ensures
        r@ == request_in(line@),
{
    if same(line, "PING") {
        return Command::Ping;
    }
    if same(line, "LIST_CONTROLLERS") {
        return Command::ListControllers;
    }
    if same(line, "LIST_PROFILES") {
        return Command::ListProfiles;
    }
    if let Some(rest) = strip_prefix(line, "STATUS ") {
        let id = trim(rest);
        return if id.unicode_len() == 0 {
            Command::Unknown
        } else {
            Command::Status(id.to_owned())
        };
    }
    if let Some(rest) = strip_prefix(line, "SWITCH_PROFILE ") {
        if let Some((id, name)) = split_once(rest, ' ') {
            let id = trim(id);
            if id.unicode_len() > 0 && trim(name).unicode_len() > 0 {
                return Command::SwitchProfile(id.to_owned(), name.to_owned());
            }
        }
        return Command::Unknown;
    }
    Command::Unknown
}

/// One controller's state as `STATUS` reports it.
#[derive(Debug)]
pub struct StatusSnapshot {
    pub profile_name: String,
    pub output_mode: String,
    pub connection: String,
    pub hidden: bool,
    pub battery_percent: u8,
    pub battery_charging: bool,
}

impl Default for StatusSnapshot {
    fn default() -> (r: Self)
        ensures
            r.profile_name@.len() == 0,
            r.output_mode@.len() == 0,
            r.connection@.len() == 0,
            !r.hidden,
            r.battery_percent == 0,
            !r.battery_charging,
    {
        StatusSnapshot {
            profile_name: String::new(),
            output_mode: String::new(),
            connection: String::new(),
            hidden: false,
            battery_percent: 0,
            battery_charging: false,
        }
    }
}

/// The reply to `STATUS`.
pub open spec fn status_line_of(s: StatusSnapshot) -> Seq<char> {
    "OK profile="@ + s.profile_name@ + " mode="@ + s.output_mode@ + " connection="@ + s.connection@
        + " hidden="@ + crate::text::bool_text_of(s.hidden) + " battery="@ + crate::text::decimal(
        s.battery_percent as nat,
    ) + " charging="@ + crate::text::bool_text_of(s.battery_charging)
}

/// Writes the reply to `STATUS`.
pub fn status_line(s: &StatusSnapshot) -> (r: String)
    ensures
        r@ == status_line_of(*s),
{
    let mut r = "OK profile=".to_owned();
    r.append(s.profile_name.as_str());
    r.append(" mode=");
    r.append(s.output_mode.as_str());
    r.append(" connection=");
    r.append(s.connection.as_str());
    r.append(" hidden=");
    r.append(bool_text(s.hidden));
    r.append(" battery=");
    r.append(decimal_text(s.battery_percent as u64).as_str());
    r.append(" charging=");
    r.append(bool_text(s.battery_charging));
    r
}

/// The value of the first word that assigns to the key.
pub open spec fn assigned(words: Seq<Seq<char>>, key: Seq<char>) -> Option<Seq<char>>
    decreases words.len(),
{
    if words.len() == 0 {
        None
    } else if (key + seq!['=']).is_prefix_of(words[0]) {
        Some(words[0].skip((key.len() + 1) as int))
    } else {
        assigned(words.skip(1), key)
    }
}

/// The value that a status line gives to a key, if any.
pub open spec fn status_field(line: Seq<char>, key: Seq<char>) -> Option<Seq<char>> {
    assigned(crate::text::tokens(line), key)
}

/// The view of an optional string.
pub open spec fn view_of(s: Option<String>) -> Option<Seq<char>> {
    match s {
        Some(s) => Some(s@),
        None => None,
    }
}

/// Finds the value of a `key=value` word in a status line.
pub fn parse_status_field(status_line: &str, key: &str) -> (r: Option<String>)
    ensures
        view_of(r) == status_field(status_line@, key@),
{
    let mut prefix = key.to_owned();
    prefix.append("=");
    proof {
        reveal_strlit("=");
        assert("="@ =~= seq!['=']);
    }
    let cs = chars_of(status_line);
    let ghost text = status_line@;
    let mut i: usize = 0;
    assert(text.skip(0) =~= text);
    while i < cs.len()
        invariant
            i <= cs.len(),
            cs@ == text,
            text == status_line@,
            prefix@ == key@ + seq!['='],
            status_field(text, key@) == status_field(text.skip(i as int), key@),
        decreases cs.len() - i,
    {
        let ghost rest = text.skip(i as int);
        if space(cs[i]) {
            assert(rest.skip(1) =~= text.skip(i + 1));
            i = i + 1;
        } else {
            let mut end: usize = i;
            while end < cs.len() && !space(cs[end])
                invariant
                    i <= end <= cs.len(),
                    cs@ == text,
                    rest == text.skip(i as int),
                    end - i + crate::text::word_len(text.skip(end as int))
                        == crate::text::word_len(rest),
                decreases cs.len() - end,
            {
                assert(text.skip(end as int).skip(1) =~= text.skip(end + 1));
                end = end + 1;
            }
            proof {
                crate::text::lemma_word_len(rest);
            }
            let word = status_line.substring_char(i, end);
            assert(word@ =~= rest.take(end - i));
            assert(rest.skip(end - i) =~= text.skip(end as int));
            let ghost words = crate::text::tokens(rest);
            assert(words =~= seq![word@] + crate::text::tokens(text.skip(end as int)));
            assert(words.skip(1) =~= crate::text::tokens(text.skip(end as int)));
            if let Some(value) = strip_prefix(word, prefix.as_str()) {
                return Some(value.to_owned());
            }
            i = end;
        }
    }
    assert(text.skip(i as int).len() == 0);
    None
}

/// One running controller as the socket sees it.
#[derive(Debug)]
pub struct ControllerHandle {
    pub id: String,
    pub status: StatusSnapshot,
}

/// What the socket relays to a controller's own thread.
#[derive(Debug)]
pub enum PendingCommand {
    SwitchProfile { name: String },
}

/// The running controllers. No id occurs twice.
#[derive(Debug)]
pub struct Registry {
    handles: Vec<ControllerHandle>,
}

impl View for Registry {
    type V = Seq<ControllerHandle>;

    closed spec fn view(&self) -> Seq<ControllerHandle> {
        self.handles@
    }
}

/// No two controllers have the same id.
spec fn distinct_ids(handles: Seq<ControllerHandle>) -> bool {
    forall|i: int, j: int|
        0 <= i < handles.len() && 0 <= j < handles.len() && i != j
            ==> #[trigger] handles[i].id@ != #[trigger] handles[j].id@
}

impl Registry {
    /// Whether the controller at a position has the given id.
    pub open spec fn named(self, i: int, id: Seq<char>) -> bool {
        0 <= i < self@.len() && self@[i].id@ == id
    }

    #[verifier::type_invariant]
    spec fn distinct(self) -> bool {
        distinct_ids(self.handles@)
    }

    /// Whether a controller with the given id is running.
    pub open spec fn has(self, id: Seq<char>) -> bool {
        exists|i: int| self.named(i, id)
    }

    /// The status of the controller with the given id.
    pub open spec fn lookup(self, id: Seq<char>) -> Option<StatusSnapshot> {
        if self.has(id) {
            Some(self@[choose|i: int| self.named(i, id)].status)
        } else {
            None
        }
    }

    /// The ids of all controllers.
    pub open spec fn id_texts(self) -> Seq<Seq<char>> {
        self@.map_values(|h: ControllerHandle| h.id@)
    }

    proof fn lemma_lookup(self, i: int)
        requires
            self.distinct(),
            0 <= i < self.handles@.len(),
        ensures
            self.lookup(self.handles@[i].id@) == Some(self.handles@[i].status),
    {
        let id = self.handles@[i].id@;
        assert(self.named(i, id));
        let j = choose|j: int| self.named(j, id);
        assert(self.named(j, id));
    }

    proof fn lemma_absent(self, id: Seq<char>)
        requires
            forall|i: int| 0 <= i < self.handles@.len() ==> #[trigger] self.handles@[i].id@ != id,
        ensures
            !self.has(id),
            self.lookup(id) is None,
    {
        assert forall|i: int| !self.named(i, id) by {}
    }

    /// A registry without controllers.
    pub fn new() -> (r: Registry)
        ensures
            r@.len() == 0,
            forall|id: Seq<char>| #[trigger] r.lookup(id) is None,
    {
        let r = Registry { handles: Vec::new() };
        proof {
            assert forall|id: Seq<char>| #[trigger] r.lookup(id) is None by {
                r.lemma_absent(id);
            }
        }
        r
    }

    /// The position of the controller with the given id.
    fn position(&self, id: &str) -> (r: Option<usize>)
        ensures
            r is Some <==> self.has(id@),
            r is Some ==> self.named(r->0 as int, id@),
    {
        let mut i: usize = 0;
        while i < self.handles.len()
            invariant
                i <= self.handles.len(),
                forall|n: int| 0 <= n < i ==> #[trigger] self.handles@[n].id@ != id@,
            decreases self.handles.len() - i,
        {
            if same(self.handles[i].id.as_str(), id) {
                assert(self.named(i as int, id@));
                return Some(i);
            }
            i = i + 1;
        }
        proof {
            self.lemma_absent(id@);
        }
        None
    }

    /// The status of the controller with the given id.
    pub fn get(&self, id: &str) -> (r: Option<&StatusSnapshot>)
        ensures
            r is Some <==> self.has(id@),
            r is Some ==> Some(*r->0) == self.lookup(id@),
    {
        proof {
            use_type_invariant(self);
        }
        match self.position(id) {
            Some(i) => {
                proof {
                    self.lemma_lookup(i as int);
                }
                Some(&self.handles[i].status)
            },
            None => None,
        }
    }

    /// Registers a controller, in place of one with the same id.
    pub fn insert(&mut self, handle: ControllerHandle)
        ensures
            forall|id: Seq<char>| #[trigger]
                final(self).lookup(id) == (if id == handle.id@ {
                    Some(handle.status)
                } else {
                    old(self).lookup(id)
                }),
    {
        proof {
            use_type_invariant(&*self);
        }
        let ghost before = *self;
        let ghost new_handle = handle;
        let ghost at: int;
        let found = self.position(handle.id.as_str());
        let mut handles: Vec<ControllerHandle> = Vec::new();
        std::mem::swap(&mut handles, &mut self.handles);
        match found {
            Some(i) => {
                proof {
                    at = i as int;
                }
                handles.set(i, handle);
            },
            None => {
                proof {
                    at = handles@.len() as int;
                    assert forall|n: int| 0 <= n < before.handles@.len() implies #[trigger]
                        before.handles@[n].id@ != new_handle.id@ by {
                        if before.handles@[n].id@ == new_handle.id@ {
                            assert(before.named(n, new_handle.id@));
                        }
                    }
                }
                handles.push(handle);
            },
        }
        proof {
            assert(handles@[at] == new_handle);
            assert forall|n: int| 0 <= n < handles@.len() && n != at implies
                n < before.handles@.len() && #[trigger] handles@[n] == before.handles@[n] by {}
            assert(distinct_ids(handles@));
        }
        self.handles = handles;
        proof {
            assert forall|id: Seq<char>| #[trigger]
                self.lookup(id) == (if id == new_handle.id@ {
                    Some(new_handle.status)
                } else {
                    before.lookup(id)
                }) by {
                if id == new_handle.id@ {
                    self.lemma_lookup(at);
                } else if before.has(id) {
                    let n = choose|n: int| before.named(n, id);
                    assert(before.named(n, id));
                    before.lemma_lookup(n);
                    assert(self.handles@[n] == before.handles@[n]);
                    self.lemma_lookup(n);
                } else {
                    assert forall|n: int| 0 <= n < self.handles@.len() implies #[trigger]
                        self.handles@[n].id@ != id by {
                        if n != at {
                            assert(self.handles@[n] == before.handles@[n]);
                            assert(!before.named(n, id));
                        }
                    }
                    self.lemma_absent(id);
                }
            }
        }
    }

    /// Takes a controller out.
    pub fn remove(&mut self, id: &str)
        ensures
            forall|other: Seq<char>| #[trigger]
                final(self).lookup(other) == (if other == id@ {
                    None
                } else {
                    old(self).lookup(other)
                }),
    {
        proof {
            use_type_invariant(&*self);
        }
        let ghost before = *self;
        match self.position(id) {
            Some(i) => {
                let ghost at = i as int;
                let mut handles: Vec<ControllerHandle> = Vec::new();
                std::mem::swap(&mut handles, &mut self.handles);
                handles.remove(i);
                proof {
                    assert forall|n: int| 0 <= n < handles@.len() implies #[trigger]
                        handles@[n] == before.handles@[if n < at {
                        n
                    } else {
                        n + 1
                    }] by {}
                    assert(distinct_ids(handles@));
                }
                self.handles = handles;
                proof {
                    assert forall|other: Seq<char>| #[trigger]
                        self.lookup(other) == (if other == id@ {
                            None
                        } else {
                            before.lookup(other)
                        }) by {
                        if other != id@ && before.has(other) {
                            let n = choose|n: int| before.named(n, other);
                            assert(before.named(n, other));
                            before.lemma_lookup(n);
                            let m = if n < at {
                                n
                            } else {
                                n - 1
                            };
                            assert(self.handles@[m] == before.handles@[n]);
                            self.lemma_lookup(m);
                        } else {
                            assert forall|m: int| 0 <= m < self.handles@.len() implies #[trigger]
                                self.handles@[m].id@ != other by {
                                let n = if m < at {
                                    m
                                } else {
                                    m + 1
                                };
                                assert(self.handles@[m] == before.handles@[n]);
                                if other == id@ {
                                    assert(before.handles@[n].id@ != before.handles@[at].id@);
                                } else {
                                    assert(!before.named(n, other));
                                }
                            }
                            self.lemma_absent(other);
                        }
                    }
                }
            },
            None => {
                proof {
                    assert(!before.has(id@));
                }
            },
        }
    }

    /// Lists the ids of all controllers, each once.
    pub fn ids(&self) -> (r: Vec<String>)
        ensures
            crate::text::texts(r@) == self.id_texts(),
            self.id_texts().no_duplicates(),
    {
        proof {
            use_type_invariant(self);
        }
        let mut r: Vec<String> = Vec::new();
        let mut i: usize = 0;
        while i < self.handles.len()
            invariant
                i <= self.handles.len(),
                crate::text::texts(r@) == self.id_texts().take(i as int),
            decreases self.handles.len() - i,
        {
            let ghost before = r@;
            r.push(self.handles[i].id.clone());
            i = i + 1;
            proof {
                assert(crate::text::texts(r@) =~= crate::text::texts(before).push(
                    self.handles@[i - 1].id@,
                ));
                assert(self.id_texts().take(i as int) =~= self.id_texts().take(i - 1).push(
                    self.handles@[i - 1].id@,
                ));
            }
        }
        assert(self.id_texts().take(i as int) =~= self.id_texts());
        r
    }
}

/// What a line is answered with. Two requests need more than the registry: the
/// list of profiles, and a switch, which the controller's own thread performs.
#[derive(Debug)]
pub enum Answer {
    Line(String),
    ListProfiles,
    Switch { id: String, name: String },
}

/// What a line is answered with, over texts.
pub enum AnswerText {
    Line(Seq<char>),
    ListProfiles,
    Switch(Seq<char>, Seq<char>),
}

impl View for Answer {
    type V = AnswerText;

    open spec fn view(&self) -> AnswerText {
        match self {
            Answer::Line(line) => AnswerText::Line(line@),
            Answer::ListProfiles => AnswerText::ListProfiles,
            Answer::Switch { id, name } => AnswerText::Switch(id@, name@),
        }
    }
}

/// The reply to a request for a controller that is not running.
pub open spec fn unknown_controller(id: Seq<char>) -> Seq<char> {
    "ERR unknown controller \""@ + id + "\""@
}

fn unknown_controller_line(id: &str) -> (r: String)
    ensures
        r@ == unknown_controller(id@),
{
    let mut r = "ERR unknown controller \"".to_owned();
    r.append(id);
    r.append("\"");
    r
}

/// The reply that lists the controllers.
pub open spec fn controllers_line(ids: Seq<Seq<char>>) -> Seq<char> {
    if ids.len() == 0 {
        "OK"@
    } else {
        "OK "@ + crate::text::joined(ids, ","@)
    }
}

/// The answer to a request.
pub open spec fn answer_to(request: Request, registry: Registry) -> AnswerText {
    match request {
        Request::Ping => AnswerText::Line("OK PONG"@),
        Request::ListControllers => AnswerText::Line(controllers_line(registry.id_texts())),
        Request::Status(id) => AnswerText::Line(
            match registry.lookup(id) {
                Some(s) => status_line_of(s),
                None => unknown_controller(id),
            },
        ),
        Request::ListProfiles => AnswerText::ListProfiles,
        Request::SwitchProfile(id, name) => if registry.has(id) {
            AnswerText::Switch(id, name)
        } else {
            AnswerText::Line(unknown_controller(id))
        },
        Request::Unknown => AnswerText::Line("ERR unknown command"@),
    }
}

/// Writes the reply that lists some names.
fn list_reply(names: &Vec<String>) -> (r: String)
    ensures
        r@ == "OK "@ + crate::text::joined(crate::text::texts(names@), ","@),
{
    let mut r = "OK ".to_owned();
    r.append(join(names, ",").as_str());
    r
}

/// A line as it was read, without its line end.
pub open spec fn without_line_end(line: Seq<char>) -> Seq<char> {
    if line.len() > 0 && line.last() == '\n' {
        line.drop_last()
    } else {
        line
    }
}

/// The command that a line holds. White space around it does not count, except
/// at the end of a switch request, where it belongs to the profile's name.
pub open spec fn command_text(line: Seq<char>) -> Seq<char> {
    let body = crate::text::trim_left(without_line_end(line));
    if "SWITCH_PROFILE "@.is_prefix_of(body) {
        body
    } else {
        crate::text::trimmed(body)
    }
}

/// Takes the command out of a line.
fn command_of<'a>(line: &'a str) -> (r: &'a str)
    ensures
        r@ == command_text(line@),
{
    let n: usize = line.unicode_len();
    let body = if n > 0 && line.get_char(n - 1) == '\n' {
        assert(line@.subrange(0, n - 1) =~= line@.drop_last());
        line.substring_char(0, n - 1)
    } else {
        line
    };
    let body = trim_start(body);
    if strip_prefix(body, "SWITCH_PROFILE ").is_some() {
        body
    } else {
        trim(body)
    }
}

/// Answers a line as it was read, line end included.
pub fn handle_line(line: &str, registry: &Registry) -> (r: Answer)
    ensures
        r@ == answer_to(request_in(command_text(line@)), *registry),
{
    match parse_command(command_of(line)) {
        Command::Ping => Answer::Line("OK PONG".to_owned()),
        Command::ListControllers => {
            let ids = registry.ids();
            assert(crate::text::texts(ids@).len() == ids@.len());
            Answer::Line(
                if ids.len() == 0 {
                    "OK".to_owned()
                } else {
                    list_reply(&ids)
                },
            )
        },
        Command::Status(id) => match registry.get(id.as_str()) {
            Some(s) => Answer::Line(status_line(s)),
            None => Answer::Line(unknown_controller_line(id.as_str())),
        },
        Command::ListProfiles => Answer::ListProfiles,
        Command::SwitchProfile(id, name) => match registry.get(id.as_str()) {
            Some(_) => Answer::Switch { id, name },
            None => Answer::Line(unknown_controller_line(id.as_str())),
        },
        Command::Unknown => Answer::Line("ERR unknown command".to_owned()),
    }
}

/// Writes the reply to `LIST_PROFILES` from what reading the directory gave.
pub fn profiles_reply(names: &Result<Vec<String>, String>) -> (r: String)
    ensures
        r@ == (match names {
            Ok(names) => "OK "@ + crate::text::joined(crate::text::texts(names@), ","@),
            Err(e) => "ERR failed to list profiles: "@ + e@,
        }),
{
    match names {
        Ok(names) => list_reply(names),
        Err(e) => {
            let mut r = "ERR failed to list profiles: ".to_owned();
            r.append(e.as_str());
            r
        },
    }
}

/// How a relayed switch ended.
#[derive(Debug)]
pub enum SwitchOutcome {
    /// The controller's thread no longer takes commands.
    NotAccepting,
    Applied,
    Failed(String),
    TimedOut,
}

/// The reply to `SWITCH_PROFILE`.
pub open spec fn switch_reply_of(outcome: SwitchOutcome) -> Seq<char> {
    match outcome {
        SwitchOutcome::NotAccepting =>
            "ERR that controller's thread is not accepting commands (shutting down?)"@,
        SwitchOutcome::Applied => "OK"@,
        SwitchOutcome::Failed(e) => "ERR "@ + e@,
        SwitchOutcome::TimedOut => "ERR timed out waiting for the controller to apply the switch"@,
    }
}

/// Writes the reply to `SWITCH_PROFILE`.
pub fn switch_reply(outcome: &SwitchOutcome) -> (r: String)
    ensures
        r@ == switch_reply_of(*outcome),
{
    match outcome {
        SwitchOutcome::NotAccepting =>
            "ERR that controller's thread is not accepting commands (shutting down?)".to_owned(),
        SwitchOutcome::Applied => "OK".to_owned(),
        SwitchOutcome::Failed(e) => {
            let mut r = "ERR ".to_owned();
            r.append(e.as_str());
            r
        },
        SwitchOutcome::TimedOut =>
            "ERR timed out waiting for the controller to apply the switch".to_owned(),
    }
}

/// How long a client's switch request may take, in seconds.
pub const SWITCH_TIMEOUT_SECS: u64 = 5;

/// How long a client waits for a reply, in seconds.
pub const REPLY_TIMEOUT_SECS: u64 = 6;

/// The texts that are left of some parts once each is trimmed and blank ones
/// are dropped.
pub open spec fn filled(parts: Seq<Seq<char>>) -> Seq<Seq<char>>
    decreases parts.len(),
{
    if parts.len() == 0 {
        Seq::empty()
    } else {
        let head = crate::text::trimmed(parts[0]);
        if head.len() == 0 {
            filled(parts.skip(1))
        } else {
            seq![head] + filled(parts.skip(1))
        }
    }
}

/// What a reply that lists names holds: the names, or the reply as an error.
pub open spec fn listed(reply: Seq<char>) -> Result<Seq<Seq<char>>, Seq<char>> {
    if "OK "@.is_prefix_of(reply) {
        Ok(filled(crate::text::split_on(reply.skip("OK "@.len() as int), ',')))
    } else if reply == "OK"@ {
        Ok(Seq::empty())
    } else {
        Err(reply)
    }
}

/// The view of a list or an error.
pub open spec fn list_view(r: Result<Vec<String>, String>) -> Result<Seq<Seq<char>>, Seq<char>> {
    match r {
        Ok(names) => Ok(crate::text::texts(names@)),
        Err(e) => Err(e@),
    }
}

/// Reads comma-separated names.
fn comma_separated(s: &str) -> (r: Vec<String>)
    ensures
        crate::text::texts(r@) == filled(crate::text::split_on(s@, ',')),
{
    let parts = split(s, ',');
    let ghost all = crate::text::texts(parts@);
    let mut r: Vec<String> = Vec::new();
    let mut i: usize = 0;
    assert(all.skip(0) =~= all);
    assert(crate::text::texts(r@) + filled(all) =~= filled(all));
    while i < parts.len()
        invariant
            i <= parts.len(),
            all == crate::text::texts(parts@),
            crate::text::texts(r@) + filled(all.skip(i as int)) == filled(all),
        decreases parts.len() - i,
    {
        let ghost rest = all.skip(i as int);
        let ghost before = r@;
        assert(rest.skip(1) =~= all.skip(i + 1));
        let item = trim(parts[i].as_str());
        if item.unicode_len() > 0 {
            r.push(item.to_owned());
            assert(crate::text::texts(r@) =~= crate::text::texts(before).push(item@));
            assert(crate::text::texts(before) + filled(rest) =~= crate::text::texts(r@) + filled(
                rest.skip(1),
            ));
        }
        i = i + 1;
    }
    assert(filled(all.skip(i as int)) =~= Seq::empty());
    assert(crate::text::texts(r@) =~= filled(all));
    r
}

/// Reads a reply that lists names.
pub fn parse_csv_ok(resp: &str) -> (r: Result<Vec<String>, String>)
    ensures
        list_view(r) == listed(resp@),
{
    if let Some(rest) = strip_prefix(resp, "OK ") {
        Ok(comma_separated(rest))
    } else if same(resp, "OK") {
        let none: Vec<String> = Vec::new();
        assert(crate::text::texts(none@) =~= Seq::empty());
        Ok(none)
    } else {
        Err(resp.to_owned())
    }
}

/// Whether a daemon answered a `PING` as it should; `None` stands for no reply.
pub fn ping(reply: Option<&str>) -> (r: bool)
    ensures
        r == (reply is Some && reply->0@ == "OK PONG"@),
{
    match reply {
        Some(reply) => same(reply, "OK PONG"),
        None => false,
    }
}

/// Reads the reply to `LIST_CONTROLLERS`.
pub fn list_controllers(reply: &str) -> (r: Result<Vec<String>, String>)
    ensures
        list_view(r) == listed(reply@),
{
    parse_csv_ok(reply)
}

/// Reads the reply to `LIST_PROFILES`.
pub fn list_profiles(reply: &str) -> (r: Result<Vec<String>, String>)
    ensures
        list_view(r) == listed(reply@),
{
    parse_csv_ok(reply)
}

/// Whether a reply to `STATUS` is a status line.
pub open spec fn is_status(reply: Seq<char>) -> bool {
    "OK "@.is_prefix_of(reply)
}

/// Reads the reply to `STATUS`: the status line as it is, and anything else as
/// the error.
pub fn status(reply: &str) -> (r: Result<String, String>)
    ensures
        r is Ok <==> is_status(reply@),
        r is Ok ==> r->Ok_0@ == reply@,
        r is Err ==> r->Err_0@ == reply@,
{
    if strip_prefix(reply, "OK ").is_some() {
        Ok(reply.to_owned())
    } else {
        Err(reply.to_owned())
    }
}

/// Writes the request for a controller's status.
pub fn status_request(controller_id: &str) -> (r: String)
    ensures
        r@ == "STATUS "@ + controller_id@,
{
    let mut r = "STATUS ".to_owned();
    r.append(controller_id);
    r
}

/// Writes the request to switch a controller to a profile.
pub fn switch_request(controller_id: &str, name: &str) -> (r: String)
    ensures
        r@ == "SWITCH_PROFILE "@ + controller_id@ + " "@ + name@,
{
    let mut r = "SWITCH_PROFILE ".to_owned();
    r.append(controller_id);
    r.append(" ");
    r.append(name);
    r
}

/// Reads the reply to `SWITCH_PROFILE`: anything but `OK` is the error.
pub fn switch_profile(reply: &str) -> (r: Result<(), String>)
    ensures
        r is Ok <==> reply@ == "OK"@,
        r is Err ==> r->Err_0@ == reply@,
{
    if same(reply, "OK") {
        Ok(())
    } else {
        Err(reply.to_owned())
    }
}

/// Writes the directory of the socket for a user without a runtime directory.
pub fn fallback_dir(uid: u32) -> (r: String)
    ensures
        r@ == "/tmp/ds4l-"@ + crate::text::decimal(uid as nat),
{
    let mut r = "/tmp/ds4l-".to_owned();
    r.append(decimal_text(uid as u64).as_str());
    r
}

/// How the socket's path can be used.
#[derive(Debug, Clone, Copy, PartialEq, Eq, Structural)]
pub enum SocketStep {
    Bind,
    /// A daemon that died left the file behind.
    RemoveThenBind,
    /// Another daemon is listening.
    InUse,
}

/// Decides what to do with the socket's path: a file that nothing listens
/// behind is stale, and a live socket is never taken away.
pub fn socket_step(file_exists: bool, connects: bool) -> (r: SocketStep)
    ensures
        r == (if !file_exists {
            SocketStep::Bind
        } else if connects {
            SocketStep::InUse
        } else {
            SocketStep::RemoveThenBind
        }),
{
    if !file_exists {
        SocketStep::Bind
    } else if connects {
        SocketStep::InUse
    } else {
        SocketStep::RemoveThenBind
    }
}

} // verus!
