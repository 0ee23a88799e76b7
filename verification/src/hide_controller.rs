//! Hiding the real controller from other processes.
//!
//! Hiding takes the group and other permission bits off every device node of
//! the controller and remembers the original modes. A controller has up to
//! three sibling input devices; those whose name ends in an excluded suffix
//! stay as they are. If any node cannot be hidden, those already hidden get
//! their modes back.

use crate::text::strip_prefix;
use vstd::prelude::*;
use vstd::string::*;

verus! {

/// A mode without its group and other bits, and without anything above the
/// permission bits.
pub open spec fn owner_bits(mode: u32) -> u32 {
    (mode / 64 % 8 * 64) as u32
}

/// The mode of a hidden node: the owner keeps access.
pub fn hidden_mode(original: u32) -> (r: u32)
    ensures
        r == owner_bits(original),
{
    assert(original & 0o700 == original / 64 % 8 * 64) by (bit_vector);
    original & 0o700
}

/// Hiding a hidden node changes nothing, and only owner bits are ever left.
pub proof fn law_hiding_is_idempotent(mode: u32)
    ensures
        owner_bits(owner_bits(mode)) == owner_bits(mode),
        owner_bits(mode) % 64 == 0,
        owner_bits(mode) < 512,
{
}

/// Whether one text ends in another.
pub open spec fn ends_in(s: Seq<char>, suffix: Seq<char>) -> bool {
    suffix.len() <= s.len() && s.skip(s.len() - suffix.len()) == suffix
}

/// Whether a text ends in another.
pub fn has_suffix(s: &str, suffix: &str) -> (r: bool)
    ensures
        r == ends_in(s@, suffix@),
{
    let n: usize = s.unicode_len();
    let k: usize = suffix.unicode_len();
    if k <= n {
        assert(s@.subrange(n - k, n as int) =~= s@.skip(n - k));
        crate::text::same(s.substring_char(n - k, n), suffix)
    } else {
        false
    }
}

/// Whether a name ends in one of the suffixes.
pub open spec fn excluded(name: Seq<char>, suffixes: Seq<Seq<char>>) -> bool {
    exists|i: int| 0 <= i < suffixes.len() && ends_in(name, #[trigger] suffixes[i])
}

/// Finds the first suffix that a name ends in.
pub fn matching_suffix(name: &str, suffixes: &Vec<String>) -> (r: Option<usize>)
    ensures
        r is Some <==> excluded(name@, crate::text::texts(suffixes@)),
        r is Some ==> r->0 < suffixes@.len() && ends_in(name@, suffixes@[r->0 as int]@)
            && forall|i: int| 0 <= i < r->0 ==> !ends_in(name@, #[trigger] suffixes@[i]@),
{
    let mut i: usize = 0;
    while i < suffixes.len()
        invariant
            i <= suffixes.len(),
            forall|n: int| 0 <= n < i ==> !ends_in(name@, #[trigger] suffixes@[n]@),
        decreases suffixes.len() - i,
    {
        if has_suffix(name, suffixes[i].as_str()) {
            assert(ends_in(name@, crate::text::texts(suffixes@)[i as int]));
            return Some(i);
        }
        i = i + 1;
    }
    proof {
        assert forall|n: int| 0 <= n < suffixes@.len() implies !ends_in(
            name@,
            #[trigger] crate::text::texts(suffixes@)[n],
        ) by {
            assert(!ends_in(name@, suffixes@[n]@));
        }
    }
    None
}

/// An input device of the controller: its node, and its name if that could be
/// read.
#[derive(Debug)]
pub struct SiblingNode {
    pub path: String,
    pub name: Option<String>,
}

/// Whether a sibling stays visible. One whose name is unknown is hidden.
pub open spec fn stays_visible(node: SiblingNode, suffixes: Seq<Seq<char>>) -> bool {
    node.name is Some && excluded(node.name->0@, suffixes)
}

/// The paths of the siblings to hide, in order.
pub open spec fn hidden_siblings(nodes: Seq<SiblingNode>, suffixes: Seq<Seq<char>>) -> Seq<Seq<char>>
    decreases nodes.len(),
{
    if nodes.len() == 0 {
        Seq::empty()
    } else {
        let rest = hidden_siblings(nodes.drop_last(), suffixes);
        if stays_visible(nodes.last(), suffixes) {
            rest
        } else {
            rest.push(nodes.last().path@)
        }
    }
}

/// Lists the nodes to hide: every sibling that is not excluded, then the
/// hidraw node, which is never excluded.
fn nodes_to_hide(hidraw_path: &str, siblings: &Vec<SiblingNode>, suffixes: &Vec<String>) -> (r:
    Vec<String>)
    ensures
        crate::text::texts(r@) == hidden_siblings(siblings@, crate::text::texts(suffixes@)).push(
            hidraw_path@,
        ),
{
    let mut r: Vec<String> = Vec::new();
    let ghost ex = crate::text::texts(suffixes@);
    let mut i: usize = 0;
    assert(crate::text::texts(r@) =~= hidden_siblings(siblings@.take(0), ex));
    while i < siblings.len()
        invariant
            i <= siblings.len(),
            ex == crate::text::texts(suffixes@),
            crate::text::texts(r@) == hidden_siblings(siblings@.take(i as int), ex),
        decreases siblings.len() - i,
    {
        let ghost before = r@;
        proof {
            assert(siblings@.take(i + 1).drop_last() =~= siblings@.take(i as int));
            assert(siblings@.take(i + 1).last() == siblings@[i as int]);
        }
        let visible = match &siblings[i].name {
            Some(name) => matching_suffix(name.as_str(), suffixes).is_some(),
            None => false,
        };
        if !visible {
            r.push(siblings[i].path.clone());
            assert(crate::text::texts(r@) =~= crate::text::texts(before).push(
                siblings@[i as int].path@,
            ));
        }
        i = i + 1;
    }
    assert(siblings@.take(i as int) =~= siblings@);
    let ghost before = r@;
    r.push(hidraw_path.to_owned());
    assert(crate::text::texts(r@) =~= crate::text::texts(before).push(hidraw_path@));
    r
}

/// How a sibling that stays visible is reported: its node, its name and the
/// first suffix that the name ends in.
pub open spec fn visible_note(path: Seq<char>, name: Seq<char>, suffix: Seq<char>) -> Seq<char> {
    path + " ("@ + name + ", matched \""@ + suffix + "\")"@
}

/// The first suffix from `i` on that a name ends in.
pub open spec fn first_suffix(name: Seq<char>, suffixes: Seq<Seq<char>>, i: int) -> Seq<char>
    decreases suffixes.len() - i,
{
    if i < 0 || i >= suffixes.len() {
        Seq::empty()
    } else if ends_in(name, suffixes[i]) {
        suffixes[i]
    } else {
        first_suffix(name, suffixes, i + 1)
    }
}

/// The reports of the siblings that stay visible, in order.
pub open spec fn visible_notes(nodes: Seq<SiblingNode>, suffixes: Seq<Seq<char>>) -> Seq<Seq<char>>
    decreases nodes.len(),
{
    if nodes.len() == 0 {
        Seq::empty()
    } else {
        let rest = visible_notes(nodes.drop_last(), suffixes);
        if stays_visible(nodes.last(), suffixes) {
            let name = nodes.last().name->0@;
            rest.push(visible_note(nodes.last().path@, name, first_suffix(name, suffixes, 0)))
        } else {
            rest
        }
    }
}

proof fn lemma_first_suffix(name: Seq<char>, suffixes: Seq<Seq<char>>, from: int, at: int)
    requires
        0 <= from <= at < suffixes.len(),
        ends_in(name, suffixes[at]),
        forall|i: int| from <= i < at ==> !ends_in(name, #[trigger] suffixes[i]),
    ensures
        first_suffix(name, suffixes, from) == suffixes[at],
    decreases at - from,
{
    if from < at {
        assert(!ends_in(name, suffixes[from]));
        lemma_first_suffix(name, suffixes, from + 1, at);
    }
}

/// Writes the report of a sibling, if it stays visible.
fn note_if_visible(node: &SiblingNode, suffixes: &Vec<String>) -> (r: Option<String>)
    ensures
        r is Some <==> stays_visible(*node, crate::text::texts(suffixes@)),
        r is Some ==> r->0@ == visible_note(
            node.path@,
            node.name->0@,
            first_suffix(node.name->0@, crate::text::texts(suffixes@), 0),
        ),
{
    match &node.name {
        Some(name) => match matching_suffix(name.as_str(), suffixes) {
            Some(i) => {
                proof {
                    let all = crate::text::texts(suffixes@);
                    assert forall|k: int| 0 <= k < i implies !ends_in(name@, #[trigger] all[k]) by {
                        assert(!ends_in(name@, suffixes@[k]@));
                    }
                    lemma_first_suffix(name@, all, 0, i as int);
                }
                Some(
                    node.path.clone().concat(" (").concat(name.as_str()).concat(
                        ", matched \"",
                    ).concat(suffixes[i].as_str()).concat("\")"),
                )
            },
            None => None,
        },
        None => None,
    }
}

/// Lists the siblings that stay visible, for the log.
pub fn left_visible(siblings: &Vec<SiblingNode>, suffixes: &Vec<String>) -> (r: Vec<String>)
    ensures
        crate::text::texts(r@) == visible_notes(siblings@, crate::text::texts(suffixes@)),
{
    let mut r: Vec<String> = Vec::new();
    let ghost ex = crate::text::texts(suffixes@);
    let mut i: usize = 0;
    assert(crate::text::texts(r@) =~= visible_notes(siblings@.take(0), ex));
    while i < siblings.len()
        invariant
            i <= siblings.len(),
            ex == crate::text::texts(suffixes@),
            crate::text::texts(r@) == visible_notes(siblings@.take(i as int), ex),
        decreases siblings.len() - i,
    {
        let ghost before = r@;
        proof {
            assert(siblings@.take(i + 1).drop_last() =~= siblings@.take(i as int));
            assert(siblings@.take(i + 1).last() == siblings@[i as int]);
        }
        if let Some(note) = note_if_visible(&siblings[i], suffixes) {
            let ghost text = note@;
            r.push(note);
            assert(crate::text::texts(r@) =~= crate::text::texts(before).push(text));
        }
        i = i + 1;
    }
    assert(siblings@.take(i as int) =~= siblings@);
    r
}

/// A hidden node and the mode it had.
#[derive(Debug)]
pub struct SavedPermissions {
    pub path: String,
    pub original_mode: u32,
}

/// The nodes hidden so far, in order. Giving each its mode back, in this order,
/// undoes the hiding.
#[derive(Debug)]
pub struct HiddenController {
    pub saved: Vec<SavedPermissions>,
}

/// What is saved, over texts.
pub open spec fn saved_modes(h: HiddenController) -> Seq<(Seq<char>, u32)> {
    h.saved@.map_values(|s: SavedPermissions| (s.path@, s.original_mode))
}

/// A hiding in progress: the nodes to hide in order, of which the first have
/// been hidden.
#[derive(Debug)]
pub struct Hiding {
    pub nodes: Vec<String>,
    pub hidden: HiddenController,
}

/// What one attempt leads to.
#[derive(Debug)]
pub enum HideOutcome {
    /// There are more nodes to hide.
    Continue(Hiding),
    /// All nodes are hidden.
    Complete(HiddenController),
    /// The node could not be hidden: give those hidden before it their modes
    /// back, then report the message.
    Failed { partial: HiddenController, message: String },
}

impl HiddenController {
    /// Starts hiding a controller: every sibling that is not excluded, then
    /// the hidraw node.
    pub fn start_hiding(hidraw_path: &str, siblings: &Vec<SiblingNode>, suffixes: &Vec<String>) -> (r: Hiding)
        ensures
            r.wf(),
            saved_modes(r.hidden) == Seq::<(Seq<char>, u32)>::empty(),
            crate::text::texts(r.nodes@) == hidden_siblings(
                siblings@,
                crate::text::texts(suffixes@),
            ).push(hidraw_path@),
    {
        let nodes = nodes_to_hide(hidraw_path, siblings, suffixes);
        assert(nodes@.len() == crate::text::texts(nodes@).len());
        let r = Hiding { nodes, hidden: HiddenController { saved: Vec::new() } };
        assert(saved_modes(r.hidden) =~= Seq::empty());
        r
    }

    /// Lists the nodes and the modes to give back, in order. The list stays
    /// the same however often it is asked for.
    pub fn restore(&self) -> (r: Vec<(String, u32)>)
        ensures
            r@.len() == self.saved@.len(),
            forall|i: int|
                0 <= i < r@.len() ==> ((#[trigger] r@[i]).0@, r@[i].1) == saved_modes(*self)[i],
    {
        let mut r: Vec<(String, u32)> = Vec::new();
        let mut i: usize = 0;
        while i < self.saved.len()
            invariant
                i <= self.saved.len(),
                r@.len() == i,
                forall|k: int|
                    0 <= k < i ==> ((#[trigger] r@[k]).0@, r@[k].1) == saved_modes(*self)[k],
            decreases self.saved.len() - i,
        {
            r.push((self.saved[i].path.clone(), self.saved[i].original_mode));
            i = i + 1;
        }
        r
    }
}

impl Hiding {
    /// Whether the nodes hidden so far are the first of the list, and there is
    /// one left.
    pub open spec fn wf(self) -> bool {
        &&& self.hidden.saved@.len() < self.nodes@.len()
        &&& forall|i: int|
            0 <= i < self.hidden.saved@.len() ==> (#[trigger] self.hidden.saved@[i]).path@
                == self.nodes@[i]@
    }

    /// The node to hide next.
    pub open spec fn next_path(self) -> Seq<char> {
        self.nodes@[self.hidden.saved@.len() as int]@
    }

    /// The node to hide next.
    pub fn next(&self) -> (r: String)
        requires
            self.wf(),
        ensures
            r@ == self.next_path(),
    {
        self.nodes[self.hidden.saved.len()].clone()
    }

    /// Takes the outcome of hiding the next node: the mode it had, or why it
    /// could not be hidden.
    pub fn attempted(self, result: Result<u32, String>) -> (r: HideOutcome)
        requires
            self.wf(),
        ensures
            match result {
                Ok(mode) => {
                    let saved = saved_modes(self.hidden).push((self.next_path(), mode));
                    if self.hidden.saved@.len() + 1 < self.nodes@.len() {
                        r matches HideOutcome::Continue(next) && next.wf() && next.nodes@
                            == self.nodes@ && saved_modes(next.hidden) == saved
                    } else {
                        r matches HideOutcome::Complete(h) && saved_modes(h) == saved
                    }
                },
                Err(e) => r matches HideOutcome::Failed { partial, message } && partial
                    == self.hidden && message@ == "failed to hide "@ + self.next_path() + ": "@
                    + e@,
            },
    {
        let path = self.next();
        match result {
            Ok(original_mode) => {
                let total: usize = self.nodes.len();
                let mut hidden = self.hidden;
                let ghost before = hidden;
                hidden.saved.push(SavedPermissions { path, original_mode });
                assert(saved_modes(hidden) =~= saved_modes(before).push((path@, original_mode)));
                if hidden.saved.len() < total {
                    HideOutcome::Continue(Hiding { nodes: self.nodes, hidden })
                } else {
                    HideOutcome::Complete(hidden)
                }
            },
            Err(e) => HideOutcome::Failed {
                partial: self.hidden,
                message: "failed to hide ".to_owned().concat(path.as_str()).concat(": ").concat(
                    e.as_str(),
                ),
            },
        }
    }
}

/// The modes of all nodes after hiding some of them in order.
pub open spec fn after_hiding(modes: Map<Seq<char>, u32>, paths: Seq<Seq<char>>) -> Map<
    Seq<char>,
    u32,
>
    decreases paths.len(),
{
    if paths.len() == 0 {
        modes
    } else {
        let before = after_hiding(modes, paths.drop_last());
        before.insert(paths.last(), owner_bits(before[paths.last()]))
    }
}

/// What is saved when some nodes are hidden in order.
pub open spec fn saved_while_hiding(modes: Map<Seq<char>, u32>, paths: Seq<Seq<char>>) -> Seq<
    (Seq<char>, u32),
>
    decreases paths.len(),
{
    if paths.len() == 0 {
        Seq::empty()
    } else {
        saved_while_hiding(modes, paths.drop_last()).push(
            (paths.last(), after_hiding(modes, paths.drop_last())[paths.last()]),
        )
    }
}

/// The modes after giving saved ones back in order.
pub open spec fn after_restoring(
    modes: Map<Seq<char>, u32>,
    saved: Seq<(Seq<char>, u32)>,
) -> Map<Seq<char>, u32>
    decreases saved.len(),
{
    if saved.len() == 0 {
        modes
    } else {
        after_restoring(modes, saved.drop_last()).insert(saved.last().0, saved.last().1)
    }
}

proof fn lemma_hiding_elsewhere(modes: Map<Seq<char>, u32>, paths: Seq<Seq<char>>, p: Seq<char>)
    requires
        !paths.contains(p),
    ensures
        after_hiding(modes, paths)[p] == modes[p],
    decreases paths.len(),
{
    if paths.len() > 0 {
        assert(paths.contains(paths.last()));
        assert forall|x: Seq<char>| paths.drop_last().contains(x) implies paths.contains(x) by {
            let i = choose|i: int| 0 <= i < paths.drop_last().len() && paths.drop_last()[i] == x;
            assert(paths[i] == x);
        }
        lemma_hiding_elsewhere(modes, paths.drop_last(), p);
    }
}

proof fn lemma_saved_originals(modes: Map<Seq<char>, u32>, paths: Seq<Seq<char>>)
    requires
        paths.no_duplicates(),
    ensures
        saved_while_hiding(modes, paths).len() == paths.len(),
        forall|i: int|
            0 <= i < paths.len() ==> #[trigger] saved_while_hiding(modes, paths)[i] == (
                paths[i],
                modes[paths[i]],
            ),
    decreases paths.len(),
{
    if paths.len() > 0 {
        let rest = paths.drop_last();
        assert(rest.no_duplicates()) by {
            assert forall|i: int, j: int| 0 <= i < rest.len() && 0 <= j < rest.len() && i
                != j implies rest[i] != rest[j] by {
                assert(paths[i] != paths[j]);
            }
        }
        assert(!rest.contains(paths.last())) by {
            if rest.contains(paths.last()) {
                let i = choose|i: int| 0 <= i < rest.len() && rest[i] == paths.last();
                assert(paths[i] == paths[paths.len() - 1]);
            }
        }
        lemma_saved_originals(modes, rest);
        lemma_hiding_elsewhere(modes, rest, paths.last());
    }
}

/// Whether a path is among the saved ones.
spec fn is_saved(saved: Seq<(Seq<char>, u32)>, p: Seq<char>) -> bool {
    exists|i: int| 0 <= i < saved.len() && (#[trigger] saved[i]).0 == p
}

proof fn lemma_restored(
    modes: Map<Seq<char>, u32>,
    target: Map<Seq<char>, u32>,
    saved: Seq<(Seq<char>, u32)>,
    p: Seq<char>,
)
    requires
        forall|i: int| 0 <= i < saved.len() ==> (#[trigger] saved[i]).1 == target[saved[i].0],
    ensures
        is_saved(saved, p) ==> after_restoring(modes, saved).dom().contains(p) && after_restoring(
            modes,
            saved,
        )[p] == target[p],
        !is_saved(saved, p) ==> after_restoring(modes, saved).dom().contains(p)
            == modes.dom().contains(p) && after_restoring(modes, saved)[p] == modes[p],
    decreases saved.len(),
{
    if saved.len() > 0 {
        let rest = saved.drop_last();
        assert forall|i: int| 0 <= i < rest.len() implies (#[trigger] rest[i]).1
            == target[rest[i].0] by {
            assert(rest[i] == saved[i]);
        }
        lemma_restored(modes, target, rest, p);
        let last = saved.last();
        assert(saved[saved.len() - 1] == last);
        if is_saved(saved, p) && p != last.0 {
            let i = choose|i: int| 0 <= i < saved.len() && (#[trigger] saved[i]).0 == p;
            assert(rest[i].0 == p);
        }
        if is_saved(rest, p) {
            let i = choose|i: int| 0 <= i < rest.len() && (#[trigger] rest[i]).0 == p;
            assert(saved[i].0 == p);
        }
    }
}

/// Hiding can always be undone: whatever nodes were hidden, in whatever order,
/// giving the saved modes back leaves every node with the mode it had. This
/// covers a hiding that stopped halfway as well as a complete one.
pub proof fn law_restoring_undoes_hiding(modes: Map<Seq<char>, u32>, paths: Seq<Seq<char>>)
    requires
        paths.no_duplicates(),
        forall|i: int| 0 <= i < paths.len() ==> modes.dom().contains(#[trigger] paths[i]),
    ensures
        after_restoring(after_hiding(modes, paths), saved_while_hiding(modes, paths)) == modes,
{
    let hidden = after_hiding(modes, paths);
    let saved = saved_while_hiding(modes, paths);
    lemma_saved_originals(modes, paths);
    lemma_hiding_domain(modes, paths);
    let restored = after_restoring(hidden, saved);
    assert forall|p: Seq<char>| #[trigger] restored.dom().contains(p) == modes.dom().contains(p) by {
        lemma_restored(hidden, modes, saved, p);
        if is_saved(saved, p) {
            let i = choose|i: int| 0 <= i < saved.len() && (#[trigger] saved[i]).0 == p;
            assert(paths[i] == p);
        }
    }
    assert forall|p: Seq<char>| modes.dom().contains(p) implies #[trigger] restored[p]
        == modes[p] by {
        lemma_restored(hidden, modes, saved, p);
        if !is_saved(saved, p) {
            assert(!paths.contains(p)) by {
                if paths.contains(p) {
                    let i = choose|i: int| 0 <= i < paths.len() && paths[i] == p;
                    assert(saved[i].0 == p);
                }
            }
            lemma_hiding_elsewhere(modes, paths, p);
        }
    }
    assert(restored =~= modes);
}

proof fn lemma_hiding_domain(modes: Map<Seq<char>, u32>, paths: Seq<Seq<char>>)
    requires
        forall|i: int| 0 <= i < paths.len() ==> modes.dom().contains(#[trigger] paths[i]),
    ensures
        after_hiding(modes, paths).dom() =~= modes.dom(),
    decreases paths.len(),
{
    if paths.len() > 0 {
        let rest = paths.drop_last();
        assert forall|i: int| 0 <= i < rest.len() implies modes.dom().contains(
            #[trigger] rest[i],
        ) by {
            assert(rest[i] == paths[i]);
        }
        lemma_hiding_domain(modes, rest);
        assert(modes.dom().contains(paths[paths.len() - 1]));
    }
}

/// Writes the error of a failed change of mode. A refusal says what the
/// process lacks; any other error stands as it is.
pub fn permission_error_hint(message: &str, denied: bool) -> (r: String)
    ensures
        r@ == (if denied {
            message@ + hint_text()
        } else {
            message@
        }),
{
    let mut r = message.to_owned();
    if denied {
        r.append(
            " -- changing permissions on a device node this process doesn't own requires CAP_FOWNER (and CAP_DAC_OVERRIDE to restore it afterward), not just udev group membership. Run once per build: `sudo setcap cap_fowner,cap_dac_override+ep <path to ds4l_daemon binary>` -- capabilities are attached to the binary file itself and are lost on every rebuild, so re-run this after `cargo build`/`cargo clean`.",
        );
    }
    r
}

/// What a refused change of mode needs.
pub open spec fn hint_text() -> Seq<char> {
    " -- changing permissions on a device node this process doesn't own requires CAP_FOWNER (and CAP_DAC_OVERRIDE to restore it afterward), not just udev group membership. Run once per build: `sudo setcap cap_fowner,cap_dac_override+ep <path to ds4l_daemon binary>` -- capabilities are attached to the binary file itself and are lost on every rebuild, so re-run this after `cargo build`/`cargo clean`."@
}

/// Whether a directory entry is one of the controller's input devices.
pub fn is_input_dir(name: &str) -> (r: bool)
    ensures
        r == "input"@.is_prefix_of(name@),
{
    strip_prefix(name, "input").is_some()
}

/// Whether an entry of an input device stands for a device node.
pub fn is_device_entry(name: &str) -> (r: bool)
    ensures
        r == ("js"@.is_prefix_of(name@) || "event"@.is_prefix_of(name@)),
{
    strip_prefix(name, "js").is_some() || strip_prefix(name, "event").is_some()
}

/// Writes the path of the device node with the given name.
pub fn device_node_path(name: &str) -> (r: String)
    ensures
        r@ == "/dev/input/"@ + name@,
{
    "/dev/input/".to_owned().concat(name)
}

/// Writes the path of a hidraw node's device directory.
pub fn hidraw_device_dir(hidraw_name: &str) -> (r: String)
    ensures
        r@ == "/sys/class/hidraw/"@ + hidraw_name@ + "/device"@,
{
    "/sys/class/hidraw/".to_owned().concat(hidraw_name).concat("/device")
}

/// Writes the path of the file that holds an input device's name.
pub fn device_name_file(node_name: &str) -> (r: String)
    ensures
        r@ == "/sys/class/input/"@ + node_name@ + "/device/name"@,
{
    "/sys/class/input/".to_owned().concat(node_name).concat("/device/name")
}

/// A hidden node keeps exactly the owner's three permission bits.
pub proof fn law_owner_keeps_access(mode: u32)
    ensures
        owner_bits(mode) == mode & 0o700,
        owner_bits(mode) & 0o077 == 0,
{
    assert(mode & 0o700 == mode / 64 % 8 * 64) by (bit_vector);
    assert((mode & 0o700) & 0o077 == 0) by (bit_vector);
}

/// One text ends in another exactly when something stands before it.
pub proof fn law_ending_has_a_head(s: Seq<char>, suffix: Seq<char>, head: Seq<char>)
    ensures
        ends_in(s, suffix) ==> s == s.take(s.len() - suffix.len()) + suffix,
        s == head + suffix ==> ends_in(s, suffix),
{
    if ends_in(s, suffix) {
        assert(s =~= s.take(s.len() - suffix.len()) + suffix);
    }
    if s == head + suffix {
        assert(s.skip(s.len() - suffix.len()) =~= suffix);
    }
}

/// A sibling is hidden unless its name is known and ends in one of the suffixes,
/// and each sibling is either hidden or reported as visible.
pub proof fn law_each_sibling_is_hidden_or_visible(
    nodes: Seq<SiblingNode>,
    suffixes: Seq<Seq<char>>,
    node: SiblingNode,
)
    ensures
        ({
            let next = nodes.push(node);
            let spared = node.name matches Some(name) && exists|i: int|
                0 <= i < suffixes.len() && ends_in(name@, #[trigger] suffixes[i]);
            &&& !spared ==> hidden_siblings(next, suffixes) == hidden_siblings(nodes, suffixes).push(
                node.path@,
            ) && visible_notes(next, suffixes) == visible_notes(nodes, suffixes)
            &&& spared ==> hidden_siblings(next, suffixes) == hidden_siblings(nodes, suffixes)
                && visible_notes(next, suffixes).len() == visible_notes(nodes, suffixes).len() + 1
        }),
        hidden_siblings(nodes, suffixes).len() + visible_notes(nodes, suffixes).len() == nodes.len(),
        hidden_siblings(Seq::empty(), suffixes).len() == 0,
    decreases nodes.len(),
{
    assert(nodes.push(node).drop_last() =~= nodes);
    if nodes.len() > 0 {
        law_each_sibling_is_hidden_or_visible(nodes.drop_last(), suffixes, nodes.last());
        assert(nodes.drop_last().push(nodes.last()) =~= nodes);
    }
}

/// Hiding takes the permission bits of group and others off every node it is given
/// and leaves all other nodes alone.
pub proof fn law_hiding_takes_access_away(
    modes: Map<Seq<char>, u32>,
    paths: Seq<Seq<char>>,
    p: Seq<char>,
)
    ensures
        paths.contains(p) ==> after_hiding(modes, paths)[p] & 0o077 == 0,
        !paths.contains(p) ==> after_hiding(modes, paths)[p] == modes[p],
    decreases paths.len(),
{
    if paths.contains(p) {
        let rest = paths.drop_last();
        let before = after_hiding(modes, rest);
        if p == paths.last() {
            law_owner_keeps_access(before[p]);
        } else {
            let i = choose|i: int| 0 <= i < paths.len() && paths[i] == p;
            assert(rest[i] == p);
            law_hiding_takes_access_away(modes, rest, p);
        }
    } else {
        lemma_hiding_elsewhere(modes, paths, p);
    }
}

/// A sibling that stays visible is reported with its node, its name, and the first
/// suffix that its name ends in.
pub proof fn law_visible_sibling_is_reported(
    nodes: Seq<SiblingNode>,
    suffixes: Seq<Seq<char>>,
    node: SiblingNode,
    at: int,
)
    requires
        node.name is Some,
        0 <= at < suffixes.len(),
        ends_in(node.name->0@, suffixes[at]),
        forall|i: int| 0 <= i < at ==> !ends_in(node.name->0@, #[trigger] suffixes[i]),
    ensures
        visible_notes(nodes.push(node), suffixes) == visible_notes(nodes, suffixes).push(
            node.path@ + " ("@ + node.name->0@ + ", matched \""@ + suffixes[at] + "\")"@,
        ),
{
    assert(nodes.push(node).drop_last() =~= nodes);
    assert(ends_in(node.name->0@, suffixes[at]));
    lemma_first_suffix(node.name->0@, suffixes, 0, at);
}

} // verus!
