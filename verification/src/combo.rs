//! Recording a key combination from the keyboard.
//!
//! A recording lasts from the first press until every key is up again. It
//! keeps each key that was held in between, in the order of first presses, so
//! letting go in another order loses nothing.

use crate::key_names::key_name;
use crate::text::join;
use vstd::prelude::*;
use vstd::string::*;

verus! {

/// A recording in progress.
#[derive(Debug)]
pub struct ComboRecorder {
    /// The keys that are down now.
    pub held: Vec<u16>,
    /// The keys that have been down, each once.
    pub ever: Vec<u16>,
}

/// A list with a key added at the end, unless it is there already.
pub open spec fn with_key(keys: Seq<u16>, code: u16) -> Seq<u16> {
    if keys.contains(code) {
        keys
    } else {
        keys.push(code)
    }
}

/// Whether a key is another one.
pub open spec fn other_than(code: u16) -> spec_fn(u16) -> bool {
    |k: u16| k != code
}

/// A list without a key.
pub open spec fn without_key(keys: Seq<u16>, code: u16) -> Seq<u16> {
    keys.filter(other_than(code))
}

/// The first four keys of a list, one to a slot.
pub open spec fn slot_of(keys: Seq<u16>, i: int) -> Option<u16> {
    if i < keys.len() {
        Some(keys[i])
    } else {
        None
    }
}

proof fn lemma_without_push(keys: Seq<u16>, x: u16, code: u16)
    ensures
        without_key(keys.push(x), code) == (if x == code {
            without_key(keys, code)
        } else {
            without_key(keys, code).push(x)
        }),
{
    crate::sets::lemma_filter_push(keys, x, other_than(code));
}

fn has_code(keys: &Vec<u16>, code: u16) -> (r: bool)
    ensures
        r == keys@.contains(code),
{
    let mut i: usize = 0;
    while i < keys.len()
        invariant
            i <= keys.len(),
            forall|n: int| 0 <= n < i ==> #[trigger] keys@[n] != code,
        decreases keys.len() - i,
    {
        if keys[i] == code {
            assert(keys@[i as int] == code);
            return true;
        }
        i = i + 1;
    }
    false
}

impl ComboRecorder {
    /// A recording that has not begun.
    pub fn new() -> (r: ComboRecorder)
        ensures
            r.held@ == Seq::<u16>::empty(),
            r.ever@ == Seq::<u16>::empty(),
    {
        ComboRecorder { held: Vec::new(), ever: Vec::new() }
    }

    /// A key goes down.
    pub fn press(&mut self, code: u16)
        ensures
            final(self).held@ == with_key(old(self).held@, code),
            final(self).ever@ == with_key(old(self).ever@, code),
    {
        if !has_code(&self.held, code) {
            self.held.push(code);
        }
        if !has_code(&self.ever, code) {
            self.ever.push(code);
        }
    }

    /// A key goes up. Once every key is up the recording is done, and the
    /// first four keys are its result.
    pub fn release(&mut self, code: u16) -> (r: Option<[Option<u16>; 4]>)
        ensures
            final(self).held@ == without_key(old(self).held@, code),
            final(self).ever@ == old(self).ever@,
            r is Some <==> final(self).held@.len() == 0 && final(self).ever@.len() > 0,
            r is Some ==> forall|i: int|
                0 <= i < 4 ==> #[trigger] (r->0)@[i] == slot_of(final(self).ever@, i),
    {
        let mut held: Vec<u16> = Vec::new();
        let mut i: usize = 0;
        proof {
            assert(self.held@.take(0) =~= Seq::empty());
            reveal(Seq::filter);
        }
        while i < self.held.len()
            invariant
                i <= self.held.len(),
                held@ == without_key(self.held@.take(i as int), code),
            decreases self.held.len() - i,
        {
            proof {
                assert(self.held@.take(i + 1) =~= self.held@.take(i as int).push(
                    self.held@[i as int],
                ));
                lemma_without_push(self.held@.take(i as int), self.held@[i as int], code);
            }
            if self.held[i] != code {
                held.push(self.held[i]);
            }
            i = i + 1;
        }
        assert(self.held@.take(i as int) =~= self.held@);
        self.held = held;
        if self.held.len() == 0 && self.ever.len() > 0 {
            Some(first_four(&self.ever))
        } else {
            None
        }
    }

    /// Writes the keys recorded so far.
    pub fn captured(&self) -> (r: String)
        ensures
            r@ == crate::text::joined(
                self.ever@.map_values(|code: u16| crate::key_names::name_of(code)),
                " + "@,
            ),
    {
        let ghost all = self.ever@.map_values(|code: u16| crate::key_names::name_of(code));
        let mut names: Vec<String> = Vec::new();
        let mut i: usize = 0;
        while i < self.ever.len()
            invariant
                i <= self.ever.len(),
                all == self.ever@.map_values(|code: u16| crate::key_names::name_of(code)),
                crate::text::texts(names@) == all.take(i as int),
            decreases self.ever.len() - i,
        {
            let ghost before = names@;
            names.push(key_name(self.ever[i]));
            i = i + 1;
            assert(crate::text::texts(names@) =~= crate::text::texts(before).push(all[i - 1]));
            assert(all.take(i as int) =~= all.take(i - 1).push(all[i - 1]));
        }
        assert(all.take(i as int) =~= all);
        join(&names, " + ")
    }
}

fn first_four(keys: &Vec<u16>) -> (slots: [Option<u16>; 4])
    ensures
        forall|i: int| 0 <= i < 4 ==> #[trigger] slots@[i] == slot_of(keys@, i),
{
    let mut slots: [Option<u16>; 4] = [None, None, None, None];
    let mut i: usize = 0;
    while i < 4
        invariant
            i <= 4,
            forall|k: int| 0 <= k < i ==> #[trigger] slots@[k] == slot_of(keys@, k),
            forall|k: int| i <= k < 4 ==> #[trigger] slots@[k] is None,
        decreases 4 - i,
    {
        if i < keys.len() {
            slots[i] = Some(keys[i]);
        }
        i = i + 1;
    }
    slots
}

/// A key going down or up.
pub enum KeyEvent {
    Press(u16),
    Release(u16),
}

/// The keys that a run of events records.
pub open spec fn recorded(events: Seq<KeyEvent>) -> Seq<u16>
    decreases events.len(),
{
    if events.len() == 0 {
        Seq::empty()
    } else {
        match events.last() {
            KeyEvent::Press(code) => with_key(recorded(events.drop_last()), code),
            KeyEvent::Release(_) => recorded(events.drop_last()),
        }
    }
}

/// The codes that a run of events presses, repeats included.
pub open spec fn presses(events: Seq<KeyEvent>) -> Seq<u16>
    decreases events.len(),
{
    if events.len() == 0 {
        Seq::empty()
    } else {
        match events.last() {
            KeyEvent::Press(code) => presses(events.drop_last()).push(code),
            KeyEvent::Release(_) => presses(events.drop_last()),
        }
    }
}

/// The distinct codes of a list, in the order of their first occurrence.
pub open spec fn distinct(codes: Seq<u16>) -> Seq<u16>
    decreases codes.len(),
{
    if codes.len() == 0 {
        Seq::empty()
    } else {
        with_key(distinct(codes.drop_last()), codes.last())
    }
}

/// What is recorded depends on the presses alone: in whatever order keys are
/// let go, each key that was ever down is recorded once, in the order of first
/// presses.
pub proof fn law_releases_lose_nothing(events: Seq<KeyEvent>)
    ensures
        recorded(events) == distinct(presses(events)),
    decreases events.len(),
{
    if events.len() > 0 {
        law_releases_lose_nothing(events.drop_last());
        if let KeyEvent::Press(code) = events.last() {
            let before = presses(events.drop_last());
            assert(before.push(code).drop_last() =~= before);
        }
    }
}

/// No key is recorded twice, and every pressed key is recorded.
pub proof fn law_each_key_recorded_once(codes: Seq<u16>, code: u16)
    ensures
        distinct(codes).no_duplicates(),
        distinct(codes).contains(code) <==> codes.contains(code),
    decreases codes.len(),
{
    if codes.len() > 0 {
        let rest = codes.drop_last();
        law_each_key_recorded_once(rest, code);
        law_each_key_recorded_once(rest, codes.last());
        assert(codes =~= rest.push(codes.last()));
        crate::sets::lemma_contains_push(rest, codes.last());
        crate::sets::lemma_contains_push(distinct(rest), codes.last());
    }
}

/// How a window system counts a key code of the input layer.
pub open spec fn as_counted(code: u16, is_x11: bool) -> int {
    code + (if is_x11 {
        8int
    } else {
        0
    })
}

/// A key code of the input layer from the window system's. One of the two
/// window systems counts from eight.
pub fn gdk_keycode_to_evdev(raw_keycode: u32, is_x11: bool) -> (r: u16)
    ensures
        r == (if !is_x11 {
            raw_keycode as int
        } else if raw_keycode < 8 {
            0
        } else {
            raw_keycode - 8
        }) % 0x1_0000,
        forall|code: u16|
            raw_keycode == #[trigger] as_counted(code, is_x11) ==> r == code,
{
    let code: u32 = if !is_x11 {
        raw_keycode
    } else if raw_keycode < 8 {
        0
    } else {
        raw_keycode - 8
    };
    (code % 0x1_0000) as u16
}

/// Whether a session type names the window system that counts from eight, in
/// upper or lower case. A session without a type does not.
pub fn is_x11_session(session_type: Option<&str>) -> (r: bool)
    ensures
        r == (session_type is Some && (session_type->0@ == "x11"@ || session_type->0@ == "X11"@)),
{
    match session_type {
        Some(s) => crate::text::same(s, "x11") || crate::text::same(s, "X11"),
        None => false,
    }
}

/// Pressing a key adds it behind the others if it is new, and releasing it takes
/// it away and nothing else.
pub proof fn law_press_and_release(keys: Seq<u16>, code: u16, k: u16)
    ensures
        with_key(keys, code).contains(k) <==> keys.contains(k) || k == code,
        keys.is_prefix_of(with_key(keys, code)),
        without_key(keys, code).contains(k) <==> keys.contains(k) && k != code,
        without_key(with_key(keys, code), code) == without_key(keys, code),
{
    crate::sets::lemma_contains_push(keys, code);
    crate::sets::lemma_filter_members(keys, other_than(code));
    lemma_without_push(keys, code, code);
}

/// Where a code first occurs in a list, or the length of the list.
pub open spec fn first_place(codes: Seq<u16>, code: u16) -> int
    decreases codes.len(),
{
    if codes.len() == 0 {
        0
    } else if codes.drop_last().contains(code) {
        first_place(codes.drop_last(), code)
    } else if codes.last() == code {
        codes.len() - 1
    } else {
        codes.len() as int
    }
}

/// Keys are recorded in the order of their first presses.
pub proof fn law_recorded_in_order(codes: Seq<u16>, i: int, j: int)
    requires
        0 <= i < j < distinct(codes).len(),
    ensures
        first_place(codes, distinct(codes)[i]) < first_place(codes, distinct(codes)[j]),
        0 <= first_place(codes, distinct(codes)[i]),
        first_place(codes, distinct(codes)[j]) < codes.len(),
    decreases codes.len(),
{
    if codes.len() > 0 {
        let rest = codes.drop_last();
        let d = distinct(rest);
        let now = distinct(codes);
        law_each_key_recorded_once(rest, now[i]);
        law_each_key_recorded_once(rest, now[j]);
        assert(d.contains(d[i]));
        if j < d.len() {
            assert(now[i] == d[i] && now[j] == d[j]);
            assert(d.contains(d[j]));
            law_recorded_in_order(rest, i, j);
        } else {
            assert(now[i] == d[i] && now[j] == codes.last());
            assert(!d.contains(codes.last()));
            lemma_first_place(rest, now[i]);
        }
    }
}

proof fn lemma_first_place(codes: Seq<u16>, code: u16)
    requires
        codes.contains(code),
    ensures
        0 <= first_place(codes, code) < codes.len(),
        codes[first_place(codes, code)] == code,
    decreases codes.len(),
{
    let rest = codes.drop_last();
    if rest.contains(code) {
        lemma_first_place(rest, code);
    } else {
        let i = choose|i: int| 0 <= i < codes.len() && codes[i] == code;
        if i < rest.len() {
            assert(rest[i] == code);
        }
    }
}

/// The result has the first four recorded keys, in order, and empty slots behind
/// fewer.
pub proof fn law_result_has_the_first_keys(keys: Seq<u16>, i: int)
    requires
        0 <= i < 4,
    ensures
        slot_of(keys, i) matches Some(k) ==> i < keys.len() && keys[i] == k,
        slot_of(keys, i) is None ==> keys.len() <= i,
{
}

} // verus!
