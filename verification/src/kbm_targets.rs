//! Keyboard and mouse targets as the editor shows and names them.

use crate::kbm::KbmTarget;
use crate::key_names::key_name;
use crate::text::{decimal_text, join, parse_u16, same, split, strip_prefix};
use vstd::prelude::*;
use vstd::string::*;

verus! {

/// A slot of a combination as a number. Zero is no key, so it stands for an
/// empty slot.
pub open spec fn slot_number(slot: Option<u16>) -> nat {
    match slot {
        Some(code) => code as nat,
        None => 0,
    }
}

/// The id of a target among the choices.
pub open spec fn target_id(t: KbmTarget) -> Seq<char> {
    match t {
        KbmTarget::Unmapped => "none"@,
        KbmTarget::MouseLeft => "mouseleft"@,
        KbmTarget::MouseRight => "mouseright"@,
        KbmTarget::Key(code) => "key_"@ + crate::text::decimal(code as nat),
        KbmTarget::Combo(keys) => "combo_"@ + crate::text::joined(
            keys@.map_values(|slot: Option<u16>| crate::text::decimal(slot_number(slot))),
            "_"@,
        ),
    }
}

fn slot_texts(keys: &[Option<u16>; 4]) -> (r: Vec<String>)
    ensures
        crate::text::texts(r@) == keys@.map_values(
            |slot: Option<u16>| crate::text::decimal(slot_number(slot)),
        ),
{
    let ghost all = keys@.map_values(|slot: Option<u16>| crate::text::decimal(slot_number(slot)));
    let mut r: Vec<String> = Vec::new();
    let mut i: usize = 0;
    while i < 4
        invariant
            i <= 4,
            keys@.len() == 4,
            all == keys@.map_values(
                |slot: Option<u16>| crate::text::decimal(slot_number(slot)),
            ),
            crate::text::texts(r@) == all.take(i as int),
        decreases 4 - i,
    {
        let ghost before = r@;
        let n: u64 = match keys[i] {
            Some(code) => code as u64,
            None => 0,
        };
        r.push(decimal_text(n));
        i = i + 1;
        assert(crate::text::texts(r@) =~= crate::text::texts(before).push(all[i - 1]));
        assert(all.take(i as int) =~= all.take(i - 1).push(all[i - 1]));
    }
    assert(all.take(4) =~= all);
    r
}

/// Writes the id of a target.
pub fn kbm_target_id(t: KbmTarget) -> (r: String)
    ensures
        r@ == target_id(t),
{
    match t {
        KbmTarget::Unmapped => "none".to_owned(),
        KbmTarget::MouseLeft => "mouseleft".to_owned(),
        KbmTarget::MouseRight => "mouseright".to_owned(),
        KbmTarget::Key(code) => "key_".to_owned().concat(decimal_text(code as u64).as_str()),
        KbmTarget::Combo(keys) => "combo_".to_owned().concat(
            join(&slot_texts(&keys), "_").as_str(),
        ),
    }
}

/// The numbers among some texts, in order.
pub open spec fn numbers_in(parts: Seq<Seq<char>>) -> Seq<u16>
    decreases parts.len(),
{
    if parts.len() == 0 {
        Seq::empty()
    } else {
        let rest = numbers_in(parts.drop_last());
        match crate::text::parsed_u16(parts.last()) {
            Some(n) => rest.push(n),
            None => rest,
        }
    }
}

/// The slot that the number at a position fills.
pub open spec fn slot_at(numbers: Seq<u16>, i: int) -> Option<u16> {
    if i < numbers.len() && numbers[i] != 0 {
        Some(numbers[i])
    } else {
        None
    }
}

/// Whether a target is the one that an id names. An id that names none stands
/// for no target.
pub open spec fn is_target_of(t: KbmTarget, id: Seq<char>) -> bool {
    if "combo_"@.is_prefix_of(id) {
        t matches KbmTarget::Combo(keys) && ({
            let numbers = numbers_in(
                crate::text::split_on(id.skip("combo_"@.len() as int), '_'),
            );
            forall|i: int| 0 <= i < 4 ==> #[trigger] keys@[i] == slot_at(numbers, i)
        })
    } else if id == "mouseleft"@ {
        t == KbmTarget::MouseLeft
    } else if id == "mouseright"@ {
        t == KbmTarget::MouseRight
    } else if id != "none"@ && "key_"@.is_prefix_of(id) && crate::text::parsed_u16(
        id.skip("key_"@.len() as int),
    ) is Some {
        t == KbmTarget::Key(crate::text::parsed_u16(id.skip("key_"@.len() as int))->0)
    } else {
        t == KbmTarget::Unmapped
    }
}

fn list_numbers(parts: &Vec<String>) -> (r: Vec<u16>)
    ensures
        r@ == numbers_in(crate::text::texts(parts@)),
{
    let ghost all = crate::text::texts(parts@);
    let mut r: Vec<u16> = Vec::new();
    let mut i: usize = 0;
    while i < parts.len()
        invariant
            i <= parts.len(),
            all == crate::text::texts(parts@),
            r@ == numbers_in(all.take(i as int)),
        decreases parts.len() - i,
    {
        assert(all.take(i + 1).drop_last() =~= all.take(i as int));
        assert(all.take(i + 1).last() == parts@[i as int]@);
        if let Some(n) = parse_u16(parts[i].as_str()) {
            r.push(n);
        }
        i = i + 1;
    }
    assert(all.take(i as int) =~= all);
    r
}

fn slots_from(numbers: &Vec<u16>) -> (keys: [Option<u16>; 4])
    ensures
        forall|i: int| 0 <= i < 4 ==> #[trigger] keys@[i] == slot_at(numbers@, i),
{
    let mut keys: [Option<u16>; 4] = [None, None, None, None];
    let mut i: usize = 0;
    while i < 4
        invariant
            i <= 4,
            forall|k: int| 0 <= k < i ==> #[trigger] keys@[k] == slot_at(numbers@, k),
            forall|k: int| i <= k < 4 ==> #[trigger] keys@[k] is None,
        decreases 4 - i,
    {
        if i < numbers.len() && numbers[i] != 0 {
            keys[i] = Some(numbers[i]);
        }
        i = i + 1;
    }
    keys
}

/// Finds the target that an id names.
pub fn kbm_target_from_id(id: &str) -> (r: KbmTarget)
    ensures
        is_target_of(r, id@),
{
    if let Some(rest) = strip_prefix(id, "combo_") {
        let numbers = list_numbers(&split(rest, '_'));
        return KbmTarget::Combo(slots_from(&numbers));
    }
    if same(id, "none") {
        proof {
            reveal_strlit("none");
            reveal_strlit("mouseleft");
            reveal_strlit("mouseright");
            assert("none"@[0] == 'n');
            assert("mouseleft"@[0] == 'm');
            assert("mouseright"@[0] == 'm');
        }
        return KbmTarget::Unmapped;
    }
    if same(id, "mouseleft") {
        return KbmTarget::MouseLeft;
    }
    if same(id, "mouseright") {
        return KbmTarget::MouseRight;
    }
    if let Some(rest) = strip_prefix(id, "key_") {
        if let Some(code) = parse_u16(rest) {
            return KbmTarget::Key(code);
        }
    }
    KbmTarget::Unmapped
}

proof fn lemma_no_underscore(n: nat)
    ensures
        !crate::text::decimal(n).contains('_'),
    decreases n,
{
    let d = crate::text::decimal(n);
    if n >= 10 {
        lemma_no_underscore(n / 10);
    }
    if d.contains('_') {
        let i = choose|i: int| 0 <= i < d.len() && d[i] == '_';
        if n >= 10 && i < d.len() - 1 {
            assert(crate::text::decimal(n / 10)[i] == '_');
        }
    }
}

proof fn lemma_numbers_of_decimals(codes: Seq<u16>)
    ensures
        numbers_in(codes.map_values(|n: u16| crate::text::decimal(n as nat))) == codes,
    decreases codes.len(),
{
    let parts = codes.map_values(|n: u16| crate::text::decimal(n as nat));
    if codes.len() > 0 {
        let rest = codes.drop_last();
        lemma_numbers_of_decimals(rest);
        assert(parts.drop_last() =~= rest.map_values(|n: u16| crate::text::decimal(n as nat)));
        crate::text::law_decimal_roundtrip(codes.last());
        assert(numbers_in(parts) =~= codes);
    } else {
        assert(numbers_in(parts) =~= codes);
    }
}

/// A combination comes back from its id slot by slot, as long as no slot holds
/// the code zero, which no key has.
pub proof fn law_combo_id_names_it(keys: [Option<u16>; 4], t: KbmTarget)
    requires
        forall|i: int| 0 <= i < 4 ==> #[trigger] keys@[i] != Some(0u16),
        is_target_of(t, target_id(KbmTarget::Combo(keys))),
    ensures
        t matches KbmTarget::Combo(back) && back@ == keys@,
{
    reveal_strlit("combo_");
    reveal_strlit("_");
    assert("_"@ =~= seq!['_']);
    let parts = keys@.map_values(|slot: Option<u16>| crate::text::decimal(slot_number(slot)));
    let codes = keys@.map_values(|slot: Option<u16>| slot_number(slot) as u16);
    let body = crate::text::joined(parts, "_"@);
    let id = "combo_"@ + body;
    assert(id.skip("combo_"@.len() as int) =~= body);
    assert("combo_"@.is_prefix_of(id));
    assert forall|i: int| 0 <= i < parts.len() implies !(#[trigger] parts[i]).contains('_') by {
        lemma_no_underscore(slot_number(keys@[i]));
    }
    crate::text::lemma_split_joined(parts, '_');
    assert(parts =~= codes.map_values(|n: u16| crate::text::decimal(n as nat)));
    lemma_numbers_of_decimals(codes);
    if let KbmTarget::Combo(back) = t {
        assert(back@ =~= keys@) by {
            assert forall|i: int| 0 <= i < 4 implies back@[i] == keys@[i] by {
                assert(back@[i] == slot_at(codes, i));
                assert(keys@[i] != Some(0u16));
            }
        }
    }
}

/// A target that is no combination comes back from its id.
pub proof fn law_simple_id_names_it(target: KbmTarget, t: KbmTarget)
    requires
        !(target is Combo),
        is_target_of(t, target_id(target)),
    ensures
        t == target,
{
    reveal_strlit("combo_");
    reveal_strlit("none");
    reveal_strlit("mouseleft");
    reveal_strlit("mouseright");
    reveal_strlit("key_");
    let id = target_id(target);
    assert("combo_"@[0] == 'c');
    assert("none"@[0] == 'n');
    assert("mouseleft"@[0] == 'm');
    assert("mouseright"@[0] == 'm');
    assert("mouseleft"@.len() != "mouseright"@.len());
    assert("key_"@[0] == 'k');
    if let KbmTarget::Key(code) = target {
        assert(id[0] == 'k');
        assert(id.skip("key_"@.len() as int) =~= crate::text::decimal(code as nat));
        crate::text::law_decimal_roundtrip(code);
        assert("key_"@.is_prefix_of(id));
    }
    assert(id[0] != 'c');
    if "combo_"@.is_prefix_of(id) {
        assert("combo_"@[0] == id.take("combo_"@.len() as int)[0]);
    }
    if "key_"@.is_prefix_of(id) {
        assert("key_"@[0] == id.take("key_"@.len() as int)[0]);
    }
}

/// The names of the keys that a combination holds, in the order of its slots.
pub open spec fn held_names(slots: Seq<Option<u16>>) -> Seq<Seq<char>>
    decreases slots.len(),
{
    if slots.len() == 0 {
        Seq::empty()
    } else {
        let rest = held_names(slots.drop_last());
        match slots.last() {
            Some(code) => rest.push(crate::key_names::name_of(code)),
            None => rest,
        }
    }
}

/// What a target is shown as.
pub open spec fn description(t: KbmTarget) -> Seq<char> {
    match t {
        KbmTarget::Unmapped => "(none)"@,
        KbmTarget::MouseLeft => "Mouse Left Click"@,
        KbmTarget::MouseRight => "Mouse Right Click"@,
        KbmTarget::Key(code) => crate::key_names::name_of(code),
        KbmTarget::Combo(keys) => if held_names(keys@).len() == 0 {
            "(none)"@
        } else {
            "Combo: "@ + crate::text::joined(held_names(keys@), " + "@)
        },
    }
}

fn list_held_names(keys: &[Option<u16>; 4]) -> (r: Vec<String>)
    ensures
        crate::text::texts(r@) == held_names(keys@),
{
    let mut r: Vec<String> = Vec::new();
    let mut i: usize = 0;
    assert(crate::text::texts(r@) =~= held_names(keys@.take(0)));
    while i < 4
        invariant
            i <= 4,
            keys@.len() == 4,
            crate::text::texts(r@) == held_names(keys@.take(i as int)),
        decreases 4 - i,
    {
        let ghost before = r@;
        assert(keys@.take(i + 1).drop_last() =~= keys@.take(i as int));
        assert(keys@.take(i + 1).last() == keys@[i as int]);
        if let Some(code) = keys[i] {
            let name = key_name(code);
            r.push(name);
            assert(crate::text::texts(r@) =~= crate::text::texts(before).push(name@));
        }
        i = i + 1;
    }
    assert(keys@.take(4) =~= keys@);
    r
}

/// Writes what a target is shown as.
pub fn describe_kbm_target(t: KbmTarget) -> (r: String)
    ensures
        r@ == description(t),
{
    match t {
        KbmTarget::Unmapped => "(none)".to_owned(),
        KbmTarget::MouseLeft => "Mouse Left Click".to_owned(),
        KbmTarget::MouseRight => "Mouse Right Click".to_owned(),
        KbmTarget::Key(code) => key_name(code),
        KbmTarget::Combo(keys) => {
            let names = list_held_names(&keys);
            if names.len() == 0 {
                "(none)".to_owned()
            } else {
                "Combo: ".to_owned().concat(join(&names, " + ").as_str())
            }
        },
    }
}

/// The id of a target says what the target is, and no other id says it: a key by
/// its code, a mouse button by its side, a combination by the codes of its slots.
pub proof fn law_target_id_says_the_target(t: KbmTarget)
    ensures
        target_id(t) == "none"@ <==> t == KbmTarget::Unmapped,
        target_id(t) == "mouseleft"@ <==> t == KbmTarget::MouseLeft,
        target_id(t) == "mouseright"@ <==> t == KbmTarget::MouseRight,
        t matches KbmTarget::Key(code) ==> target_id(t) == "key_"@ + crate::text::decimal(
            code as nat,
        ),
        t is Combo ==> "combo_"@.is_prefix_of(target_id(t)),
{
    reveal_strlit("combo_");
    reveal_strlit("none");
    reveal_strlit("mouseleft");
    reveal_strlit("mouseright");
    reveal_strlit("key_");
    assert("combo_"@[0] == 'c');
    assert("none"@[0] == 'n');
    assert("mouseleft"@[0] == 'm');
    assert("mouseright"@[0] == 'm');
    assert("mouseleft"@.len() != "mouseright"@.len());
    assert("key_"@[0] == 'k');
    if let KbmTarget::Combo(keys) = t {
        assert(target_id(t)[0] == 'c');
        assert("combo_"@ =~= target_id(t).take("combo_"@.len() as int));
    }
    if let KbmTarget::Key(code) = t {
        assert(target_id(t)[0] == 'k');
    }
}

/// A target is shown by what it does: a mouse button by its side, a key by its
/// name, and a combination by the names of its keys in the order of its slots.
pub proof fn law_description_says_the_target(t: KbmTarget, a: u16, b: u16)
    ensures
        description(KbmTarget::MouseLeft) == "Mouse Left Click"@,
        description(KbmTarget::MouseRight) == "Mouse Right Click"@,
        description(KbmTarget::Key(a)) == crate::key_names::name_of(a),
        held_names(seq![Some(a), None, Some(b), None]) == seq![
            crate::key_names::name_of(a),
            crate::key_names::name_of(b),
        ],
        t matches KbmTarget::Combo(keys) ==> ((forall|i: int|
            0 <= i < 4 ==> #[trigger] keys@[i] is None) ==> description(t) == "(none)"@),
{
    reveal_with_fuel(held_names, 5);
    let s = seq![Some(a), None, Some(b), None];
    assert(s.drop_last() =~= seq![Some(a), None, Some(b)]);
    assert(s.drop_last().drop_last() =~= seq![Some(a), None]);
    assert(s.drop_last().drop_last().drop_last() =~= seq![Some(a)]);
    assert(s.drop_last().drop_last().drop_last().drop_last() =~= Seq::empty());
    assert(held_names(s) =~= seq![crate::key_names::name_of(a), crate::key_names::name_of(b)]);
    if let KbmTarget::Combo(keys) = t {
        if forall|i: int| 0 <= i < 4 ==> #[trigger] keys@[i] is None {
            lemma_no_names(keys@);
        }
    }
}

proof fn lemma_no_names(slots: Seq<Option<u16>>)
    requires
        forall|i: int| 0 <= i < slots.len() ==> #[trigger] slots[i] is None,
    ensures
        held_names(slots).len() == 0,
    decreases slots.len(),
{
    if slots.len() > 0 {
        assert(slots[slots.len() - 1] is None);
        let rest = slots.drop_last();
        assert forall|i: int| 0 <= i < rest.len() implies #[trigger] rest[i] is None by {
            assert(slots[i] is None);
        }
        lemma_no_names(rest);
    }
}

/// An id gives a target only if it says so: any other id gives none.
pub proof fn law_other_ids_give_no_target(t: KbmTarget, id: Seq<char>)
    requires
        is_target_of(t, id),
    ensures
        t is Combo ==> "combo_"@.is_prefix_of(id),
        t is Key ==> "key_"@.is_prefix_of(id),
        t == KbmTarget::MouseLeft ==> id == "mouseleft"@,
        t == KbmTarget::MouseRight ==> id == "mouseright"@,
{
}

} // verus!
