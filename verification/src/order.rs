//! Alphabetical order of texts, and sorting by it.

use crate::text::chars_of;
use vstd::prelude::*;

verus! {

/// Whether one text does not come after another, character by character. A
/// text comes before every longer text that it starts.
pub open spec fn not_after(a: Seq<char>, b: Seq<char>) -> bool
    decreases a.len(),
{
    if a.len() == 0 {
        true
    } else if b.len() == 0 {
        false
    } else if a[0] != b[0] {
        (a[0] as int) < (b[0] as int)
    } else {
        not_after(a.skip(1), b.skip(1))
    }
}

/// Of two texts at least one does not come after the other, and only equal
/// texts do so both ways.
pub proof fn law_order_is_total(a: Seq<char>, b: Seq<char>)
    ensures
        not_after(a, b) || not_after(b, a),
        not_after(a, b) && not_after(b, a) ==> a == b,
    decreases a.len(),
{
    if a.len() > 0 && b.len() > 0 && a[0] == b[0] {
        law_order_is_total(a.skip(1), b.skip(1));
        if a.skip(1) == b.skip(1) {
            assert(a =~= seq![a[0]] + a.skip(1));
            assert(b =~= seq![b[0]] + b.skip(1));
        }
    } else if a.len() == 0 && b.len() == 0 {
        assert(a =~= b);
    }
}

/// The order goes through a middle.
pub proof fn law_order_is_transitive(a: Seq<char>, b: Seq<char>, c: Seq<char>)
    requires
        not_after(a, b),
        not_after(b, c),
    ensures
        not_after(a, c),
    decreases a.len(),
{
    if a.len() > 0 && b.len() > 0 && c.len() > 0 && a[0] == b[0] && b[0] == c[0] {
        law_order_is_transitive(a.skip(1), b.skip(1), c.skip(1));
    }
}

/// Compares two characters by their code points.
fn precedes(p: char, q: char) -> (r: bool)
    ensures
        r == ((p as int) < (q as int)),
{
    (p as u32) < (q as u32)
}

/// Compares two texts alphabetically.
pub fn does_not_follow(a: &str, b: &str) -> (r: bool)
    ensures
        r == not_after(a@, b@),
{
    let x = chars_of(a);
    let y = chars_of(b);
    let mut i: usize = 0;
    assert(a@.skip(0) =~= a@);
    assert(b@.skip(0) =~= b@);
    while i < x.len() && i < y.len()
        invariant
            i <= x.len(),
            i <= y.len(),
            x@ == a@,
            y@ == b@,
            not_after(a@, b@) == not_after(a@.skip(i as int), b@.skip(i as int)),
        decreases x.len() - i,
    {
        if x[i] != y[i] {
            return precedes(x[i], y[i]);
        }
        assert(a@.skip(i as int).skip(1) =~= a@.skip(i + 1));
        assert(b@.skip(i as int).skip(1) =~= b@.skip(i + 1));
        i = i + 1;
    }
    i == x.len()
}

/// Whether texts are in alphabetical order.
pub open spec fn sorted(items: Seq<Seq<char>>) -> bool {
    forall|i: int, j: int|
        0 <= i <= j < items.len() ==> not_after(#[trigger] items[i], #[trigger] items[j])
}

proof fn lemma_insert_multiset(s: Seq<Seq<char>>, i: int, x: Seq<char>)
    requires
        0 <= i <= s.len(),
    ensures
        s.insert(i, x).to_multiset() == s.to_multiset().insert(x),
{
    let t = s.insert(i, x);
    assert(t.remove(i) =~= s);
    vstd::seq_lib::to_multiset_remove(t, i);
    t.to_multiset_ensures();
    assert(t.contains(x)) by {
        assert(t[i] == x);
    }
    assert(t.to_multiset() =~= s.to_multiset().insert(x));
}

/// Puts a string in its place in a sorted list.
fn insert_sorted(items: Vec<String>, x: String) -> (r: Vec<String>)
    requires
        sorted(crate::text::texts(items@)),
    ensures
        sorted(crate::text::texts(r@)),
        crate::text::texts(r@).to_multiset() == crate::text::texts(items@).to_multiset().insert(x@),
{
    let ghost before = crate::text::texts(items@);
    let mut items = items;
    let mut i: usize = 0;
    while i < items.len() && does_not_follow(items[i].as_str(), x.as_str())
        invariant
            i <= items.len(),
            before == crate::text::texts(items@),
            forall|k: int| 0 <= k < i ==> not_after(#[trigger] before[k], x@),
        decreases items.len() - i,
    {
        i = i + 1;
    }
    let ghost text = x@;
    proof {
        if i < items@.len() {
            assert(!not_after(before[i as int], text));
        }
    }
    items.insert(i, x);
    proof {
        let after = crate::text::texts(items@);
        assert(after =~= before.insert(i as int, text));
        lemma_insert_multiset(before, i as int, text);
        assert forall|a: int, b: int| 0 <= a <= b < after.len() implies not_after(
            #[trigger] after[a],
            #[trigger] after[b],
        ) by {
            law_order_is_total(after[a], after[a]);
            if a < i && b == i {
                assert(not_after(before[a], text));
            } else if a == i && b > i {
                law_order_is_total(before[i as int], text);
                assert(not_after(before[i as int], before[b - 1]));
                law_order_is_transitive(text, before[i as int], before[b - 1]);
            } else if a < i && b < i {
                assert(not_after(before[a], before[b]));
            } else if a < i && b > i {
                assert(not_after(before[a], before[b - 1]));
            } else if a > i {
                assert(not_after(before[a - 1], before[b - 1]));
            }
        }
    }
    items
}

/// Sorts strings alphabetically. Nothing is added or lost.
pub fn sort(items: &Vec<String>) -> (r: Vec<String>)
    ensures
        sorted(crate::text::texts(r@)),
        crate::text::texts(r@).to_multiset() == crate::text::texts(items@).to_multiset(),
{
    let mut r: Vec<String> = Vec::new();
    let mut i: usize = 0;
    assert(crate::text::texts(r@) =~= crate::text::texts(items@).take(0));
    while i < items.len()
        invariant
            i <= items.len(),
            sorted(crate::text::texts(r@)),
            crate::text::texts(r@).to_multiset() == crate::text::texts(items@).take(
                i as int,
            ).to_multiset(),
        decreases items.len() - i,
    {
        let ghost all = crate::text::texts(items@);
        proof {
            assert(all.take(i + 1) =~= all.take(i as int).push(all[i as int]));
            all.take(i as int).to_multiset_ensures();
        }
        r = insert_sorted(r, items[i].clone());
        i = i + 1;
    }
    assert(crate::text::texts(items@).take(i as int) =~= crate::text::texts(items@));
    r
}

/// The first difference decides the order, by code points; a text comes before
/// every longer text that it starts.
pub proof fn law_first_difference_decides(
    head: Seq<char>,
    a: char,
    b: char,
    x: Seq<char>,
    y: Seq<char>,
)
    requires
        a != b,
    ensures
        not_after(head + seq![a] + x, head + seq![b] + y) <==> (a as u32) < (b as u32),
        not_after(head, head + y),
        not_after(head + y, head) <==> y.len() == 0,
    decreases head.len(),
{
    let p = head + seq![a] + x;
    let q = head + seq![b] + y;
    if head.len() > 0 {
        let rest = head.skip(1);
        law_first_difference_decides(rest, a, b, x, y);
        assert(p.skip(1) =~= rest + seq![a] + x);
        assert(q.skip(1) =~= rest + seq![b] + y);
        assert((head + y).skip(1) =~= rest + y);
    } else {
        assert(p[0] == a && q[0] == b);
        assert(head + y =~= y);
    }
}

/// A list is in order exactly when each text comes no later than the next.
pub proof fn law_sorted_by_neighbours(items: Seq<Seq<char>>)
    ensures
        sorted(items) <==> forall|i: int|
            0 <= i < items.len() - 1 ==> not_after(items[i], #[trigger] items[i + 1]),
{
    if forall|i: int| 0 <= i < items.len() - 1 ==> not_after(items[i], #[trigger] items[i + 1]) {
        assert forall|i: int, j: int| 0 <= i <= j < items.len() implies not_after(
            #[trigger] items[i],
            #[trigger] items[j],
        ) by {
            lemma_chain(items, i, j);
        }
    }
}

proof fn lemma_chain(items: Seq<Seq<char>>, i: int, j: int)
    requires
        0 <= i <= j < items.len(),
        forall|k: int| 0 <= k < items.len() - 1 ==> not_after(items[k], #[trigger] items[k + 1]),
    ensures
        not_after(items[i], items[j]),
    decreases j - i,
{
    if i == j {
        law_order_is_total(items[i], items[i]);
    } else {
        lemma_chain(items, i, j - 1);
        assert(not_after(items[j - 1], items[j - 1 + 1]));
        law_order_is_transitive(items[i], items[j - 1], items[j]);
    }
}

} // verus!
