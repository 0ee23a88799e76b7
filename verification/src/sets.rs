//! Facts about lists that stand for sets.

use vstd::prelude::*;

verus! {

/// Adding to a list adds exactly one member.
pub proof fn lemma_contains_push<A>(s: Seq<A>, x: A)
    ensures
        forall|y: A| #[trigger] s.push(x).contains(y) == (x == y || s.contains(y)),
{
    assert forall|y: A| #[trigger] s.push(x).contains(y) == (x == y || s.contains(y)) by {
        if s.contains(y) {
            let i = choose|i: int| 0 <= i < s.len() && s[i] == y;
            assert(s.push(x)[i] == y);
        }
        if x == y {
            assert(s.push(x)[s.len() as int] == y);
        }
    }
}

/// Filtering goes one element at a time.
pub proof fn lemma_filter_push<A>(s: Seq<A>, x: A, p: spec_fn(A) -> bool)
    ensures
        s.push(x).filter(p) == (if p(x) {
            s.filter(p).push(x)
        } else {
            s.filter(p)
        }),
{
    reveal(Seq::filter);
    assert(s.push(x).drop_last() =~= s);
}

/// A filtered list holds exactly the members that pass, and repeats none that
/// the list did not repeat.
pub proof fn lemma_filter_members<A>(s: Seq<A>, p: spec_fn(A) -> bool)
    ensures
        forall|y: A| #[trigger] s.filter(p).contains(y) == (s.contains(y) && p(y)),
        s.no_duplicates() ==> s.filter(p).no_duplicates(),
    decreases s.len(),
{
    reveal(Seq::filter);
    if s.len() > 0 {
        let rest = s.drop_last();
        let x = s.last();
        assert(s =~= rest.push(x));
        lemma_filter_members(rest, p);
        lemma_filter_push(rest, x, p);
        lemma_contains_push(rest, x);
        lemma_contains_push(rest.filter(p), x);
        if s.no_duplicates() {
            assert(!rest.contains(x)) by {
                if rest.contains(x) {
                    let i = choose|i: int| 0 <= i < rest.len() && rest[i] == x;
                    assert(s[i] == s[s.len() - 1]);
                }
            }
            assert(rest.no_duplicates()) by {
                assert forall|i: int, j: int| 0 <= i < rest.len() && 0 <= j < rest.len() && i
                    != j implies rest[i] != rest[j] by {
                    assert(s[i] != s[j]);
                }
            }
            let kept = rest.filter(p);
            assert(!kept.contains(x));
            assert forall|i: int, j: int| 0 <= i < kept.push(x).len() && 0 <= j < kept.push(x).len()
                && i != j implies kept.push(x)[i] != kept.push(x)[j] by {
                if i < kept.len() {
                    assert(kept.contains(kept[i]));
                }
                if j < kept.len() {
                    assert(kept.contains(kept[j]));
                }
            }
        }
    }
}

} // verus!
