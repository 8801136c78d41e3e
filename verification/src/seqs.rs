//! Facts about filtered sequences that the loops of this crate rest on.

use vstd::prelude::*;

verus! {

/// Filtering one element more either appends that element or changes
/// nothing.
pub proof fn lemma_filter_next<A>(s: Seq<A>, keep: spec_fn(A) -> bool, k: int)
    requires
        0 <= k < s.len(),
    ensures
        s.take(k + 1).filter(keep) == if keep(s[k]) {
            s.take(k).filter(keep).push(s[k])
        } else {
            s.take(k).filter(keep)
        },
{
    reveal(Seq::filter);
    assert(s.take(k + 1).drop_last() =~= s.take(k));
}

/// Filtering nothing leaves nothing.
pub proof fn lemma_filter_none<A>(keep: spec_fn(A) -> bool)
    ensures
        Seq::<A>::empty().filter(keep) == Seq::<A>::empty(),
{
    reveal(Seq::filter);
}

/// What is kept of a single element.
pub proof fn lemma_filter_single<A>(x: A, keep: spec_fn(A) -> bool)
    ensures
        seq![x].filter(keep) == if keep(x) {
            seq![x]
        } else {
            Seq::<A>::empty()
        },
{
    reveal(Seq::filter);
    let s = seq![x];
    assert(s.drop_last() =~= Seq::<A>::empty());
    assert(s.drop_last().filter(keep) =~= Seq::<A>::empty());
    assert(Seq::<A>::empty().push(x) =~= s);
}

/// Each element of a filtered sequence comes from the sequence and is kept.
pub proof fn lemma_filter_member<A>(s: Seq<A>, keep: spec_fn(A) -> bool, x: A)
    ensures
        s.filter(keep).contains(x) <==> s.contains(x) && keep(x),
    decreases s.len(),
{
    reveal(Seq::filter);
    if s.len() > 0 {
        let front = s.drop_last();
        lemma_filter_member(front, keep, x);
        if s.filter(keep).contains(x) {
            let j = choose|j: int| 0 <= j < s.filter(keep).len() && s.filter(keep)[j] == x;
            if keep(s.last()) && j == front.filter(keep).len() {
                assert(s[s.len() - 1] == x);
            } else {
                assert(front.filter(keep)[j] == x);
                let i = choose|i: int| 0 <= i < front.len() && front[i] == x;
                assert(s[i] == x);
            }
        }
        if s.contains(x) && keep(x) {
            let i = choose|i: int| 0 <= i < s.len() && s[i] == x;
            if i == s.len() - 1 {
                assert(s.filter(keep)[front.filter(keep).len() as int] == x);
            } else {
                assert(front[i] == x);
                let j = choose|j: int| 0 <= j < front.filter(keep).len() && front.filter(keep)[j] == x;
                assert(s.filter(keep)[j] == x);
            }
        }
    }
}

/// A filter that keeps every element changes nothing.
pub proof fn lemma_filter_all<A>(s: Seq<A>, keep: spec_fn(A) -> bool)
    requires
        forall|k: int| 0 <= k < s.len() ==> keep(#[trigger] s[k]),
    ensures
        s.filter(keep) == s,
    decreases s.len(),
{
    reveal(Seq::filter);
    if s.len() > 0 {
        let front = s.drop_last();
        assert forall|k: int| 0 <= k < front.len() implies keep(#[trigger] front[k]) by {
            assert(front[k] == s[k]);
        }
        lemma_filter_all(front, keep);
        assert(front.push(s.last()) =~= s);
    }
}

} // verus!
