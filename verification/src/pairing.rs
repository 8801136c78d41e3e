//! The compatibility resolver: which ingredients belong to a cuisine, and
//! which pair with an anchor protein there.
//!
//! Two ingredients pair in a cuisine when either of them names the other
//! in the pairing list it declares for that cuisine. Every selection and
//! classification in this crate goes by this two-sided rule.

use vstd::prelude::*;
use crate::catalog::Ingredient;
use crate::seqs::{lemma_filter_next, lemma_filter_none, lemma_filter_single};
use crate::text::{is_listed, listed, same_text};

verus! {

/// Whether `item` has an entry for `cuisine`.
pub open spec fn belongs_to(item: Ingredient, cuisine: Seq<char>) -> bool {
    exists|k: int| 0 <= k < item.cuisines@.len() && (#[trigger] item.cuisines@[k]).0@ == cuisine
}

/// The pairing list beside the first of `entries` that is for `cuisine`;
/// empty where there is none.
pub open spec fn pairs_in(
    entries: Seq<(&'static str, &'static [&'static str])>,
    cuisine: Seq<char>,
) -> Seq<&'static str>
    decreases entries.len(),
{
    if entries.len() == 0 {
        Seq::empty()
    } else if entries.first().0@ == cuisine {
        entries.first().1@
    } else {
        pairs_in(entries.drop_first(), cuisine)
    }
}

/// Whether `item` names `id` among its pairings in `cuisine`.
pub open spec fn declares(item: Ingredient, cuisine: Seq<char>, id: Seq<char>) -> bool {
    listed(pairs_in(item.cuisines@, cuisine), id)
}

/// Whether `a` and `b` pair in `cuisine`: one of them names the other.
pub open spec fn pairs(a: Ingredient, b: Ingredient, cuisine: Seq<char>) -> bool {
    declares(a, cuisine, b.id@) || declares(b, cuisine, a.id@)
}

/// The items that belong to `cuisine`, in order.
pub open spec fn cuisine_members(
    cuisine: Seq<char>,
    items: Seq<&'static Ingredient>,
) -> Seq<&'static Ingredient> {
    items.filter(|i: &'static Ingredient| belongs_to(*i, cuisine))
}

/// The items that can stand beside `anchor` in `cuisine`, in order.
///
/// Without an anchor these are the members of the cuisine, and `exclude`
/// plays no part. With one, they are the items whose id is not excluded and
/// that pair with the anchor.
pub open spec fn pairing_candidates(
    anchor: Option<&'static Ingredient>,
    cuisine: Seq<char>,
    items: Seq<&'static Ingredient>,
    exclude: Seq<&str>,
) -> Seq<&'static Ingredient> {
    match anchor {
        None => cuisine_members(cuisine, items),
        Some(a) => items.filter(
            |i: &'static Ingredient| !listed(exclude, i.id@) && pairs(*a, *i, cuisine),
        ),
    }
}

/// Whether `i` belongs to cuisine `c`.
pub fn is_in_cuisine(i: &Ingredient, c: &str) -> (member: bool)
    ensures
        member == belongs_to(*i, c@),
{
    let entries = i.cuisines;
    let mut k: usize = 0;
    while k < entries.len()
        invariant
            k <= entries.len(),
            entries == i.cuisines,
            forall|j: int| 0 <= j < k ==> (#[trigger] entries@[j]).0@ != c@,
        decreases entries.len() - k,
    {
        if same_text(entries[k].0, c) {
            return true;
        }
        k += 1;
    }
    false
}

/// The pairing ids that `i` declares in cuisine `c`.
pub fn declared_pairs(i: &Ingredient, c: &str) -> (ids: &'static [&'static str])
    ensures
        ids@ == pairs_in(i.cuisines@, c@),
{
    let entries = i.cuisines;
    let mut k: usize = 0;
    proof {
        assert(entries@.skip(0) =~= entries@);
    }
    while k < entries.len()
        invariant
            k <= entries.len(),
            entries == i.cuisines,
            pairs_in(entries@, c@) == pairs_in(entries@.skip(k as int), c@),
        decreases entries.len() - k,
    {
        if same_text(entries[k].0, c) {
            return entries[k].1;
        }
        proof {
            assert(entries@.skip(k as int).drop_first() =~= entries@.skip(k + 1));
        }
        k += 1;
    }
    &[]
}

/// Whether `p` and `i` pair in cuisine `c`, by either one's declaration.
pub fn check_pair(p: &Ingredient, i: &Ingredient, c: &str) -> (paired: bool)
    ensures
        paired == pairs(*p, *i, c@),
{
    if is_listed(declared_pairs(p, c), i.id) {
        return true;
    }
    is_listed(declared_pairs(i, c), p.id)
}

/// Every item of `list` that belongs to cuisine `c`, in the order of `list`.
pub fn in_cuisine(c: &str, list: &[&'static Ingredient]) -> (members: Vec<&'static Ingredient>)
    ensures
        members@ == cuisine_members(c@, list@),
{
    let mut members: Vec<&'static Ingredient> = Vec::new();
    let mut k: usize = 0;
    proof {
        lemma_filter_none(|i: &'static Ingredient| belongs_to(*i, c@));
        assert(list@.take(0) =~= Seq::empty());
    }
    while k < list.len()
        invariant
            k <= list.len(),
            members@ == cuisine_members(c@, list@.take(k as int)),
        decreases list.len() - k,
    {
        if is_in_cuisine(list[k], c) {
            members.push(list[k]);
        }
        proof {
            lemma_filter_next(list@, |i: &'static Ingredient| belongs_to(*i, c@), k as int);
        }
        k += 1;
    }
    proof {
        assert(list@.take(k as int) =~= list@);
    }
    members
}

/// Every item of `list` that can stand beside the anchor `p` in cuisine
/// `c`, in the order of `list`.
///
/// With no anchor this is `in_cuisine(c, list)`. With one, an item
/// qualifies when its id is not in `exclude` and it pairs with the anchor
/// in `c`, whichever of the two declares the pairing.
pub fn pairs_with_protein(
    p: Option<&'static Ingredient>,
    c: &str,
    list: &[&'static Ingredient],
    exclude: &[&str],
) -> (candidates: Vec<&'static Ingredient>)
    ensures
        candidates@ == pairing_candidates(p, c@, list@, exclude@),
{
    let protein = match p {
        Some(protein) => protein,
        None => {
            return in_cuisine(c, list);
        },
    };
    let forward = declared_pairs(protein, c);
    let ghost keep = |i: &'static Ingredient| !listed(exclude@, i.id@) && pairs(*protein, *i, c@);
    let mut candidates: Vec<&'static Ingredient> = Vec::new();
    let mut k: usize = 0;
    proof {
        lemma_filter_none(keep);
        assert(list@.take(0) =~= Seq::empty());
    }
    while k < list.len()
        invariant
            k <= list.len(),
            forward@ == pairs_in(protein.cuisines@, c@),
            keep == |i: &'static Ingredient| !listed(exclude@, i.id@) && pairs(*protein, *i, c@),
            candidates@ == list@.take(k as int).filter(keep),
        decreases list.len() - k,
    {
        let item = list[k];
        if !is_listed(exclude, item.id) && (is_listed(forward, item.id) || is_listed(
            declared_pairs(item, c),
            protein.id,
        )) {
            candidates.push(item);
        }
        proof {
            lemma_filter_next(list@, keep, k as int);
        }
        k += 1;
    }
    proof {
        assert(list@.take(k as int) =~= list@);
    }
    candidates
}

/// Pairing is symmetric: asking whether `b` can stand beside `a` in a
/// cuisine gives the same answer as asking whether `a` can stand beside `b`.
pub proof fn lemma_pairing_symmetric(a: &'static Ingredient, b: &'static Ingredient, cuisine: Seq<char>)
    ensures
        pairs(*a, *b, cuisine) == pairs(*b, *a, cuisine),
        pairing_candidates(Some(a), cuisine, seq![b], Seq::empty()).len() > 0
            <==> pairing_candidates(Some(b), cuisine, seq![a], Seq::empty()).len() > 0,
{
    let none: Seq<&str> = Seq::empty();
    lemma_filter_single(b, |i: &'static Ingredient| !listed(none, i.id@) && pairs(*a, *i, cuisine));
    lemma_filter_single(a, |i: &'static Ingredient| !listed(none, i.id@) && pairs(*b, *i, cuisine));
}

} // verus!
