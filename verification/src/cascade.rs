//! The cascade engine: after the protein is set anew, the slots that
//! depend on it are drawn again, unless locked.

use vstd::prelude::*;
use rand::rngs::StdRng;
use crate::catalog::{category_members, get_proteins, get_starches, get_vegs, Catalog, Category, Ingredient};
use crate::pairing::{cuisine_members, in_cuisine, pairing_candidates, pairs_with_protein};
use crate::random::{draw, drawn_from};
use crate::selection::{LockState, MealSelection, Slot};
use crate::seqs::lemma_filter_member;
use crate::text::listed;

verus! {

/// The ids that the second vegetable must avoid: that of the first
/// vegetable, where one is set.
pub open spec fn taken_by(veg1: Option<&'static Ingredient>) -> Seq<&'static str> {
    match veg1 {
        Some(v) => seq![v.id],
        None => Seq::empty(),
    }
}

/// The ingredients that `slot` can be drawn from, given the cuisine and
/// what the selection holds.
///
/// The protein is drawn from the proteins of the cuisine. Starch and
/// vegetables are drawn from what stands beside the selected protein; the
/// second vegetable moreover avoids the first.
pub open spec fn slot_candidates(
    catalog: Catalog,
    sel: MealSelection,
    cuisine: Seq<char>,
    slot: Slot,
) -> Seq<&'static Ingredient> {
    let all = catalog.ingredients@;
    match slot {
        Slot::Protein => cuisine_members(cuisine, category_members(all, Category::Protein)),
        Slot::Starch => pairing_candidates(
            sel.protein,
            cuisine,
            category_members(all, Category::Starch),
            Seq::empty(),
        ),
        Slot::Veg1 => pairing_candidates(
            sel.protein,
            cuisine,
            category_members(all, Category::Vegetable),
            Seq::empty(),
        ),
        Slot::Veg2 => pairing_candidates(
            sel.protein,
            cuisine,
            category_members(all, Category::Vegetable),
            taken_by(sel.veg1),
        ),
    }
}

/// Whether `after` holds in `slot` a possible draw for that slot.
pub open spec fn redrawn(catalog: Catalog, after: MealSelection, cuisine: Seq<char>, slot: Slot) -> bool {
    drawn_from(slot_candidates(catalog, after, cuisine, slot), after.at(slot))
}

/// Whether `after` is a possible outcome of a cascade from `before`.
///
/// The protein stays. A locked slot keeps what it held, fitting or not. An
/// unlocked slot holds a draw from its candidates, and nothing where it
/// has none. The second vegetable is treated as locked while it is not
/// enabled.
pub open spec fn cascade_result(
    catalog: Catalog,
    before: MealSelection,
    lock: LockState,
    cuisine: Seq<char>,
    has_veg2: bool,
    after: MealSelection,
) -> bool {
    &&& after.protein == before.protein
    &&& if lock.starch {
        after.starch == before.starch
    } else {
        redrawn(catalog, after, cuisine, Slot::Starch)
    }
    &&& if lock.veg1 {
        after.veg1 == before.veg1
    } else {
        redrawn(catalog, after, cuisine, Slot::Veg1)
    }
    &&& if lock.veg2 || !has_veg2 {
        after.veg2 == before.veg2
    } else {
        redrawn(catalog, after, cuisine, Slot::Veg2)
    }
}

/// The ids that the second vegetable must avoid.
pub fn ids_taken_by(veg1: Option<&'static Ingredient>) -> (ids: Vec<&'static str>)
    ensures
        ids@ == taken_by(veg1),
{
    let mut ids: Vec<&'static str> = Vec::new();
    match veg1 {
        Some(v) => {
            ids.push(v.id);
            proof {
                assert(ids@ =~= seq![v.id]);
            }
        },
        None => {},
    }
    ids
}

/// The ingredients that `slot` can be drawn from, in catalog order.
pub fn candidates_for(
    catalog: &Catalog,
    sel: &MealSelection,
    cuisine: &str,
    slot: Slot,
) -> (candidates: Vec<&'static Ingredient>)
    ensures
        candidates@ == slot_candidates(*catalog, *sel, cuisine@, slot),
{
    match slot {
        Slot::Protein => {
            let list = get_proteins(catalog);
            in_cuisine(cuisine, list.as_slice())
        },
        Slot::Starch => {
            let list = get_starches(catalog);
            let none: Vec<&str> = Vec::new();
            pairs_with_protein(sel.protein, cuisine, list.as_slice(), none.as_slice())
        },
        Slot::Veg1 => {
            let list = get_vegs(catalog);
            let none: Vec<&str> = Vec::new();
            pairs_with_protein(sel.protein, cuisine, list.as_slice(), none.as_slice())
        },
        Slot::Veg2 => {
            let list = get_vegs(catalog);
            let exc = ids_taken_by(sel.veg1);
            pairs_with_protein(sel.protein, cuisine, list.as_slice(), exc.as_slice())
        },
    }
}

/// Draws the dependent slots again after the protein of `sel` was set.
///
/// Starch, first vegetable and, where `has_veg2`, second vegetable are
/// each replaced by a random candidate for the slot, or unset where there
/// is no candidate, unless the slot is locked. A locked slot is left as it
/// is, whether or not it still fits the protein.
pub fn cascade_from_protein(
    catalog: &Catalog,
    sel: &mut MealSelection,
    lock: &LockState,
    cuisine: &str,
    has_veg2: bool,
    rng: &mut StdRng,
)
    ensures
        cascade_result(*catalog, *old(sel), *lock, cuisine@, has_veg2, *final(sel)),
{
    if !lock.starch {
        let candidates = candidates_for(catalog, sel, cuisine, Slot::Starch);
        sel.starch = draw(candidates.as_slice(), rng);
    }
    if !lock.veg1 {
        let candidates = candidates_for(catalog, sel, cuisine, Slot::Veg1);
        sel.veg1 = draw(candidates.as_slice(), rng);
    }
    if !lock.veg2 && has_veg2 {
        let candidates = candidates_for(catalog, sel, cuisine, Slot::Veg2);
        sel.veg2 = draw(candidates.as_slice(), rng);
    }
}

/// A cascade respects the locks: every locked slot holds what it held, and
/// every unlocked slot that holds anything holds one of the items that
/// stand beside the protein in the cuisine; for the second vegetable,
/// one of those whose id is not that of the first.
pub proof fn lemma_cascade_respects_locks(
    catalog: Catalog,
    before: MealSelection,
    lock: LockState,
    cuisine: Seq<char>,
    has_veg2: bool,
    after: MealSelection,
)
    requires
        cascade_result(catalog, before, lock, cuisine, has_veg2, after),
    ensures
        after.protein == before.protein,
        lock.starch ==> after.starch == before.starch,
        lock.veg1 ==> after.veg1 == before.veg1,
        lock.veg2 ==> after.veg2 == before.veg2,
        !has_veg2 ==> after.veg2 == before.veg2,
        !lock.starch && after.starch is Some ==> pairing_candidates(
            before.protein,
            cuisine,
            category_members(catalog.ingredients@, Category::Starch),
            Seq::empty(),
        ).contains(after.starch.unwrap()),
        !lock.veg1 && after.veg1 is Some ==> pairing_candidates(
            before.protein,
            cuisine,
            category_members(catalog.ingredients@, Category::Vegetable),
            Seq::empty(),
        ).contains(after.veg1.unwrap()),
        !lock.veg2 && has_veg2 && after.veg2 is Some ==> pairing_candidates(
            before.protein,
            cuisine,
            category_members(catalog.ingredients@, Category::Vegetable),
            taken_by(after.veg1),
        ).contains(after.veg2.unwrap()),
{
}

/// No candidate for the second vegetable bears the id of the first, as
/// long as a protein anchors the selection.
pub proof fn lemma_second_vegetable_avoids_first(
    catalog: Catalog,
    sel: MealSelection,
    cuisine: Seq<char>,
    x: &'static Ingredient,
)
    requires
        sel.protein is Some,
        sel.veg1 is Some,
        slot_candidates(catalog, sel, cuisine, Slot::Veg2).contains(x),
    ensures
        x.id@ != sel.veg1.unwrap().id@,
{
    let a = sel.protein.unwrap();
    let exclude = taken_by(sel.veg1);
    lemma_filter_member(
        category_members(catalog.ingredients@, Category::Vegetable),
        |i: &'static Ingredient| !listed(exclude, i.id@) && crate::pairing::pairs(*a, *i, cuisine),
        x,
    );
    assert(exclude[0]@ == sel.veg1.unwrap().id@);
}

/// Whether the two vegetable slots hold ingredients of one id.
pub open spec fn vegetables_collide(sel: MealSelection) -> bool {
    sel.veg1 is Some && sel.veg2 is Some && sel.veg1.unwrap().id@ == sel.veg2.unwrap().id@
}

/// Whether some candidate for `slot` bears the id `id`.
pub open spec fn offers(
    catalog: Catalog,
    sel: MealSelection,
    cuisine: Seq<char>,
    slot: Slot,
    id: Seq<char>,
) -> bool {
    exists|x: &'static Ingredient| #[trigger]
        slot_candidates(catalog, sel, cuisine, slot).contains(x) && x.id@ == id
}

/// Whether a cascade from `before` can end with one ingredient in both
/// vegetable slots.
///
/// Two kept vegetables collide where they did before. A kept vegetable
/// collides with a drawn one where the drawn slot has a candidate of its
/// id. Two drawn vegetables collide where some candidate for the first
/// leaves a candidate of its own id for the second.
pub open spec fn cascade_may_collide(
    catalog: Catalog,
    before: MealSelection,
    lock: LockState,
    cuisine: Seq<char>,
    has_veg2: bool,
) -> bool {
    let keeps_second = lock.veg2 || !has_veg2;
    if lock.veg1 && keeps_second {
        vegetables_collide(before)
    } else if lock.veg1 {
        before.veg1 is Some && offers(catalog, before, cuisine, Slot::Veg2, before.veg1.unwrap().id@)
    } else if keeps_second {
        before.veg2 is Some && offers(catalog, before, cuisine, Slot::Veg1, before.veg2.unwrap().id@)
    } else {
        exists|v: &'static Ingredient| #[trigger]
            slot_candidates(catalog, before, cuisine, Slot::Veg1).contains(v) && offers(
                catalog,
                before.with(Slot::Veg1, Some(v)),
                cuisine,
                Slot::Veg2,
                v.id@,
            )
    }
}

/// After a cascade the two vegetables differ wherever both are set, unless
/// the cascade started from a state in which they can collide.
pub proof fn lemma_cascade_vegetables_differ(
    catalog: Catalog,
    before: MealSelection,
    lock: LockState,
    cuisine: Seq<char>,
    has_veg2: bool,
    after: MealSelection,
)
    requires
        cascade_result(catalog, before, lock, cuisine, has_veg2, after),
        !cascade_may_collide(catalog, before, lock, cuisine, has_veg2),
    ensures
        after.veg1 is Some && after.veg2 is Some ==> after.veg1.unwrap().id@
            != after.veg2.unwrap().id@,
{
    if vegetables_collide(after) {
        let v1 = after.veg1.unwrap();
        let v2 = after.veg2.unwrap();
        let keeps_second = lock.veg2 || !has_veg2;
        if lock.veg1 && keeps_second {
        } else if lock.veg1 {
            assert(slot_candidates(catalog, before, cuisine, Slot::Veg2).contains(v2));
        } else if keeps_second {
            assert(slot_candidates(catalog, before, cuisine, Slot::Veg1).contains(v1));
        } else {
            assert(slot_candidates(catalog, before, cuisine, Slot::Veg1).contains(v1));
            assert(slot_candidates(
                catalog,
                before.with(Slot::Veg1, Some(v1)),
                cuisine,
                Slot::Veg2,
            ).contains(v2));
        }
    }
}

/// A cascade that draws the second vegetable beside a protein cannot end
/// with one ingredient in both vegetable slots.
pub proof fn lemma_anchored_draw_cannot_collide(
    catalog: Catalog,
    before: MealSelection,
    lock: LockState,
    cuisine: Seq<char>,
    has_veg2: bool,
)
    requires
        before.protein is Some,
        has_veg2 && !lock.veg2,
    ensures
        !cascade_may_collide(catalog, before, lock, cuisine, has_veg2),
{
    if cascade_may_collide(catalog, before, lock, cuisine, has_veg2) {
        if lock.veg1 {
            let x = choose|x: &'static Ingredient| #[trigger]
                slot_candidates(catalog, before, cuisine, Slot::Veg2).contains(x) && x.id@
                    == before.veg1.unwrap().id@;
            lemma_second_vegetable_avoids_first(catalog, before, cuisine, x);
        } else {
            let v = choose|v: &'static Ingredient| #[trigger]
                slot_candidates(catalog, before, cuisine, Slot::Veg1).contains(v) && offers(
                    catalog,
                    before.with(Slot::Veg1, Some(v)),
                    cuisine,
                    Slot::Veg2,
                    v.id@,
                );
            let sel = before.with(Slot::Veg1, Some(v));
            let x = choose|x: &'static Ingredient| #[trigger]
                slot_candidates(catalog, sel, cuisine, Slot::Veg2).contains(x) && x.id@ == v.id@;
            lemma_second_vegetable_avoids_first(catalog, sel, cuisine, x);
        }
    }
}

/// Where the vegetables can collide, some cascade does end with one
/// ingredient in both vegetable slots.
pub proof fn lemma_collision_can_happen(
    catalog: Catalog,
    before: MealSelection,
    lock: LockState,
    cuisine: Seq<char>,
    has_veg2: bool,
) -> (after: MealSelection)
    requires
        cascade_may_collide(catalog, before, lock, cuisine, has_veg2),
    ensures
        cascade_result(catalog, before, lock, cuisine, has_veg2, after),
        vegetables_collide(after),
{
    let keeps_second = lock.veg2 || !has_veg2;
    let starches = slot_candidates(catalog, before, cuisine, Slot::Starch);
    let starch = if lock.starch {
        before.starch
    } else if starches.len() == 0 {
        None
    } else {
        Some(starches[0])
    };
    let veg1 = if lock.veg1 {
        before.veg1
    } else if keeps_second {
        Some(
            choose|x: &'static Ingredient| #[trigger]
                slot_candidates(catalog, before, cuisine, Slot::Veg1).contains(x) && x.id@
                    == before.veg2.unwrap().id@,
        )
    } else {
        Some(
            choose|v: &'static Ingredient| #[trigger]
                slot_candidates(catalog, before, cuisine, Slot::Veg1).contains(v) && offers(
                    catalog,
                    before.with(Slot::Veg1, Some(v)),
                    cuisine,
                    Slot::Veg2,
                    v.id@,
                ),
        )
    };
    let mid = before.with(Slot::Veg1, veg1);
    let veg2 = if keeps_second {
        before.veg2
    } else {
        Some(
            choose|x: &'static Ingredient| #[trigger]
                slot_candidates(catalog, mid, cuisine, Slot::Veg2).contains(x) && x.id@
                    == veg1.unwrap().id@,
        )
    };
    let after = MealSelection { protein: before.protein, starch, veg1, veg2 };
    assert(slot_candidates(catalog, after, cuisine, Slot::Starch) == starches);
    assert(slot_candidates(catalog, after, cuisine, Slot::Veg1) == slot_candidates(
        catalog,
        before,
        cuisine,
        Slot::Veg1,
    ));
    assert(slot_candidates(catalog, after, cuisine, Slot::Veg2) == slot_candidates(
        catalog,
        mid,
        cuisine,
        Slot::Veg2,
    ));
    after
}

} // verus!
