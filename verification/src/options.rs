//! The option classifier: what picking each ingredient of a slot's category
//! would mean for the meal as it stands.
//!
//! An ingredient is either usable as things are, usable after a switch to
//! another cuisine that keeps the protein, usable after a switch that
//! drops the protein, or not selectable at all.

use vstd::prelude::*;
use crate::catalog::{Catalog, Ingredient};
use crate::pairing::{belongs_to, check_pair, is_in_cuisine, pairs};
use crate::seqs::{lemma_filter_all, lemma_filter_next, lemma_filter_none};
use crate::text::{is_listed, listed};

verus! {

/// One candidate of a slot, with what picking it entails.
#[derive(Clone, Copy, Debug, PartialEq)]
pub struct SlotOption {
    pub ingredient: &'static Ingredient,
    /// The ingredient fits the current cuisine and protein.
    pub is_compatible: bool,
    /// The cuisine that picking the ingredient switches to, if any.
    pub target_cuisine: Option<&'static str>,
    /// Picking the ingredient drops the protein.
    pub clear_protein: bool,
}

impl SlotOption {
    /// Usable as things are.
    pub open spec fn is_direct(self) -> bool {
        self.is_compatible && self.target_cuisine is None && !self.clear_protein
    }

    /// Usable after a cuisine switch that keeps the protein.
    pub open spec fn is_switch(self) -> bool {
        !self.is_compatible && self.target_cuisine is Some && !self.clear_protein
    }

    /// Usable after a cuisine switch that drops the protein.
    pub open spec fn is_switch_dropping_protein(self) -> bool {
        !self.is_compatible && self.target_cuisine is Some && self.clear_protein
    }

    /// Not selectable: shown, with no remedy on offer.
    pub open spec fn is_unselectable(self) -> bool {
        !self.is_compatible && self.target_cuisine is None && !self.clear_protein
    }
}

/// The first of `cuisines` in which `p` and `i` pair.
pub open spec fn first_pairing_cuisine(
    p: Ingredient,
    i: Ingredient,
    cuisines: Seq<&'static str>,
) -> Option<&'static str>
    decreases cuisines.len(),
{
    if cuisines.len() == 0 {
        None
    } else if pairs(p, i, cuisines.first()@) {
        Some(cuisines.first())
    } else {
        first_pairing_cuisine(p, i, cuisines.drop_first())
    }
}

/// The cuisine of the first entry that `i` declares.
pub open spec fn first_own_cuisine(i: Ingredient) -> Option<&'static str> {
    if i.cuisines@.len() > 0 {
        Some(i.cuisines@[0].0)
    } else {
        None
    }
}

/// Whether `item` fits as things are: it pairs with the anchor in
/// `cuisine`, or, with no anchor, belongs to `cuisine`.
pub open spec fn fits(item: Ingredient, anchor: Option<&'static Ingredient>, cuisine: Seq<char>) -> bool {
    match anchor {
        Some(p) => pairs(*p, item, cuisine),
        None => belongs_to(item, cuisine),
    }
}

/// The option that `item` gives rise to, for the anchor and cuisine in
/// force and the cuisine ids `cuisines` of the catalog in their order.
pub open spec fn classify(
    item: &'static Ingredient,
    anchor: Option<&'static Ingredient>,
    cuisine: Seq<char>,
    cuisines: Seq<&'static str>,
) -> SlotOption {
    if fits(*item, anchor, cuisine) {
        SlotOption { ingredient: item, is_compatible: true, target_cuisine: None, clear_protein: false }
    } else {
        match anchor {
            Some(p) => match first_pairing_cuisine(*p, *item, cuisines) {
                Some(c) => SlotOption {
                    ingredient: item,
                    is_compatible: false,
                    target_cuisine: Some(c),
                    clear_protein: false,
                },
                None => SlotOption {
                    ingredient: item,
                    is_compatible: false,
                    target_cuisine: first_own_cuisine(*item),
                    clear_protein: first_own_cuisine(*item) is Some,
                },
            },
            None => SlotOption {
                ingredient: item,
                is_compatible: false,
                target_cuisine: first_own_cuisine(*item),
                clear_protein: false,
            },
        }
    }
}

/// The options of a slot: one for each item whose id is not excluded, in
/// the order of `items`.
pub open spec fn slot_options(
    items: Seq<&'static Ingredient>,
    anchor: Option<&'static Ingredient>,
    cuisine: Seq<char>,
    exclude: Seq<&str>,
    cuisines: Seq<&'static str>,
) -> Seq<SlotOption> {
    items.filter(|i: &'static Ingredient| !listed(exclude, i.id@)).map_values(
        |i: &'static Ingredient| classify(i, anchor, cuisine, cuisines),
    )
}

/// The first cuisine of the catalog, in its declaration order, in which
/// `p` and `i` pair.
pub fn find_cuisine_pairing(
    catalog: &Catalog,
    p: &Ingredient,
    i: &Ingredient,
) -> (found: Option<&'static str>)
    ensures
        found == first_pairing_cuisine(*p, *i, catalog.cuisines@),
{
    let cuisines = catalog.cuisines;
    let mut k: usize = 0;
    proof {
        assert(cuisines@.skip(0) =~= cuisines@);
    }
    while k < cuisines.len()
        invariant
            k <= cuisines.len(),
            cuisines == catalog.cuisines,
            first_pairing_cuisine(*p, *i, cuisines@) == first_pairing_cuisine(
                *p,
                *i,
                cuisines@.skip(k as int),
            ),
        decreases cuisines.len() - k,
    {
        if check_pair(p, i, cuisines[k]) {
            return Some(cuisines[k]);
        }
        proof {
            assert(cuisines@.skip(k as int).drop_first() =~= cuisines@.skip(k + 1));
        }
        k += 1;
    }
    None
}

/// The first cuisine that `i` declares an entry for, if it has any.
pub fn find_any_valid_cuisine(i: &Ingredient) -> (found: Option<&'static str>)
    ensures
        found == first_own_cuisine(*i),
{
    if i.cuisines.len() > 0 {
        Some(i.cuisines[0].0)
    } else {
        None
    }
}

/// The option that one item gives rise to.
pub fn classify_item(
    catalog: &Catalog,
    item: &'static Ingredient,
    context_protein: Option<&'static Ingredient>,
    current_cuisine: &str,
) -> (option: SlotOption)
    ensures
        option == classify(item, context_protein, current_cuisine@, catalog.cuisines@),
{
    let mut is_compatible = false;
    let mut target_cuisine: Option<&'static str> = None;
    let mut clear_protein = false;
    match context_protein {
        Some(p) => {
            if check_pair(p, item, current_cuisine) {
                is_compatible = true;
            } else {
                match find_cuisine_pairing(catalog, p, item) {
                    Some(c) => {
                        target_cuisine = Some(c);
                    },
                    None => {
                        match find_any_valid_cuisine(item) {
                            Some(c) => {
                                target_cuisine = Some(c);
                                clear_protein = true;
                            },
                            None => {},
                        }
                    },
                }
            }
        },
        None => {
            if is_in_cuisine(item, current_cuisine) {
                is_compatible = true;
            } else {
                target_cuisine = find_any_valid_cuisine(item);
            }
        },
    }
    SlotOption { ingredient: item, is_compatible, target_cuisine, clear_protein }
}

/// Classifies every item of a slot's category.
///
/// Each item of `all_items` whose id is not in `exclude_ids` yields one
/// option, in the order of `all_items`: compatible where it fits the
/// current cuisine and protein; else pointing at the first cuisine of the
/// catalog in which it pairs with the protein; else at the first cuisine it
/// declares itself, at the price of the protein; else with no remedy.
pub fn generate_slot_options(
    catalog: &Catalog,
    all_items: &[&'static Ingredient],
    context_protein: Option<&'static Ingredient>,
    current_cuisine: &str,
    exclude_ids: &[&str],
) -> (options: Vec<SlotOption>)
    ensures
        options@ == slot_options(
            all_items@,
            context_protein,
            current_cuisine@,
            exclude_ids@,
            catalog.cuisines@,
        ),
{
    let ghost keep = |i: &'static Ingredient| !listed(exclude_ids@, i.id@);
    let ghost turn = |i: &'static Ingredient|
        classify(i, context_protein, current_cuisine@, catalog.cuisines@);
    let mut options: Vec<SlotOption> = Vec::new();
    let mut k: usize = 0;
    proof {
        lemma_filter_none(keep);
        assert(all_items@.take(0) =~= Seq::empty());
        assert(options@ =~= all_items@.take(0).filter(keep).map_values(turn));
    }
    while k < all_items.len()
        invariant
            k <= all_items.len(),
            keep == |i: &'static Ingredient| !listed(exclude_ids@, i.id@),
            turn == |i: &'static Ingredient|
                classify(i, context_protein, current_cuisine@, catalog.cuisines@),
            options@ == all_items@.take(k as int).filter(keep).map_values(turn),
        decreases all_items.len() - k,
    {
        let item = all_items[k];
        if !is_listed(exclude_ids, item.id) {
            options.push(classify_item(catalog, item, context_protein, current_cuisine));
        }
        proof {
            lemma_filter_next(all_items@, keep, k as int);
            assert(options@ =~= all_items@.take(k + 1).filter(keep).map_values(turn));
        }
        k += 1;
    }
    proof {
        assert(all_items@.take(k as int) =~= all_items@);
    }
    options
}

/// Every item is classified exactly once and in exactly one way.
///
/// The option for an item names that item and has exactly one of the four
/// forms; which one is decided by whether the item fits as things are,
/// whether some cuisine of the catalog pairs it with the anchor, and
/// whether it declares any cuisine of its own.
pub proof fn lemma_classification_exhaustive(
    item: &'static Ingredient,
    anchor: Option<&'static Ingredient>,
    cuisine: Seq<char>,
    cuisines: Seq<&'static str>,
)
    ensures
        ({
            let o = classify(item, anchor, cuisine, cuisines);
            let pairing_elsewhere = anchor is Some && first_pairing_cuisine(
                *anchor.unwrap(),
                *item,
                cuisines,
            ) is Some;
            let own = first_own_cuisine(*item) is Some;
            &&& o.ingredient == item
            &&& o.is_direct() || o.is_switch() || o.is_switch_dropping_protein()
                || o.is_unselectable()
            &&& !(o.is_direct() && o.is_switch())
            &&& !(o.is_direct() && o.is_switch_dropping_protein())
            &&& !(o.is_direct() && o.is_unselectable())
            &&& !(o.is_switch() && o.is_switch_dropping_protein())
            &&& !(o.is_switch() && o.is_unselectable())
            &&& !(o.is_switch_dropping_protein() && o.is_unselectable())
            &&& o.is_direct() <==> fits(*item, anchor, cuisine)
            &&& o.is_switch() <==> !fits(*item, anchor, cuisine) && (pairing_elsewhere || (anchor is None
                && own))
            &&& o.is_switch_dropping_protein() <==> !fits(*item, anchor, cuisine) && anchor is Some
                && !pairing_elsewhere && own
            &&& o.is_unselectable() <==> !fits(*item, anchor, cuisine) && !pairing_elsewhere && !own
        }),
{
}

/// With nothing excluded, the options stand one for one beside the items.
pub proof fn lemma_one_option_per_item(
    items: Seq<&'static Ingredient>,
    anchor: Option<&'static Ingredient>,
    cuisine: Seq<char>,
    cuisines: Seq<&'static str>,
)
    ensures
        slot_options(items, anchor, cuisine, Seq::empty(), cuisines).len() == items.len(),
        forall|k: int|
            0 <= k < items.len() ==> #[trigger] slot_options(
                items,
                anchor,
                cuisine,
                Seq::empty(),
                cuisines,
            )[k] == classify(items[k], anchor, cuisine, cuisines),
{
    let none: Seq<&str> = Seq::empty();
    let keep = |i: &'static Ingredient| !listed(none, i.id@);
    assert forall|k: int| 0 <= k < items.len() implies keep(#[trigger] items[k]) by {}
    lemma_filter_all(items, keep);
}

} // verus!
