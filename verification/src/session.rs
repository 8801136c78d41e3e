//! The selection session: the state of one user's meal and the operations
//! that change it.
//!
//! Every operation runs to completion before the next is accepted. An
//! operation that is given a field name that is no slot's changes nothing.

use vstd::prelude::*;
use rand::rngs::StdRng;
use crate::cascade::{
    candidates_for, cascade_from_protein, cascade_result, ids_taken_by,
    lemma_second_vegetable_avoids_first, redrawn, slot_candidates, taken_by,
};
use crate::catalog::{category_members, get_proteins, get_starches, get_vegs, Catalog, Category};
use crate::options::{generate_slot_options, slot_options, SlotOption};
use crate::random::{draw, drawn_from};
use crate::selection::{slot_named, slot_of, LockState, MealSelection, Slot};

verus! {

/// The state of one session.
#[derive(Clone, Copy, Debug, PartialEq)]
pub struct Session {
    /// The cuisine in force.
    pub cuisine: &'static str,
    /// While set, a full regeneration keeps the cuisine.
    pub cuisine_locked: bool,
    pub selection: MealSelection,
    pub locks: LockState,
    /// Whether the second vegetable slot is in use.
    pub veg2_enabled: bool,
    /// Set by the first full regeneration, and never unset.
    pub has_generated: bool,
    /// The slot whose alternatives are on view, if any.
    pub editing: Option<Slot>,
}

/// Whether `after` is a possible outcome of a full regeneration of
/// `before`.
///
/// The cuisine is kept where it is locked, and where the catalog has no
/// cuisine to draw; otherwise it is one of the catalog's. The protein is
/// kept where it is locked and otherwise drawn from the proteins of the
/// cuisine. The other slots start out unset, unless locked, and are then
/// the outcome of a cascade from that protein.
pub open spec fn regenerated(catalog: Catalog, before: Session, after: Session) -> bool {
    let carried = MealSelection {
        protein: after.selection.protein,
        starch: if before.locks.starch {
            before.selection.starch
        } else {
            None
        },
        veg1: if before.locks.veg1 {
            before.selection.veg1
        } else {
            None
        },
        veg2: if before.locks.veg2 {
            before.selection.veg2
        } else {
            None
        },
    };
    &&& after.cuisine_locked == before.cuisine_locked
    &&& after.locks == before.locks
    &&& after.veg2_enabled == before.veg2_enabled
    &&& after.editing == before.editing
    &&& after.has_generated
    &&& if before.cuisine_locked || catalog.cuisines@.len() == 0 {
        after.cuisine == before.cuisine
    } else {
        catalog.cuisines@.contains(after.cuisine)
    }
    &&& if before.locks.protein {
        after.selection.protein == before.selection.protein
    } else {
        redrawn(catalog, after.selection, after.cuisine@, Slot::Protein)
    }
    &&& cascade_result(
        catalog,
        carried,
        before.locks,
        after.cuisine@,
        before.veg2_enabled,
        after.selection,
    )
}

/// Whether `after` is a possible outcome of drawing the slot named `field`
/// of `before` again.
///
/// Only the selection changes. A dependent slot is replaced by a draw from
/// its candidates, locked or not, and the other slots stay. The protein is
/// replaced by a draw from the proteins of the cuisine, and the dependent
/// slots are then the outcome of a cascade from it. A name that is no
/// slot's changes nothing.
pub open spec fn rerolled(catalog: Catalog, before: Session, field: Seq<char>, after: Session) -> bool {
    &&& after == Session { selection: after.selection, ..before }
    &&& match slot_named(field) {
        None => after.selection == before.selection,
        Some(Slot::Protein) => {
            &&& redrawn(catalog, after.selection, before.cuisine@, Slot::Protein)
            &&& cascade_result(
                catalog,
                before.selection.with(Slot::Protein, after.selection.protein),
                before.locks,
                before.cuisine@,
                before.veg2_enabled,
                after.selection,
            )
        },
        Some(slot) => {
            &&& after.selection == before.selection.with(slot, after.selection.at(slot))
            &&& drawn_from(
                slot_candidates(catalog, before.selection, before.cuisine@, slot),
                after.selection.at(slot),
            )
        },
    }
}

/// The cuisine in force once `option` is picked: its target where it has
/// one, the present cuisine otherwise.
pub open spec fn cuisine_after_pick(before: Session, option: SlotOption) -> &'static str {
    match option.target_cuisine {
        Some(target) => target,
        None => before.cuisine,
    }
}

/// The selection that a pick of `option` starts from: the present one,
/// without its protein where the option switches cuisine at that price.
pub open spec fn selection_before_pick(before: Session, option: SlotOption) -> MealSelection {
    if option.target_cuisine is Some && option.clear_protein {
        before.selection.with(Slot::Protein, None)
    } else {
        before.selection
    }
}

/// Whether `after` is a possible outcome of picking `option` for the slot
/// named `field` of `before`.
///
/// The cuisine becomes the option's target, where it has one, and the
/// protein is dropped where the option says so. The slot then holds the
/// option's ingredient. Where the slot is the protein, the dependent slots
/// are the outcome of a cascade in the cuisine now in force; otherwise
/// they stay. No slot's alternatives remain on view. A name that is no
/// slot's changes nothing.
pub open spec fn picked(
    catalog: Catalog,
    before: Session,
    field: Seq<char>,
    option: SlotOption,
    after: Session,
) -> bool {
    match slot_named(field) {
        None => after == before,
        Some(slot) => {
            let start = selection_before_pick(before, option).with(slot, Some(option.ingredient));
            &&& after == Session {
                cuisine: cuisine_after_pick(before, option),
                selection: after.selection,
                editing: None,
                ..before
            }
            &&& if slot == Slot::Protein {
                cascade_result(
                    catalog,
                    start,
                    before.locks,
                    after.cuisine@,
                    before.veg2_enabled,
                    after.selection,
                )
            } else {
                after.selection == start
            }
        },
    }
}

/// The options to show for `slot`, one for each ingredient of the slot's
/// category, in catalog order.
///
/// Proteins are classified by the cuisine alone; starches and vegetables
/// against the selected protein. The second vegetable does not offer what
/// the first one holds.
pub open spec fn slot_alternatives(catalog: Catalog, session: Session, slot: Slot) -> Seq<SlotOption> {
    let all = catalog.ingredients@;
    let cuisine = session.cuisine@;
    let anchor = session.selection.protein;
    match slot {
        Slot::Protein => slot_options(
            category_members(all, Category::Protein),
            None,
            cuisine,
            Seq::empty(),
            catalog.cuisines@,
        ),
        Slot::Starch => slot_options(
            category_members(all, Category::Starch),
            anchor,
            cuisine,
            Seq::empty(),
            catalog.cuisines@,
        ),
        Slot::Veg1 => slot_options(
            category_members(all, Category::Vegetable),
            anchor,
            cuisine,
            Seq::empty(),
            catalog.cuisines@,
        ),
        Slot::Veg2 => slot_options(
            category_members(all, Category::Vegetable),
            anchor,
            cuisine,
            taken_by(session.selection.veg1),
            catalog.cuisines@,
        ),
    }
}

/// Whether a reroll of the slot named `field` draws `slot` anew: the named
/// slot itself and, where that is the protein, every dependent slot that a
/// cascade does not keep.
pub open spec fn reroll_draws(before: Session, field: Seq<char>, slot: Slot) -> bool {
    match slot_named(field) {
        None => false,
        Some(Slot::Protein) => match slot {
            Slot::Protein => true,
            Slot::Starch => !before.locks.starch,
            Slot::Veg1 => !before.locks.veg1,
            Slot::Veg2 => !before.locks.veg2 && before.veg2_enabled,
        },
        Some(named) => slot == named,
    }
}

/// A reroll is decided by the state it starts from and by what it draws:
/// two rerolls of one slot from one state that draw the same ingredients
/// end in the same state.
pub proof fn lemma_reroll_decided_by_draws(
    catalog: Catalog,
    before: Session,
    field: Seq<char>,
    one: Session,
    other: Session,
)
    requires
        rerolled(catalog, before, field, one),
        rerolled(catalog, before, field, other),
        forall|slot: Slot| #[trigger]
            reroll_draws(before, field, slot) ==> one.selection.at(slot) == other.selection.at(slot),
    ensures
        one == other,
{
    assert(reroll_draws(before, field, Slot::Protein) ==> one.selection.protein
        == other.selection.protein);
    assert(reroll_draws(before, field, Slot::Starch) ==> one.selection.starch
        == other.selection.starch);
    assert(reroll_draws(before, field, Slot::Veg1) ==> one.selection.veg1 == other.selection.veg1);
    assert(reroll_draws(before, field, Slot::Veg2) ==> one.selection.veg2 == other.selection.veg2);
}

/// A second vegetable that a reroll draws beside a protein differs from
/// the first vegetable.
pub proof fn lemma_reroll_vegetables_differ(
    catalog: Catalog,
    before: Session,
    field: Seq<char>,
    after: Session,
)
    requires
        rerolled(catalog, before, field, after),
        reroll_draws(before, field, Slot::Veg2),
        after.selection.protein is Some,
    ensures
        after.selection.veg1 is Some && after.selection.veg2 is Some
            ==> after.selection.veg1.unwrap().id@ != after.selection.veg2.unwrap().id@,
{
    if after.selection.veg1 is Some && after.selection.veg2 is Some {
        let sel = if slot_named(field) == Some(Slot::Protein) {
            after.selection
        } else {
            before.selection
        };
        lemma_second_vegetable_avoids_first(
            catalog,
            sel,
            before.cuisine@,
            after.selection.veg2.unwrap(),
        );
    }
}

/// A second vegetable that a full regeneration draws beside a protein
/// differs from the first vegetable.
pub proof fn lemma_regenerated_vegetables_differ(catalog: Catalog, before: Session, after: Session)
    requires
        regenerated(catalog, before, after),
        before.veg2_enabled && !before.locks.veg2,
        after.selection.protein is Some,
    ensures
        after.selection.veg1 is Some && after.selection.veg2 is Some
            ==> after.selection.veg1.unwrap().id@ != after.selection.veg2.unwrap().id@,
{
    if after.selection.veg1 is Some && after.selection.veg2 is Some {
        lemma_second_vegetable_avoids_first(
            catalog,
            after.selection,
            after.cuisine@,
            after.selection.veg2.unwrap(),
        );
    }
}

impl Session {
    /// The state a session starts in: every slot unset and unlocked, the
    /// cuisine free to change, one vegetable, nothing generated yet.
    pub open spec fn initial(cuisine: &'static str) -> Session {
        Session {
            cuisine,
            cuisine_locked: false,
            selection: MealSelection::empty(),
            locks: LockState::unlocked(),
            veg2_enabled: false,
            has_generated: false,
            editing: None,
        }
    }

    /// A fresh session in the given cuisine.
    pub fn new(cuisine: &'static str) -> (session: Session)
        ensures
            session == Session::initial(cuisine),
    {
        Session {
            cuisine,
            cuisine_locked: false,
            selection: MealSelection { protein: None, starch: None, veg1: None, veg2: None },
            locks: LockState { protein: false, starch: false, veg1: false, veg2: false },
            veg2_enabled: false,
            has_generated: false,
            editing: None,
        }
    }

    /// Full regeneration: a new cuisine unless the cuisine is locked, a new
    /// protein unless the protein is locked, and every other unlocked slot
    /// drawn to stand beside that protein.
    pub fn generate_meal(&mut self, catalog: &Catalog, rng: &mut StdRng)
        ensures
            regenerated(*catalog, *old(self), *final(self)),
    {
        if !self.cuisine_locked {
            match draw(catalog.cuisines, rng) {
                Some(c) => {
                    self.cuisine = c;
                },
                None => {},
            }
        }
        let mut next = MealSelection {
            protein: self.selection.protein,
            starch: if self.locks.starch {
                self.selection.starch
            } else {
                None
            },
            veg1: if self.locks.veg1 {
                self.selection.veg1
            } else {
                None
            },
            veg2: if self.locks.veg2 {
                self.selection.veg2
            } else {
                None
            },
        };
        if !self.locks.protein {
            let candidates = candidates_for(catalog, &next, self.cuisine, Slot::Protein);
            next.protein = draw(candidates.as_slice(), rng);
        }
        cascade_from_protein(catalog, &mut next, &self.locks, self.cuisine, self.veg2_enabled, rng);
        self.selection = next;
        self.has_generated = true;
    }

    /// Draws the slot named `field` again, from what fits the protein and
    /// cuisine in force. A reroll of the protein cascades to the slots
    /// that depend on it.
    pub fn reroll_field(&mut self, catalog: &Catalog, field: &str, rng: &mut StdRng)
        ensures
            rerolled(*catalog, *old(self), field@, *final(self)),
    {
        let slot = match slot_of(field) {
            Some(slot) => slot,
            None => {
                return ;
            },
        };
        let mut s = self.selection;
        let candidates = candidates_for(catalog, &s, self.cuisine, slot);
        let pick = draw(candidates.as_slice(), rng);
        s.set(slot, pick);
        match slot {
            Slot::Protein => {
                cascade_from_protein(catalog, &mut s, &self.locks, self.cuisine, self.veg2_enabled, rng);
            },
            _ => {},
        }
        self.selection = s;
    }

    /// Puts the ingredient of `option` into the slot named `field`, with
    /// the side effects that the option announces: a switch to its target
    /// cuisine, and with it the loss of the protein where the option says
    /// so. A pick of the protein cascades to the slots that depend on it.
    pub fn pick(&mut self, catalog: &Catalog, field: &str, option: &SlotOption, rng: &mut StdRng)
        ensures
            picked(*catalog, *old(self), field@, *option, *final(self)),
    {
        let slot = match slot_of(field) {
            Some(slot) => slot,
            None => {
                return ;
            },
        };
        let mut s = self.selection;
        match option.target_cuisine {
            Some(target) => {
                self.cuisine = target;
                if option.clear_protein {
                    s.set(Slot::Protein, None);
                }
            },
            None => {},
        }
        s.set(slot, Some(option.ingredient));
        match slot {
            Slot::Protein => {
                cascade_from_protein(catalog, &mut s, &self.locks, self.cuisine, self.veg2_enabled, rng);
            },
            _ => {},
        }
        self.selection = s;
        self.editing = None;
    }

    /// Flips the lock of the slot named `field`. The selection stays as it
    /// is; the lock tells on the next cascade or regeneration.
    pub fn toggle_lock(&mut self, field: &str)
        ensures
            *final(self) == (Session {
                locks: match slot_named(field@) {
                    Some(slot) => old(self).locks.toggled(slot),
                    None => old(self).locks,
                },
                ..*old(self)
            }),
    {
        match slot_of(field) {
            Some(slot) => {
                self.locks.toggle(slot);
            },
            None => {},
        }
    }

    /// Switches the second vegetable slot on or off. Switching it off
    /// unsets the slot; switching it on leaves the slot as it is, to be
    /// filled by the next draw that touches it.
    pub fn toggle_veg2(&mut self)
        ensures
            *final(self) == (Session {
                veg2_enabled: !old(self).veg2_enabled,
                selection: if old(self).veg2_enabled {
                    old(self).selection.with(Slot::Veg2, None)
                } else {
                    old(self).selection
                },
                ..*old(self)
            }),
    {
        if self.veg2_enabled {
            self.selection.veg2 = None;
        }
        self.veg2_enabled = !self.veg2_enabled;
    }

    /// Unsets the slot named `field`. Nothing cascades, and no slot's
    /// alternatives remain on view.
    pub fn clear_slot(&mut self, field: &str)
        ensures
            *final(self) == match slot_named(field@) {
                Some(slot) => (Session {
                    selection: old(self).selection.with(slot, None),
                    editing: None,
                    ..*old(self)
                }),
                None => *old(self),
            },
    {
        match slot_of(field) {
            Some(slot) => {
                self.selection.set(slot, None);
                self.editing = None;
            },
            None => {},
        }
    }

    /// The options to show for the slot named `field`; none for a name
    /// that is no slot's.
    pub fn alternatives(&self, catalog: &Catalog, field: &str) -> (options: Vec<SlotOption>)
        ensures
            options@ == match slot_named(field@) {
                Some(slot) => slot_alternatives(*catalog, *self, slot),
                None => Seq::empty(),
            },
    {
        let none: Vec<&str> = Vec::new();
        match slot_of(field) {
            Some(Slot::Protein) => {
                let list = get_proteins(catalog);
                generate_slot_options(catalog, list.as_slice(), None, self.cuisine, none.as_slice())
            },
            Some(Slot::Starch) => {
                let list = get_starches(catalog);
                generate_slot_options(
                    catalog,
                    list.as_slice(),
                    self.selection.protein,
                    self.cuisine,
                    none.as_slice(),
                )
            },
            Some(Slot::Veg1) => {
                let list = get_vegs(catalog);
                generate_slot_options(
                    catalog,
                    list.as_slice(),
                    self.selection.protein,
                    self.cuisine,
                    none.as_slice(),
                )
            },
            Some(Slot::Veg2) => {
                let list = get_vegs(catalog);
                let taken = ids_taken_by(self.selection.veg1);
                generate_slot_options(
                    catalog,
                    list.as_slice(),
                    self.selection.protein,
                    self.cuisine,
                    taken.as_slice(),
                )
            },
            None => Vec::new(),
        }
    }

    /// Opens the alternatives of the slot named `field`, or closes them
    /// where they are on view.
    pub fn toggle_editing(&mut self, field: &str)
        ensures
            *final(self) == match slot_named(field@) {
                Some(slot) => (Session {
                    editing: if old(self).editing == Some(slot) {
                        None
                    } else {
                        Some(slot)
                    },
                    ..*old(self)
                }),
                None => *old(self),
            },
    {
        match slot_of(field) {
            Some(slot) => {
                let open = match self.editing {
                    Some(current) => current == slot,
                    None => false,
                };
                self.editing = if open {
                    None
                } else {
                    Some(slot)
                };
            },
            None => {},
        }
    }
}

} // verus!
