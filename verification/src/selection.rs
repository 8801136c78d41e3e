//! The four slots of a meal, their locks, and the sentence that presents a
//! complete meal.

use vstd::prelude::*;
use vstd::string::StringExecFns;
use crate::catalog::Ingredient;
use crate::text::same_text;

verus! {

/// One of the four slots of a meal.
#[derive(Clone, Copy, Debug, PartialEq, Eq, Structural)]
pub enum Slot {
    Protein,
    Starch,
    Veg1,
    Veg2,
}

/// The slot that a field name stands for: `"protein"`, `"starch"`,
/// `"veg1"` or `"veg2"`; any other name stands for none.
pub open spec fn slot_named(field: Seq<char>) -> Option<Slot> {
    if field == "protein"@ {
        Some(Slot::Protein)
    } else if field == "starch"@ {
        Some(Slot::Starch)
    } else if field == "veg1"@ {
        Some(Slot::Veg1)
    } else if field == "veg2"@ {
        Some(Slot::Veg2)
    } else {
        None
    }
}

/// The slot that `field` names, if it names one.
pub fn slot_of(field: &str) -> (slot: Option<Slot>)
    ensures
        slot == slot_named(field@),
{
    if same_text(field, "protein") {
        Some(Slot::Protein)
    } else if same_text(field, "starch") {
        Some(Slot::Starch)
    } else if same_text(field, "veg1") {
        Some(Slot::Veg1)
    } else if same_text(field, "veg2") {
        Some(Slot::Veg2)
    } else {
        None
    }
}

/// The four field names stand for four different slots.
pub proof fn lemma_slot_names()
    ensures
        slot_named("protein"@) == Some(Slot::Protein),
        slot_named("starch"@) == Some(Slot::Starch),
        slot_named("veg1"@) == Some(Slot::Veg1),
        slot_named("veg2"@) == Some(Slot::Veg2),
{
    reveal_strlit("protein");
    reveal_strlit("starch");
    reveal_strlit("veg1");
    reveal_strlit("veg2");
    assert("protein"@.len() == 7);
    assert("starch"@.len() == 6);
    assert("veg1"@.len() == 4);
    assert("veg2"@.len() == 4);
    assert("veg1"@[3] == '1');
    assert("veg2"@[3] == '2');
}

/// What each slot holds. The protein is the anchor: the other slots are
/// chosen relative to it.
#[derive(Clone, Copy, Debug, PartialEq)]
pub struct MealSelection {
    pub protein: Option<&'static Ingredient>,
    pub starch: Option<&'static Ingredient>,
    pub veg1: Option<&'static Ingredient>,
    pub veg2: Option<&'static Ingredient>,
}

impl MealSelection {
    /// The selection with every slot unset.
    pub open spec fn empty() -> MealSelection {
        MealSelection { protein: None, starch: None, veg1: None, veg2: None }
    }

    /// What `slot` holds.
    pub open spec fn at(self, slot: Slot) -> Option<&'static Ingredient> {
        match slot {
            Slot::Protein => self.protein,
            Slot::Starch => self.starch,
            Slot::Veg1 => self.veg1,
            Slot::Veg2 => self.veg2,
        }
    }

    /// The selection with `slot` holding `item` and the other slots as they
    /// are.
    pub open spec fn with(self, slot: Slot, item: Option<&'static Ingredient>) -> MealSelection {
        match slot {
            Slot::Protein => MealSelection { protein: item, ..self },
            Slot::Starch => MealSelection { starch: item, ..self },
            Slot::Veg1 => MealSelection { veg1: item, ..self },
            Slot::Veg2 => MealSelection { veg2: item, ..self },
        }
    }

    /// What `slot` holds.
    pub fn get(&self, slot: Slot) -> (item: Option<&'static Ingredient>)
        ensures
            item == self.at(slot),
    {
        match slot {
            Slot::Protein => self.protein,
            Slot::Starch => self.starch,
            Slot::Veg1 => self.veg1,
            Slot::Veg2 => self.veg2,
        }
    }

    /// Puts `item` into `slot`, or unsets the slot with `None`. The other
    /// slots keep what they hold.
    pub fn set(&mut self, slot: Slot, item: Option<&'static Ingredient>)
        ensures
            *final(self) == old(self).with(slot, item),
    {
        match slot {
            Slot::Protein => {
                self.protein = item;
            },
            Slot::Starch => {
                self.starch = item;
            },
            Slot::Veg1 => {
                self.veg1 = item;
            },
            Slot::Veg2 => {
                self.veg2 = item;
            },
        }
    }
}

impl Default for MealSelection {
    fn default() -> (selection: MealSelection)
        ensures
            selection == MealSelection::empty(),
    {
        MealSelection { protein: None, starch: None, veg1: None, veg2: None }
    }
}

/// One lock per slot. A locked slot is not overwritten by a cascade or a
/// full regeneration.
#[derive(Clone, Copy, Debug, PartialEq)]
pub struct LockState {
    pub protein: bool,
    pub starch: bool,
    pub veg1: bool,
    pub veg2: bool,
}

impl LockState {
    /// No slot locked.
    pub open spec fn unlocked() -> LockState {
        LockState { protein: false, starch: false, veg1: false, veg2: false }
    }

    /// Whether `slot` is locked.
    pub open spec fn at(self, slot: Slot) -> bool {
        match slot {
            Slot::Protein => self.protein,
            Slot::Starch => self.starch,
            Slot::Veg1 => self.veg1,
            Slot::Veg2 => self.veg2,
        }
    }

    /// The locks with that of `slot` flipped and the others as they are.
    pub open spec fn toggled(self, slot: Slot) -> LockState {
        match slot {
            Slot::Protein => LockState { protein: !self.protein, ..self },
            Slot::Starch => LockState { starch: !self.starch, ..self },
            Slot::Veg1 => LockState { veg1: !self.veg1, ..self },
            Slot::Veg2 => LockState { veg2: !self.veg2, ..self },
        }
    }

    /// Whether `slot` is locked.
    pub fn get(&self, slot: Slot) -> (locked: bool)
        ensures
            locked == self.at(slot),
    {
        match slot {
            Slot::Protein => self.protein,
            Slot::Starch => self.starch,
            Slot::Veg1 => self.veg1,
            Slot::Veg2 => self.veg2,
        }
    }

    /// Flips the lock of `slot`.
    pub fn toggle(&mut self, slot: Slot)
        ensures
            *final(self) == old(self).toggled(slot),
    {
        match slot {
            Slot::Protein => {
                self.protein = !self.protein;
            },
            Slot::Starch => {
                self.starch = !self.starch;
            },
            Slot::Veg1 => {
                self.veg1 = !self.veg1;
            },
            Slot::Veg2 => {
                self.veg2 = !self.veg2;
            },
        }
    }
}

impl Default for LockState {
    fn default() -> (locks: LockState)
        ensures
            locks == LockState::unlocked(),
    {
        LockState { protein: false, starch: false, veg1: false, veg2: false }
    }
}

/// What the slot named `field` holds; nothing for a name that is no slot's.
pub fn get_item(sel: &MealSelection, field: &str) -> (item: Option<&'static Ingredient>)
    ensures
        item == match slot_named(field@) {
            Some(slot) => sel.at(slot),
            None => None,
        },
{
    match slot_of(field) {
        Some(slot) => sel.get(slot),
        None => None,
    }
}

/// Whether the slot named `field` is locked; `false` for a name that is no
/// slot's.
pub fn is_locked(locks: &LockState, field: &str) -> (locked: bool)
    ensures
        locked == match slot_named(field@) {
            Some(slot) => locks.at(slot),
            None => false,
        },
{
    match slot_of(field) {
        Some(slot) => locks.get(slot),
        None => false,
    }
}

/// The sentence that presents a meal of the given names: three of them, or
/// four where a second vegetable is given.
pub open spec fn meal_sentence(
    protein: Seq<char>,
    starch: Seq<char>,
    veg1: Seq<char>,
    veg2: Option<Seq<char>>,
) -> Seq<char> {
    match veg2 {
        Some(second) => "This evening, we present "@ + protein + " served alongside "@ + starch
            + ", with a side of "@ + veg1 + " \u{2014} complemented by "@ + second + "."@,
        None => "This evening, we present "@ + protein + " served alongside "@ + starch
            + ", accompanied by "@ + veg1 + "."@,
    }
}

/// The description of a selection: its sentence where protein, starch and
/// first vegetable are all set, nothing otherwise. The second vegetable
/// is optional.
pub open spec fn description(sel: MealSelection) -> Option<Seq<char>> {
    if sel.protein is Some && sel.starch is Some && sel.veg1 is Some {
        Some(
            meal_sentence(
                sel.protein.unwrap().name@,
                sel.starch.unwrap().name@,
                sel.veg1.unwrap().name@,
                match sel.veg2 {
                    Some(v) => Some(v.name@),
                    None => None,
                },
            ),
        )
    } else {
        None
    }
}

/// One sentence naming the protein, the starch, the vegetable and, where
/// set, the second vegetable; `None` while protein, starch or first
/// vegetable is unset.
pub fn describe_meal(sel: &MealSelection) -> (text: Option<String>)
    ensures
        match text {
            Some(sentence) => description(*sel) == Some(sentence@),
            None => description(*sel) is None,
        },
{
    let p = match sel.protein {
        Some(p) => p,
        None => {
            return None;
        },
    };
    let s = match sel.starch {
        Some(s) => s,
        None => {
            return None;
        },
    };
    let v = match sel.veg1 {
        Some(v) => v,
        None => {
            return None;
        },
    };
    let mut sentence = String::from_str("This evening, we present ");
    sentence.append(p.name);
    sentence.append(" served alongside ");
    sentence.append(s.name);
    match sel.veg2 {
        Some(v2) => {
            sentence.append(", with a side of ");
            sentence.append(v.name);
            sentence.append(" \u{2014} complemented by ");
            sentence.append(v2.name);
        },
        None => {
            sentence.append(", accompanied by ");
            sentence.append(v.name);
        },
    }
    sentence.append(".");
    Some(sentence)
}

} // verus!
