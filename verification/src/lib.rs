//! A meal composition resolver: compatible protein, starch and vegetable
//! slots chosen within one cuisine from a catalog of pairing declarations.
//!
//! The catalog is handed in by the caller and only read. Random choices
//! draw from a generator that the caller hands in as well, so a seeded
//! generator makes every operation reproducible.

pub mod cascade;
pub mod catalog;
pub mod options;
pub mod pairing;
pub mod random;
pub mod selection;
pub mod seqs;
pub mod session;
pub mod text;

pub use cascade::cascade_from_protein;
pub use catalog::{cuisine_label, get_proteins, get_starches, get_vegs, Catalog, Category, Ingredient};
pub use options::{generate_slot_options, SlotOption};
pub use pairing::{in_cuisine, pairs_with_protein};
pub use selection::{describe_meal, get_item, is_locked, LockState, MealSelection, Slot};
pub use session::Session;
