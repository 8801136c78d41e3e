//! The random source that every random choice of this crate draws from.
//!
//! The source is handed in by the caller, so a seeded generator makes every
//! operation reproducible.

use vstd::prelude::*;
use rand::rngs::StdRng;
use rand::seq::SliceRandom;

verus! {

/// `rand::rngs::StdRng`, the seedable generator of the `rand` crate. Its
/// state is opaque here: it is only carried through to `choose`.
#[verifier::external_type_specification]
#[verifier::external_body]
pub struct ExStdRng(StdRng);

/// One element of `items` chosen by `rand::seq::SliceRandom::choose`.
///
/// Nothing is proved of this function; its contract is taken from the
/// documentation of `choose`: the result is `None` for an empty slice and
/// otherwise a reference to one of its elements. Which element depends on
/// the state of `rng`, so nothing is claimed about that.
#[verifier::external_body]
pub(crate) fn choose_from<'a, T>(items: &'a [T], rng: &mut StdRng) -> (chosen: Option<&'a T>)
    ensures
        items@.len() == 0 ==> chosen is None,
        items@.len() > 0 ==> chosen is Some && items@.contains(*chosen.unwrap()),
{
    items.choose(rng)
}

/// Whether `pick` is a possible result of drawing from `candidates`:
/// nothing where there is no candidate, one of them otherwise.
pub open spec fn drawn_from<T>(candidates: Seq<T>, pick: Option<T>) -> bool {
    match pick {
        None => candidates.len() == 0,
        Some(x) => candidates.contains(x),
    }
}

/// Draws one of `candidates` at random; `None` where there is none to
/// draw.
pub fn draw<T: Copy>(candidates: &[T], rng: &mut StdRng) -> (pick: Option<T>)
    ensures
        drawn_from(candidates@, pick),
{
    match choose_from(candidates, rng) {
        Some(x) => Some(*x),
        None => None,
    }
}

} // verus!
