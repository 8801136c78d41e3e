//! The ingredient catalog: ingredients, their categories and the cuisines
//! in which each declares what it pairs with.

use vstd::prelude::*;
use crate::seqs::{lemma_filter_next, lemma_filter_none};
use crate::text::same_text;

verus! {

/// The slot family an ingredient can fill.
#[derive(Clone, Copy, Debug, PartialEq, Eq, Structural)]
pub enum Category {
    Protein,
    Starch,
    Vegetable,
}

/// One catalog entry.
///
/// `cuisines` lists, in declaration order, each cuisine the ingredient
/// belongs to together with the ids it declares as pairings there. An
/// ingredient belongs to a cuisine exactly when the cuisine is listed,
/// whether or not the pairing list beside it is empty.
#[derive(Clone, Copy, Debug, PartialEq)]
pub struct Ingredient {
    pub id: &'static str,
    pub name: &'static str,
    pub category: Category,
    pub buy_amount: Option<&'static str>,
    pub cuisines: &'static [(&'static str, &'static [&'static str])],
}

/// The immutable tables every resolver call reads.
#[derive(Clone, Copy, Debug)]
pub struct Catalog {
    /// Every ingredient, in declaration order.
    pub ingredients: &'static [Ingredient],
    /// The cuisine ids, in declaration order.
    pub cuisines: &'static [&'static str],
    /// A display label for each cuisine id.
    pub labels: &'static [(&'static str, &'static str)],
}

/// The ingredients of `all` that are in category `cat`, in order.
pub open spec fn category_members(all: Seq<Ingredient>, cat: Category) -> Seq<&'static Ingredient> {
    all.filter(|i: Ingredient| i.category == cat).map_values(|i: Ingredient| &i)
}

/// Every catalog ingredient of one category, in declaration order.
pub fn list_category(catalog: &Catalog, cat: Category) -> (members: Vec<&'static Ingredient>)
    ensures
        members@ == category_members(catalog.ingredients@, cat),
{
    let all: &'static [Ingredient] = catalog.ingredients;
    let mut members: Vec<&'static Ingredient> = Vec::new();
    let mut k: usize = 0;
    proof {
        lemma_filter_none(|i: Ingredient| i.category == cat);
        assert(all@.take(0) =~= Seq::<Ingredient>::empty());
        assert(members@ =~= category_members(all@.take(0), cat));
    }
    while k < all.len()
        invariant
            k <= all.len(),
            members@ == category_members(all@.take(k as int), cat),
        decreases all.len() - k,
    {
        let item: &'static Ingredient = &all[k];
        if item.category == cat {
            members.push(item);
        }
        proof {
            lemma_filter_next(all@, |i: Ingredient| i.category == cat, k as int);
            assert(members@ =~= category_members(all@.take(k + 1), cat));
        }
        k += 1;
    }
    proof {
        assert(all@.take(k as int) =~= all@);
    }
    members
}

/// Every protein of the catalog, in declaration order.
pub fn get_proteins(catalog: &Catalog) -> (members: Vec<&'static Ingredient>)
    ensures
        members@ == category_members(catalog.ingredients@, Category::Protein),
{
    list_category(catalog, Category::Protein)
}

/// Every starch of the catalog, in declaration order.
pub fn get_starches(catalog: &Catalog) -> (members: Vec<&'static Ingredient>)
    ensures
        members@ == category_members(catalog.ingredients@, Category::Starch),
{
    list_category(catalog, Category::Starch)
}

/// Every vegetable of the catalog, in declaration order.
pub fn get_vegs(catalog: &Catalog) -> (members: Vec<&'static Ingredient>)
    ensures
        members@ == category_members(catalog.ingredients@, Category::Vegetable),
{
    list_category(catalog, Category::Vegetable)
}

/// The label beside the first of `labels` that is for `cuisine`;
/// `"Unknown"` where there is none.
pub open spec fn label_in(labels: Seq<(&'static str, &'static str)>, cuisine: Seq<char>) -> &'static str
    decreases labels.len(),
{
    if labels.len() == 0 {
        "Unknown"
    } else if labels.first().0@ == cuisine {
        labels.first().1
    } else {
        label_in(labels.drop_first(), cuisine)
    }
}

/// The display label of cuisine `c`, or `"Unknown"` for an id the catalog
/// has no label for.
pub fn cuisine_label(catalog: &Catalog, c: &str) -> (label: &'static str)
    ensures
        label == label_in(catalog.labels@, c@),
{
    let labels = catalog.labels;
    let mut k: usize = 0;
    proof {
        assert(labels@.skip(0) =~= labels@);
    }
    while k < labels.len()
        invariant
            k <= labels.len(),
            labels == catalog.labels,
            label_in(labels@, c@) == label_in(labels@.skip(k as int), c@),
        decreases labels.len() - k,
    {
        if same_text(labels[k].0, c) {
            return labels[k].1;
        }
        proof {
            assert(labels@.skip(k as int).drop_first() =~= labels@.skip(k + 1));
        }
        k += 1;
    }
    "Unknown"
}

} // verus!
