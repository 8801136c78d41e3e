use meal_composer::catalog::{Category, Ingredient};
use meal_composer::pairing::{check_pair, declared_pairs, in_cuisine, is_in_cuisine, pairs_with_protein};
use meal_composer::text::{is_listed, same_text};

const CHICKEN: Ingredient = Ingredient {
    id: "chicken_breast",
    name: "Chicken Breast",
    category: Category::Protein,
    buy_amount: Some("2.5 lbs"),
    cuisines: &[
        ("american", &["mashed_potatoes", "green_beans"]),
        ("asian", &["jasmine_rice", "bok_choy"]),
        ("latin", &["tortillas"]),
    ],
};

const STEAK: Ingredient = Ingredient {
    id: "steak",
    name: "Steak",
    category: Category::Protein,
    buy_amount: Some("2 lbs"),
    cuisines: &[("american", &["mashed_potatoes"]), ("bbq", &["cornbread", "coleslaw"])],
};

const MASHED: Ingredient = Ingredient {
    id: "mashed_potatoes",
    name: "Mashed Potatoes",
    category: Category::Starch,
    buy_amount: None,
    cuisines: &[("american", &[]), ("bbq", &[])],
};

const BROCCOLI: Ingredient = Ingredient {
    id: "broccoli",
    name: "Broccoli",
    category: Category::Vegetable,
    buy_amount: None,
    cuisines: &[("american", &["chicken_breast", "steak"])],
};

const BOK_CHOY: Ingredient = Ingredient {
    id: "bok_choy",
    name: "Bok Choy",
    category: Category::Vegetable,
    buy_amount: None,
    cuisines: &[("asian", &[])],
};

const GREEN_BEANS: Ingredient = Ingredient {
    id: "green_beans",
    name: "Green Beans",
    category: Category::Vegetable,
    buy_amount: None,
    cuisines: &[("american", &[])],
};

const SEAWEED: Ingredient = Ingredient {
    id: "seaweed",
    name: "Seaweed",
    category: Category::Vegetable,
    buy_amount: None,
    cuisines: &[],
};

/// Two entries for one cuisine: only the first one counts.
const TWICE: Ingredient = Ingredient {
    id: "twice",
    name: "Twice",
    category: Category::Vegetable,
    buy_amount: None,
    cuisines: &[("asian", &["steak"]), ("asian", &["chicken_breast"])],
};

const CUISINES: [&str; 6] = ["american", "latin", "asian", "mediterranean", "bbq", "nowhere"];

fn all() -> Vec<&'static Ingredient> {
    vec![&CHICKEN, &STEAK, &MASHED, &BROCCOLI, &BOK_CHOY, &GREEN_BEANS, &SEAWEED, &TWICE]
}

fn ids(items: &[&'static Ingredient]) -> Vec<&'static str> {
    items.iter().map(|i| i.id).collect()
}

#[test]
fn same_text_compares_characters() {
    assert!(same_text("", ""));
    assert!(same_text("veg1", "veg1"));
    assert!(!same_text("veg1", "veg2"));
    assert!(!same_text("veg", "veg1"));
    assert!(!same_text("veg1", "veg"));
    assert!(same_text("cr\u{e8}me \u{2014} br\u{fb}l\u{e9}e", "cr\u{e8}me \u{2014} br\u{fb}l\u{e9}e"));
    assert!(!same_text("cr\u{e8}me", "cr\u{e9}me"));
}

#[test]
fn is_listed_finds_an_id() {
    assert!(is_listed(&["a", "b", "c"], "c"));
    assert!(is_listed(&["a", "b", "c"], "a"));
    assert!(!is_listed(&["a", "b", "c"], "d"));
    assert!(!is_listed(&[], "a"));
}

#[test]
fn membership_goes_by_the_entry_alone() {
    // An empty pairing list is still an entry.
    assert!(is_in_cuisine(&MASHED, "american"));
    assert!(is_in_cuisine(&MASHED, "bbq"));
    assert!(!is_in_cuisine(&MASHED, "asian"));
    assert!(!is_in_cuisine(&SEAWEED, "asian"));
    assert!(!is_in_cuisine(&CHICKEN, "bbq"));
}

#[test]
fn declared_pairs_are_those_of_the_first_entry() {
    assert_eq!(declared_pairs(&CHICKEN, "asian"), &["jasmine_rice", "bok_choy"]);
    assert_eq!(declared_pairs(&CHICKEN, "bbq"), &[] as &[&str]);
    assert_eq!(declared_pairs(&MASHED, "american"), &[] as &[&str]);
    assert_eq!(declared_pairs(&TWICE, "asian"), &["steak"]);
    assert_eq!(declared_pairs(&SEAWEED, "asian"), &[] as &[&str]);
}

#[test]
fn in_cuisine_keeps_members_in_order() {
    let items = all();
    assert_eq!(
        ids(&in_cuisine("american", &items)),
        vec!["chicken_breast", "steak", "mashed_potatoes", "broccoli", "green_beans"]
    );
    assert_eq!(ids(&in_cuisine("asian", &items)), vec!["chicken_breast", "bok_choy", "twice"]);
    assert_eq!(ids(&in_cuisine("bbq", &items)), vec!["steak", "mashed_potatoes"]);
    assert!(in_cuisine("mediterranean", &items).is_empty());
    assert!(in_cuisine("american", &[]).is_empty());
}

#[test]
fn forward_declaration_pairs() {
    assert!(check_pair(&CHICKEN, &MASHED, "american"));
    assert!(check_pair(&CHICKEN, &BOK_CHOY, "asian"));
    assert!(!check_pair(&CHICKEN, &BOK_CHOY, "american"));
    // Mashed potatoes are in bbq, but neither side names the other there.
    assert!(!check_pair(&STEAK, &MASHED, "bbq"));
}

#[test]
fn reverse_declaration_pairs() {
    // Chicken's american list does not name broccoli; broccoli's names chicken.
    assert!(!is_listed(declared_pairs(&CHICKEN, "american"), "broccoli"));
    assert!(check_pair(&CHICKEN, &BROCCOLI, "american"));
    let found = pairs_with_protein(Some(&CHICKEN), "american", &[&BROCCOLI], &[]);
    assert_eq!(ids(&found), vec!["broccoli"]);
}

#[test]
fn only_the_first_entry_of_a_cuisine_declares() {
    assert!(check_pair(&STEAK, &TWICE, "asian"));
    assert!(!check_pair(&CHICKEN, &TWICE, "asian"));
}

#[test]
fn pairing_is_symmetric_on_every_pair_and_cuisine() {
    let items = all();
    for a in items.iter() {
        for b in items.iter() {
            for c in CUISINES.iter() {
                let forth = !pairs_with_protein(Some(*a), c, &[*b], &[]).is_empty();
                let back = !pairs_with_protein(Some(*b), c, &[*a], &[]).is_empty();
                assert_eq!(forth, back);
                assert_eq!(forth, check_pair(a, b, c));
                assert_eq!(check_pair(a, b, c), check_pair(b, a, c));
            }
        }
    }
}

#[test]
fn pairs_with_protein_filters_in_order() {
    let items = all();
    assert_eq!(
        ids(&pairs_with_protein(Some(&CHICKEN), "american", &items, &[])),
        vec!["mashed_potatoes", "broccoli", "green_beans"]
    );
    assert_eq!(
        ids(&pairs_with_protein(Some(&STEAK), "american", &items, &[])),
        vec!["mashed_potatoes", "broccoli"]
    );
    assert_eq!(ids(&pairs_with_protein(Some(&CHICKEN), "asian", &items, &[])), vec!["bok_choy"]);
}

#[test]
fn pairs_with_protein_leaves_out_excluded_ids() {
    let items = all();
    assert_eq!(
        ids(&pairs_with_protein(Some(&CHICKEN), "american", &items, &["broccoli"])),
        vec!["mashed_potatoes", "green_beans"]
    );
    assert_eq!(
        ids(&pairs_with_protein(
            Some(&CHICKEN),
            "american",
            &items,
            &["green_beans", "mashed_potatoes", "unknown"]
        )),
        vec!["broccoli"]
    );
}

#[test]
fn anchor_without_an_entry_pairs_only_by_reverse_declaration() {
    let items = all();
    // Chicken has no bbq entry and nobody in bbq names it.
    assert!(pairs_with_protein(Some(&CHICKEN), "bbq", &items, &[]).is_empty());
    // Steak has no asian entry, but one asian item names it.
    assert_eq!(ids(&pairs_with_protein(Some(&STEAK), "asian", &items, &[])), vec!["twice"]);
}

#[test]
fn without_an_anchor_the_cuisine_decides_and_exclusions_play_no_part() {
    let items = all();
    assert_eq!(
        ids(&pairs_with_protein(None, "american", &items, &[])),
        ids(&in_cuisine("american", &items))
    );
    assert_eq!(
        ids(&pairs_with_protein(None, "american", &items, &["broccoli", "steak"])),
        ids(&in_cuisine("american", &items))
    );
    assert!(pairs_with_protein(None, "nowhere", &items, &[]).is_empty());
}
