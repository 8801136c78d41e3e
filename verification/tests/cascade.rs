use meal_composer::cascade::{candidates_for, cascade_from_protein, ids_taken_by};
use meal_composer::catalog::{get_starches, get_vegs, Catalog, Category, Ingredient};
use meal_composer::pairing::pairs_with_protein;
use meal_composer::random::draw;
use meal_composer::selection::{LockState, MealSelection, Slot};
use rand::rngs::StdRng;
use rand::SeedableRng;

const INGREDIENTS: &[Ingredient] = &[
    Ingredient {
        id: "chicken_breast",
        name: "Chicken Breast",
        category: Category::Protein,
        buy_amount: Some("2.5 lbs"),
        cuisines: &[
            ("american", &["mashed_potatoes", "roasted_potatoes", "green_beans", "corn"]),
            ("asian", &["jasmine_rice", "bok_choy"]),
        ],
    },
    Ingredient {
        id: "tofu",
        name: "Tofu",
        category: Category::Protein,
        buy_amount: None,
        cuisines: &[("asian", &["jasmine_rice", "bok_choy"])],
    },
    Ingredient {
        id: "mashed_potatoes",
        name: "Mashed Potatoes",
        category: Category::Starch,
        buy_amount: None,
        cuisines: &[("american", &[])],
    },
    Ingredient {
        id: "roasted_potatoes",
        name: "Roasted Potatoes",
        category: Category::Starch,
        buy_amount: None,
        cuisines: &[("american", &[])],
    },
    Ingredient {
        id: "jasmine_rice",
        name: "Jasmine Rice",
        category: Category::Starch,
        buy_amount: None,
        cuisines: &[("asian", &[])],
    },
    Ingredient {
        id: "broccoli",
        name: "Broccoli",
        category: Category::Vegetable,
        buy_amount: None,
        cuisines: &[("american", &["chicken_breast"])],
    },
    Ingredient {
        id: "green_beans",
        name: "Green Beans",
        category: Category::Vegetable,
        buy_amount: None,
        cuisines: &[("american", &[])],
    },
    Ingredient {
        id: "corn",
        name: "Corn",
        category: Category::Vegetable,
        buy_amount: None,
        cuisines: &[("american", &[])],
    },
    Ingredient {
        id: "bok_choy",
        name: "Bok Choy",
        category: Category::Vegetable,
        buy_amount: None,
        cuisines: &[("asian", &[])],
    },
];

const CATALOG: Catalog = Catalog {
    ingredients: INGREDIENTS,
    cuisines: &["american", "asian", "bbq"],
    labels: &[],
};

const OPEN: LockState = LockState { protein: false, starch: false, veg1: false, veg2: false };

fn item(id: &str) -> &'static Ingredient {
    INGREDIENTS.iter().find(|i| i.id == id).unwrap()
}

fn id(slot: Option<&'static Ingredient>) -> Option<&'static str> {
    slot.map(|i| i.id)
}

fn ids(items: &[&'static Ingredient]) -> Vec<&'static str> {
    items.iter().map(|i| i.id).collect()
}

fn anchored(protein: &str) -> MealSelection {
    MealSelection { protein: Some(item(protein)), starch: None, veg1: None, veg2: None }
}

#[test]
fn draw_from_nothing_is_nothing() {
    let mut rng = StdRng::seed_from_u64(1);
    let none: [&'static Ingredient; 0] = [];
    assert_eq!(draw(&none, &mut rng), None);
}

#[test]
fn draw_returns_one_of_the_candidates() {
    let candidates = vec![10u32, 20, 30, 40];
    for seed in 0..50 {
        let mut rng = StdRng::seed_from_u64(seed);
        let pick = draw(&candidates, &mut rng).unwrap();
        assert!(candidates.contains(&pick));
    }
    let mut rng = StdRng::seed_from_u64(3);
    assert_eq!(draw(&[7u32], &mut rng), Some(7));
}

#[test]
fn draw_reaches_every_candidate() {
    let candidates = vec![0usize, 1, 2, 3];
    let mut seen = [0u32; 4];
    let mut rng = StdRng::seed_from_u64(2024);
    for _ in 0..4000 {
        seen[draw(&candidates, &mut rng).unwrap()] += 1;
    }
    // Each of four equally likely candidates is drawn about 1000 times.
    for n in seen {
        assert!(n > 800 && n < 1200);
    }
}

#[test]
fn ids_taken_by_the_first_vegetable() {
    assert_eq!(ids_taken_by(Some(item("corn"))), vec!["corn"]);
    assert!(ids_taken_by(None).is_empty());
}

#[test]
fn candidates_of_each_slot() {
    let sel = MealSelection { veg1: Some(item("corn")), ..anchored("chicken_breast") };
    assert_eq!(
        ids(&candidates_for(&CATALOG, &sel, "american", Slot::Protein)),
        vec!["chicken_breast"]
    );
    assert_eq!(
        ids(&candidates_for(&CATALOG, &sel, "asian", Slot::Protein)),
        vec!["chicken_breast", "tofu"]
    );
    assert_eq!(
        ids(&candidates_for(&CATALOG, &sel, "american", Slot::Starch)),
        vec!["mashed_potatoes", "roasted_potatoes"]
    );
    assert_eq!(
        ids(&candidates_for(&CATALOG, &sel, "american", Slot::Veg1)),
        vec!["broccoli", "green_beans", "corn"]
    );
    assert_eq!(
        ids(&candidates_for(&CATALOG, &sel, "american", Slot::Veg2)),
        vec!["broccoli", "green_beans"]
    );
    assert!(candidates_for(&CATALOG, &sel, "bbq", Slot::Starch).is_empty());
}

#[test]
fn cascade_fills_unlocked_slots_from_what_pairs_with_the_protein() {
    let starches = get_starches(&CATALOG);
    let vegs = get_vegs(&CATALOG);
    for seed in 0..100 {
        let mut rng = StdRng::seed_from_u64(seed);
        let mut sel = anchored("chicken_breast");
        cascade_from_protein(&CATALOG, &mut sel, &OPEN, "american", true, &mut rng);
        assert_eq!(id(sel.protein), Some("chicken_breast"));
        let fit = ids(&pairs_with_protein(sel.protein, "american", &starches, &[]));
        assert!(fit.contains(&sel.starch.unwrap().id));
        let fit = ids(&pairs_with_protein(sel.protein, "american", &vegs, &[]));
        assert!(fit.contains(&sel.veg1.unwrap().id));
        let taken = [sel.veg1.unwrap().id];
        let fit = ids(&pairs_with_protein(sel.protein, "american", &vegs, &taken));
        assert!(fit.contains(&sel.veg2.unwrap().id));
    }
}

#[test]
fn cascade_leaves_locked_slots_alone_even_where_they_no_longer_fit() {
    let locks = LockState { protein: false, starch: true, veg1: true, veg2: true };
    let before = MealSelection {
        protein: Some(item("tofu")),
        starch: Some(item("mashed_potatoes")),
        veg1: None,
        veg2: Some(item("corn")),
    };
    for seed in 0..20 {
        let mut rng = StdRng::seed_from_u64(seed);
        let mut sel = before;
        cascade_from_protein(&CATALOG, &mut sel, &locks, "asian", true, &mut rng);
        assert_eq!(sel, before);
    }
}

#[test]
fn cascade_respects_each_lock_on_its_own() {
    let before = MealSelection {
        protein: Some(item("chicken_breast")),
        starch: Some(item("jasmine_rice")),
        veg1: Some(item("bok_choy")),
        veg2: Some(item("bok_choy")),
    };
    for seed in 0..40 {
        for mask in 0..8u32 {
            let locks = LockState {
                protein: false,
                starch: mask & 1 != 0,
                veg1: mask & 2 != 0,
                veg2: mask & 4 != 0,
            };
            let mut rng = StdRng::seed_from_u64(seed);
            let mut sel = before;
            cascade_from_protein(&CATALOG, &mut sel, &locks, "american", true, &mut rng);
            assert_eq!(id(sel.protein), Some("chicken_breast"));
            if locks.starch {
                assert_eq!(id(sel.starch), Some("jasmine_rice"));
            } else {
                assert!(["mashed_potatoes", "roasted_potatoes"].contains(&sel.starch.unwrap().id));
            }
            if locks.veg1 {
                assert_eq!(id(sel.veg1), Some("bok_choy"));
            } else {
                assert!(["broccoli", "green_beans", "corn"].contains(&sel.veg1.unwrap().id));
            }
            if locks.veg2 {
                assert_eq!(id(sel.veg2), Some("bok_choy"));
            } else {
                assert!(["broccoli", "green_beans", "corn"].contains(&sel.veg2.unwrap().id));
                assert_ne!(id(sel.veg2), id(sel.veg1));
            }
        }
    }
}

#[test]
fn cascade_does_not_touch_a_second_vegetable_that_is_not_enabled() {
    let mut rng = StdRng::seed_from_u64(5);
    let mut sel = MealSelection { veg2: Some(item("bok_choy")), ..anchored("chicken_breast") };
    cascade_from_protein(&CATALOG, &mut sel, &OPEN, "american", false, &mut rng);
    assert_eq!(id(sel.veg2), Some("bok_choy"));
    let mut sel = anchored("chicken_breast");
    cascade_from_protein(&CATALOG, &mut sel, &OPEN, "american", false, &mut rng);
    assert_eq!(sel.veg2, None);
    assert!(sel.starch.is_some() && sel.veg1.is_some());
}

#[test]
fn cascade_unsets_a_slot_that_has_no_candidate() {
    let mut rng = StdRng::seed_from_u64(9);
    let mut sel = MealSelection {
        protein: Some(item("chicken_breast")),
        starch: Some(item("mashed_potatoes")),
        veg1: Some(item("corn")),
        veg2: Some(item("broccoli")),
    };
    // Nothing pairs with chicken in bbq.
    cascade_from_protein(&CATALOG, &mut sel, &OPEN, "bbq", true, &mut rng);
    assert_eq!(sel, anchored("chicken_breast"));
}

#[test]
fn second_vegetable_is_unset_where_the_first_takes_the_only_candidate() {
    for seed in 0..20 {
        let mut rng = StdRng::seed_from_u64(seed);
        let mut sel = anchored("tofu");
        cascade_from_protein(&CATALOG, &mut sel, &OPEN, "asian", true, &mut rng);
        assert_eq!(id(sel.starch), Some("jasmine_rice"));
        assert_eq!(id(sel.veg1), Some("bok_choy"));
        assert_eq!(sel.veg2, None);
    }
}

#[test]
fn drawn_second_vegetable_differs_from_the_first() {
    for seed in 0..300 {
        let mut rng = StdRng::seed_from_u64(seed);
        let mut sel = anchored("chicken_breast");
        cascade_from_protein(&CATALOG, &mut sel, &OPEN, "american", true, &mut rng);
        assert_ne!(sel.veg1.unwrap().id, sel.veg2.unwrap().id);
        // A locked first vegetable is avoided as well.
        let locks = LockState { veg1: true, ..OPEN };
        let mut sel = MealSelection { veg1: Some(item("corn")), ..anchored("chicken_breast") };
        cascade_from_protein(&CATALOG, &mut sel, &locks, "american", true, &mut rng);
        assert_eq!(id(sel.veg1), Some("corn"));
        assert!(["broccoli", "green_beans"].contains(&sel.veg2.unwrap().id));
    }
}

#[test]
fn kept_second_vegetable_can_be_repeated_by_a_drawn_first() {
    let locks = LockState { veg2: true, ..OPEN };
    let mut repeated = false;
    for seed in 0..100 {
        let mut rng = StdRng::seed_from_u64(seed);
        let mut sel = MealSelection { veg2: Some(item("corn")), ..anchored("chicken_breast") };
        cascade_from_protein(&CATALOG, &mut sel, &locks, "american", true, &mut rng);
        assert_eq!(id(sel.veg2), Some("corn"));
        if id(sel.veg1) == Some("corn") {
            repeated = true;
        }
    }
    assert!(repeated);
}

#[test]
fn cascade_without_a_protein_draws_from_the_cuisine() {
    for seed in 0..50 {
        let mut rng = StdRng::seed_from_u64(seed);
        let mut sel = MealSelection::default();
        cascade_from_protein(&CATALOG, &mut sel, &OPEN, "asian", true, &mut rng);
        assert_eq!(sel.protein, None);
        assert_eq!(id(sel.starch), Some("jasmine_rice"));
        assert_eq!(id(sel.veg1), Some("bok_choy"));
        // Without an anchor nothing is excluded.
        assert_eq!(id(sel.veg2), Some("bok_choy"));
    }
}

#[test]
fn cascade_is_reproducible_under_a_fixed_seed() {
    for seed in 0..50 {
        let mut first = anchored("chicken_breast");
        let mut second = anchored("chicken_breast");
        let mut rng = StdRng::seed_from_u64(seed);
        cascade_from_protein(&CATALOG, &mut first, &OPEN, "american", true, &mut rng);
        let mut rng = StdRng::seed_from_u64(seed);
        cascade_from_protein(&CATALOG, &mut second, &OPEN, "american", true, &mut rng);
        assert_eq!(first, second);
    }
}

#[test]
fn cascade_outcomes_vary_with_the_seed() {
    let mut starches = Vec::new();
    for seed in 0..100 {
        let mut rng = StdRng::seed_from_u64(seed);
        let mut sel = anchored("chicken_breast");
        cascade_from_protein(&CATALOG, &mut sel, &OPEN, "american", false, &mut rng);
        let s = sel.starch.unwrap().id;
        if !starches.contains(&s) {
            starches.push(s);
        }
    }
    starches.sort();
    assert_eq!(starches, vec!["mashed_potatoes", "roasted_potatoes"]);
}
