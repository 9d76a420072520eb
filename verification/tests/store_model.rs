//! Tests of the collection store: identifiers, insert with re-read, list,
//! clear, and the seed data.

use mpb::dishes::{Catalog, Dish};
use mpb::ingredients::{Ingredient, Ingredients, Nutrition};
use mpb::pantry::{Pantry, PantryIngredient};
use mpb::store::{collect_list, initialize_db, Store, StoreError};
use mpb::users::User;

fn egg() -> Ingredient {
    Ingredient {
        name: "Egg".to_string(),
        serving_size: 100.0f32.to_bits(),
        nutrition: Nutrition {
            calories: 140.0f32.to_bits(),
            protein: 12.0f32.to_bits(),
            fat: 10.0f32.to_bits(),
        },
    }
}

#[test]
fn insert_assigns_identifier_and_list_returns_exactly_the_record() {
    let mut store = Store::new();
    let stored = store.ingredients.insert(egg()).unwrap();
    assert_ne!(stored.id, 0);
    assert_eq!(stored.item, egg());

    let listed = store.ingredients.list();
    assert_eq!(listed.len(), 1);
    assert_eq!(listed[0].id, stored.id);
    assert_eq!(listed[0].item, egg());
}

#[test]
fn identifiers_are_sequential_and_never_reused() {
    let mut store = Store::new();
    let a = store.pantry.insert(PantryIngredient {
        name: "Salt".to_string(),
        quantity: 500.0f32.to_bits(),
        expiry: 365,
    });
    let b = store.pantry.insert(PantryIngredient {
        name: "Flour".to_string(),
        quantity: 1000.0f32.to_bits(),
        expiry: 90,
    });
    assert_eq!(a.unwrap().id, 1);
    assert_eq!(b.unwrap().id, 2);

    store.pantry.clear();
    let c = store.pantry.insert(PantryIngredient {
        name: "Sugar".to_string(),
        quantity: 250.0f32.to_bits(),
        expiry: 180,
    });
    assert_eq!(c.unwrap().id, 3);
}

#[test]
fn find_returns_the_record_with_the_identifier() {
    let mut store = Store::new();
    store.users
        .insert(User {
            first_name: "Ada".to_string(),
            last_name: "Lovelace".to_string(),
            email: "a@b.com".to_string(),
            hashed_password: "h1".to_string(),
        })
        .unwrap();
    let found = store.users.find(1).unwrap();
    assert_eq!(found.item.email, "a@b.com");
    assert!(store.users.find(99).is_none());
}

#[test]
fn clearing_the_pantry_twice_succeeds_and_leaves_it_empty() {
    let mut store = Store::new();
    store.pantry
        .insert(PantryIngredient {
            name: "Salt".to_string(),
            quantity: 500.0f32.to_bits(),
            expiry: 365,
        })
        .unwrap();
    store.pantry.clear();
    assert!(store.pantry.list().is_empty());
    store.pantry.clear();
    assert!(store.pantry.list().is_empty());
}

#[test]
fn dishes_round_trip_through_the_store() {
    let mut store = Store::new();
    let dish = Dish {
        name: "Omelette".to_string(),
        ingredients: vec!["Egg".to_string(), "Salt".to_string()],
        tags: vec!["breakfast".to_string()],
    };
    let stored = store.dishes.insert(dish.clone()).unwrap();
    assert_eq!(stored.item, dish);
    let listed = store.dishes.list();
    assert_eq!(listed.len(), 1);
    assert_eq!(listed[0].item, dish);
}

#[test]
fn seed_data_matches_the_measured_values() {
    let mut store = Store::new();
    initialize_db(&mut store).unwrap();
    let listed = store.ingredients.list();
    assert_eq!(listed.len(), 2);

    assert_eq!(listed[0].id, 1);
    assert_eq!(listed[0].item.name, "Egg");
    assert_eq!(listed[0].item.serving_size, 100.0f32.to_bits());
    assert_eq!(listed[0].item.nutrition.calories, 140.0f32.to_bits());
    assert_eq!(listed[0].item.nutrition.protein, 12.0f32.to_bits());
    assert_eq!(listed[0].item.nutrition.fat, 10.0f32.to_bits());

    assert_eq!(listed[1].id, 2);
    assert_eq!(listed[1].item.name, "Rice (Cooked)");
    assert_eq!(listed[1].item.serving_size, 200.0f32.to_bits());
    assert_eq!(listed[1].item.nutrition.calories, 230.0f32.to_bits());
    assert_eq!(listed[1].item.nutrition.protein, 5.0f32.to_bits());
    assert_eq!(listed[1].item.nutrition.fat, 1.0f32.to_bits());
}

#[test]
fn one_bad_row_fails_the_whole_read() {
    let good = vec![Some(egg()), Some(egg())];
    let listed = collect_list(&good).unwrap();
    assert_eq!(listed.len(), 2);
    assert_eq!(listed[0], egg());

    let corrupted = vec![Some(egg()), None, Some(egg())];
    assert_eq!(collect_list(&corrupted), Err(StoreError::Deserialization));
}

#[test]
fn list_wrappers_keep_their_contents() {
    let catalog = Catalog::new(vec![Dish {
        name: "Omelette".to_string(),
        ingredients: vec!["Egg".to_string()],
        tags: vec![],
    }]);
    assert_eq!(catalog.0.len(), 1);
    assert_eq!(catalog.0[0].name, "Omelette");

    let ingredients = Ingredients::new(vec![egg()]);
    assert_eq!(ingredients.0, vec![egg()]);

    let pantry = Pantry::new(vec![]);
    assert!(pantry.0.is_empty());
}
