//! Tests of the store guard: scoped acquisition, sessions, and the guarded
//! operations.

use mpb::auth::{generate_jwt_at, AuthError, SigningContext};
use mpb::dishes::Dish;
use mpb::guard::StoreGuard;
use mpb::ingredients::{Ingredient, Nutrition};
use mpb::pantry::PantryIngredient;
use mpb::store::{initialize_db, Store};

fn egg() -> Ingredient {
    Ingredient {
        name: "Egg".to_string(),
        serving_size: 100.0f32.to_bits(),
        nutrition: Nutrition {
            calories: 140.0f32.to_bits(),
            protein: 12.0f32.to_bits(),
            fat: 10.0f32.to_bits(),
        },
    }
}

#[test]
fn end_to_end_insert_list_and_clear() {
    let guard = StoreGuard::new(Store::new());

    // Each operation acquires the guard, runs, and releases, as a request
    // handler would.
    let mut session = guard.begin();
    let stored = session.add_ingredient(egg()).unwrap();
    session.finish();
    assert_ne!(stored.id, 0);

    let session = guard.begin();
    let listed = session.get_ingredients();
    session.finish();
    assert_eq!(listed.len(), 1);
    assert_eq!(listed[0].id, stored.id);
    assert_eq!(listed[0].item, egg());

    let mut session = guard.begin();
    session
        .add_pantry_ingredient(PantryIngredient {
            name: "Salt".to_string(),
            quantity: 500.0f32.to_bits(),
            expiry: 365,
        })
        .unwrap();
    session.finish();

    let mut session = guard.begin();
    session.clear_pantry();
    assert!(session.get_pantry().is_empty());
    session.finish();

    let mut session = guard.begin();
    session.clear_pantry();
    assert!(session.get_pantry().is_empty());
    session.finish();
}

#[test]
fn release_lets_the_next_acquisition_proceed() {
    let guard = StoreGuard::new(Store::new());
    let (store, handle) = guard.acquire();
    handle.release(store);
    let (store, handle) = guard.acquire();
    handle.release(store);
    let session = guard.begin();
    session.finish();
    let session = guard.begin();
    session.finish();
}

#[test]
fn dishes_through_the_guard() {
    let guard = StoreGuard::new(Store::new());
    let dish = Dish {
        name: "Omelette".to_string(),
        ingredients: vec!["Egg".to_string(), "Salt".to_string()],
        tags: vec!["breakfast".to_string()],
    };
    let mut session = guard.begin();
    let stored = session.add_dish(dish.clone()).unwrap();
    session.finish();
    assert_eq!(stored.item, dish);

    let session = guard.begin();
    let listed = session.get_dishes();
    session.finish();
    assert_eq!(listed.len(), 1);
    assert_eq!(listed[0].item, dish);
}

#[test]
fn protected_pantry_requires_a_valid_credential() {
    let ctx = SigningContext::new(b"test-secret".to_vec());
    let guard = StoreGuard::new(Store::new());
    let mut session = guard.begin();
    session
        .add_pantry_ingredient(PantryIngredient {
            name: "Salt".to_string(),
            quantity: 500.0f32.to_bits(),
            expiry: 365,
        })
        .unwrap();
    session.finish();

    let token = generate_jwt_at(&ctx, "a@b.com".to_string(), "h1".to_string(), 1000).unwrap();
    let header = format!("Bearer {}", token);

    let (claims, pantry) = guard.authorized_get_pantry(&ctx, &header, 1100).unwrap();
    assert_eq!(claims.email, "a@b.com");
    assert_eq!(pantry.len(), 1);

    assert!(matches!(
        guard.authorized_get_pantry(&ctx, &header, 1300),
        Err(AuthError::Expired)
    ));
    assert!(matches!(
        guard.authorized_get_pantry(&ctx, "garbage", 1100),
        Err(AuthError::MalformedToken)
    ));
}

#[test]
fn seeded_store_behind_the_guard() {
    let mut store = Store::new();
    initialize_db(&mut store).unwrap();
    let guard = StoreGuard::new(store);
    let session = guard.begin();
    let listed = session.get_ingredients();
    session.finish();
    assert_eq!(listed.len(), 2);
    assert_eq!(listed[0].item.name, "Egg");
    assert_eq!(listed[1].item.name, "Rice (Cooked)");
}
