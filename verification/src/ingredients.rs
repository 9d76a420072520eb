//! Ingredients: a food item with its serving size and nutrition facts.
//!
//! Measured quantities (grams, kilocalories) reach this library as the raw
//! bit pattern of the caller's single-precision value. The library never
//! computes with a measurement — it only stores and returns it — so the raw
//! pattern round-trips exactly.

use vstd::prelude::*;

use crate::store::Record;

verus! {

/// Nutrition information per serving. Each field is the raw bit pattern of
/// the measured single-precision value.
#[derive(Debug, Clone, Copy, PartialEq, Eq, Structural)]
pub struct Nutrition {
    /// Calories in kcal (raw bit pattern).
    pub calories: u32,
    /// Protein in grams (raw bit pattern).
    pub protein: u32,
    /// Fat in grams (raw bit pattern).
    pub fat: u32,
}

/// Mathematical view of an ingredient.
pub struct IngredientView {
    pub name: Seq<char>,
    pub serving_size: u32,
    pub nutrition: Nutrition,
}

/// A food item with its serving size and per-serving nutrition.
#[derive(Debug, Clone, PartialEq, Eq)]
pub struct Ingredient {
    /// Name of the ingredient.
    pub name: String,
    /// Serving size in grams (raw bit pattern).
    pub serving_size: u32,
    /// Nutrition information per serving.
    pub nutrition: Nutrition,
}

impl View for Ingredient {
    type V = IngredientView;

    open spec fn view(&self) -> IngredientView {
        IngredientView {
            name: self.name@,
            serving_size: self.serving_size,
            nutrition: self.nutrition,
        }
    }
}

impl Record for Ingredient {
    fn duplicate(&self) -> (r: Self) {
        Ingredient {
            name: self.name.clone(),
            serving_size: self.serving_size,
            nutrition: self.nutrition,
        }
    }
}

/// The full list of ingredients, as one value.
#[derive(Debug, Clone, PartialEq, Eq)]
pub struct Ingredients(pub Vec<Ingredient>);

impl Ingredients {
    /// Wraps a list of ingredients.
    pub fn new(ingredients: Vec<Ingredient>) -> (r: Self)
        ensures
            r.0 == ingredients,
    {
        Ingredients(ingredients)
    }
}

} // verus!
