//! Pantry: what is on hand, with quantity and days until expiry.

use vstd::prelude::*;

use crate::store::Record;

verus! {

/// Mathematical view of a pantry entry.
pub struct PantryIngredientView {
    pub name: Seq<char>,
    pub quantity: u32,
    pub expiry: i32,
}

/// The quantity and expiry of an ingredient kept in the pantry.
#[derive(Debug, Clone, PartialEq, Eq)]
pub struct PantryIngredient {
    /// Name of the ingredient.
    pub name: String,
    /// Quantity of the ingredient in grams (raw bit pattern of the measured
    /// single-precision value; the library never computes with it).
    pub quantity: u32,
    /// Expiry date of the ingredient in number of days.
    pub expiry: i32,
}

impl View for PantryIngredient {
    type V = PantryIngredientView;

    open spec fn view(&self) -> PantryIngredientView {
        PantryIngredientView {
            name: self.name@,
            quantity: self.quantity,
            expiry: self.expiry,
        }
    }
}

impl Record for PantryIngredient {
    fn duplicate(&self) -> (r: Self) {
        PantryIngredient { name: self.name.clone(), quantity: self.quantity, expiry: self.expiry }
    }
}

/// The full pantry, as one value.
#[derive(Debug, Clone, PartialEq, Eq)]
pub struct Pantry(pub Vec<PantryIngredient>);

impl Pantry {
    /// Wraps a list of pantry entries.
    pub fn new(pantry: Vec<PantryIngredient>) -> (r: Self)
        ensures
            r.0 == pantry,
    {
        Pantry(pantry)
    }
}

} // verus!
