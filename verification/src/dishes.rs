//! Dishes: a named recipe with its ingredients and tags.

use vstd::prelude::*;

use crate::store::Record;

verus! {

/// Mathematical view of a dish: every text field as a sequence of characters.
pub struct DishView {
    pub name: Seq<char>,
    pub ingredients: Seq<Seq<char>>,
    pub tags: Seq<Seq<char>>,
}

/// A dish, with its name, the ingredients required to make it, and its tags.
#[derive(Debug, Clone, PartialEq, Eq)]
pub struct Dish {
    /// Name of the dish.
    pub name: String,
    /// Ingredients required to make the dish.
    pub ingredients: Vec<String>,
    /// Tags associated with the dish.
    pub tags: Vec<String>,
}

impl View for Dish {
    type V = DishView;

    open spec fn view(&self) -> DishView {
        DishView {
            name: self.name@,
            ingredients: self.ingredients.deep_view(),
            tags: self.tags.deep_view(),
        }
    }
}

impl Record for Dish {
    fn duplicate(&self) -> (r: Self) {
        let r = Dish {
            name: self.name.clone(),
            ingredients: self.ingredients.clone(),
            tags: self.tags.clone(),
        };
        proof {
            assert(r.ingredients.deep_view() =~= self.ingredients.deep_view());
            assert(r.tags.deep_view() =~= self.tags.deep_view());
        }
        r
    }
}

/// The full list of dishes, as one value.
#[derive(Debug, Clone, PartialEq, Eq)]
pub struct Catalog(pub Vec<Dish>);

impl Catalog {
    /// Wraps a list of dishes as a catalog.
    pub fn new(dishes: Vec<Dish>) -> (r: Self)
        ensures
            r.0 == dishes,
    {
        Catalog(dishes)
    }
}

} // verus!
