//! The collection store: named collections of records, each record carrying
//! a store-assigned identifier.
//!
//! This is the logical store whose behaviour the rest of the library states
//! and proves.
//! Identifiers start at one, are handed out in order, and are never reused:
//! a collection's well-formedness ties every identifier below the next fresh
//! one and makes them pairwise distinct. A physical engine that persists the
//! records lives outside this library, behind the same interface.

use vstd::prelude::*;

use crate::dishes::Dish;
use crate::ingredients::{Ingredient, IngredientView, Nutrition};
use crate::pantry::PantryIngredient;
use crate::users::User;

verus! {

/// A record the store can hold: it has a mathematical view, and an owned
/// copy with the same view can be made of it (what a snapshot read returns).
pub trait Record: View + Sized {
    /// An owned copy whose view equals this record's view.
    fn duplicate(&self) -> (r: Self)
        ensures
            r@ == self@,
    ;
}

/// Mathematical view of a stored record.
pub struct StoredView<V> {
    pub id: u64,
    pub item: V,
}

/// The canonical persisted form of a record: the record together with its
/// store-assigned identifier.
#[derive(Debug, Clone, PartialEq, Eq)]
pub struct Stored<T> {
    /// The store-assigned identifier: unique within its collection, never zero.
    pub id: u64,
    /// The record itself.
    pub item: T,
}

impl<T: View> View for Stored<T> {
    type V = StoredView<T::V>;

    open spec fn view(&self) -> StoredView<T::V> {
        StoredView { id: self.id, item: self.item@ }
    }
}

impl<T: Record> Stored<T> {
    /// An owned copy whose view equals this stored record's view.
    pub fn duplicate(&self) -> (r: Self)
        ensures
            r@ == self@,
    {
        Stored { id: self.id, item: self.item.duplicate() }
    }
}

/// The views of a sequence of values, element by element.
pub open spec fn views_of<T: View>(s: Seq<T>) -> Seq<T::V> {
    s.map_values(|x: T| x@)
}

/// Every way a store operation can fail.
#[derive(Debug, Clone, Copy, PartialEq, Eq, Structural)]
pub enum StoreError {
    /// The identifier space of the collection is exhausted, so no fresh
    /// identifier can be assigned.
    CapacityExhausted,
    /// The re-read after an insert found nothing under the fresh identifier:
    /// an internal error, distinct from any validation error. For this store
    /// the branch that reports it is verified unreachable.
    MissingAfterInsert,
    /// A record read from a physical store did not match its expected shape:
    /// data corruption, which fails the enclosing read as a whole.
    Deserialization,
    /// An operation of the physical store failed; reported to callers as an
    /// opaque server-side failure. Only the physical layer produces it.
    Access,
}

/// One named collection: records in insertion order, each under its
/// store-assigned identifier, plus the next identifier to hand out.
pub struct Collection<T> {
    next_id: u64,
    records: Vec<Stored<T>>,
}

impl<T: Record> Collection<T> {
    /// The stored records, by view, in insertion order.
    pub closed spec fn contents(&self) -> Seq<StoredView<T::V>> {
        views_of(self.records@)
    }

    /// The identifier the next inserted record will receive.
    pub closed spec fn fresh_id(&self) -> u64 {
        self.next_id
    }

    /// Well-formedness: identifiers start at one, stay below the next fresh
    /// identifier, and are pairwise distinct.
    pub open spec fn wf(&self) -> bool {
        &&& 1 <= self.fresh_id()
        &&& forall|i: int|
            0 <= i < self.contents().len() ==> 1 <= (#[trigger] self.contents()[i]).id
                < self.fresh_id()
        &&& forall|i: int, j: int|
            #![trigger self.contents()[i], self.contents()[j]]
            0 <= i < j < self.contents().len() ==> self.contents()[i].id != self.contents()[j].id
    }

    /// An empty collection.
    pub fn new() -> (c: Self)
        ensures
            c.wf(),
            c.contents() == Seq::<StoredView<T::V>>::empty(),
            c.fresh_id() == 1,
    {
        let c = Collection { next_id: 1u64, records: Vec::new() };
        proof {
            assert(c.contents() =~= Seq::<StoredView<T::V>>::empty());
        }
        c
    }

    /// How many records the collection holds.
    pub fn len(&self) -> (n: usize)
        ensures
            n == self.contents().len(),
    {
        self.records.len()
    }

    /// A snapshot read of every record, in insertion order.
    pub fn list(&self) -> (r: Vec<Stored<T>>)
        ensures
            views_of(r@) == self.contents(),
    {
        let mut out: Vec<Stored<T>> = Vec::new();
        let n = self.records.len();
        for k in 0..n
            invariant
                n == self.records@.len(),
                out@.len() == k,
                forall|i: int| 0 <= i < k ==> (#[trigger] out@[i])@ == self.contents()[i],
        {
            let copy = self.records[k].duplicate();
            out.push(copy);
        }
        proof {
            assert(views_of(out@) =~= self.contents());
        }
        out
    }

    /// Looks a record up by its identifier; a copy of the record is returned
    /// exactly when some stored record carries the identifier.
    pub fn find(&self, id: u64) -> (r: Option<Stored<T>>)
        ensures
            r matches Some(s) ==> s@.id == id && self.contents().contains(s@),
            r is None ==> forall|i: int|
                0 <= i < self.contents().len() ==> (#[trigger] self.contents()[i]).id != id,
    {
        let n = self.records.len();
        for k in 0..n
            invariant
                n == self.records@.len(),
                forall|i: int| 0 <= i < k ==> (#[trigger] self.contents()[i]).id != id,
        {
            if self.records[k].id == id {
                let found = self.records[k].duplicate();
                proof {
                    assert(self.contents()[k as int] == found@);
                }
                return Some(found);
            }
            proof {
                assert(self.contents()[k as int].id != id);
            }
        }
        None
    }

    /// Inserts one record, assigns it the fresh identifier, then re-reads it
    /// by that identifier to return the canonical persisted form. Fails only
    /// when the identifier space is exhausted.
    pub fn insert(&mut self, item: T) -> (r: Result<Stored<T>, StoreError>)
        requires
            old(self).wf(),
        ensures
            final(self).wf(),
            r is Ok <==> old(self).fresh_id() < u64::MAX,
            r matches Ok(s) ==> s@.id == old(self).fresh_id() && s@.item == item@
                && final(self).contents() == old(self).contents().push(s@)
                && final(self).fresh_id() == old(self).fresh_id() + 1,
            r is Err ==> final(self).contents() == old(self).contents() && final(self).fresh_id()
                == old(self).fresh_id(),
            r matches Err(e) ==> e == StoreError::CapacityExhausted,
    {
        if self.next_id == u64::MAX {
            return Err(StoreError::CapacityExhausted);
        }
        let id = self.next_id;
        self.next_id = self.next_id + 1;
        let ghost pushed = (StoredView { id, item: item@ });
        self.records.push(Stored { id, item });
        proof {
            assert(self.contents() =~= old(self).contents().push(pushed));
            assert(self.contents()[self.contents().len() - 1] == pushed);
        }
        match self.find(id) {
            Some(s) => {
                proof {
                    let k = choose|k: int|
                        0 <= k < self.contents().len() && self.contents()[k] == s@;
                    assert(self.contents()[k].id == id);
                    if k < self.contents().len() - 1 {
                        assert(old(self).contents()[k].id < id);
                    }
                    assert(s@ == pushed);
                }
                Ok(s)
            },
            None => Err(StoreError::MissingAfterInsert),
        }
    }

    /// Removes every record. Clearing an empty collection succeeds trivially;
    /// identifiers are not reused afterwards.
    pub fn clear(&mut self)
        requires
            old(self).wf(),
        ensures
            final(self).wf(),
            final(self).contents() == Seq::<StoredView<T::V>>::empty(),
            final(self).fresh_id() == old(self).fresh_id(),
    {
        self.records = Vec::new();
        proof {
            assert(self.contents() =~= Seq::<StoredView<T::V>>::empty());
        }
    }
}

/// Turns a physical read into an all-or-nothing list: each row is the
/// outcome of deserializing one stored record, and one failed row fails the
/// whole call — no record is silently dropped. The records come back in
/// their given order.
pub fn collect_list<T: Record>(rows: &Vec<Option<T>>) -> (r: Result<Vec<T>, StoreError>)
    ensures
        r is Ok <==> (forall|i: int| 0 <= i < rows@.len() ==> rows@[i] is Some),
        r matches Ok(v) ==> v@.len() == rows@.len() && forall|i: int|
            0 <= i < rows@.len() ==> ((#[trigger] rows@[i]) matches Some(x) && v@[i]@ == x@),
        r matches Err(e) ==> e == StoreError::Deserialization,
{
    let mut out: Vec<T> = Vec::new();
    let n = rows.len();
    for k in 0..n
        invariant
            n == rows@.len(),
            out@.len() == k,
            forall|i: int|
                0 <= i < k ==> ((#[trigger] rows@[i]) matches Some(x) && out@[i]@ == x@),
    {
        match &rows[k] {
            Some(row) => {
                let copy = row.duplicate();
                out.push(copy);
            },
            None => {
                return Err(StoreError::Deserialization);
            },
        }
    }
    Ok(out)
}

/// The whole store: one collection per entity kind.
pub struct Store {
    pub dishes: Collection<Dish>,
    pub ingredients: Collection<Ingredient>,
    pub pantry: Collection<PantryIngredient>,
    pub users: Collection<User>,
}

impl Store {
    /// Well-formedness of every collection.
    pub open spec fn wf(&self) -> bool {
        self.dishes.wf() && self.ingredients.wf() && self.pantry.wf() && self.users.wf()
    }

    /// A store with every collection empty.
    pub fn new() -> (s: Self)
        ensures
            s.wf(),
            s.dishes.contents() == Seq::<StoredView<<Dish as View>::V>>::empty(),
            s.ingredients.contents() == Seq::<StoredView<IngredientView>>::empty(),
            s.pantry.contents() == Seq::<StoredView<<PantryIngredient as View>::V>>::empty(),
            s.users.contents() == Seq::<StoredView<<User as View>::V>>::empty(),
    {
        Store {
            dishes: Collection::new(),
            ingredients: Collection::new(),
            pantry: Collection::new(),
            users: Collection::new(),
        }
    }
}

/// Raw bit patterns of the single-precision seed measurements.
pub const RAW_GRAMS_100: u32 = 0x42C8_0000;

pub const RAW_GRAMS_200: u32 = 0x4348_0000;

pub const RAW_KCAL_140: u32 = 0x430C_0000;

pub const RAW_KCAL_230: u32 = 0x4366_0000;

pub const RAW_GRAMS_12: u32 = 0x4140_0000;

pub const RAW_GRAMS_10: u32 = 0x4120_0000;

pub const RAW_GRAMS_5: u32 = 0x40A0_0000;

pub const RAW_GRAMS_1: u32 = 0x3F80_0000;

/// The first seed ingredient: one egg serving.
pub open spec fn seed_egg() -> IngredientView {
    IngredientView {
        name: "Egg"@,
        serving_size: RAW_GRAMS_100,
        nutrition: Nutrition { calories: RAW_KCAL_140, protein: RAW_GRAMS_12, fat: RAW_GRAMS_10 },
    }
}

/// The second seed ingredient: one serving of cooked rice.
pub open spec fn seed_rice() -> IngredientView {
    IngredientView {
        name: "Rice (Cooked)"@,
        serving_size: RAW_GRAMS_200,
        nutrition: Nutrition { calories: RAW_KCAL_230, protein: RAW_GRAMS_5, fat: RAW_GRAMS_1 },
    }
}

/// Seeds the store with its initial data: the two seed ingredients, appended
/// to the ingredients collection in order. Nothing else changes.
pub fn initialize_db(store: &mut Store) -> (r: Result<(), StoreError>)
    requires
        old(store).wf(),
        old(store).ingredients.fresh_id() + 2 <= u64::MAX,
    ensures
        final(store).wf(),
        r is Ok,
        final(store).ingredients.contents() == old(store).ingredients.contents().push(
            StoredView { id: old(store).ingredients.fresh_id(), item: seed_egg() },
        ).push(
            StoredView { id: (old(store).ingredients.fresh_id() + 1) as u64, item: seed_rice() },
        ),
        final(store).ingredients.fresh_id() == old(store).ingredients.fresh_id() + 2,
        final(store).dishes == old(store).dishes,
        final(store).pantry == old(store).pantry,
        final(store).users == old(store).users,
{
    let egg = Ingredient {
        name: "Egg".to_owned(),
        serving_size: RAW_GRAMS_100,
        nutrition: Nutrition { calories: RAW_KCAL_140, protein: RAW_GRAMS_12, fat: RAW_GRAMS_10 },
    };
    let rice = Ingredient {
        name: "Rice (Cooked)".to_owned(),
        serving_size: RAW_GRAMS_200,
        nutrition: Nutrition { calories: RAW_KCAL_230, protein: RAW_GRAMS_5, fat: RAW_GRAMS_1 },
    };
    match store.ingredients.insert(egg) {
        Ok(_) => {},
        Err(e) => {
            return Err(e);
        },
    }
    match store.ingredients.insert(rice) {
        Ok(_) => {},
        Err(e) => {
            return Err(e);
        },
    }
    Ok(())
}

} // verus!
