//! Store guard: the single mutual-exclusion gate through which every store
//! operation passes.
//!
//! One lock wraps the one store. At any instant at most one operation is
//! reading or mutating it: acquisition blocks until the prior holder
//! releases. Reads and writes are equally serialized; there is no
//! reader/writer distinction, no fairness guarantee beyond the underlying
//! primitive's, no timeout on acquisition, and no reentrancy — a holder that
//! acquires again deadlocks by design. The lock is vstd's verified
//! reader-writer lock used in write mode only; unlike a poisoning lock it
//! cannot be left unusable by a panicking holder, and the critical sections
//! of this library are verified panic-free to begin with.
//!
//! The lock's invariant is the store's well-formedness, so every acquisition
//! hands out a well-formed store and every release demands one back. An
//! operation runs as a [`StoreSession`]: the session holds the store and the
//! scoped handle together, so each operation's contract can say exactly what
//! it reads and what it changes, and the handle's scope covers the whole
//! round trip (for an insert, including the post-insert re-read).

use vstd::prelude::*;
use vstd::rwlock::{RwLock, WriteHandle};

use crate::auth::{decode_jwt_at, strip_bearer, token_of, AuthError, Claims, SigningContext};
use crate::dishes::Dish;
use crate::ingredients::Ingredient;
use crate::pantry::PantryIngredient;
use crate::store::{views_of, Store, StoreError, Stored, StoredView};

verus! {

/// The single exclusive gate around the store. Created once at startup;
/// shared (for instance behind a reference-counted pointer) by every
/// operation that touches the store.
pub struct StoreGuard {
    lock: RwLock<Store, spec_fn(Store) -> bool>,
}

/// The scoped handle of one exclusive access: proof that its holder is the
/// one operation inside the critical section. Releasing it hands the store
/// back and lets the next acquisition proceed.
pub struct StoreHandle<'a> {
    handle: WriteHandle<'a, Store, spec_fn(Store) -> bool>,
}

impl<'a> StoreHandle<'a> {
    /// The handle belongs to a lock that keeps exactly the well-formed stores.
    pub closed spec fn wf(&self) -> bool {
        forall|s: Store| #[trigger] self.handle.rwlock().inv(s) <==> s.wf()
    }

    /// Releases the store and lets the next acquisition proceed. The handle
    /// is consumed, and the store it returns must be well-formed again.
    pub fn release(self, store: Store)
        requires
            self.wf(),
            store.wf(),
    {
        self.handle.release_write(store);
    }
}

/// One exclusive store operation in flight: the store taken from the lock,
/// together with the handle that will give it back. Everything the session
/// does is stated against the store it holds.
pub struct StoreSession<'a> {
    store: Store,
    handle: StoreHandle<'a>,
}

impl<'a> StoreSession<'a> {
    /// The store this session holds.
    pub closed spec fn store(&self) -> Store {
        self.store
    }

    /// The session's handle releases into the lock it came from.
    pub closed spec fn lock_ok(&self) -> bool {
        self.handle.wf()
    }

    /// A usable session: the held store is well-formed and the handle fits.
    pub open spec fn wf(&self) -> bool {
        self.lock_ok() && self.store().wf()
    }

    /// Snapshot-reads every dish, in the store's own (insertion) order.
    pub fn get_dishes(&self) -> (r: Vec<Stored<Dish>>)
        ensures
            views_of(r@) == self.store().dishes.contents(),
    {
        self.store.dishes.list()
    }

    /// Inserts one dish under a fresh identifier and returns the canonical
    /// persisted form re-read by that identifier; the dishes collection is
    /// extended by exactly that record and nothing else changes. Fails only
    /// when the identifier space is exhausted, leaving everything unchanged.
    pub fn add_dish(&mut self, dish: Dish) -> (r: Result<Stored<Dish>, StoreError>)
        requires
            old(self).wf(),
        ensures
            final(self).wf(),
            r is Ok <==> old(self).store().dishes.fresh_id() < u64::MAX,
            r matches Ok(s) ==> s@.id == old(self).store().dishes.fresh_id() && s@.item == dish@
                && final(self).store().dishes.contents() == old(
                self,
            ).store().dishes.contents().push(s@) && final(self).store().dishes.fresh_id() == old(
                self,
            ).store().dishes.fresh_id() + 1,
            r is Err ==> final(self).store().dishes.contents() == old(
                self,
            ).store().dishes.contents() && final(self).store().dishes.fresh_id() == old(
                self,
            ).store().dishes.fresh_id(),
            r matches Err(e) ==> e == StoreError::CapacityExhausted,
            final(self).store().ingredients == old(self).store().ingredients,
            final(self).store().pantry == old(self).store().pantry,
            final(self).store().users == old(self).store().users,
    {
        self.store.dishes.insert(dish)
    }

    /// Snapshot-reads every pantry entry, in the store's own order.
    pub fn get_pantry(&self) -> (r: Vec<Stored<PantryIngredient>>)
        ensures
            views_of(r@) == self.store().pantry.contents(),
    {
        self.store.pantry.list()
    }

    /// Inserts one pantry entry under a fresh identifier and returns the
    /// canonical persisted form re-read by that identifier; the pantry is
    /// extended by exactly that record and nothing else changes. Fails only
    /// when the identifier space is exhausted, leaving everything unchanged.
    pub fn add_pantry_ingredient(&mut self, entry: PantryIngredient) -> (r: Result<
        Stored<PantryIngredient>,
        StoreError,
    >)
        requires
            old(self).wf(),
        ensures
            final(self).wf(),
            r is Ok <==> old(self).store().pantry.fresh_id() < u64::MAX,
            r matches Ok(s) ==> s@.id == old(self).store().pantry.fresh_id() && s@.item == entry@
                && final(self).store().pantry.contents() == old(
                self,
            ).store().pantry.contents().push(s@) && final(self).store().pantry.fresh_id() == old(
                self,
            ).store().pantry.fresh_id() + 1,
            r is Err ==> final(self).store().pantry.contents() == old(
                self,
            ).store().pantry.contents() && final(self).store().pantry.fresh_id() == old(
                self,
            ).store().pantry.fresh_id(),
            r matches Err(e) ==> e == StoreError::CapacityExhausted,
            final(self).store().dishes == old(self).store().dishes,
            final(self).store().ingredients == old(self).store().ingredients,
            final(self).store().users == old(self).store().users,
    {
        self.store.pantry.insert(entry)
    }

    /// Deletes every pantry entry, unconditionally: afterwards the pantry is
    /// empty, identifiers are not reused, and no other collection changes.
    /// Clearing an already empty pantry succeeds the same way.
    pub fn clear_pantry(&mut self)
        requires
            old(self).wf(),
        ensures
            final(self).wf(),
            final(self).store().pantry.contents() == Seq::<
                StoredView<<PantryIngredient as View>::V>,
            >::empty(),
            final(self).store().pantry.fresh_id() == old(self).store().pantry.fresh_id(),
            final(self).store().dishes == old(self).store().dishes,
            final(self).store().ingredients == old(self).store().ingredients,
            final(self).store().users == old(self).store().users,
    {
        self.store.pantry.clear();
    }

    /// Snapshot-reads every ingredient, in the store's own order.
    pub fn get_ingredients(&self) -> (r: Vec<Stored<Ingredient>>)
        ensures
            views_of(r@) == self.store().ingredients.contents(),
    {
        self.store.ingredients.list()
    }

    /// Inserts one ingredient under a fresh identifier and returns the
    /// canonical persisted form re-read by that identifier; the ingredients
    /// collection is extended by exactly that record and nothing else
    /// changes. Fails only when the identifier space is exhausted, leaving
    /// everything unchanged.
    pub fn add_ingredient(&mut self, ingredient: Ingredient) -> (r: Result<
        Stored<Ingredient>,
        StoreError,
    >)
        requires
            old(self).wf(),
        ensures
            final(self).wf(),
            r is Ok <==> old(self).store().ingredients.fresh_id() < u64::MAX,
            r matches Ok(s) ==> s@.id == old(self).store().ingredients.fresh_id() && s@.item
                == ingredient@ && final(self).store().ingredients.contents() == old(
                self,
            ).store().ingredients.contents().push(s@) && final(self).store().ingredients.fresh_id()
                == old(self).store().ingredients.fresh_id() + 1,
            r is Err ==> final(self).store().ingredients.contents() == old(
                self,
            ).store().ingredients.contents() && final(self).store().ingredients.fresh_id() == old(
                self,
            ).store().ingredients.fresh_id(),
            r matches Err(e) ==> e == StoreError::CapacityExhausted,
            final(self).store().dishes == old(self).store().dishes,
            final(self).store().pantry == old(self).store().pantry,
            final(self).store().users == old(self).store().users,
    {
        self.store.ingredients.insert(ingredient)
    }

    /// Ends the operation: the store goes back behind the lock on every path
    /// that reaches here, and the next acquisition may proceed.
    pub fn finish(self)
        requires
            self.wf(),
    {
        let StoreSession { store, handle } = self;
        handle.release(store);
    }
}

impl StoreGuard {
    /// The guard keeps exactly the well-formed stores behind its lock.
    pub closed spec fn wf(&self) -> bool {
        forall|s: Store| #[trigger] self.lock.inv(s) <==> s.wf()
    }

    /// Puts a store behind a fresh gate.
    pub fn new(store: Store) -> (r: Self)
        requires
            store.wf(),
        ensures
            r.wf(),
    {
        let lock = RwLock::new(store, Ghost(|s: Store| s.wf()));
        StoreGuard { lock }
    }

    /// Blocks the caller until any prior holder releases, then hands out the
    /// store together with the scoped handle of this access.
    pub fn acquire(&self) -> (r: (Store, StoreHandle<'_>))
        requires
            self.wf(),
        ensures
            r.0.wf(),
            r.1.wf(),
    {
        let (store, handle) = self.lock.acquire_write();
        (store, StoreHandle { handle })
    }

    /// Begins one exclusive store operation: blocks until the guard is free,
    /// then hands out the session that the operation runs in.
    pub fn begin(&self) -> (s: StoreSession<'_>)
        requires
            self.wf(),
        ensures
            s.wf(),
    {
        let (store, handle) = self.acquire();
        StoreSession { store, handle }
    }

    /// The protected-request flow: the bearer credential is checked first,
    /// and only when it verifies is the store touched at all. A credential
    /// carrying a token signed with this secret is accepted exactly while it
    /// is unexpired; every failure is reported before any store access.
    pub fn authorized_get_pantry(
        &self,
        ctx: &SigningContext,
        credential: &str,
        now: u64,
    ) -> (r: Result<(Claims, Vec<Stored<PantryIngredient>>), AuthError>)
        requires
            self.wf(),
        ensures
            forall|i2: u64, e2: u64, em2: Seq<char>, hp2: Seq<char>|
                strip_bearer(credential@) == #[trigger] token_of(ctx@, i2, e2, em2, hp2)
                    ==> if now < e2 {
                    r matches Ok((c, _)) && c.issued_at == i2 && c.expires_at == e2 && c.email@
                        == em2 && c.hashed_password@ == hp2
                } else {
                    r matches Err(e) && e == AuthError::Expired
                },
            r matches Ok((c, _)) ==> now < c.expires_at,
    {
        match decode_jwt_at(ctx, credential, now) {
            Ok(claims) => {
                let session = self.begin();
                let listed = session.get_pantry();
                session.finish();
                Ok((claims, listed))
            },
            Err(e) => Err(e),
        }
    }
}

} // verus!
