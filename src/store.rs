//! An in-memory map from account identities to values.
use std::collections::BTreeMap;
use vstd::prelude::*;

verus! {

broadcast use vstd::std_specs::btree::group_btree_axioms;

/// Identity of a ledger participant; equality is identity.
pub type AccountId = u64;

/// Failure of a store operation.
#[derive(Debug, Clone, Copy, PartialEq, Eq, Structural)]
pub enum StoreError {
    /// `mutate` was asked to change a key that holds no value.
    MissingKey,
}

/// A map from `AccountId` to `V`. Its model is a `Map<AccountId, V>`: an
/// absent key holds nothing.
pub struct AccountStore<V> {
    map: BTreeMap<AccountId, V>,
}

impl<V> View for AccountStore<V> {
    type V = Map<AccountId, V>;

    closed spec fn view(&self) -> Map<AccountId, V> {
        self.map@
    }
}

impl<V> AccountStore<V> {
    /// An empty store.
    pub fn new() -> (s: Self)
        ensures
            s@ == Map::<AccountId, V>::empty(),
    {
        AccountStore { map: BTreeMap::new() }
    }

    /// The value stored under `id`, if any.
    pub fn get(&self, id: AccountId) -> (r: Option<&V>)
        ensures
            match r {
                Some(v) => self@.contains_key(id) && *v == self@[id],
                None => !self@.contains_key(id),
            },
    {
        self.map.get(&id)
    }

    /// Whether a value is stored under `id`.
    pub fn contains(&self, id: AccountId) -> (r: bool)
        ensures
            r == self@.contains_key(id),
    {
        self.map.contains_key(&id)
    }

    /// Stores `v` under `id`, replacing any earlier value.
    pub fn insert(&mut self, id: AccountId, v: V)
        ensures
            final(self)@ == old(self)@.insert(id, v),
    {
        self.map.insert(id, v);
    }

    /// Removes and returns the value under `id`; does nothing if there is none.
    pub fn remove(&mut self, id: AccountId) -> (r: Option<V>)
        ensures
            final(self)@ == old(self)@.remove(id),
            match r {
                Some(v) => old(self)@.contains_key(id) && v == old(self)@[id],
                None => !old(self)@.contains_key(id),
            },
    {
        self.map.remove(&id)
    }

    /// Replaces the value under `id` by `f` of it. Fails with `MissingKey`,
    /// changing nothing, when `id` holds no value.
    pub fn mutate<F: FnOnce(V) -> V>(&mut self, id: AccountId, f: F) -> (r: Result<(), StoreError>)
        requires
            old(self)@.contains_key(id) ==> f.requires((old(self)@[id],)),
        ensures
            match r {
                Ok(()) => old(self)@.contains_key(id) && exists|v: V|
                    #[trigger] f.ensures((old(self)@[id],), v) && final(self)@ == old(self)@.insert(
                        id,
                        v,
                    ),
                Err(e) => e == StoreError::MissingKey && !old(self)@.contains_key(id)
                    && final(self)@ == old(self)@,
            },
    {
        match self.map.remove(&id) {
            Some(v) => {
                let nv = f(v);
                self.map.insert(id, nv);
                Ok(())
            },
            None => Err(StoreError::MissingKey),
        }
    }
}

} // verus!
