//! A keyed store held in memory.
//!
//! The store is the sequential core of a shared repository: a caller that
//! shares it between tasks puts it behind a read-write lock, takes the lock
//! for reading around `get` and `all`, and for writing around the operations
//! that change it. Values are moved in and lent out: a caller that keeps its
//! value hands in a copy.

use crate::error::InterfaceError;
use crate::store::{deref_all, is_lookup, lists_records, removed_at, stored_at};
use crate::{Key, PrimaryKey};
use std::collections::HashMap;
use vstd::prelude::*;
use vstd::std_specs::hash::*;
use vstd::std_specs::iter::IteratorSpec;

verus! {

broadcast use group_hash_axioms;

/// A store of values of type `T`, each under its primary key of type `K`.
///
/// Its view is the map from each key in use to the value stored under it.
pub struct InMemory<T, K> where T: PrimaryKey<K>, K: Key {
    data: HashMap<K, T>,
}

impl<T, K> View for InMemory<T, K> where T: PrimaryKey<K>, K: Key {
    type V = Map<K, T>;

    closed spec fn view(&self) -> Map<K, T> {
        self.data@
    }
}

/// Every value of the map is stored under its own primary key.
pub open spec fn keyed_by_pk<T: PrimaryKey<K>, K>(m: Map<K, T>) -> bool {
    forall|k: K| #[trigger] m.contains_key(k) ==> m[k].pk() == k
}

/// The primary keys of the items, in their order.
pub open spec fn pks<T: PrimaryKey<K>, K>(items: Seq<&T>) -> Seq<K> {
    Seq::new(items.len(), |i: int| items[i].pk())
}

/// What a keyed store holds, as its operations see it.
pub trait Contents<T, K> {
    /// The store can be used.
    spec fn ready(&self) -> bool;

    /// The values held, each under its primary key.
    spec fn contents(&self) -> Map<K, T>;
}

/// Create object trait.
pub trait Create<T: PrimaryKey<K>, K>: Contents<T, K> {
    /// Stores `item` under its primary key, in place of the value that was
    /// stored under that key, if any. A failure changes nothing.
    fn create(&mut self, item: T) -> (done: Result<(), InterfaceError>)
        requires
            old(self).ready(),
        ensures
            final(self).ready(),
            done is Ok ==> final(self).contents() == stored_at(
                old(self).contents(),
                item.pk(),
                item,
            ),
            done is Err ==> final(self).contents() == old(self).contents(),
    ;
}

/// Get object trait.
pub trait Get<T: PrimaryKey<K>, K>: Contents<T, K> {
    /// The value stored under `id`, or `None` where there is none.
    fn get(&self, id: &K) -> (found: Result<Option<&T>, InterfaceError>)
        requires
            self.ready(),
        ensures
            found matches Ok(item) ==> is_lookup(item, self.contents(), *id),
    ;
}

/// Delete object trait.
pub trait Delete<T: PrimaryKey<K>, K>: Contents<T, K> {
    /// Removes the value stored under `id`, if any. A failure changes
    /// nothing.
    fn delete(&mut self, id: &K) -> (done: Result<(), InterfaceError>)
        requires
            old(self).ready(),
        ensures
            final(self).ready(),
            done is Ok ==> final(self).contents() == removed_at(old(self).contents(), *id),
            done is Err ==> final(self).contents() == old(self).contents(),
    ;
}

/// Update object trait.
pub trait Update<T: PrimaryKey<K>, K>: Contents<T, K> {
    /// Stores `item` under its primary key, whether or not a value was
    /// stored under that key before. A failure changes nothing.
    fn update(&mut self, item: T) -> (done: Result<(), InterfaceError>)
        requires
            old(self).ready(),
        ensures
            final(self).ready(),
            done is Ok ==> final(self).contents() == stored_at(
                old(self).contents(),
                item.pk(),
                item,
            ),
            done is Err ==> final(self).contents() == old(self).contents(),
    ;
}

/// Get object range trait.
pub trait GetAll<T: PrimaryKey<K>, K>: Contents<T, K> {
    /// All the values, each once, in no particular order.
    fn all(&self) -> (items: Result<Vec<&T>, InterfaceError>)
        requires
            self.ready(),
        ensures
            items matches Ok(found) ==> lists_records(
                deref_all(found@),
                pks(found@),
                self.contents(),
            ),
    ;
}

impl<T, K> InMemory<T, K> where T: PrimaryKey<K>, K: Key {
    /// The store is well formed: its key type can key a hash map, and every
    /// value is stored under its own primary key. [`InMemory::new`]
    /// establishes this and every operation keeps it.
    pub closed spec fn wf(&self) -> bool {
        &&& obeys_key_model::<K>()
        &&& keyed_by_pk(self.data@)
    }

    /// What well-formedness says of the view.
    pub proof fn lemma_wf(&self)
        requires
            self.wf(),
        ensures
            self@.dom().finite(),
            keyed_by_pk(self@),
    {
    }

    /// An empty store. The key type's `Eq` and `Hash` must agree, as a hash
    /// map asks of its keys (`obeys_key_model`).
    pub fn new() -> (store: Self)
        requires
            obeys_key_model::<K>(),
        ensures
            store.wf(),
            store@ == Map::<K, T>::empty(),
    {
        InMemory { data: HashMap::new() }
    }

    /// The number of values in the store.
    pub fn len(&self) -> (n: usize)
        requires
            self.wf(),
        ensures
            n == self@.len(),
    {
        self.data.len()
    }

}

impl<T, K> Contents<T, K> for InMemory<T, K> where T: PrimaryKey<K>, K: Key {
    open spec fn ready(&self) -> bool {
        self.wf()
    }

    open spec fn contents(&self) -> Map<K, T> {
        self@
    }
}

impl<T, K> Create<T, K> for InMemory<T, K> where T: PrimaryKey<K>, K: Key {
    /// Stores `item` under its primary key, in place of the value that was
    /// stored under that key, if any. Never fails.
    fn create(&mut self, item: T) -> (done: Result<(), InterfaceError>)
        ensures
            done is Ok,
            final(self)@ == stored_at(old(self)@, item.pk(), item),
    {
        let key = item.get_pk();
        self.data.insert(key, item);
        Ok(())
    }
}

impl<T, K> Get<T, K> for InMemory<T, K> where T: PrimaryKey<K>, K: Key {
    /// The value stored under `id`, or `None` where there is none. Never
    /// fails.
    fn get(&self, id: &K) -> (found: Result<Option<&T>, InterfaceError>)
        ensures
            found is Ok,
            is_lookup(found->Ok_0, self@, *id),
    {
        Ok(self.data.get(id))
    }
}

impl<T, K> Delete<T, K> for InMemory<T, K> where T: PrimaryKey<K>, K: Key {
    /// Removes the value stored under `id`, if any. Never fails.
    fn delete(&mut self, id: &K) -> (done: Result<(), InterfaceError>)
        ensures
            done is Ok,
            final(self)@ == removed_at(old(self)@, *id),
    {
        self.data.remove(id);
        Ok(())
    }
}

impl<T, K> Update<T, K> for InMemory<T, K> where T: PrimaryKey<K>, K: Key {
    /// Stores `item` under its primary key, whether or not a value was
    /// stored under that key before. Never fails.
    fn update(&mut self, item: T) -> (done: Result<(), InterfaceError>)
        ensures
            done is Ok,
            final(self)@ == stored_at(old(self)@, item.pk(), item),
    {
        let key = item.get_pk();
        self.data.insert(key, item);
        Ok(())
    }
}

impl<T, K> GetAll<T, K> for InMemory<T, K> where T: PrimaryKey<K>, K: Key {
    /// All the values in the store, each once, in no particular order.
    /// Never fails.
    fn all(&self) -> (items: Result<Vec<&T>, InterfaceError>)
        ensures
            items is Ok,
            lists_records(deref_all(items->Ok_0@), pks(items->Ok_0@), self@),
    {
        let mut out: Vec<&T> = Vec::new();
        let entries = self.data.iter();
        let ghost pairs = entries.remaining();
        for entry in it: entries
            invariant
                out@.len() == it.index(),
                it.seq() == pairs,
                forall|i: int| 0 <= i < out@.len() ==> out@[i] == pairs[i].1,
        {
            let (_, value) = entry;
            out.push(value);
        }
        proof {
            let m = self.data@;
            let keys = pks::<T, K>(out@);
            assert forall|i: int| 0 <= i < keys.len() implies m.contains_key(#[trigger] keys[i])
                && m[keys[i]] == deref_all(out@)[i] && keys[i] == *pairs[i].0 by {
                assert(m.contains_key(*pairs[i].0) && m[*pairs[i].0] == *pairs[i].1);
            }
        }
        Ok(out)
    }
}

} // verus!
