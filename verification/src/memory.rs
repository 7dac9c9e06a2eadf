//! In-memory implementation of a repository.
//!
//! The repository is the sequential core of a shared one: whoever shares it
//! between tasks puts it behind a single read-write lock, reads (`get`,
//! `list`) under the shared lock and writes (`create`, `update`, `delete`)
//! under the exclusive lock. Records are moved in and lent out: a caller that
//! keeps its record hands in a copy, and copies what it is lent before it
//! gives the lock back. What `list` returns borrows the repository, so no
//! write can show in it.

use crate::error::InterfaceError;
use crate::ports::{uuids, Create, Delete, Get, HasUuid, List, Records, Repository, Update};
use crate::store::{deref_all, is_lookup, lists_records, removed_at, stored_at};
use std::collections::HashMap;
use vstd::prelude::*;
use vstd::std_specs::hash::*;
use vstd::std_specs::iter::IteratorSpec;

verus! {

broadcast use group_hash_axioms;

/// A repository of records of type `T` that lives in memory.
///
/// Its view is the map from each identifier in use to the record under it.
pub struct InMemoryRepository<T> where T: HasUuid {
    data: HashMap<u128, T>,
}

impl<T> View for InMemoryRepository<T> where T: HasUuid {
    type V = Map<u128, T>;

    closed spec fn view(&self) -> Map<u128, T> {
        self.data@
    }
}

/// Every record of the map is stored under its own identifier.
pub open spec fn keyed_by_uuid<T: HasUuid>(m: Map<u128, T>) -> bool {
    forall|id: u128| #[trigger] m.contains_key(id) ==> m[id].uuid() == id
}

impl<T> InMemoryRepository<T> where T: HasUuid {
    /// The repository is well formed: every record is stored under its own
    /// identifier. [`InMemoryRepository::new`] establishes this and every
    /// operation keeps it.
    pub closed spec fn wf(&self) -> bool {
        keyed_by_uuid(self.data@)
    }

    /// What well-formedness says of the view.
    pub proof fn lemma_wf(&self)
        requires
            self.wf(),
        ensures
            self@.dom().finite(),
            keyed_by_uuid(self@),
    {
    }

    /// An empty repository.
    pub fn new() -> (repo: Self)
        ensures
            repo.wf(),
            repo@ == Map::<u128, T>::empty(),
    {
        InMemoryRepository { data: HashMap::new() }
    }

    /// The number of records in the repository.
    pub fn len(&self) -> (n: usize)
        ensures
            n == self@.len(),
    {
        self.data.len()
    }
}

impl<T> Records<T> for InMemoryRepository<T> where T: HasUuid {
    open spec fn ready(&self) -> bool {
        self.wf()
    }

    open spec fn records(&self) -> Map<u128, T> {
        self@
    }
}

impl<T> Create<T> for InMemoryRepository<T> where T: HasUuid {
    /// Memory takes every record.
    open spec fn accepts(&self, item: T) -> bool {
        true
    }

    /// Stores `item` under its identifier, in place of the record that was
    /// stored under it, if any. Never fails.
    fn create(&mut self, item: T) -> (done: Result<(), InterfaceError>)
        ensures
            done is Ok,
            final(self)@ == stored_at(old(self)@, item.uuid(), item),
    {
        let id = item.get_uuid();
        self.data.insert(id, item);
        Ok(())
    }
}

impl<T> Get<T> for InMemoryRepository<T> where T: HasUuid {
    /// The record stored under `id`, or `None` where there is none. Never
    /// fails.
    fn get(&self, id: &u128) -> (found: Result<Option<&T>, InterfaceError>)
        ensures
            found is Ok,
            is_lookup(found->Ok_0, self@, *id),
    {
        Ok(self.data.get(id))
    }
}

impl<T> Delete<T> for InMemoryRepository<T> where T: HasUuid {
    /// Removes the record stored under `id`, if any. Never fails.
    fn delete(&mut self, id: &u128) -> (done: Result<(), InterfaceError>)
        ensures
            done is Ok,
            final(self)@ == removed_at(old(self)@, *id),
    {
        self.data.remove(id);
        Ok(())
    }
}

impl<T> Update<T> for InMemoryRepository<T> where T: HasUuid {
    /// Stores `item` under its identifier, whether or not a record was
    /// stored under it before. Never fails.
    fn update(&mut self, item: T) -> (done: Result<(), InterfaceError>)
        ensures
            done is Ok,
            final(self)@ == stored_at(old(self)@, item.uuid(), item),
    {
        let id = item.get_uuid();
        self.data.insert(id, item);
        Ok(())
    }
}

impl<T> List<T> for InMemoryRepository<T> where T: HasUuid {
    /// All the records, each once, in no particular order. Never fails.
    fn list(&self) -> (items: Result<Vec<&T>, InterfaceError>)
        ensures
            items is Ok,
            lists_records(deref_all(items->Ok_0@), uuids(items->Ok_0@), self@),
    {
        let mut out: Vec<&T> = Vec::new();
        let entries = self.data.iter();
        let ghost pairs = entries.remaining();
        for entry in it: entries
            invariant
                out@.len() == it.index(),
                it.seq() == pairs,
                forall|i: int| 0 <= i < out@.len() ==> out@[i] == pairs[i].1,
        {
            let (_, value) = entry;
            out.push(value);
        }
        proof {
            let m = self.data@;
            let keys = uuids::<T>(out@);
            assert forall|i: int| 0 <= i < keys.len() implies m.contains_key(#[trigger] keys[i])
                && m[keys[i]] == deref_all(out@)[i] && keys[i] == *pairs[i].0 by {
                assert(m.contains_key(*pairs[i].0) && m[*pairs[i].0] == *pairs[i].1);
            }
        }
        Ok(out)
    }
}

impl<T> Repository<T> for InMemoryRepository<T> where T: HasUuid {

}

} // verus!
