//! The repository capability: five operations on a store of records keyed
//! by their unique identifier, which every backend offers alike.

use crate::error::InterfaceError;
use crate::store::{
    deref_all, empty_store, is_lookup, law_last_write_wins, law_list_empty, law_list_of_two,
    law_write_remove_orders, law_write_remove_then_lookup, law_write_then_lookup,
    law_writes_commute, lists_records, lookup, removed_at, stored_at,
};
use vstd::prelude::*;

verus! {

/// A record with a unique identifier, a 128-bit value.
pub trait HasUuid {
    /// The identifier that the record is stored under.
    spec fn uuid(&self) -> u128;

    fn get_uuid(&self) -> (id: u128)
        ensures
            id == self.uuid(),
    ;
}

/// The identifiers of the items, in their order.
pub open spec fn uuids<T: HasUuid>(items: Seq<&T>) -> Seq<u128> {
    Seq::new(items.len(), |i: int| items[i].uuid())
}

/// What a repository holds, as its operations see it.
pub trait Records<T> {
    /// The repository can be used: its backing storage exists.
    spec fn ready(&self) -> bool;

    /// The records held, each under its identifier.
    spec fn records(&self) -> Map<u128, T>;
}

/// Create object trait.
pub trait Create<T: HasUuid>: Records<T> {
    /// Whether the backing storage takes `item` when it is asked to: each
    /// backend says here on which records, in which state, a creation
    /// succeeds.
    spec fn accepts(&self, item: T) -> bool;

    /// Persists `item` under its identifier. A record already stored under
    /// that identifier is replaced. The creation succeeds exactly where the
    /// backing storage takes the record; a failure changes nothing.
    fn create(&mut self, item: T) -> (done: Result<(), InterfaceError>)
        requires
            old(self).ready(),
        ensures
            final(self).ready(),
            done is Ok <==> old(self).accepts(item),
            done is Ok ==> final(self).records() == stored_at(
                old(self).records(),
                item.uuid(),
                item,
            ),
            done is Err ==> final(self).records() == old(self).records(),
    ;
}

/// Get object trait.
pub trait Get<T>: Records<T> {
    /// The record stored under `id`, or `None` where there is none: absence
    /// is no failure.
    fn get(&self, id: &u128) -> (found: Result<Option<&T>, InterfaceError>)
        requires
            self.ready(),
        ensures
            found matches Ok(item) ==> is_lookup(item, self.records(), *id),
    ;
}

/// Delete object trait.
pub trait Delete<T>: Records<T> {
    /// Removes the record stored under `id`. To delete an absent key is no
    /// error. A failure changes nothing.
    fn delete(&mut self, id: &u128) -> (done: Result<(), InterfaceError>)
        requires
            old(self).ready(),
        ensures
            final(self).ready(),
            done is Ok ==> final(self).records() == removed_at(old(self).records(), *id),
            done is Err ==> final(self).records() == old(self).records(),
    ;
}

/// Update object trait.
pub trait Update<T: HasUuid>: Records<T> {
    /// Persists the current fields of `item` under its identifier. Where no
    /// record is stored under it, a backend either stores `item` or leaves the
    /// repository as it is. A failure changes nothing.
    fn update(&mut self, item: T) -> (done: Result<(), InterfaceError>)
        requires
            old(self).ready(),
        ensures
            final(self).ready(),
            done is Ok && old(self).records().contains_key(item.uuid()) ==> final(self).records()
                == stored_at(old(self).records(), item.uuid(), item),
            done is Ok && !old(self).records().contains_key(item.uuid()) ==> final(self).records()
                == stored_at(old(self).records(), item.uuid(), item) || final(self).records()
                == old(self).records(),
            done is Err ==> final(self).records() == old(self).records(),
    ;
}

/// Get object range trait.
pub trait List<T: HasUuid>: Records<T> {
    /// All the records, each once, in no particular order.
    fn list(&self) -> (items: Result<Vec<&T>, InterfaceError>)
        requires
            self.ready(),
        ensures
            items matches Ok(found) ==> lists_records(
                deref_all(found@),
                uuids(found@),
                self.records(),
            ),
    ;
}

/// Create, then get: a record that was created is the one that a get of its
/// identifier returns, with every field as created.
pub proof fn law_create_then_get<T: HasUuid>(records: Map<u128, T>, x: T)
    ensures
        lookup(stored_at(records, x.uuid(), x), x.uuid()) == Some(x),
{
    law_write_then_lookup(records, x.uuid(), x);
}

/// Create, delete, then get: after a record was created and then deleted,
/// a get of its identifier finds nothing.
pub proof fn law_create_delete_then_get<T: HasUuid>(records: Map<u128, T>, x: T)
    ensures
        lookup(removed_at(stored_at(records, x.uuid(), x), x.uuid()), x.uuid()) is None,
{
    law_write_remove_then_lookup(records, x.uuid(), x);
}

/// Update, then get, in a repository that stores on update: the get returns
/// the record as updated, whether a record was stored under its identifier
/// before (here `earlier`, with the same identifier) or not.
pub proof fn law_update_then_get<T: HasUuid>(records: Map<u128, T>, earlier: T, x: T)
    requires
        earlier.uuid() == x.uuid(),
    ensures
        lookup(stored_at(records, x.uuid(), x), x.uuid()) == Some(x),
        lookup(stored_at(stored_at(records, earlier.uuid(), earlier), x.uuid(), x), x.uuid())
            == Some(x),
{
    law_write_then_lookup(records, x.uuid(), x);
    law_last_write_wins(records, x.uuid(), earlier, x);
}

/// A listing of a repository without records is empty.
pub proof fn law_list_of_none<T: HasUuid>(items: Seq<&T>)
    requires
        lists_records(deref_all(items), uuids(items), empty_store::<u128, T>()),
    ensures
        items.len() == 0,
{
    law_list_empty(deref_all(items), uuids(items));
}

/// A listing after `a` and `b`, of distinct identifiers, were created in a
/// repository without records holds `a` and `b` and nothing else, in either
/// order.
pub proof fn law_list_of_created<T: HasUuid>(items: Seq<&T>, a: T, b: T)
    requires
        a.uuid() != b.uuid(),
        lists_records(
            deref_all(items),
            uuids(items),
            stored_at(stored_at(empty_store(), a.uuid(), a), b.uuid(), b),
        ),
    ensures
        items.len() == 2,
        (*items[0] == a && *items[1] == b) || (*items[0] == b && *items[1] == a),
{
    let listed = deref_all(items);
    law_list_of_two(listed, uuids(items), a.uuid(), a, b.uuid(), b);
}

/// Creations of records of distinct identifiers lose nothing, whichever
/// comes first: the repository ends the same, with both records.
pub proof fn law_creates_commute<T: HasUuid>(records: Map<u128, T>, a: T, b: T)
    requires
        a.uuid() != b.uuid(),
    ensures
        stored_at(stored_at(records, a.uuid(), a), b.uuid(), b) == stored_at(
            stored_at(records, b.uuid(), b),
            a.uuid(),
            a,
        ),
        lookup(stored_at(stored_at(records, a.uuid(), a), b.uuid(), b), a.uuid()) == Some(a),
        lookup(stored_at(stored_at(records, a.uuid(), a), b.uuid(), b), b.uuid()) == Some(b),
{
    law_writes_commute(records, a.uuid(), a, b.uuid(), b);
}

/// A creation and a deletion under one identifier, in either order, leave
/// the record either as created or absent, and leave every other record as
/// it was.
pub proof fn law_create_delete_orders<T: HasUuid>(records: Map<u128, T>, x: T, other: u128)
    requires
        other != x.uuid(),
    ensures
        lookup(removed_at(stored_at(records, x.uuid(), x), x.uuid()), x.uuid()) is None,
        lookup(stored_at(removed_at(records, x.uuid()), x.uuid(), x), x.uuid()) == Some(x),
        lookup(removed_at(stored_at(records, x.uuid(), x), x.uuid()), other) == lookup(
            records,
            other,
        ),
        lookup(stored_at(removed_at(records, x.uuid()), x.uuid(), x), other) == lookup(
            records,
            other,
        ),
{
    law_write_remove_orders(records, x.uuid(), x);
}

/// The five operations together.
pub trait Repository<T: HasUuid>: Create<T> + Get<T> + Update<T> + List<T> + Delete<T> {

}

} // verus!
