//! The mathematical model of a keyed store: a finite map from keys to
//! records, and what each repository operation does to it.

use vstd::prelude::*;

verus! {

/// The store after `item` was written under `key`: an insert, or a
/// replacement of what was stored under `key` before.
pub open spec fn stored_at<K, T>(m: Map<K, T>, key: K, item: T) -> Map<K, T> {
    m.insert(key, item)
}

/// The store after the record under `key`, if any, was removed.
pub open spec fn removed_at<K, T>(m: Map<K, T>, key: K) -> Map<K, T> {
    m.remove(key)
}

/// The record stored under `key`, or `None` where there is none.
pub open spec fn lookup<K, T>(m: Map<K, T>, key: K) -> Option<T> {
    if m.contains_key(key) {
        Some(m[key])
    } else {
        None
    }
}

/// The store with no record.
pub open spec fn empty_store<K, T>() -> Map<K, T> {
    Map::empty()
}

/// `found` is what a lookup of `key` in `m` gives, by reference.
pub open spec fn is_lookup<K, T>(found: Option<&T>, m: Map<K, T>, key: K) -> bool {
    match found {
        Some(item) => lookup(m, key) == Some(*item),
        None => lookup(m, key) is None,
    }
}

/// The items behind the references, in their order.
pub open spec fn deref_all<T>(items: Seq<&T>) -> Seq<T> {
    Seq::new(items.len(), |i: int| *items[i])
}

/// `items` lists the records of `m`: as many as `m` has keys, the record at
/// index `i` being the one stored under `keys[i]`, and no key twice.
pub open spec fn lists_records<K, T>(items: Seq<T>, keys: Seq<K>, m: Map<K, T>) -> bool {
    &&& items.len() == keys.len()
    &&& keys.len() == m.dom().len()
    &&& keys.no_duplicates()
    &&& forall|i: int|
        0 <= i < keys.len() ==> m.contains_key(#[trigger] keys[i]) && m[keys[i]] == items[i]
}

/// A record that was written is the one a lookup of its key returns, with
/// every field as written.
pub proof fn law_write_then_lookup<K, T>(m: Map<K, T>, key: K, item: T)
    ensures
        lookup(stored_at(m, key, item), key) == Some(item),
{
}

/// After a record was written and then removed, a lookup of its key finds
/// nothing.
pub proof fn law_write_remove_then_lookup<K, T>(m: Map<K, T>, key: K, item: T)
    ensures
        lookup(removed_at(stored_at(m, key, item), key), key) is None,
{
}

/// A later write under the same key wins: the lookup returns the latest
/// record, whether or not one was stored under the key before.
pub proof fn law_last_write_wins<K, T>(m: Map<K, T>, key: K, first: T, latest: T)
    ensures
        lookup(stored_at(stored_at(m, key, first), key, latest), key) == Some(latest),
        stored_at(stored_at(m, key, first), key, latest) == stored_at(m, key, latest),
{
}

/// Removing a key that is not in the store changes nothing.
pub proof fn law_remove_absent<K, T>(m: Map<K, T>, key: K)
    requires
        !m.contains_key(key),
    ensures
        removed_at(m, key) == m,
{
}

/// A write or a removal under one key leaves the lookup of every other key
/// as it was: no operation loses or alters another record.
pub proof fn law_other_keys_kept<K, T>(m: Map<K, T>, key: K, item: T, other: K)
    requires
        other != key,
    ensures
        lookup(stored_at(m, key, item), other) == lookup(m, other),
        lookup(removed_at(m, key), other) == lookup(m, other),
{
}

/// Writes under distinct keys commute: whichever of two writers comes first,
/// the store ends with both records.
pub proof fn law_writes_commute<K, T>(m: Map<K, T>, key_a: K, a: T, key_b: K, b: T)
    requires
        key_a != key_b,
    ensures
        stored_at(stored_at(m, key_a, a), key_b, b) == stored_at(stored_at(m, key_b, b), key_a, a),
        lookup(stored_at(stored_at(m, key_a, a), key_b, b), key_a) == Some(a),
        lookup(stored_at(stored_at(m, key_a, a), key_b, b), key_b) == Some(b),
{
}

/// The store after the writes were applied one after the other, each a key
/// and the record to write under it.
pub open spec fn written<K, T>(m: Map<K, T>, writes: Seq<(K, T)>) -> Map<K, T>
    decreases writes.len(),
{
    if writes.len() == 0 {
        m
    } else {
        stored_at(written(m, writes.drop_last()), writes.last().0, writes.last().1)
    }
}

/// However many writes under distinct keys are applied, in whatever order
/// they come, none is lost: every record written is there as written, and
/// every record that was there under another key is there as it was.
pub proof fn law_writes_lose_nothing<K, T>(m: Map<K, T>, writes: Seq<(K, T)>)
    requires
        forall|i: int, j: int|
            0 <= i < j < writes.len() ==> (#[trigger] writes[i]).0 != (#[trigger] writes[j]).0,
    ensures
        forall|i: int|
            0 <= i < writes.len() ==> lookup(written(m, writes), (#[trigger] writes[i]).0) == Some(
                writes[i].1,
            ),
        forall|key: K|
            (forall|i: int| 0 <= i < writes.len() ==> (#[trigger] writes[i]).0 != key) ==> lookup(
                written(m, writes),
                key,
            ) == lookup(m, key),
    decreases writes.len(),
{
    if writes.len() > 0 {
        let before = writes.drop_last();
        law_writes_lose_nothing(m, before);
        assert forall|i: int| 0 <= i < writes.len() implies lookup(
            written(m, writes),
            (#[trigger] writes[i]).0,
        ) == Some(writes[i].1) by {
            if i < writes.len() - 1 {
                assert(before[i] == writes[i]);
            }
        }
    }
}

/// A write and a removal that race on one key leave the store as one of the
/// two orders leaves it: the record is either there as written, or absent.
pub proof fn law_write_remove_orders<K, T>(m: Map<K, T>, key: K, item: T)
    ensures
        lookup(removed_at(stored_at(m, key, item), key), key) is None,
        lookup(stored_at(removed_at(m, key), key, item), key) == Some(item),
        stored_at(removed_at(m, key), key, item) == stored_at(m, key, item),
        removed_at(stored_at(m, key, item), key) == removed_at(m, key),
{
}

/// A listing of the empty store is empty.
pub proof fn law_list_empty<K, T>(items: Seq<T>, keys: Seq<K>)
    requires
        lists_records(items, keys, empty_store::<K, T>()),
    ensures
        items.len() == 0,
{
}

/// A listing holds every key of the store: the keys listed are exactly the
/// keys in use, so every stored record occurs in the listing and nothing
/// else does.
pub proof fn law_list_complete<K, T>(items: Seq<T>, keys: Seq<K>, m: Map<K, T>)
    requires
        m.dom().finite(),
        lists_records(items, keys, m),
    ensures
        keys.to_set() == m.dom(),
        forall|k: K| #[trigger]
            m.contains_key(k) ==> exists|i: int| 0 <= i < keys.len() && keys[i] == k && items[i] == m[k],
        forall|i: int| 0 <= i < items.len() ==> m.values().contains(#[trigger] items[i]),
{
    keys.unique_seq_to_set();
    assert(keys.to_set().subset_of(m.dom())) by {
        assert forall|k: K| keys.to_set().contains(k) implies m.dom().contains(k) by {
            let i = choose|i: int| 0 <= i < keys.len() && keys[i] == k;
            assert(m.contains_key(keys[i]));
        }
    }
    vstd::set_lib::lemma_subset_equality(keys.to_set(), m.dom());
    assert forall|k: K| #[trigger] m.contains_key(k) implies exists|i: int|
        0 <= i < keys.len() && keys[i] == k && items[i] == m[k] by {
        assert(keys.to_set().contains(k));
        let i = choose|i: int| 0 <= i < keys.len() && keys[i] == k;
        assert(m[keys[i]] == items[i]);
    }
    assert forall|i: int| 0 <= i < items.len() implies m.values().contains(
        #[trigger] items[i],
    ) by {
        assert(m.contains_key(keys[i]) && m[keys[i]] == items[i]);
    }
}

/// The listing of a store in which exactly `a` and `b` were written, under
/// distinct keys, holds `a` and `b` and nothing else.
pub proof fn law_list_of_two<K, T>(items: Seq<T>, keys: Seq<K>, key_a: K, a: T, key_b: K, b: T)
    requires
        key_a != key_b,
        lists_records(items, keys, stored_at(stored_at(empty_store(), key_a, a), key_b, b)),
    ensures
        items.len() == 2,
        items.contains(a),
        items.contains(b),
        forall|i: int| 0 <= i < items.len() ==> items[i] == a || items[i] == b,
{
    let m = stored_at(stored_at(empty_store::<K, T>(), key_a, a), key_b, b);
    law_list_complete(items, keys, m);
    assert(m.contains_key(key_a));
    assert(m.contains_key(key_b));
}

} // verus!
