//! Exact contracts for the ordered collections, keyed by integers.

use std::collections::{BTreeMap, BTreeSet};
use vstd::prelude::*;

verus! {

broadcast use vstd::laws_cmp::group_laws_cmp;

/// Whether `key` is present.
pub(crate) fn map_contains<V>(map: &BTreeMap<u64, V>, key: u64) -> (present: bool)
    ensures
        present == map@.contains_key(key),
{
    map.contains_key(&key)
}

/// Borrows the value under `key`.
pub(crate) fn map_get<V>(map: &BTreeMap<u64, V>, key: u64) -> (value: Option<&V>)
    ensures
        match value {
            Some(value) => map@.contains_key(key) && map@[key] == *value,
            None => !map@.contains_key(key),
        },
{
    map.get(&key)
}

/// Stores `value` under `key` and hands back what it replaced.
pub(crate) fn map_insert<V>(map: &mut BTreeMap<u64, V>, key: u64, value: V) -> (replaced: Option<V>)
    ensures
        final(map)@ == old(map)@.insert(key, value),
        match replaced {
            Some(replaced) => old(map)@.contains_key(key) && replaced == old(map)@[key],
            None => !old(map)@.contains_key(key),
        },
{
    map.insert(key, value)
}

/// Takes the value under `key` out.
pub(crate) fn map_remove<V>(map: &mut BTreeMap<u64, V>, key: u64) -> (removed: Option<V>)
    ensures
        final(map)@ == old(map)@.remove(key),
        match removed {
            Some(removed) => old(map)@.contains_key(key) && removed == old(map)@[key],
            None => !old(map)@.contains_key(key),
        },
{
    map.remove(&key)
}

/// Number of entries.
pub(crate) fn map_len<V>(map: &BTreeMap<u64, V>) -> (len: usize)
    ensures
        len == map@.len(),
{
    map.len()
}

/// Lists the keys in increasing order.
pub(crate) fn map_keys<V>(map: &BTreeMap<u64, V>) -> (keys: Vec<u64>)
    ensures
        keys@ == crate::accounting::in_order(map@.dom()),
        crate::accounting::is_ordered(keys@, map@.dom()),
        keys@.no_duplicates(),
        keys@.to_set() == map@.dom(),
{
    let mut keys: Vec<u64> = Vec::new();
    for key in iter: map.keys()
        invariant
            keys@ == iter.seq().unref().take(iter.index()),
    {
        keys.push(*key);
    }
    proof {
        let listed = vstd::std_specs::iter::IteratorSpec::remaining(
            &vstd::std_specs::btree::spec_keys_iter(map),
        );
        assert(keys@ =~= listed.unref());
        assert(vstd::laws_cmp::obeys_cmp::<&u64>()) by {
            reveal(vstd::laws_cmp::obeys_cmp_partial_ord);
            reveal(vstd::laws_cmp::obeys_cmp_ord);
        }
        assert(vstd::std_specs::btree::increasing_seq(listed));
        assert forall|i: int, j: int| 0 <= i < j < keys@.len() implies #[trigger] keys@[i]
            < #[trigger] keys@[j] by {
            assert(vstd::std_specs::cmp::OrdSpec::cmp_spec(&listed[i], &listed[j]) is Less);
            assert(*listed[i] == keys@[i] && *listed[j] == keys@[j]);
        }
        assert forall|key: u64| #[trigger] map@.dom().contains(key) <==> keys@.contains(key) by {
            assert(keys@.to_set().contains(key) == map@.dom().contains(key));
        }
        crate::accounting::one_order(keys@, crate::accounting::in_order(map@.dom()), map@.dom());
    }
    keys
}

/// Whether `key` is a member.
pub(crate) fn set_contains(set: &BTreeSet<u64>, key: u64) -> (present: bool)
    ensures
        present == set@.contains(key),
{
    set.contains(&key)
}

/// Adds a member; tells whether it is new.
pub(crate) fn set_insert(set: &mut BTreeSet<u64>, key: u64) -> (added: bool)
    ensures
        final(set)@ == old(set)@.insert(key),
        added == !old(set)@.contains(key),
{
    set.insert(key)
}

/// Removes a member; tells whether it was there.
pub(crate) fn set_remove(set: &mut BTreeSet<u64>, key: u64) -> (removed: bool)
    ensures
        final(set)@ == old(set)@.remove(key),
        removed == old(set)@.contains(key),
{
    set.remove(&key)
}

/// Number of members.
pub(crate) fn set_len(set: &BTreeSet<u64>) -> (len: usize)
    ensures
        len == set@.len(),
{
    set.len()
}

/// Whether a pair of integers is present.
pub(crate) fn pair_map_contains<V>(map: &BTreeMap<(u64, u64), V>, key: (u64, u64)) -> (present: bool)
    ensures
        present == map@.contains_key(key),
{
    map.contains_key(&key)
}

/// Stores `value` under a pair and hands back what it replaced.
pub(crate) fn pair_map_insert<V>(map: &mut BTreeMap<(u64, u64), V>, key: (u64, u64), value: V) -> (replaced:
    Option<V>)
    ensures
        final(map)@ == old(map)@.insert(key, value),
        match replaced {
            Some(replaced) => old(map)@.contains_key(key) && replaced == old(map)@[key],
            None => !old(map)@.contains_key(key),
        },
{
    map.insert(key, value)
}

/// Takes the value under a pair out.
pub(crate) fn pair_map_remove<V>(map: &mut BTreeMap<(u64, u64), V>, key: (u64, u64)) -> (removed:
    Option<V>)
    ensures
        final(map)@ == old(map)@.remove(key),
        match removed {
            Some(removed) => old(map)@.contains_key(key) && removed == old(map)@[key],
            None => !old(map)@.contains_key(key),
        },
{
    map.remove(&key)
}

/// Number of entries keyed by pairs.
pub(crate) fn pair_map_len<V>(map: &BTreeMap<(u64, u64), V>) -> (len: usize)
    ensures
        len == map@.len(),
{
    map.len()
}

/// Whether a pair is a member.
pub(crate) fn pair_set_contains(set: &BTreeSet<(u64, u64)>, key: (u64, u64)) -> (present: bool)
    ensures
        present == set@.contains(key),
{
    set.contains(&key)
}

/// Adds a pair; tells whether it is new.
pub(crate) fn pair_set_insert(set: &mut BTreeSet<(u64, u64)>, key: (u64, u64)) -> (added: bool)
    ensures
        final(set)@ == old(set)@.insert(key),
        added == !old(set)@.contains(key),
{
    set.insert(key)
}

} // verus!
