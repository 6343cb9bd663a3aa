//! Totals over the engine's collections, and the order of their keys.

use vstd::prelude::*;

verus! {

/// Sum of the charges of a map's values.
pub open spec fn map_total<V>(map: Map<u64, V>, charge: spec_fn(V) -> nat) -> nat
    decreases map.dom().len(),
{
    if map.dom().finite() && map.dom().len() > 0 {
        let key = map.dom().choose();
        proof {
            vstd::set::axiom_set_choose_len(map.dom());
        }
        charge(map[key]) + map_total(map.remove(key), charge)
    } else {
        0
    }
}

/// Sum of the charges of a sequence's items.
pub open spec fn seq_total<T>(items: Seq<T>, charge: spec_fn(T) -> nat) -> nat
    decreases items.len(),
{
    if items.len() == 0 {
        0
    } else {
        seq_total(items.drop_last(), charge) + charge(items.last())
    }
}

/// An empty map has total zero.
pub proof fn map_total_empty<V>(charge: spec_fn(V) -> nat)
    ensures
        map_total(Map::<u64, V>::empty(), charge) == 0,
{
}

/// A map's total is one value's charge and the total of the rest.
pub proof fn map_total_remove<V>(map: Map<u64, V>, charge: spec_fn(V) -> nat, key: u64)
    requires
        map.dom().finite(),
        map.contains_key(key),
    ensures
        map_total(map, charge) == charge(map[key]) + map_total(map.remove(key), charge),
    decreases map.dom().len(),
{
    let chosen = map.dom().choose();
    assert(map.dom().len() > 0) by {
        if map.dom().len() == 0 {
            assert(map.dom() =~= Set::<u64>::empty());
        }
    }
    assert(map.dom().contains(chosen)) by {
        vstd::set::axiom_set_choose_len(map.dom());
    }
    if chosen != key {
        map_total_remove(map.remove(chosen), charge, key);
        map_total_remove(map.remove(key), charge, chosen);
        assert(map.remove(chosen).remove(key) =~= map.remove(key).remove(chosen));
    }
}

/// Storing a value replaces the charge that its key had.
pub proof fn map_total_insert<V>(map: Map<u64, V>, charge: spec_fn(V) -> nat, key: u64, value: V)
    requires
        map.dom().finite(),
    ensures
        map_total(map.insert(key, value), charge) == charge(value) + map_total(
            map.remove(key),
            charge,
        ),
        map.contains_key(key) ==> map_total(map, charge) == charge(map[key]) + map_total(
            map.remove(key),
            charge,
        ),
        !map.contains_key(key) ==> map_total(map, charge) == map_total(map.remove(key), charge),
{
    map_total_remove(map.insert(key, value), charge, key);
    assert(map.insert(key, value).remove(key) =~= map.remove(key));
    if map.contains_key(key) {
        map_total_remove(map, charge, key);
    } else {
        assert(map.remove(key) =~= map);
    }
}

/// Maps with equal charges under equal keys have equal totals.
pub proof fn map_total_same<V>(left: Map<u64, V>, right: Map<u64, V>, charge: spec_fn(V) -> nat)
    requires
        left.dom().finite(),
        left.dom() == right.dom(),
        forall|key: u64| #[trigger]
            left.contains_key(key) ==> charge(left[key]) == charge(right[key]),
    ensures
        map_total(left, charge) == map_total(right, charge),
    decreases left.dom().len(),
{
    if left.dom().len() > 0 {
        let key = left.dom().choose();
        assert(left.dom().contains(key)) by {
            vstd::set::axiom_set_choose_len(left.dom());
        }
        map_total_remove(left, charge, key);
        map_total_remove(right, charge, key);
        assert(left.remove(key).dom() =~= right.remove(key).dom());
        assert forall|other: u64| #[trigger]
            left.remove(key).contains_key(other) implies charge(left.remove(key)[other]) == charge(
            right.remove(key)[other],
        ) by {
            assert(left.contains_key(other));
        }
        map_total_same(left.remove(key), right.remove(key), charge);
    }
}

/// A map of values without charge has total zero.
pub proof fn map_total_zero<V>(map: Map<u64, V>, charge: spec_fn(V) -> nat)
    requires
        map.dom().finite(),
        forall|key: u64| #[trigger] map.contains_key(key) ==> charge(map[key]) == 0,
    ensures
        map_total(map, charge) == 0,
    decreases map.dom().len(),
{
    if map.dom().len() > 0 {
        let key = map.dom().choose();
        assert(map.dom().contains(key)) by {
            vstd::set::axiom_set_choose_len(map.dom());
        }
        assert forall|other: u64| #[trigger] map.remove(key).contains_key(other) implies charge(
            map.remove(key)[other],
        ) == 0 by {
            assert(map.contains_key(other));
        }
        assert(map.contains_key(key));
        map_total_zero(map.remove(key), charge);
    }
}

/// Appending an item adds its charge.
pub proof fn seq_total_push<T>(items: Seq<T>, charge: spec_fn(T) -> nat, item: T)
    ensures
        seq_total(items.push(item), charge) == seq_total(items, charge) + charge(item),
{
    assert(items.push(item).drop_last() =~= items);
}

/// Taking the first item away takes its charge away.
pub proof fn seq_total_first<T>(items: Seq<T>, charge: spec_fn(T) -> nat)
    requires
        items.len() > 0,
    ensures
        seq_total(items, charge) == charge(items[0]) + seq_total(
            items.subrange(1, items.len() as int),
            charge,
        ),
    decreases items.len(),
{
    let rest = items.subrange(1, items.len() as int);
    if items.len() == 1 {
        assert(items.drop_last() =~= Seq::<T>::empty());
        assert(rest =~= Seq::<T>::empty());
    } else {
        seq_total_first(items.drop_last(), charge);
        assert(rest.drop_last() =~= items.drop_last().subrange(
            1,
            items.drop_last().len() as int,
        ));
    }
}

/// A prefix never has a greater total.
pub proof fn seq_total_prefix<T>(items: Seq<T>, charge: spec_fn(T) -> nat, count: int)
    requires
        0 <= count <= items.len(),
    ensures
        seq_total(items.take(count), charge) <= seq_total(items, charge),
    decreases items.len() - count,
{
    if count == items.len() {
        assert(items.take(count) =~= items);
    } else {
        seq_total_prefix(items, charge, count + 1);
        assert(items.take(count + 1).drop_last() =~= items.take(count));
    }
}

/// Part of a map never has a greater total.
pub proof fn map_total_part<V>(part: Map<u64, V>, map: Map<u64, V>, charge: spec_fn(V) -> nat)
    requires
        map.dom().finite(),
        part.dom().subset_of(map.dom()),
        forall|key: u64| #[trigger] part.contains_key(key) ==> part[key] == map[key],
    ensures
        part.dom().finite(),
        map_total(part, charge) <= map_total(map, charge),
    decreases map.dom().len(),
{
    vstd::set_lib::lemma_len_subset(part.dom(), map.dom());
    if part.dom().len() > 0 {
        let key = part.dom().choose();
        assert(part.dom().contains(key)) by {
            vstd::set::axiom_set_choose_len(part.dom());
        }
        assert(part.contains_key(key));
        assert(map.contains_key(key));
        map_total_remove(part, charge, key);
        map_total_remove(map, charge, key);
        assert forall|other: u64| #[trigger]
            part.remove(key).contains_key(other) implies part.remove(key)[other] == map.remove(
            key,
        )[other] by {
            assert(part.contains_key(other));
        }
        assert(part.remove(key).dom().subset_of(map.remove(key).dom()));
        map_total_part(part.remove(key), map.remove(key), charge);
    }
}

/// Whether `keys` are exactly the members of a set, in increasing order.
pub open spec fn is_ordered(keys: Seq<u64>, members: Set<u64>) -> bool {
    &&& forall|i: int, j: int| 0 <= i < j < keys.len() ==> #[trigger] keys[i] < #[trigger] keys[j]
    &&& forall|key: u64| #[trigger] members.contains(key) <==> keys.contains(key)
}

/// The members of a finite set, in increasing order.
pub open spec fn in_order(members: Set<u64>) -> Seq<u64> {
    choose|keys: Seq<u64>| is_ordered(keys, members)
}

/// A set has one increasing order only.
pub proof fn one_order(left: Seq<u64>, right: Seq<u64>, members: Set<u64>)
    requires
        is_ordered(left, members),
        is_ordered(right, members),
    ensures
        left == right,
    decreases left.len(),
{
    if left.len() == 0 || right.len() == 0 {
        if left.len() > 0 {
            assert(left.contains(left[0]));
            assert(members.contains(left[0]));
        }
        if right.len() > 0 {
            assert(right.contains(right[0]));
            assert(members.contains(right[0]));
        }
        assert(left =~= right);
    } else {
        let last = left.last();
        assert(left.contains(last));
        assert(right.contains(right.last()));
        assert(members.contains(last) && members.contains(right.last()));
        assert(left.contains(right.last()) && right.contains(last));
        assert(last == right.last());
        let rest = members.remove(last);
        without_last(left, members);
        without_last(right, members);
        one_order(left.drop_last(), right.drop_last(), rest);
        assert(left =~= left.drop_last().push(last));
        assert(right =~= right.drop_last().push(last));
    }
}

/// All keys but the last are the other members, in order.
proof fn without_last(keys: Seq<u64>, members: Set<u64>)
    requires
        is_ordered(keys, members),
        keys.len() > 0,
    ensures
        is_ordered(keys.drop_last(), members.remove(keys.last())),
{
    let shorter = keys.drop_last();
    assert forall|key: u64| #[trigger]
        members.remove(keys.last()).contains(key) <==> shorter.contains(key) by {
        if members.remove(keys.last()).contains(key) {
            assert(members.contains(key));
            let i = choose|i: int| 0 <= i < keys.len() && keys[i] == key;
            assert(shorter[i] == key);
        }
        if shorter.contains(key) {
            let i = choose|i: int| 0 <= i < shorter.len() && shorter[i] == key;
            assert(keys[i] == key);
            assert(members.contains(key));
            assert(keys[i] < keys[keys.len() - 1]);
        }
    }
}

/// A finite set that is not empty has a greatest member.
proof fn greatest_member(members: Set<u64>) -> (greatest: u64)
    requires
        members.finite(),
        members.len() > 0,
    ensures
        members.contains(greatest),
        forall|key: u64| #[trigger] members.contains(key) ==> key <= greatest,
    decreases members.len(),
{
    let one = members.choose();
    let rest = members.remove(one);
    if rest.len() == 0 {
        assert forall|key: u64| #[trigger] members.contains(key) implies key <= one by {
            if key != one {
                assert(rest.contains(key));
                assert(rest =~= Set::empty());
            }
        }
        one
    } else {
        let other = greatest_member(rest);
        let greatest = if one > other {
            one
        } else {
            other
        };
        assert forall|key: u64| #[trigger] members.contains(key) implies key <= greatest by {
            if key != one {
                assert(rest.contains(key));
            }
        }
        greatest
    }
}

/// A finite set has an increasing order.
proof fn some_order(members: Set<u64>) -> (keys: Seq<u64>)
    requires
        members.finite(),
    ensures
        is_ordered(keys, members),
    decreases members.len(),
{
    if members.len() == 0 {
        assert(members =~= Set::empty());
        Seq::empty()
    } else {
        let last = greatest_member(members);
        let rest = members.remove(last);
        let before = some_order(rest);
        let keys = before.push(last);
        assert forall|i: int, j: int| 0 <= i < j < keys.len() implies #[trigger] keys[i]
            < #[trigger] keys[j] by {
            if j == before.len() {
                assert(before.contains(before[i]));
                assert(rest.contains(before[i]));
                assert(members.contains(before[i]));
            }
        }
        assert forall|key: u64| #[trigger] members.contains(key) <==> keys.contains(key) by {
            if members.contains(key) {
                if key == last {
                    assert(keys[before.len() as int] == key);
                } else {
                    assert(rest.contains(key));
                    let i = choose|i: int| 0 <= i < before.len() && before[i] == key;
                    assert(keys[i] == key);
                }
            }
            if keys.contains(key) {
                let i = choose|i: int| 0 <= i < keys.len() && keys[i] == key;
                if i < before.len() {
                    assert(before.contains(before[i]));
                    assert(rest.contains(key));
                }
            }
        }
        keys
    }
}

/// The increasing order of a finite set holds each member, and nothing else.
pub proof fn in_order_holds(members: Set<u64>, key: u64)
    requires
        members.finite(),
    ensures
        in_order(members).contains(key) <==> members.contains(key),
        is_ordered(in_order(members), members),
{
    let keys = some_order(members);
    assert(is_ordered(keys, members));
}

} // verus!
