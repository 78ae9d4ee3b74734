//! Walking ordered maps.

use std::collections::BTreeMap;

use vstd::prelude::*;

verus! {

broadcast use {vstd::std_specs::btree::group_btree_axioms, vstd::laws_cmp::group_laws_cmp};

/// Whether the order of `K` is the one that its specification states.
pub open spec fn is_ordered<K: Ord>() -> bool {
    vstd::laws_cmp::obeys_cmp::<K>()
}

/// Whether `keys` names every key of `map` once.
pub open spec fn lists_keys<K, V>(keys: Seq<K>, map: Map<K, V>) -> bool {
    &&& keys.no_duplicates()
    &&& forall|k: K| #![trigger map.contains_key(k)] #![trigger keys.contains(k)]
        map.contains_key(k) <==> keys.contains(k)
}

/// Whether `values` holds every value of `map` once, each under its own key.
pub open spec fn lists_values<K, V>(values: Seq<V>, map: Map<K, V>) -> bool {
    exists|keys: Seq<K>|
        {
            &&& #[trigger] lists_keys(keys, map)
            &&& values.len() == keys.len()
            &&& forall|i: int| 0 <= i < values.len() ==> #[trigger] values[i] == map[keys[i]]
        }
}

/// Lists the keys of `map`.
pub fn keys_of<K: Copy + Ord, V>(map: &BTreeMap<K, V>) -> (keys: Vec<K>)
    requires
        is_ordered::<K>(),
    ensures
        lists_keys(keys@, map@),
        map@.dom().finite(),
{
    let mut keys: Vec<K> = Vec::new();
    for key in iter: map.keys()
        invariant
            keys@.len() == iter.index(),
            iter.seq().unref().to_set() == map@.dom(),
            iter.seq().no_duplicates(),
            iter.index() == iter.seq().len() ==> keys@ =~= iter.seq().unref(),
            forall|i: int| 0 <= i < keys@.len() ==> keys@[i] == *iter.seq()[i],
    {
        keys.push(*key);
    }
    proof {
        assert forall|k: K| map@.contains_key(k) <==> keys@.contains(k) by {
            assert(keys@.to_set().contains(k) <==> keys@.contains(k));
        }
    }
    keys
}

/// Takes every value out of `map`.
pub fn drain_values<K: Copy + Ord, V>(map: &mut BTreeMap<K, V>) -> (values: Vec<V>)
    requires
        is_ordered::<K>(),
    ensures
        final(map)@ == Map::<K, V>::empty(),
        lists_values(values@, old(map)@),
{
    let ghost before = map@;
    let keys = keys_of(map);
    let mut values: Vec<V> = Vec::new();
    let mut i: usize = 0;
    while i < keys.len()
        invariant
            i <= keys@.len(),
            is_ordered::<K>(),
            lists_keys(keys@, before),
            values@.len() == i,
            forall|k: int| 0 <= k < i ==> #[trigger] values@[k] == before[keys@[k]],
            forall|k: K| #[trigger]
                map@.contains_key(k) <==> before.contains_key(k) && !keys@.take(i as int).contains(
                    k,
                ),
            forall|k: K| #[trigger] map@.contains_key(k) ==> map@[k] == before[k],
        decreases keys@.len() - i,
    {
        let ghost now = map@;
        proof {
            assert(keys@.contains(keys@[i as int]));
            assert(before.contains_key(keys@[i as int]));
            assert(!keys@.take(i as int).contains(keys@[i as int])) by {
                if keys@.take(i as int).contains(keys@[i as int]) {
                    let j = choose|j: int|
                        0 <= j < i && keys@.take(i as int)[j] == keys@[i as int];
                    assert(keys@[j] == keys@[i as int]);
                }
            }
            assert(now.contains_key(keys@[i as int]));
        }
        match map.remove(&keys[i]) {
            Some(value) => {
                values.push(value);
            },
            None => {
                proof {
                    assert(false);
                }
            },
        }
        proof {
            let longer = keys@.take(i + 1);
            let shorter = keys@.take(i as int);
            assert(longer =~= shorter.push(keys@[i as int]));
            assert forall|k: K| #[trigger]
                map@.contains_key(k) <==> before.contains_key(k) && !longer.contains(k) by {
                assert(now.contains_key(k) <==> before.contains_key(k) && !shorter.contains(k));
                if longer.contains(k) {
                    let j = choose|j: int| 0 <= j < longer.len() && longer[j] == k;
                    if j < i {
                        assert(shorter[j] == k);
                    }
                }
                if shorter.contains(k) {
                    let j = choose|j: int| 0 <= j < shorter.len() && shorter[j] == k;
                    assert(longer[j] == k);
                }
                assert(longer[i as int] == keys@[i as int]);
            }
        }
        i = i + 1;
    }
    proof {
        assert(keys@.take(i as int) =~= keys@);
        assert forall|k: K| !map@.contains_key(k) by {
            if before.contains_key(k) {
                assert(keys@.contains(k));
            }
        }
        assert(map@ =~= Map::<K, V>::empty());
    }
    values
}

/// The listed keys of a map are its keys, each once, and the listed values are its
/// values, one for each key.
pub proof fn law_lists_are_complete<K, V>(keys: Seq<K>, values: Seq<V>, map: Map<K, V>)
    requires
        lists_keys(keys, map),
        lists_values(values, map),
    ensures
        keys.no_duplicates(),
        keys.to_set() == map.dom(),
        values.len() == keys.len(),
        forall|v: V| #[trigger] values.contains(v) <==> map.values().contains(v),
{
    assert(keys.to_set() =~= map.dom()) by {
        assert forall|k: K| keys.to_set().contains(k) <==> map.dom().contains(k) by {
            assert(map.contains_key(k) <==> keys.contains(k));
        }
    }
    let others = choose|others: Seq<K>|
        {
            &&& #[trigger] lists_keys(others, map)
            &&& values.len() == others.len()
            &&& forall|i: int| 0 <= i < values.len() ==> #[trigger] values[i] == map[others[i]]
        };
    assert(others.to_set() =~= map.dom()) by {
        assert forall|k: K| others.to_set().contains(k) <==> map.dom().contains(k) by {
            assert(map.contains_key(k) <==> others.contains(k));
        }
    }
    keys.unique_seq_to_set();
    others.unique_seq_to_set();
    assert forall|v: V| #[trigger] values.contains(v) <==> map.values().contains(v) by {
        if values.contains(v) {
            let i = choose|i: int| 0 <= i < values.len() && values[i] == v;
            assert(others.contains(others[i]));
            assert(map.contains_key(others[i]) && map[others[i]] == v);
        }
        if map.values().contains(v) {
            let k = choose|k: K| #[trigger] map.contains_key(k) && map[k] == v;
            assert(others.contains(k));
            let i = choose|i: int| 0 <= i < others.len() && others[i] == k;
            assert(values[i] == v);
        }
    }
}

} // verus!
