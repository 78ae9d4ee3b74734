//! Sums over everything that a map holds.

use vstd::prelude::*;

verus! {

/// Sum of `weight` over the values of `map`.
pub open spec fn total<K, V>(map: Map<K, V>, weight: spec_fn(V) -> nat) -> nat
    decreases map.dom().len(),
{
    if map.dom().finite() && map.dom().len() > 0 {
        let key = map.dom().choose();
        weight(map[key]) + total(map.remove(key), weight)
    } else {
        0
    }
}

/// Sum of `weight` over the values that `keys` name in `map`.
pub open spec fn listed_total<K, V>(
    map: Map<K, V>,
    keys: Seq<K>,
    weight: spec_fn(V) -> nat,
) -> nat
    decreases keys.len(),
{
    if keys.len() == 0 {
        0
    } else {
        listed_total(map, keys.drop_last(), weight) + weight(map[keys.last()])
    }
}

/// Taking one value out of a map takes its weight out of the total.
pub proof fn lemma_total_remove<K, V>(map: Map<K, V>, key: K, weight: spec_fn(V) -> nat)
    requires
        map.dom().finite(),
        map.contains_key(key),
    ensures
        total(map, weight) == weight(map[key]) + total(map.remove(key), weight),
    decreases map.dom().len(),
{
    let first = map.dom().choose();
    assert(map.dom().contains(key));
    assert(map.dom().len() > 0);
    assert(map.dom().contains(first));
    if first != key {
        lemma_total_remove(map.remove(first), key, weight);
        lemma_total_remove(map.remove(key), first, weight);
        assert(map.remove(first).remove(key) =~= map.remove(key).remove(first));
    }
}

/// Storing a value under a fresh key adds its weight to the total.
pub proof fn lemma_total_insert<K, V>(
    map: Map<K, V>,
    key: K,
    value: V,
    weight: spec_fn(V) -> nat,
)
    requires
        map.dom().finite(),
        !map.contains_key(key),
    ensures
        total(map.insert(key, value), weight) == total(map, weight) + weight(value),
{
    let grown = map.insert(key, value);
    lemma_total_remove(grown, key, weight);
    assert(grown.remove(key) =~= map);
}

/// Replacing a value exchanges its weight in the total.
pub proof fn lemma_total_replace<K, V>(
    map: Map<K, V>,
    key: K,
    value: V,
    weight: spec_fn(V) -> nat,
)
    requires
        map.dom().finite(),
        map.contains_key(key),
    ensures
        total(map.insert(key, value), weight) + weight(map[key]) == total(map, weight) + weight(
            value,
        ),
{
    let changed = map.insert(key, value);
    lemma_total_remove(map, key, weight);
    lemma_total_remove(changed, key, weight);
    assert(changed.remove(key) =~= map.remove(key));
}

/// A list that names every key once adds up to the total.
pub proof fn lemma_total_listed<K, V>(map: Map<K, V>, keys: Seq<K>, weight: spec_fn(V) -> nat)
    requires
        map.dom().finite(),
        keys.no_duplicates(),
        forall|k: K| map.contains_key(k) <==> keys.contains(k),
    ensures
        total(map, weight) == listed_total(map, keys, weight),
    decreases keys.len(),
{
    if keys.len() == 0 {
        assert forall|k: K| !map.contains_key(k) by {
            assert(!keys.contains(k));
        }
        assert(map.dom() =~= Set::<K>::empty());
    } else {
        let key = keys.last();
        let rest = keys.drop_last();
        assert(keys.contains(key));
        lemma_total_remove(map, key, weight);
        let smaller = map.remove(key);
        assert forall|k: K| smaller.contains_key(k) <==> rest.contains(k) by {
            if rest.contains(k) {
                let i = choose|i: int| 0 <= i < rest.len() && rest[i] == k;
                assert(keys[i] == k);
                assert(keys.contains(k));
            }
            if smaller.contains_key(k) {
                assert(keys.contains(k));
                let i = choose|i: int| 0 <= i < keys.len() && keys[i] == k;
                assert(rest[i] == k);
            }
        }
        lemma_total_listed(smaller, rest, weight);
        lemma_listed_same(map, smaller, rest, weight);
    }
}

/// Listed totals depend only on the listed values.
pub proof fn lemma_listed_same<K, V>(
    a: Map<K, V>,
    b: Map<K, V>,
    keys: Seq<K>,
    weight: spec_fn(V) -> nat,
)
    requires
        forall|i: int| 0 <= i < keys.len() ==> a[#[trigger] keys[i]] == b[keys[i]],
    ensures
        listed_total(a, keys, weight) == listed_total(b, keys, weight),
    decreases keys.len(),
{
    if keys.len() > 0 {
        assert(a[keys[keys.len() - 1]] == b[keys[keys.len() - 1]]);
        assert forall|i: int| 0 <= i < keys.drop_last().len() implies a[#[trigger] keys.drop_last()[i]]
            == b[keys.drop_last()[i]] by {
            assert(a[keys[i]] == b[keys[i]]);
        }
        lemma_listed_same(a, b, keys.drop_last(), weight);
    }
}

/// Weights that agree on everything stored give the same total.
pub proof fn lemma_total_agree<K, V>(
    map: Map<K, V>,
    one: spec_fn(V) -> nat,
    other: spec_fn(V) -> nat,
)
    requires
        map.dom().finite(),
        forall|k: K| #[trigger] map.contains_key(k) ==> one(map[k]) == other(map[k]),
    ensures
        total(map, one) == total(map, other),
    decreases map.dom().len(),
{
    if map.dom().len() > 0 {
        let key = map.dom().choose();
        assert(map.contains_key(key));
        assert forall|k: K| #[trigger] map.remove(key).contains_key(k) implies one(
            map.remove(key)[k],
        ) == other(map.remove(key)[k]) by {
            assert(map.contains_key(k));
        }
        lemma_total_agree(map.remove(key), one, other);
    }
}

/// The listed total of a longer list is no smaller.
pub proof fn lemma_listed_prefix<K, V>(
    map: Map<K, V>,
    keys: Seq<K>,
    n: int,
    weight: spec_fn(V) -> nat,
)
    requires
        0 <= n <= keys.len(),
    ensures
        listed_total(map, keys.take(n), weight) <= listed_total(map, keys, weight),
    decreases keys.len(),
{
    if n < keys.len() {
        assert(keys.drop_last().take(n) =~= keys.take(n));
        lemma_listed_prefix(map, keys.drop_last(), n, weight);
    } else {
        assert(keys.take(n) =~= keys);
    }
}

/// One more key adds the weight of its value.
pub proof fn lemma_listed_step<K, V>(
    map: Map<K, V>,
    keys: Seq<K>,
    n: int,
    weight: spec_fn(V) -> nat,
)
    requires
        0 <= n < keys.len(),
    ensures
        listed_total(map, keys.take(n + 1), weight) == listed_total(map, keys.take(n), weight)
            + weight(map[keys[n]]),
{
    assert(keys.take(n + 1).drop_last() =~= keys.take(n));
}

/// A weight that never exceeds another gives a total that never exceeds it.
pub proof fn lemma_total_le<K, V>(
    map: Map<K, V>,
    small: spec_fn(V) -> nat,
    large: spec_fn(V) -> nat,
)
    requires
        map.dom().finite(),
        forall|v: V| #[trigger] small(v) <= large(v),
    ensures
        total(map, small) <= total(map, large),
    decreases map.dom().len(),
{
    if map.dom().len() > 0 {
        let key = map.dom().choose();
        assert(small(map[key]) <= large(map[key]));
        lemma_total_le(map.remove(key), small, large);
    }
}

/// A sum of ones and zeroes counts the values that weigh one.
pub proof fn lemma_total_counts<K, V>(
    map: Map<K, V>,
    weight: spec_fn(V) -> nat,
    counted: spec_fn(K) -> bool,
)
    requires
        map.dom().finite(),
        forall|k: K| #[trigger]
            map.dom().contains(k) ==> weight(map[k]) == if counted(k) {
                1nat
            } else {
                0nat
            },
    ensures
        total(map, weight) == map.dom().filter(counted).len(),
    decreases map.dom().len(),
{
    let all = map.dom().filter(counted);
    if map.dom().len() > 0 {
        let key = map.dom().choose();
        let rest = map.remove(key);
        assert forall|k: K| #[trigger] rest.dom().contains(k) implies weight(rest[k]) == if counted(
            k,
        ) {
            1nat
        } else {
            0nat
        } by {
            assert(map.dom().contains(k));
        }
        lemma_total_counts(rest, weight, counted);
        let others = rest.dom().filter(counted);
        map.dom().lemma_len_filter(counted);
        rest.dom().lemma_len_filter(counted);
        assert(map.dom().contains(key));
        if counted(key) {
            assert(all =~= others.insert(key));
        } else {
            assert(all =~= others);
        }
    } else {
        assert(all =~= Set::empty());
    }
}

} // verus!
