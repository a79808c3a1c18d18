//! Sums over the values of a finite map.

use vstd::prelude::*;

verus! {

/// The sum of `weight` over the values of a finite map.
pub open spec fn map_sum<K, V>(m: Map<K, V>, weight: spec_fn(V) -> nat) -> nat
    decreases m.dom().len(),
    when m.dom().finite()
{
    if m.dom().len() == 0 {
        0
    } else {
        let k = m.dom().choose();
        weight(m[k]) + map_sum(m.remove(k), weight)
    }
}

/// The empty map sums to zero.
pub proof fn lemma_map_sum_empty<K, V>(weight: spec_fn(V) -> nat)
    ensures
        map_sum(Map::<K, V>::empty(), weight) == 0,
{
    assert(Map::<K, V>::empty().dom() =~= Set::<K>::empty());
}

/// Any one entry can be taken out of the sum: the sum is the weight of that
/// entry plus the sum over the others.
pub proof fn lemma_map_sum_remove<K, V>(m: Map<K, V>, weight: spec_fn(V) -> nat, key: K)
    requires
        m.dom().finite(),
        m.contains_key(key),
    ensures
        map_sum(m, weight) == weight(m[key]) + map_sum(m.remove(key), weight),
    decreases m.dom().len(),
{
    let chosen = m.dom().choose();
    assert(m.dom().len() != 0);
    if chosen != key {
        let rest = m.remove(chosen);
        assert(rest.contains_key(key));
        lemma_map_sum_remove(rest, weight, key);
        let others = m.remove(key);
        assert(others.contains_key(chosen));
        lemma_map_sum_remove(others, weight, chosen);
        assert(rest.remove(key) =~= others.remove(chosen));
    }
}

/// Writing an entry replaces the weight that stood under its key, if any, by
/// the weight of the new value.
pub proof fn lemma_map_sum_insert<K, V>(m: Map<K, V>, weight: spec_fn(V) -> nat, key: K, value: V)
    requires
        m.dom().finite(),
    ensures
        m.insert(key, value).dom().finite(),
        map_sum(m.insert(key, value), weight) + (if m.contains_key(key) {
            weight(m[key])
        } else {
            0
        }) == map_sum(m, weight) + weight(value),
{
    let written = m.insert(key, value);
    lemma_map_sum_remove(written, weight, key);
    assert(written.remove(key) =~= m.remove(key));
    if m.contains_key(key) {
        lemma_map_sum_remove(m, weight, key);
    } else {
        assert(m.remove(key) =~= m);
    }
}

/// No entry weighs more than the whole sum.
pub proof fn lemma_map_sum_bounds_entry<K, V>(m: Map<K, V>, weight: spec_fn(V) -> nat, key: K)
    requires
        m.dom().finite(),
        m.contains_key(key),
    ensures
        weight(m[key]) <= map_sum(m, weight),
{
    lemma_map_sum_remove(m, weight, key);
}

} // verus!
