//! Listings: the entries of a map laid out in increasing order of their keys.
use std::collections::BTreeMap;
use vstd::prelude::*;

verus! {

/// Whether `keys` is strictly increasing.
pub open spec fn increasing(keys: Seq<u32>) -> bool {
    forall|i: int, j: int| 0 <= i < j < keys.len() ==> keys[i] < keys[j]
}

/// Whether `keys` and `values` list the map `m`: the keys are exactly those of
/// `m`, in increasing order, and each value stands at the place of its key.
pub open spec fn is_listing<V>(m: Map<u32, V>, keys: Seq<u32>, values: Seq<V>) -> bool {
    &&& increasing(keys)
    &&& keys.len() == values.len()
    &&& forall|k: u32| m.contains_key(k) <==> keys.contains(k)
    &&& forall|i: int| 0 <= i < keys.len() ==> values[i] == m[#[trigger] keys[i]]
}

/// A map has one listing only.
pub proof fn lemma_listing_unique<V>(
    m: Map<u32, V>,
    keys1: Seq<u32>,
    values1: Seq<V>,
    keys2: Seq<u32>,
    values2: Seq<V>,
)
    requires
        is_listing(m, keys1, values1),
        is_listing(m, keys2, values2),
    ensures
        keys1 == keys2,
        values1 == values2,
    decreases keys1.len(),
{
    if keys1.len() == 0 {
        if keys2.len() > 0 {
            assert(keys2.contains(keys2[0]));
            assert(m.contains_key(keys2[0]));
            assert(keys1.contains(keys2[0]));
        }
        assert(keys1 =~= keys2);
        assert(values1 =~= values2);
    } else {
        let last1 = keys1.last();
        assert(keys1.contains(last1));
        assert(keys2.contains(last1));
        let at = choose|at: int| 0 <= at < keys2.len() && keys2[at] == last1;
        if at != keys2.len() - 1 {
            let last2 = keys2.last();
            assert(keys2.contains(last2));
            assert(keys1.contains(last2));
            let back = choose|back: int| 0 <= back < keys1.len() && keys1[back] == last2;
            assert(false);
        }
        let rest = m.remove(last1);
        assert forall|k: u32| rest.contains_key(k) <==> keys1.drop_last().contains(k) by {
            if rest.contains_key(k) {
                assert(keys1.contains(k));
                let i = choose|i: int| 0 <= i < keys1.len() && keys1[i] == k;
                assert(keys1.drop_last()[i] == k);
            }
            if keys1.drop_last().contains(k) {
                let i = choose|i: int| 0 <= i < keys1.drop_last().len() && keys1.drop_last()[i] == k;
                assert(keys1[i] == k);
                assert(keys1.contains(k));
            }
        }
        assert forall|k: u32| rest.contains_key(k) <==> keys2.drop_last().contains(k) by {
            if rest.contains_key(k) {
                assert(keys2.contains(k));
                let i = choose|i: int| 0 <= i < keys2.len() && keys2[i] == k;
                assert(keys2.drop_last()[i] == k);
            }
            if keys2.drop_last().contains(k) {
                let i = choose|i: int| 0 <= i < keys2.drop_last().len() && keys2.drop_last()[i] == k;
                assert(keys2[i] == k);
                assert(keys2.contains(k));
            }
        }
        assert(is_listing(rest, keys1.drop_last(), values1.drop_last())) by {
            assert forall|i: int| 0 <= i < keys1.drop_last().len() implies values1.drop_last()[i]
                == rest[#[trigger] keys1.drop_last()[i]] by {
                assert(values1[i] == m[keys1[i]]);
            }
        }
        assert(is_listing(rest, keys2.drop_last(), values2.drop_last())) by {
            assert forall|i: int| 0 <= i < keys2.drop_last().len() implies values2.drop_last()[i]
                == rest[#[trigger] keys2.drop_last()[i]] by {
                assert(values2[i] == m[keys2[i]]);
            }
        }
        lemma_listing_unique(
            rest,
            keys1.drop_last(),
            values1.drop_last(),
            keys2.drop_last(),
            values2.drop_last(),
        );
        assert(values1.last() == m[keys1[keys1.len() - 1]]);
        assert(values2.last() == m[keys2[keys2.len() - 1]]);
        assert(keys1 =~= keys1.drop_last().push(keys1.last()));
        assert(keys2 =~= keys2.drop_last().push(keys2.last()));
        assert(values1 =~= values1.drop_last().push(values1.last()));
        assert(values2 =~= values2.drop_last().push(values2.last()));
    }
}

/// Puts `value` under `key` into a listing, at the place that keeps the keys
/// in increasing order.
pub fn insert_listed<V>(keys: &mut Vec<u32>, values: &mut Vec<V>, key: u32, value: V)
    requires
        increasing(old(keys)@),
        old(keys)@.len() == old(values)@.len(),
        !old(keys)@.contains(key),
    ensures
        increasing(final(keys)@),
        final(keys)@.len() == final(values)@.len(),
        exists|at: int|
            0 <= at <= old(keys)@.len() && final(keys)@ == old(keys)@.insert(at, key)
                && final(values)@ == old(values)@.insert(at, value),
{
    let mut at: usize = 0;
    while at < keys.len() && keys[at] < key
        invariant
            at <= keys.len(),
            *keys == *old(keys),
            *values == *old(values),
            forall|i: int| 0 <= i < at ==> keys@[i] < key,
        decreases keys.len() - at,
    {
        at = at + 1;
    }
    assert(at < keys.len() ==> keys@[at as int] > key) by {
        if at < keys.len() && keys@[at as int] == key {
            assert(keys@.contains(key));
        }
    }
    keys.insert(at, key);
    values.insert(at, value);
    assert(keys@ == old(keys)@.insert(at as int, key));
}

/// Whether `keys` holds the keys of `m`, each once, in increasing order.
pub open spec fn is_key_listing<V>(m: Map<u32, V>, keys: Seq<u32>) -> bool {
    &&& increasing(keys)
    &&& forall|k: u32| m.contains_key(k) <==> keys.contains(k)
}

/// The keys of `m` in increasing order.
pub fn listed_keys<V>(m: &BTreeMap<u32, V>) -> (keys: Vec<u32>)
    ensures
        is_key_listing(m@, keys@),
{
    let mut keys: Vec<u32> = Vec::new();
    let mut units: Vec<()> = Vec::new();
    for kv in it: m.iter()
        invariant
            it.seq().no_duplicates(),
            forall|i: int| 0 <= i < it.seq().len() ==> m@.contains_key(*(#[trigger] it.seq()[i]).0)
                && m@[*it.seq()[i].0] == *it.seq()[i].1,
            forall|k: u32| #[trigger] m@.contains_key(k) ==> it.seq().contains((&k, &m@[k])),
            increasing(keys@),
            keys@.len() == units@.len(),
            forall|i: int| 0 <= i < it.index() ==> keys@.contains(*(#[trigger] it.seq()[i]).0),
            forall|k: u32| #[trigger] keys@.contains(k) ==> exists|i: int| 0 <= i < it.index() && *(#[trigger] it.seq()[i]).0 == k,
    {
        let (key, _) = kv;
        let ghost before = keys@;
        assert(!keys@.contains(*key)) by {
            if keys@.contains(*key) {
                let i = choose|i: int| 0 <= i < it.index() && *(#[trigger] it.seq()[i]).0 == *key;
                assert(it.seq()[i] == it.seq()[it.index() as int]);
            }
        }
        insert_listed(&mut keys, &mut units, *key, ());
        proof {
            let at = choose|at: int| 0 <= at <= before.len() && keys@ == before.insert(at, *key);
            assert(keys@[at] == *key);
            assert forall|k: u32| before.contains(k) implies keys@.contains(k) by {
                let i = choose|i: int| 0 <= i < before.len() && before[i] == k;
                if i < at {
                    assert(keys@[i] == k);
                } else {
                    assert(keys@[i + 1] == k);
                }
            }
            assert forall|k: u32| #[trigger] keys@.contains(k) implies k == *key || before.contains(k) by {
                let i = choose|i: int| 0 <= i < keys@.len() && keys@[i] == k;
                if i < at {
                    assert(before[i] == k);
                } else if i > at {
                    assert(before[i - 1] == k);
                }
            }
        }
    }
    assert forall|k: u32| m@.contains_key(k) implies keys@.contains(k) by {
        assert(m@.contains_key(k));
    }
    keys
}

} // verus!
