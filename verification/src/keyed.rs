use vstd::prelude::*;

verus! {

/// The map that a list of distinct keys and a list of values of the same
/// length stand for: each key is mapped to the value at its own position.
pub open spec fn key_map<K, V>(keys: Seq<K>, values: Seq<V>) -> Map<K, V> {
    Map::new(|k: K| keys.contains(k), |k: K| values[keys.index_of(k)])
}

/// A key is found at no position but its own.
pub proof fn lemma_index_of<K>(keys: Seq<K>, i: int)
    requires
        keys.no_duplicates(),
        0 <= i < keys.len(),
    ensures
        keys.contains(keys[i]),
        keys.index_of(keys[i]) == i,
{
    let j = keys.index_of(keys[i]);
    assert(0 <= j < keys.len() && keys[j] == keys[i]);
}

/// The key at position `i` is mapped to the value at position `i`.
pub proof fn lemma_key_map_at<K, V>(keys: Seq<K>, values: Seq<V>, i: int)
    requires
        keys.no_duplicates(),
        0 <= i < keys.len(),
    ensures
        key_map(keys, values).dom().contains(keys[i]),
        key_map(keys, values)[keys[i]] == values[i],
{
    lemma_index_of(keys, i);
}

/// A key that is not listed is not mapped.
pub proof fn lemma_key_map_absent<K, V>(keys: Seq<K>, values: Seq<V>, key: K)
    requires
        !keys.contains(key),
    ensures
        !key_map(keys, values).dom().contains(key),
{
}

/// Appending a fresh key with its value inserts the pair into the map.
pub proof fn lemma_key_map_push<K, V>(keys: Seq<K>, values: Seq<V>, key: K, value: V)
    requires
        keys.no_duplicates(),
        keys.len() == values.len(),
        !keys.contains(key),
    ensures
        keys.push(key).no_duplicates(),
        key_map(keys.push(key), values.push(value)) == key_map(keys, values).insert(key, value),
{
    let keys2 = keys.push(key);
    let values2 = values.push(value);
    assert(keys2.no_duplicates()) by {
        assert forall|i: int, j: int|
            0 <= i < keys2.len() && 0 <= j < keys2.len() && i != j implies keys2[i] != keys2[j] by {
            if i < keys.len() && j < keys.len() {
                assert(keys[i] != keys[j]);
            } else if i < keys.len() {
                assert(keys[i] == keys2[i]);
            } else {
                assert(keys[j] == keys2[j]);
            }
        }
    }
    assert forall|k: K| keys2.contains(k) <==> (k == key || keys.contains(k)) by {
        if keys.contains(k) {
            let i = keys.index_of(k);
            assert(keys2[i] == k);
        }
        if k == key {
            assert(keys2[keys.len() as int] == k);
        }
        if keys2.contains(k) {
            let i = keys2.index_of(k);
            if i < keys.len() {
                assert(keys[i] == k);
            }
        }
    }
    assert forall|k: K| keys2.contains(k) implies #[trigger] key_map(keys2, values2)[k]
        == key_map(keys, values).insert(key, value)[k] by {
        let i = keys2.index_of(k);
        lemma_index_of(keys2, i);
        if i < keys.len() {
            assert(keys[i] == k);
            lemma_index_of(keys, i);
        }
    }
    assert(key_map(keys2, values2) =~= key_map(keys, values).insert(key, value));
}

/// Replacing the value at position `i` maps the key at that position to the
/// new value and leaves the rest of the map as it was.
pub proof fn lemma_key_map_update<K, V>(keys: Seq<K>, values: Seq<V>, i: int, value: V)
    requires
        keys.no_duplicates(),
        keys.len() == values.len(),
        0 <= i < keys.len(),
    ensures
        key_map(keys, values.update(i, value)) == key_map(keys, values).insert(keys[i], value),
{
    lemma_index_of(keys, i);
    assert forall|k: K| keys.contains(k) implies #[trigger] key_map(keys, values.update(i, value))[k]
        == key_map(keys, values).insert(keys[i], value)[k] by {
        let j = keys.index_of(k);
        lemma_index_of(keys, j);
    }
    assert(key_map(keys, values.update(i, value)) =~= key_map(keys, values).insert(
        keys[i],
        value,
    ));
}

} // verus!
