//! Finding a row by a text key.
//!
//! A table is searched from its first row on, so of several rows with one
//! key the first is the one found.

use vstd::prelude::*;

verus! {

/// No entry of `keys` is `key`.
pub open spec fn absent(keys: Seq<Seq<char>>, key: Seq<char>) -> bool {
    forall|j: int| 0 <= j < keys.len() ==> #[trigger] keys[j] != key
}

/// `i` is the first place at which `keys` holds `key`.
pub open spec fn found_at(keys: Seq<Seq<char>>, key: Seq<char>, i: int) -> bool {
    &&& 0 <= i < keys.len()
    &&& keys[i] == key
    &&& forall|j: int| 0 <= j < i ==> #[trigger] keys[j] != key
}

/// The first place at which `keys` holds `key`, if there is one.
pub open spec fn position(keys: Seq<Seq<char>>, key: Seq<char>) -> Option<int> {
    if absent(keys, key) {
        None
    } else {
        Some(choose|i: int| found_at(keys, key, i))
    }
}

/// No two entries of `keys` are equal.
pub open spec fn distinct(keys: Seq<Seq<char>>) -> bool {
    forall|i: int, j: int|
        0 <= i < keys.len() && 0 <= j < keys.len() && i != j ==> #[trigger] keys[i]
            != #[trigger] keys[j]
}

/// Where `key` occurs at `k`, it has a first place, at `k` or before.
pub proof fn lemma_first_place_exists(keys: Seq<Seq<char>>, key: Seq<char>, k: int)
    requires
        0 <= k < keys.len(),
        keys[k] == key,
    ensures
        exists|i: int| 0 <= i <= k && found_at(keys, key, i),
    decreases k,
{
    if forall|j: int| 0 <= j < k ==> #[trigger] keys[j] != key {
        assert(found_at(keys, key, k));
    } else {
        let j = choose|j: int| 0 <= j < k && #[trigger] keys[j] == key;
        lemma_first_place_exists(keys, key, j);
    }
}

/// The first place of a key is its position.
pub proof fn lemma_found_is_position(keys: Seq<Seq<char>>, key: Seq<char>, i: int)
    requires
        found_at(keys, key, i),
    ensures
        position(keys, key) == Some(i),
{
    let c = choose|c: int| found_at(keys, key, c);
    assert(found_at(keys, key, c));
    if c < i {
        assert(keys[c] != key);
    }
    if i < c {
        assert(keys[i] != key);
    }
}

/// A position, where there is one, is the first place of the key.
pub proof fn lemma_position_is_found(keys: Seq<Seq<char>>, key: Seq<char>)
    requires
        position(keys, key) is Some,
    ensures
        found_at(keys, key, position(keys, key)->0),
{
    let k = choose|k: int| 0 <= k < keys.len() && keys[k] == key;
    lemma_first_place_exists(keys, key, k);
}

/// Among distinct keys, every place of a key is its position.
pub proof fn lemma_distinct_position(keys: Seq<Seq<char>>, i: int)
    requires
        distinct(keys),
        0 <= i < keys.len(),
    ensures
        position(keys, keys[i]) == Some(i),
{
    assert(found_at(keys, keys[i], i));
    lemma_found_is_position(keys, keys[i], i);
}

/// A key that was absent is found, once appended, at the new last place.
pub proof fn lemma_position_of_appended(keys: Seq<Seq<char>>, key: Seq<char>)
    requires
        position(keys, key) is None,
    ensures
        position(keys.push(key), key) == Some(keys.len() as int),
{
    let longer = keys.push(key);
    assert forall|j: int| 0 <= j < keys.len() implies #[trigger] longer[j] != key by {
        assert(longer[j] == keys[j]);
    }
    assert(found_at(longer, key, keys.len() as int));
    lemma_found_is_position(longer, key, keys.len() as int);
}

/// Appending one key does not move the position of another.
pub proof fn lemma_position_after_append(keys: Seq<Seq<char>>, added: Seq<char>, key: Seq<char>)
    requires
        added != key,
    ensures
        position(keys.push(added), key) == position(keys, key),
{
    let longer = keys.push(added);
    if absent(keys, key) {
        assert forall|j: int| 0 <= j < longer.len() implies #[trigger] longer[j] != key by {
            if j < keys.len() {
                assert(longer[j] == keys[j]);
            }
        }
    } else {
        lemma_position_is_found(keys, key);
        let i = position(keys, key)->0;
        assert forall|j: int| 0 <= j < i implies #[trigger] longer[j] != key by {
            assert(longer[j] == keys[j]);
        }
        assert(longer[i] == keys[i]);
        assert(found_at(longer, key, i));
        lemma_found_is_position(longer, key, i);
    }
}

/// Distinct keys stay distinct when a key that was absent is appended.
pub proof fn lemma_distinct_after_append(keys: Seq<Seq<char>>, key: Seq<char>)
    requires
        distinct(keys),
        position(keys, key) is None,
    ensures
        distinct(keys.push(key)),
{
    let longer = keys.push(key);
    assert forall|i: int, j: int|
        0 <= i < longer.len() && 0 <= j < longer.len() && i != j implies #[trigger] longer[i]
        != #[trigger] longer[j] by {
        if i < keys.len() {
            assert(longer[i] == keys[i]);
        }
        if j < keys.len() {
            assert(longer[j] == keys[j]);
        }
    }
}

} // verus!
