//! The values of the items of a sequence, how they follow the sequence's changes, and the
//! first place at which a key stands in a sequence of keys.

use vstd::prelude::*;

verus! {

/// The values of the items of a sequence, in order.
pub open spec fn views<T: View>(items: Seq<T>) -> Seq<T::V> {
    items.map_values(|item: T| item@)
}

/// The value of what may be absent.
pub open spec fn optional<T: View>(item: Option<T>) -> Option<T::V> {
    match item {
        Some(item) => Some(item@),
        None => None,
    }
}

/// The value of what an operation gave, or the error it gave.
pub open spec fn outcome<T: View, E>(result: Result<T, E>) -> Result<T::V, E> {
    match result {
        Ok(value) => Ok(value@),
        Err(error) => Err(error),
    }
}

/// Appending an item appends its value.
pub proof fn lemma_views_push<T: View>(items: Seq<T>, item: T)
    ensures
        views(items.push(item)) == views(items).push(item@),
{
    assert(views(items.push(item)) =~= views(items).push(item@));
}

/// Replacing an item replaces its value.
pub proof fn lemma_views_update<T: View>(items: Seq<T>, i: int, item: T)
    requires
        0 <= i < items.len(),
    ensures
        views(items.update(i, item)) == views(items).update(i, item@),
{
    assert(views(items.update(i, item)) =~= views(items).update(i, item@));
}

/// Removing an item removes its value.
pub proof fn lemma_views_remove<T: View>(items: Seq<T>, i: int)
    requires
        0 <= i < items.len(),
    ensures
        views(items.remove(i)) == views(items).remove(i),
{
    assert(views(items.remove(i)) =~= views(items).remove(i));
}

/// `key` stands at place `i` of `keys` and at no earlier place.
pub open spec fn is_first_at<K>(keys: Seq<K>, key: K, i: int) -> bool {
    &&& 0 <= i < keys.len()
    &&& keys[i] == key
    &&& forall|j: int| 0 <= j < i ==> keys[j] != key
}

/// The first place at which `key` stands in `keys`, or `None` where it stands nowhere.
pub open spec fn first_position<K>(keys: Seq<K>, key: K) -> Option<int> {
    if keys.contains(key) {
        Some(choose|i: int| is_first_at(keys, key, i))
    } else {
        None
    }
}

/// A key that stands at place `n` has a first place.
proof fn lemma_has_first<K>(keys: Seq<K>, key: K, n: int)
    requires
        0 <= n < keys.len(),
        keys[n] == key,
    ensures
        exists|i: int| is_first_at(keys, key, i),
    decreases n,
{
    if exists|j: int| 0 <= j < n && keys[j] == key {
        let j = choose|j: int| 0 <= j < n && keys[j] == key;
        lemma_has_first(keys, key, j);
    } else {
        assert(is_first_at(keys, key, n));
    }
}

/// What [`first_position`] gives is the first place of the key, and it gives `None` only
/// where the key stands nowhere.
pub proof fn lemma_first_position<K>(keys: Seq<K>, key: K)
    ensures
        match first_position(keys, key) {
            Some(i) => is_first_at(keys, key, i),
            None => forall|j: int| 0 <= j < keys.len() ==> keys[j] != key,
        },
{
    if keys.contains(key) {
        let n = choose|n: int| 0 <= n < keys.len() && keys[n] == key;
        lemma_has_first(keys, key, n);
    }
}

/// A key has one first place at most.
pub proof fn lemma_first_is_unique<K>(keys: Seq<K>, key: K, i: int)
    requires
        is_first_at(keys, key, i),
    ensures
        first_position(keys, key) == Some(i),
{
    lemma_first_position(keys, key);
    assert(keys.contains(key));
    let k = first_position(keys, key)->Some_0;
    if k < i {
        assert(keys[k] != key);
    } else if i < k {
        assert(keys[i] != key);
    }
}

/// A key that stands nowhere has no first place.
pub proof fn lemma_first_is_absent<K>(keys: Seq<K>, key: K)
    requires
        forall|j: int| 0 <= j < keys.len() ==> keys[j] != key,
    ensures
        first_position(keys, key) is None,
{
}

} // verus!
