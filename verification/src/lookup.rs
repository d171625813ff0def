//! Finding the first entry of a list that has a given key.

use vstd::prelude::*;

verus! {

/// Whether `i` is the first place of `list` that holds `key`.
pub open spec fn is_first_at<A>(list: Seq<A>, key: A, i: int) -> bool {
    &&& 0 <= i < list.len()
    &&& list[i] == key
    &&& forall|j: int| 0 <= j < i ==> list[j] != key
}

/// The first place of `list` that holds `key`, if there is one.
pub open spec fn first_position<A>(list: Seq<A>, key: A) -> Option<int> {
    if exists|i: int| is_first_at(list, key, i) {
        Some(choose|i: int| is_first_at(list, key, i))
    } else {
        None
    }
}

/// The first place that holds a key is where `first_position` points.
pub proof fn lemma_first_position_found<A>(list: Seq<A>, key: A, i: int)
    requires
        is_first_at(list, key, i),
    ensures
        first_position(list, key) == Some(i),
{
    let chosen = choose|k: int| is_first_at(list, key, k);
    assert(is_first_at(list, key, chosen));
    if chosen < i {
        assert(list[chosen] != key);
    }
    if i < chosen {
        assert(list[i] != key);
    }
}

/// A key that no place holds has no first position.
pub proof fn lemma_first_position_absent<A>(list: Seq<A>, key: A)
    requires
        forall|j: int| 0 <= j < list.len() ==> list[j] != key,
    ensures
        first_position(list, key) is None,
{
}

/// A key that some place holds has a first position, at or before that place.
pub proof fn lemma_first_position_exists<A>(list: Seq<A>, key: A, i: int)
    requires
        0 <= i < list.len(),
        list[i] == key,
    ensures
        first_position(list, key) is Some,
        is_first_at(list, key, first_position(list, key)->0),
        first_position(list, key)->0 <= i,
    decreases i,
{
    if exists|j: int| 0 <= j < i && list[j] == key {
        let j = choose|j: int| 0 <= j < i && list[j] == key;
        lemma_first_position_exists(list, key, j);
    } else {
        assert(is_first_at(list, key, i));
        lemma_first_position_found(list, key, i);
    }
}

/// What `first_position` says of the list, whichever way it answers.
pub proof fn lemma_first_position<A>(list: Seq<A>, key: A)
    ensures
        match first_position(list, key) {
            Some(i) => is_first_at(list, key, i),
            None => forall|j: int| 0 <= j < list.len() ==> list[j] != key,
        },
{
    if first_position(list, key) is None {
        assert forall|j: int| 0 <= j < list.len() implies list[j] != key by {
            if list[j] == key {
                lemma_first_position_exists(list, key, j);
            }
        }
    }
}

/// The place as an index of a vector.
pub open spec fn as_position(index: Option<usize>) -> Option<int> {
    match index {
        Some(i) => Some(i as int),
        None => None,
    }
}

} // verus!
