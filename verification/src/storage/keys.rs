//! Keys of a relation: where a key stands among the rows, and what it means
//! that no key stands twice.

use vstd::prelude::*;

verus! {

/// The first position at which `key` stands in `keys`, if it stands there at
/// all.
pub open spec fn key_index(keys: Seq<Seq<char>>, key: Seq<char>) -> Option<int>
    decreases keys.len(),
{
    if keys.len() == 0 {
        None
    } else {
        match key_index(keys.drop_last(), key) {
            Some(i) => Some(i),
            None => if keys.last() == key {
                Some(keys.len() - 1)
            } else {
                None
            },
        }
    }
}

/// Whether no key stands twice in `keys`.
pub open spec fn distinct(keys: Seq<Seq<char>>) -> bool {
    forall|i: int, j: int| 0 <= i < j < keys.len() ==> keys[i] != keys[j]
}

/// `key_index` gives a position of `key` before which `key` does not stand, or
/// nothing when `key` stands nowhere.
pub proof fn lemma_key_index(keys: Seq<Seq<char>>, key: Seq<char>)
    ensures
        match key_index(keys, key) {
            Some(i) => 0 <= i < keys.len() && keys[i] == key && forall|j: int|
                0 <= j < i ==> keys[j] != key,
            None => forall|j: int| 0 <= j < keys.len() ==> keys[j] != key,
        },
    decreases keys.len(),
{
    if keys.len() > 0 {
        let front = keys.drop_last();
        lemma_key_index(front, key);
        assert(forall|j: int| 0 <= j < front.len() ==> front[j] == keys[j]);
    }
}

/// A position of `key` before which `key` does not stand is the one that
/// `key_index` gives.
pub proof fn lemma_key_index_found(keys: Seq<Seq<char>>, key: Seq<char>, i: int)
    requires
        0 <= i < keys.len(),
        keys[i] == key,
        forall|j: int| 0 <= j < i ==> keys[j] != key,
    ensures
        key_index(keys, key) == Some(i),
    decreases keys.len(),
{
    lemma_key_index(keys.drop_last(), key);
    if i < keys.len() - 1 {
        lemma_key_index_found(keys.drop_last(), key, i);
    }
}

/// A key that stands nowhere has no position.
pub proof fn lemma_key_index_absent(keys: Seq<Seq<char>>, key: Seq<char>)
    requires
        forall|j: int| 0 <= j < keys.len() ==> keys[j] != key,
    ensures
        key_index(keys, key) is None,
{
    lemma_key_index(keys, key);
}

} // verus!
