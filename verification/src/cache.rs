//! Finding an entry of a cache by its key: the first entry with that key.
use vstd::prelude::*;

verus! {

/// The position of the first `key` in `keys`, or the length of `keys` where
/// there is none (the position where an entry for `key` is appended).
pub open spec fn first_index<K>(keys: Seq<K>, key: K) -> int
    decreases keys.len(),
{
    if keys.len() == 0 {
        0
    } else if keys[0] == key {
        0
    } else {
        1 + first_index(keys.drop_first(), key)
    }
}

/// The first index is the position of the first `key`, or the length where
/// `key` does not occur.
pub proof fn lemma_first_index<K>(keys: Seq<K>, key: K)
    ensures
        0 <= first_index(keys, key) <= keys.len(),
        first_index(keys, key) < keys.len() ==> keys[first_index(keys, key)] == key,
        forall|j: int| 0 <= j < first_index(keys, key) ==> keys[j] != key,
        (first_index(keys, key) == keys.len()) == !keys.contains(key),
    decreases keys.len(),
{
    if keys.len() > 0 && keys[0] != key {
        lemma_first_index(keys.drop_first(), key);
        let r = first_index(keys, key);
        assert forall|j: int| 0 <= j < r implies keys[j] != key by {
            if j > 0 {
                assert(keys[j] == keys.drop_first()[j - 1]);
            }
        }
        if keys.contains(key) {
            let w = choose|w: int| 0 <= w < keys.len() && keys[w] == key;
            assert(keys.drop_first()[w - 1] == key);
        }
        if keys.drop_first().contains(key) {
            let w = choose|w: int| 0 <= w < keys.drop_first().len() && keys.drop_first()[w] == key;
            assert(keys[w + 1] == key);
        }
    } else if keys.len() > 0 {
        assert(keys[0] == key);
    }
}

/// A position whose key is `key` and where no earlier key is `key` is the
/// first index.
pub proof fn lemma_first_index_at<K>(keys: Seq<K>, key: K, k: int)
    requires
        0 <= k <= keys.len(),
        k < keys.len() ==> keys[k] == key,
        k == keys.len() ==> !keys.contains(key),
        forall|j: int| 0 <= j < k ==> keys[j] != key,
    ensures
        first_index(keys, key) == k,
{
    lemma_first_index(keys, key);
    let r = first_index(keys, key);
    if r < k {
        assert(keys[r] != key);
    }
    if k < r {
        assert(keys[k] != key);
    }
}

} // verus!
