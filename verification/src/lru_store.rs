//! The bounded least-recently-used store behind the memory tier.
//!
//! The store itself is `lru::LruCache`. Verus cannot look inside it, so this
//! module names what a cache holds and states, for each method the memory
//! tier calls, what that method does to the contents. Those statements are
//! taken on trust; everything built on them is proved.

use vstd::prelude::*;

verus! {

/// `lru::LruCache`, carried as it is: nothing of its inside is known here.
#[verifier::external_type_specification]
#[verifier::external_body]
#[verifier::reject_recursive_types(K)]
#[verifier::reject_recursive_types(V)]
#[verifier::reject_recursive_types(S)]
pub struct ExLruCache<K, V, S>(lru::LruCache<K, V, S>);

/// `lru::DefaultHasher`, the hasher of a cache that names no other.
#[verifier::external_type_specification]
#[verifier::external_body]
pub struct ExDefaultHasher(lru::DefaultHasher);

/// What a cache holds, most recently used first. An item is a key with the
/// stored payload and the second and nanosecond at which it expires.
pub uninterp spec fn lru_entries(cache: lru::LruCache<String, (String, i64, u32)>) -> Seq<
    (Seq<char>, (Seq<char>, i64, u32)),
>;

/// The number of items a cache was made to hold at most.
pub uninterp spec fn lru_capacity(cache: lru::LruCache<String, (String, i64, u32)>) -> nat;

/// Whether some item of `items` is stored under `key`.
pub open spec fn holds_key(items: Seq<(Seq<char>, (Seq<char>, i64, u32))>, key: Seq<char>) -> bool {
    exists|i: int| 0 <= i < items.len() && (#[trigger] items[i]).0 == key
}

/// The position of an item stored under `key`, where there is one.
pub open spec fn index_of_key(
    items: Seq<(Seq<char>, (Seq<char>, i64, u32))>,
    key: Seq<char>,
) -> int {
    choose|i: int| 0 <= i < items.len() && (#[trigger] items[i]).0 == key
}

/// No two items share a key.
pub open spec fn distinct_keys(items: Seq<(Seq<char>, (Seq<char>, i64, u32))>) -> bool {
    forall|i: int, j: int|
        0 <= i < items.len() && 0 <= j < items.len() && i != j ==> (#[trigger] items[i]).0 != (
        #[trigger] items[j]).0
}

/// The contents after the item under `key`, if any, has moved to the front.
pub open spec fn promoted(
    items: Seq<(Seq<char>, (Seq<char>, i64, u32))>,
    key: Seq<char>,
) -> Seq<(Seq<char>, (Seq<char>, i64, u32))> {
    if holds_key(items, key) {
        seq![items[index_of_key(items, key)]] + items.remove(index_of_key(items, key))
    } else {
        items
    }
}

/// The contents after the item under `key`, if any, has been taken out.
pub open spec fn without_key(
    items: Seq<(Seq<char>, (Seq<char>, i64, u32))>,
    key: Seq<char>,
) -> Seq<(Seq<char>, (Seq<char>, i64, u32))> {
    if holds_key(items, key) {
        items.remove(index_of_key(items, key))
    } else {
        items
    }
}

/// The contents after `value` has been stored under `key` in a cache of
/// `capacity` items: the new item stands at the front; an item that was
/// stored under the same key is replaced, and otherwise a full cache loses
/// its last item.
pub open spec fn with_item(
    items: Seq<(Seq<char>, (Seq<char>, i64, u32))>,
    capacity: nat,
    key: Seq<char>,
    value: (Seq<char>, i64, u32),
) -> Seq<(Seq<char>, (Seq<char>, i64, u32))> {
    if holds_key(items, key) {
        seq![(key, value)] + items.remove(index_of_key(items, key))
    } else if items.len() == capacity {
        seq![(key, value)] + items.drop_last()
    } else {
        seq![(key, value)] + items
    }
}

/// `lru::LruCache::sparse`, given `capacity` as a `NonZeroUsize`: an empty
/// cache that holds at most `capacity` items and allocates nothing for
/// them in advance.
#[verifier::external_body]
pub(crate) fn lru_new(capacity: usize) -> (cache: lru::LruCache<String, (String, i64, u32)>)
    requires
        capacity > 0,
    ensures
        lru_entries(cache) == Seq::<(Seq<char>, (Seq<char>, i64, u32))>::empty(),
        lru_capacity(cache) == capacity,
{
    lru::LruCache::sparse(std::num::NonZeroUsize::new(capacity).unwrap())
}

/// `lru::LruCache::get`: looks `key` up, moves the item found to the front
/// and hands back a copy of what is stored under it.
#[verifier::external_body]
pub(crate) fn lru_get(cache: &mut lru::LruCache<String, (String, i64, u32)>, key: &str) -> (found:
    Option<(String, i64, u32)>)
    requires
        distinct_keys(lru_entries(*old(cache))),
    ensures
        lru_capacity(*final(cache)) == lru_capacity(*old(cache)),
        lru_entries(*final(cache)) == promoted(lru_entries(*old(cache)), key@),
        (found is Some) == holds_key(lru_entries(*old(cache)), key@),
        found matches Some(stored) ==> (stored.0@, stored.1, stored.2) == lru_entries(
            *old(cache),
        )[index_of_key(lru_entries(*old(cache)), key@)].1,
{
    cache.get(key).cloned()
}

/// `lru::LruCache::pop`: takes the item stored under `key`, if any, out of
/// the cache.
#[verifier::external_body]
pub(crate) fn lru_pop(cache: &mut lru::LruCache<String, (String, i64, u32)>, key: &str)
    requires
        distinct_keys(lru_entries(*old(cache))),
    ensures
        lru_capacity(*final(cache)) == lru_capacity(*old(cache)),
        lru_entries(*final(cache)) == without_key(lru_entries(*old(cache)), key@),
{
    let _ = cache.pop(key);
}

/// `lru::LruCache::put`: stores `value` under `key` at the front of the
/// cache, replacing an item under the same key, or else dropping the last
/// item of a full cache.
#[verifier::external_body]
pub(crate) fn lru_put(
    cache: &mut lru::LruCache<String, (String, i64, u32)>,
    key: String,
    value: (String, i64, u32),
)
    requires
        distinct_keys(lru_entries(*old(cache))),
        lru_entries(*old(cache)).len() <= lru_capacity(*old(cache)),
    ensures
        lru_capacity(*final(cache)) == lru_capacity(*old(cache)),
        lru_entries(*final(cache)) == with_item(
            lru_entries(*old(cache)),
            lru_capacity(*old(cache)),
            key@,
            (value.0@, value.1, value.2),
        ),
{
    let _ = cache.put(key, value);
}

} // verus!
