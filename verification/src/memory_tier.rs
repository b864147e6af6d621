//! Memory tier: a bounded, in-process cache that evicts the least recently
//! used key and expires each entry at an absolute instant.
//!
//! Reading a key that has expired is a miss and removes the entry; nothing
//! sweeps the tier in the background. The tier takes the current instant as
//! an argument, so that every read and write is a function of its inputs.

use vstd::prelude::*;
use crate::instant::Instant;
use crate::text::text_of;
use crate::lru_store::{
    distinct_keys, holds_key, index_of_key, lru_capacity, lru_entries, lru_get, lru_new, lru_pop,
    lru_put, promoted, with_item, without_key,
};

verus! {

/// A stored payload with the second and nanosecond at which it expires.
pub type Stored = (Seq<char>, i64, u32);

/// The entries of a tier, most recently used first.
pub type Contents = Seq<(Seq<char>, Stored)>;

/// The instant at which a stored payload expires.
pub open spec fn expiry(stored: Stored) -> Instant {
    Instant { secs: stored.1, nanos: stored.2 }
}

/// `value` as it is stored when it expires at `at`.
pub open spec fn stored_until(value: Seq<char>, at: Instant) -> Stored {
    (value, at.secs, at.nanos)
}

/// Contents that a tier of `capacity` entries can hold: no key twice, and no
/// more entries than the capacity.
pub open spec fn well_formed(contents: Contents, capacity: nat) -> bool {
    &&& capacity >= 1
    &&& contents.len() <= capacity
    &&& distinct_keys(contents)
}

/// What a read of `key` at `now` returns: the payload stored under the key,
/// unless there is none or it has expired.
pub open spec fn read_value(contents: Contents, key: Seq<char>, now: Instant) -> Option<Seq<char>> {
    if holds_key(contents, key) && expiry(contents[index_of_key(contents, key)].1).is_after(now) {
        Some(contents[index_of_key(contents, key)].1.0)
    } else {
        None
    }
}

/// The contents after a read of `key` at `now`: a hit moves the entry to the
/// front, a miss removes what was stored under the key.
pub open spec fn after_read(contents: Contents, key: Seq<char>, now: Instant) -> Contents {
    if read_value(contents, key, now) is Some {
        promoted(contents, key)
    } else {
        without_key(contents, key)
    }
}

/// The contents after `value` was written under `key` at `now` with a
/// lifetime of `ttl_seconds`.
pub open spec fn after_write(
    contents: Contents,
    capacity: nat,
    key: Seq<char>,
    value: Seq<char>,
    now: Instant,
    ttl_seconds: u64,
) -> Contents {
    with_item(contents, capacity, key, stored_until(value, now.plus_seconds(ttl_seconds)))
}

/// With no key stored twice, the position of a key is the only index at
/// which the key stands.
pub proof fn lemma_index_of_key_unique(contents: Contents, key: Seq<char>, i: int)
    requires
        distinct_keys(contents),
        0 <= i < contents.len(),
        contents[i].0 == key,
    ensures
        holds_key(contents, key),
        index_of_key(contents, key) == i,
{
}

/// Moving an entry to the front keeps the contents well formed, and puts
/// the entry of `key` at position zero.
pub proof fn lemma_promoted(contents: Contents, capacity: nat, key: Seq<char>)
    requires
        well_formed(contents, capacity),
    ensures
        well_formed(promoted(contents, key), capacity),
        promoted(contents, key).len() == contents.len(),
        holds_key(promoted(contents, key), key) == holds_key(contents, key),
        holds_key(contents, key) ==> index_of_key(promoted(contents, key), key) == 0 && promoted(
            contents,
            key,
        )[0] == contents[index_of_key(contents, key)],
{
    if holds_key(contents, key) {
        let i = index_of_key(contents, key);
        let moved = promoted(contents, key);
        assert(moved[0] == contents[i]);
        assert forall|a: int| 1 <= a < moved.len() implies #[trigger] moved[a] == contents[if a
            - 1 < i {
            a - 1
        } else {
            a
        }] by {
            assert(moved[a] == contents.remove(i)[a - 1]);
        }
        assert(distinct_keys(moved)) by {
            assert forall|a: int, b: int|
                0 <= a < moved.len() && 0 <= b < moved.len() && a != b implies (
            #[trigger] moved[a]).0 != (#[trigger] moved[b]).0 by {
                let a0 = if a == 0 { i } else if a - 1 < i { a - 1 } else { a };
                let b0 = if b == 0 { i } else if b - 1 < i { b - 1 } else { b };
                assert(moved[a] == contents[a0]);
                assert(moved[b] == contents[b0]);
                assert(a0 != b0);
            }
        }
        lemma_index_of_key_unique(moved, key, 0);
    }
}

/// Taking a key out keeps the contents well formed and leaves nothing
/// stored under the key.
pub proof fn lemma_without_key(contents: Contents, capacity: nat, key: Seq<char>)
    requires
        well_formed(contents, capacity),
    ensures
        well_formed(without_key(contents, key), capacity),
        !holds_key(without_key(contents, key), key),
{
    if holds_key(contents, key) {
        let i = index_of_key(contents, key);
        let rest = without_key(contents, key);
        assert forall|a: int| 0 <= a < rest.len() implies #[trigger] rest[a] == contents[if a
            < i {
            a
        } else {
            a + 1
        }] by {}
        assert(distinct_keys(rest)) by {
            assert forall|a: int, b: int|
                0 <= a < rest.len() && 0 <= b < rest.len() && a != b implies (
            #[trigger] rest[a]).0 != (#[trigger] rest[b]).0 by {
                let a0 = if a < i { a } else { a + 1 };
                let b0 = if b < i { b } else { b + 1 };
                assert(rest[a] == contents[a0]);
                assert(rest[b] == contents[b0]);
            }
        }
        if holds_key(rest, key) {
            let a = index_of_key(rest, key);
            let a0 = if a < i { a } else { a + 1 };
            assert(rest[a] == contents[a0]);
            assert(false);
        }
    }
}

/// A read that finds its key expired removes it, whether or not the lookup
/// moved the entry to the front first.
pub proof fn lemma_removed_after_promotion(contents: Contents, capacity: nat, key: Seq<char>)
    requires
        well_formed(contents, capacity),
    ensures
        without_key(promoted(contents, key), key) == without_key(contents, key),
{
    lemma_promoted(contents, capacity, key);
    if holds_key(contents, key) {
        let i = index_of_key(contents, key);
        assert(promoted(contents, key).remove(0) =~= contents.remove(i));
    }
}

/// A write keeps the contents well formed and puts the written entry at
/// the front.
pub proof fn lemma_with_item(contents: Contents, capacity: nat, key: Seq<char>, value: Stored)
    requires
        well_formed(contents, capacity),
    ensures
        well_formed(with_item(contents, capacity, key, value), capacity),
        holds_key(with_item(contents, capacity, key, value), key),
        index_of_key(with_item(contents, capacity, key, value), key) == 0,
        with_item(contents, capacity, key, value)[0] == (key, value),
{
    let written = with_item(contents, capacity, key, value);
    let rest = if holds_key(contents, key) {
        contents.remove(index_of_key(contents, key))
    } else if contents.len() == capacity {
        contents.drop_last()
    } else {
        contents
    };
    assert(written == seq![(key, value)] + rest);
    lemma_without_key(contents, capacity, key);
    assert(distinct_keys(rest) && !holds_key(rest, key)) by {
        if !holds_key(contents, key) {
            assert forall|a: int| 0 <= a < rest.len() implies #[trigger] rest[a] == contents[a] by {}
            assert(distinct_keys(rest)) by {
                assert forall|a: int, b: int|
                    0 <= a < rest.len() && 0 <= b < rest.len() && a != b implies (
                #[trigger] rest[a]).0 != (#[trigger] rest[b]).0 by {
                    assert(rest[a] == contents[a]);
                    assert(rest[b] == contents[b]);
                }
            }
            if holds_key(rest, key) {
                let a = index_of_key(rest, key);
                assert(rest[a] == contents[a]);
                assert(false);
            }
        }
    }
    assert(written[0] == (key, value));
    assert forall|a: int| 1 <= a < written.len() implies #[trigger] written[a] == rest[a - 1] by {}
    assert(distinct_keys(written)) by {
        assert forall|a: int, b: int|
            0 <= a < written.len() && 0 <= b < written.len() && a != b implies (
        #[trigger] written[a]).0 != (#[trigger] written[b]).0 by {
            if a != 0 {
                assert(written[a] == rest[a - 1]);
            }
            if b != 0 {
                assert(written[b] == rest[b - 1]);
            }
        }
    }
    lemma_index_of_key_unique(written, key, 0);
}

/// Whether at least `seconds` whole seconds lie between `from` and `to`.
pub open spec fn seconds_elapsed(from: Instant, to: Instant, seconds: u64) -> bool {
    to.secs > from.secs + seconds || (to.secs == from.secs + seconds && to.nanos >= from.nanos)
}

/// A written entry is read back exactly until it expires: a read at
/// `read_at` of a key written at `written_at` returns the written payload if
/// the expiry lies after `read_at`, and is a miss otherwise.
pub proof fn lemma_read_after_write(
    contents: Contents,
    capacity: nat,
    key: Seq<char>,
    value: Seq<char>,
    written_at: Instant,
    ttl_seconds: u64,
    read_at: Instant,
)
    requires
        well_formed(contents, capacity),
    ensures
        read_value(
            after_write(contents, capacity, key, value, written_at, ttl_seconds),
            key,
            read_at,
        ) == if written_at.plus_seconds(ttl_seconds).is_after(read_at) {
            Some(value)
        } else {
            None
        },
{
    lemma_with_item(
        contents,
        capacity,
        key,
        stored_until(value, written_at.plus_seconds(ttl_seconds)),
    );
}

/// Expiry: an entry written with a lifetime of `ttl_seconds` is read back
/// at the instant of the write, provided that the lifetime is not zero and
/// the clock has not reached its last second; it is a miss at every instant
/// at which `ttl_seconds` or more have passed, and that read removes it.
pub proof fn lemma_entry_expires(
    contents: Contents,
    capacity: nat,
    key: Seq<char>,
    value: Seq<char>,
    written_at: Instant,
    ttl_seconds: u64,
    read_at: Instant,
)
    requires
        well_formed(contents, capacity),
    ensures
        ttl_seconds > 0 && written_at.secs < i64::MAX ==> read_value(
            after_write(contents, capacity, key, value, written_at, ttl_seconds),
            key,
            written_at,
        ) == Some(value),
        seconds_elapsed(written_at, read_at, ttl_seconds) ==> read_value(
            after_write(contents, capacity, key, value, written_at, ttl_seconds),
            key,
            read_at,
        ) is None && !holds_key(
            after_read(
                after_write(contents, capacity, key, value, written_at, ttl_seconds),
                key,
                read_at,
            ),
            key,
        ),
{
    let written = after_write(contents, capacity, key, value, written_at, ttl_seconds);
    lemma_read_after_write(contents, capacity, key, value, written_at, ttl_seconds, written_at);
    lemma_read_after_write(contents, capacity, key, value, written_at, ttl_seconds, read_at);
    lemma_with_item(
        contents,
        capacity,
        key,
        stored_until(value, written_at.plus_seconds(ttl_seconds)),
    );
    lemma_without_key(written, capacity, key);
}

/// Eviction: writing a key that is not stored into a full tier removes the
/// entry used least recently, which stands last, and no other. The new
/// entry stands first and every other entry moves back by one place.
pub proof fn lemma_full_tier_evicts_least_recent(
    contents: Contents,
    capacity: nat,
    key: Seq<char>,
    value: Stored,
)
    requires
        well_formed(contents, capacity),
        contents.len() == capacity,
        !holds_key(contents, key),
    ensures
        with_item(contents, capacity, key, value).len() == capacity,
        with_item(contents, capacity, key, value)[0] == (key, value),
        !holds_key(with_item(contents, capacity, key, value), contents.last().0),
        forall|i: int|
            0 <= i < capacity - 1 ==> #[trigger] with_item(contents, capacity, key, value)[i + 1]
                == contents[i],
{
    let after = with_item(contents, capacity, key, value);
    lemma_with_item(contents, capacity, key, value);
    let evicted = contents.last().0;
    assert(contents[capacity - 1].0 == evicted);
    assert forall|i: int| 0 <= i < capacity - 1 implies #[trigger] after[i + 1] == contents[i] by {}
    if holds_key(after, evicted) {
        let a = index_of_key(after, evicted);
        if a == 0 {
            assert(holds_key(contents, key));
        } else {
            assert(after[(a - 1) + 1] == contents[a - 1]);
            assert(contents[a - 1].0 == contents[capacity - 1].0);
        }
        assert(false);
    }
}

/// The contents of a tier of `capacity` entries, empty at first, after the
/// entries of `writes` were written one after another.
pub open spec fn written_in_turn(capacity: nat, writes: Contents) -> Contents
    decreases writes.len(),
{
    if writes.len() == 0 {
        Seq::empty()
    } else {
        with_item(
            written_in_turn(capacity, writes.drop_last()),
            capacity,
            writes.last().0,
            writes.last().1,
        )
    }
}

/// Writing no more distinct keys than the tier holds keeps them all, the
/// latest first.
pub proof fn lemma_writes_within_capacity(capacity: nat, writes: Contents)
    requires
        capacity >= 1,
        distinct_keys(writes),
        writes.len() <= capacity,
    ensures
        written_in_turn(capacity, writes) == writes.reverse(),
        well_formed(written_in_turn(capacity, writes), capacity),
    decreases writes.len(),
{
    if writes.len() > 0 {
        let earlier = writes.drop_last();
        lemma_writes_within_capacity(capacity, earlier);
        let before = written_in_turn(capacity, earlier);
        assert forall|i: int| 0 <= i < before.len() implies #[trigger] before[i] == writes[
            writes.len() - 2 - i] by {}
        if holds_key(before, writes.last().0) {
            let i = index_of_key(before, writes.last().0);
            assert(before[i] == writes[writes.len() - 2 - i]);
            assert(false);
        }
        lemma_with_item(before, capacity, writes.last().0, writes.last().1);
        assert(written_in_turn(capacity, writes) =~= writes.reverse());
    } else {
        assert(written_in_turn(capacity, writes) =~= writes.reverse());
    }
}

/// Eviction from an empty tier: after one more distinct key than the tier
/// holds has been written, the key written first is gone and every other
/// key is held.
pub proof fn lemma_one_write_too_many(capacity: nat, writes: Contents)
    requires
        capacity >= 1,
        distinct_keys(writes),
        writes.len() == capacity + 1,
    ensures
        written_in_turn(capacity, writes).len() == capacity,
        !holds_key(written_in_turn(capacity, writes), writes[0].0),
        forall|i: int|
            1 <= i <= capacity ==> holds_key(
                written_in_turn(capacity, writes),
                (#[trigger] writes[i]).0,
            ),
{
    let earlier = writes.drop_last();
    lemma_writes_within_capacity(capacity, earlier);
    let before = written_in_turn(capacity, earlier);
    let after = written_in_turn(capacity, writes);
    assert forall|i: int| 0 <= i < before.len() implies #[trigger] before[i] == writes[capacity
        - 1 - i] by {}
    if holds_key(before, writes.last().0) {
        let i = index_of_key(before, writes.last().0);
        assert(before[i] == writes[capacity - 1 - i]);
        assert(false);
    }
    lemma_full_tier_evicts_least_recent(before, capacity, writes.last().0, writes.last().1);
    assert(before.last() == writes[0]);
    assert forall|i: int| 1 <= i <= capacity implies holds_key(after, (#[trigger] writes[i]).0) by {
        if i == capacity {
            assert(after[0].0 == writes[i].0);
        } else {
            assert(after[(capacity - 1 - i) + 1] == before[capacity - 1 - i]);
            assert(after[capacity - i].0 == writes[i].0);
        }
    }
}

/// The bounded in-process cache.
pub struct MemoryTier {
    cache: lru::LruCache<String, (String, i64, u32)>,
    ttl_seconds: u64,
}

impl MemoryTier {
    /// The tier's invariant: its contents are well formed for its capacity.
    pub closed spec fn wf(&self) -> bool {
        well_formed(lru_entries(self.cache), lru_capacity(self.cache))
    }

    /// The entries held, most recently used first.
    pub closed spec fn contents(&self) -> Contents {
        lru_entries(self.cache)
    }

    /// The largest number of entries the tier holds.
    pub closed spec fn capacity(&self) -> nat {
        lru_capacity(self.cache)
    }

    /// A tier that is valid holds well-formed contents.
    pub proof fn lemma_wf_contents(&self)
        requires
            self.wf(),
        ensures
            well_formed(self.contents(), self.capacity()),
    {
    }

    /// The lifetime, in seconds, given to each entry when it is written.
    pub closed spec fn ttl(&self) -> u64 {
        self.ttl_seconds
    }

    /// An empty tier for `capacity` entries, each living `ttl_seconds`. A
    /// capacity of zero is raised to one.
    pub fn new(capacity: usize, ttl_seconds: u64) -> (tier: MemoryTier)
        ensures
            tier.contents() == Seq::<(Seq<char>, Stored)>::empty(),
            tier.capacity() == if capacity == 0 { 1 } else { capacity as nat },
            tier.ttl() == ttl_seconds,
            tier.wf(),
    {
        let slots: usize = if capacity == 0 { 1 } else { capacity };
        MemoryTier { cache: lru_new(slots), ttl_seconds }
    }

    /// Reads `key` at `now`.
    pub fn get(&mut self, key: &str, now: Instant) -> (value: Option<String>)
        requires
            old(self).wf(),
        ensures
            final(self).wf(),
            final(self).contents() == after_read(old(self).contents(), key@, now),
            final(self).capacity() == old(self).capacity(),
            final(self).ttl() == old(self).ttl(),
            text_of(value) == read_value(old(self).contents(), key@, now),
    {
        proof {
            lemma_promoted(lru_entries(self.cache), lru_capacity(self.cache), key@);
            lemma_removed_after_promotion(lru_entries(self.cache), lru_capacity(self.cache), key@);
            lemma_without_key(lru_entries(self.cache), lru_capacity(self.cache), key@);
        }
        let found = lru_get(&mut self.cache, key);
        if let Some(stored) = found {
            let expires_at = Instant::new(stored.1, stored.2);
            if expires_at.later_than(&now) {
                return Some(stored.0);
            }
        }
        lru_pop(&mut self.cache, key);
        None
    }

    /// Writes `value` under `key` at `now`.
    pub fn set(&mut self, key: &str, value: String, now: Instant)
        requires
            old(self).wf(),
        ensures
            final(self).wf(),
            final(self).contents() == after_write(
                old(self).contents(),
                old(self).capacity(),
                key@,
                value@,
                now,
                old(self).ttl(),
            ),
            final(self).capacity() == old(self).capacity(),
            final(self).ttl() == old(self).ttl(),
    {
        let expires_at = now.add_seconds(self.ttl_seconds);
        proof {
            lemma_with_item(
                lru_entries(self.cache),
                lru_capacity(self.cache),
                key@,
                (value@, expires_at.secs, expires_at.nanos),
            );
        }
        lru_put(&mut self.cache, key.to_owned(), (value, expires_at.secs, expires_at.nanos));
    }
}

} // verus!
