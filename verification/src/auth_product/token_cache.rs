//! The cache of verified access tokens: recently verified tokens, keyed by the SHA-256 of
//! the token, kept least recently used first and bounded in size.

use vstd::prelude::*;
use vstd::utf8::encode_utf8;
use crate::crypto::{sha256, sha256_digest};

verus! {

/// The cache key of a token: the SHA-256 of its UTF-8 bytes.
pub open spec fn token_key(token: Seq<char>) -> Seq<u8> {
    sha256(encode_utf8(token))
}

/// The cache key of a token.
pub fn token_cache_key(token: &str) -> (key: Vec<u8>)
    ensures
        key@ == token_key(token@),
{
    sha256_digest(token.as_bytes())
}

/// One cached verification: the token's key, when the verification expires (Unix
/// seconds), and what the verification gave.
pub struct CachedToken<V> {
    pub key: Vec<u8>,
    pub expires_at_seconds: u64,
    pub value: V,
}

/// A slot of the cache as the contracts see it: key, expiry, value.
pub open spec fn slot_of<V>(entry: CachedToken<V>) -> (Seq<u8>, u64, V) {
    (entry.key@, entry.expires_at_seconds, entry.value)
}

/// The position of `key` among `slots[i..]`, or -1.
pub open spec fn key_index<V>(slots: Seq<(Seq<u8>, u64, V)>, key: Seq<u8>, i: int) -> int
    decreases slots.len() - i,
{
    if i < 0 || i >= slots.len() {
        -1
    } else if slots[i].0 == key {
        i
    } else {
        key_index(slots, key, i + 1)
    }
}

/// The slot held under `key`, if any.
pub open spec fn slot_for<V>(slots: Seq<(Seq<u8>, u64, V)>, key: Seq<u8>) -> Option<(Seq<u8>, u64, V)> {
    let k = key_index(slots, key, 0);
    if k < 0 {
        None
    } else {
        Some(slots[k])
    }
}

/// No key is held twice.
pub open spec fn distinct_keys<V>(slots: Seq<(Seq<u8>, u64, V)>) -> bool {
    forall|i: int, j: int| 0 <= i < j < slots.len() ==> slots[i].0 != slots[j].0
}

/// The slots without the one held under `key`.
pub open spec fn without_key<V>(slots: Seq<(Seq<u8>, u64, V)>, key: Seq<u8>) -> Seq<(Seq<u8>, u64, V)> {
    let k = key_index(slots, key, 0);
    if k < 0 {
        slots
    } else {
        slots.remove(k)
    }
}

/// Storing a verification: any older slot for the key goes, the new slot becomes the most
/// recently used, and the least recently used slots are dropped until at most `capacity`
/// remain.
pub open spec fn stored<V>(
    slots: Seq<(Seq<u8>, u64, V)>,
    key: Seq<u8>,
    expires_at_seconds: u64,
    value: V,
    capacity: nat,
) -> Seq<(Seq<u8>, u64, V)> {
    let s = without_key(slots, key).push((key, expires_at_seconds, value));
    if s.len() > capacity {
        s.skip(s.len() - capacity)
    } else {
        s
    }
}

/// The slots after looking `key` up at time `now`: a slot that has expired by then is
/// dropped, a live one becomes the most recently used, and nothing else changes.
pub open spec fn looked_up<V>(slots: Seq<(Seq<u8>, u64, V)>, key: Seq<u8>, now: u64) -> Seq<(Seq<u8>, u64, V)> {
    match slot_for(slots, key) {
        None => slots,
        Some(slot) => if slot.1 <= now {
            without_key(slots, key)
        } else {
            without_key(slots, key).push(slot)
        },
    }
}

/// Recently verified tokens, least recently used first, at most `capacity` of them.
pub struct VerifiedTokenCache<V> {
    entries: Vec<CachedToken<V>>,
    capacity: usize,
}

impl<V: Clone> VerifiedTokenCache<V> {
    /// The slots, least recently used first.
    pub closed spec fn slots(self) -> Seq<(Seq<u8>, u64, V)> {
        self.entries@.map_values(|e: CachedToken<V>| slot_of(e))
    }

    /// The most slots the cache keeps.
    pub closed spec fn capacity(self) -> nat {
        self.capacity as nat
    }

    /// At most `capacity` slots, no key twice.
    pub open spec fn wf(self) -> bool {
        &&& self.slots().len() <= self.capacity()
        &&& distinct_keys(self.slots())
    }

    /// An empty cache that keeps at most `capacity` verifications.
    pub fn new(capacity: usize) -> (cache: Self)
        ensures
            cache.wf(),
            cache.slots() == Seq::<(Seq<u8>, u64, V)>::empty(),
            cache.capacity() == capacity,
    {
        let cache = VerifiedTokenCache { entries: Vec::new(), capacity };
        assert(cache.slots() =~= Seq::<(Seq<u8>, u64, V)>::empty());
        cache
    }

    /// How many verifications are cached.
    pub fn len(&self) -> (n: usize)
        ensures
            n == self.slots().len(),
    {
        self.entries.len()
    }

    fn position(&self, key: &Vec<u8>) -> (r: Option<usize>)
        ensures
            match r {
                Some(i) => i < self.slots().len() && i == key_index(self.slots(), key@, 0),
                None => key_index(self.slots(), key@, 0) == -1,
            },
    {
        let ghost s = self.slots();
        let mut i: usize = 0;
        while i < self.entries.len()
            invariant
                s == self.slots(),
                s.len() == self.entries@.len(),
                i <= s.len(),
                key_index(s, key@, 0) == key_index(s, key@, i as int),
            decreases self.entries.len() - i,
        {
            assert(s[i as int] == slot_of(self.entries@[i as int]));
            if bytes_eq(&self.entries[i].key, key) {
                return Some(i);
            }
            i = i + 1;
        }
        None
    }

    /// The cached verification of `token` at time `now`, if one is cached and has not
    /// expired; it becomes the most recently used. An expired one is dropped.
    pub fn lookup(&mut self, token: &str, now: u64) -> (found: Option<V>)
        requires
            old(self).wf(),
        ensures
            final(self).wf(),
            final(self).capacity() == old(self).capacity(),
            final(self).slots() == looked_up(old(self).slots(), token_key(token@), now),
            match slot_for(old(self).slots(), token_key(token@)) {
                Some(slot) => if slot.1 <= now {
                    found is None
                } else {
                    found matches Some(v) && cloned(slot.2, v)
                },
                None => found is None,
            },
    {
        let key = token_cache_key(token);
        let ghost s = self.slots();
        match self.position(&key) {
            None => None,
            Some(i) => {
                proof {
                    lemma_key_index_found(s, key@, 0);
                }
                let entry = self.entries.remove(i);
                assert(self.slots() =~= s.remove(i as int));
                proof {
                    lemma_distinct_remove(s, i as int);
                }
                if entry.expires_at_seconds <= now {
                    return None;
                }
                let value = entry.value.clone();
                self.entries.push(entry);
                proof {
                    assert(self.slots() =~= s.remove(i as int).push(s[i as int]));
                    lemma_distinct_push(s.remove(i as int), s[i as int]);
                }
                Some(value)
            },
        }
    }

    /// Caches the verification of `token`, valid until `expires_at_seconds`, as the most
    /// recently used; the least recently used verifications are dropped beyond capacity.
    pub fn store(&mut self, token: &str, expires_at_seconds: u64, value: V)
        requires
            old(self).wf(),
        ensures
            final(self).wf(),
            final(self).capacity() == old(self).capacity(),
            final(self).slots() == stored(
                old(self).slots(),
                token_key(token@),
                expires_at_seconds,
                value,
                old(self).capacity(),
            ),
    {
        let key = token_cache_key(token);
        let ghost s = self.slots();
        let ghost k = key@;
        self.remove_key(&key);
        let ghost w = self.slots();
        self.entries.push(CachedToken { key, expires_at_seconds, value });
        proof {
            assert(self.slots() =~= w.push((k, expires_at_seconds, value)));
            lemma_without_key_lacks(s, k);
            lemma_distinct_push(w, (k, expires_at_seconds, value));
        }
        while self.entries.len() > self.capacity
            invariant
                distinct_keys(self.slots()),
                self.capacity as nat == old(self).capacity(),
                self.slots().len() == self.entries@.len(),
                ({
                    let full = w.push((k, expires_at_seconds, value));
                    &&& self.slots().len() <= full.len()
                    &&& self.slots() == full.skip(full.len() - self.slots().len())
                    &&& (full.len() > self.capacity ==> self.slots().len() >= self.capacity)
                    &&& (full.len() <= self.capacity ==> self.slots().len() == full.len())
                }),
            decreases self.entries.len(),
        {
            let ghost before = self.slots();
            self.entries.remove(0);
            proof {
                assert(self.slots() =~= before.remove(0));
                lemma_distinct_remove(before, 0);
                let full = w.push((k, expires_at_seconds, value));
                assert(self.slots() =~= full.skip(full.len() - self.slots().len()));
            }
        }
        proof {
            let full = w.push((k, expires_at_seconds, value));
            if full.len() <= self.capacity as nat {
                assert(full.skip(0) =~= full);
            }
            assert(w == without_key(s, k));
        }
    }

    /// Forgets the cached verification of `token`, if any.
    pub fn remove(&mut self, token: &str)
        requires
            old(self).wf(),
        ensures
            final(self).wf(),
            final(self).capacity() == old(self).capacity(),
            final(self).slots() == without_key(old(self).slots(), token_key(token@)),
    {
        let key = token_cache_key(token);
        self.remove_key(&key);
    }

    fn remove_key(&mut self, key: &Vec<u8>)
        requires
            old(self).wf(),
        ensures
            final(self).wf(),
            final(self).capacity() == old(self).capacity(),
            final(self).slots() == without_key(old(self).slots(), key@),
    {
        let ghost s = self.slots();
        match self.position(key) {
            None => {},
            Some(i) => {
                self.entries.remove(i);
                assert(self.slots() =~= s.remove(i as int));
                proof {
                    lemma_distinct_remove(s, i as int);
                }
            },
        }
    }
}

fn bytes_eq(a: &Vec<u8>, b: &Vec<u8>) -> (eq: bool)
    ensures
        eq == (a@ == b@),
{
    if a.len() != b.len() {
        return false;
    }
    let mut i: usize = 0;
    while i < a.len()
        invariant
            a@.len() == b@.len(),
            i <= a@.len(),
            forall|j: int| 0 <= j < i ==> a@[j] == b@[j],
        decreases a.len() - i,
    {
        if a[i] != b[i] {
            return false;
        }
        i = i + 1;
    }
    assert(a@ =~= b@);
    true
}

proof fn lemma_key_index_found<V>(slots: Seq<(Seq<u8>, u64, V)>, key: Seq<u8>, i: int)
    requires
        0 <= i,
    ensures
        key_index(slots, key, i) == -1 || (i <= key_index(slots, key, i) < slots.len()
            && slots[key_index(slots, key, i)].0 == key),
    decreases slots.len() - i,
{
    if i < slots.len() && slots[i].0 != key {
        lemma_key_index_found(slots, key, i + 1);
    }
}

proof fn lemma_key_index_absent<V>(slots: Seq<(Seq<u8>, u64, V)>, key: Seq<u8>, i: int)
    requires
        0 <= i,
        key_index(slots, key, i) == -1,
    ensures
        forall|j: int| i <= j < slots.len() ==> slots[j].0 != key,
    decreases slots.len() - i,
{
    if i < slots.len() {
        lemma_key_index_absent(slots, key, i + 1);
    }
}

proof fn lemma_key_index_of_distinct<V>(slots: Seq<(Seq<u8>, u64, V)>, j: int, i: int)
    requires
        distinct_keys(slots),
        0 <= i <= j < slots.len(),
    ensures
        key_index(slots, slots[j].0, i) == j,
    decreases j - i,
{
    if i < j {
        lemma_key_index_of_distinct(slots, j, i + 1);
    }
}

proof fn lemma_distinct_remove<V>(slots: Seq<(Seq<u8>, u64, V)>, k: int)
    requires
        distinct_keys(slots),
        0 <= k < slots.len(),
    ensures
        distinct_keys(slots.remove(k)),
{
    let r = slots.remove(k);
    assert forall|i: int, j: int| 0 <= i < j < r.len() implies r[i].0 != r[j].0 by {
        let oi = if i < k { i } else { i + 1 };
        let oj = if j < k { j } else { j + 1 };
        assert(r[i] == slots[oi]);
        assert(r[j] == slots[oj]);
    }
}

proof fn lemma_distinct_push<V>(slots: Seq<(Seq<u8>, u64, V)>, slot: (Seq<u8>, u64, V))
    requires
        distinct_keys(slots),
        forall|j: int| 0 <= j < slots.len() ==> slots[j].0 != slot.0,
    ensures
        distinct_keys(slots.push(slot)),
{
    let r = slots.push(slot);
    assert forall|i: int, j: int| 0 <= i < j < r.len() implies r[i].0 != r[j].0 by {
        assert(r[i] == slots[i]);
        if j < slots.len() {
            assert(r[j] == slots[j]);
        }
    }
}

/// With distinct keys, the slots without `key` hold no slot for `key`.
proof fn lemma_without_key_lacks<V>(slots: Seq<(Seq<u8>, u64, V)>, key: Seq<u8>)
    requires
        distinct_keys(slots),
    ensures
        forall|j: int| 0 <= j < without_key(slots, key).len() ==> without_key(slots, key)[j].0 != key,
{
    lemma_key_index_found(slots, key, 0);
    let k = key_index(slots, key, 0);
    if k < 0 {
        lemma_key_index_absent(slots, key, 0);
    } else {
        let r = slots.remove(k);
        assert forall|j: int| 0 <= j < r.len() implies r[j].0 != key by {
            let oj = if j < k { j } else { j + 1 };
            assert(r[j] == slots[oj]);
        }
    }
}

/// A cache that keeps at least one verification finds what was just stored: storing a
/// verification and then asking for its key gives that very slot.
pub proof fn lemma_read_after_store<V>(
    slots: Seq<(Seq<u8>, u64, V)>,
    key: Seq<u8>,
    expires_at_seconds: u64,
    value: V,
    capacity: nat,
)
    requires
        distinct_keys(slots),
        capacity > 0,
    ensures
        slot_for(stored(slots, key, expires_at_seconds, value, capacity), key) == Some(
            (key, expires_at_seconds, value),
        ),
{
    let w = without_key(slots, key);
    lemma_without_key_lacks(slots, key);
    let full = w.push((key, expires_at_seconds, value));
    lemma_distinct_remove_or_same(slots, key);
    lemma_distinct_push(w, (key, expires_at_seconds, value));
    let s = stored(slots, key, expires_at_seconds, value, capacity);
    if full.len() > capacity {
        let d = full.len() - capacity;
        assert forall|i: int, j: int| 0 <= i < j < s.len() implies s[i].0 != s[j].0 by {
            assert(s[i] == full[i + d]);
            assert(s[j] == full[j + d]);
        }
        assert(s[s.len() - 1] == full[full.len() - 1]);
    }
    lemma_key_index_of_distinct(s, s.len() - 1, 0);
}

proof fn lemma_distinct_remove_or_same<V>(slots: Seq<(Seq<u8>, u64, V)>, key: Seq<u8>)
    requires
        distinct_keys(slots),
    ensures
        distinct_keys(without_key(slots, key)),
{
    lemma_key_index_found(slots, key, 0);
    let k = key_index(slots, key, 0);
    if k >= 0 {
        lemma_distinct_remove(slots, k);
    }
}

/// Once a token's verification is removed, the cache holds none for it.
pub proof fn lemma_nothing_after_remove<V>(slots: Seq<(Seq<u8>, u64, V)>, key: Seq<u8>)
    requires
        distinct_keys(slots),
    ensures
        slot_for(without_key(slots, key), key) is None,
{
    lemma_without_key_lacks(slots, key);
    let w = without_key(slots, key);
    lemma_key_index_found(w, key, 0);
}

/// An expired verification is never handed out again: looking it up drops it, so a second
/// lookup finds nothing.
pub proof fn lemma_expired_is_dropped<V>(slots: Seq<(Seq<u8>, u64, V)>, key: Seq<u8>, now: u64)
    requires
        distinct_keys(slots),
        slot_for(slots, key) matches Some(slot) && slot.1 <= now,
    ensures
        slot_for(looked_up(slots, key, now), key) is None,
{
    lemma_nothing_after_remove(slots, key);
}

} // verus!
