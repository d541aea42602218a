//! Bounded TTL cache for provider responses, keyed by provider, media
//! kind and query. Values are opaque serialized blobs. Expired entries
//! are dropped lazily on access and by explicit maintenance; when the
//! capacity is reached the least recently used entry is evicted.
//!
//! The clock is handed in by the caller, so every behavior here is a
//! function of plain values.

use vstd::prelude::*;
use crate::strutil::str_eq;

verus! {

/// Scraper cache key.
#[derive(Debug)]
pub struct CacheKey {
    pub provider: String,
    pub media_type: String,
    pub query: String,
}

impl Clone for CacheKey {
    fn clone(&self) -> (r: Self)
        ensures
            r == *self,
    {
        CacheKey {
            provider: self.provider.clone(),
            media_type: self.media_type.clone(),
            query: self.query.clone(),
        }
    }
}

impl CacheKey {
    /// Assemble a key from its three parts.
    pub fn new(provider: String, media_type: String, query: String) -> (r: CacheKey)
        ensures
            r.provider == provider,
            r.media_type == media_type,
            r.query == query,
    {
        CacheKey { provider, media_type, query }
    }

    /// The key as character sequences, for contracts.
    pub open spec fn view_key(&self) -> (Seq<char>, Seq<char>, Seq<char>) {
        (self.provider@, self.media_type@, self.query@)
    }
}

/// Whether two keys name the same slot.
fn key_eq(a: &CacheKey, b: &CacheKey) -> (r: bool)
    ensures
        r == (a.view_key() == b.view_key()),
{
    let r = str_eq(a.provider.as_str(), b.provider.as_str()) && str_eq(
        a.media_type.as_str(),
        b.media_type.as_str(),
    ) && str_eq(a.query.as_str(), b.query.as_str());
    proof {
        if a.provider@ == b.provider@ && a.media_type@ == b.media_type@ && a.query@ == b.query@ {
            assert(a.view_key() == b.view_key());
        }
    }
    r
}

/// One stored entry: the key, the blob, when it expires, and when it
/// was last touched (for eviction).
#[derive(Debug)]
pub struct CacheSlot {
    pub key: CacheKey,
    pub value: Vec<u8>,
    pub expires_at: u64,
    pub last_used: u64,
}

/// Bounded TTL store for serialized provider responses.
#[derive(Debug)]
pub struct ScraperCache {
    pub slots: Vec<CacheSlot>,
    /// Time to live of an entry, milliseconds.
    pub ttl_ms: u64,
    /// Greatest number of entries kept.
    pub max_capacity: usize,
}

impl ScraperCache {
    /// A slot with this key exists.
    pub open spec fn has_key(&self, k: (Seq<char>, Seq<char>, Seq<char>)) -> bool {
        exists|i: int| 0 <= i < self.slots@.len() && (#[trigger] self.slots@[i]).key.view_key() == k
    }

    /// A slot with this key exists and has not expired at `now`.
    pub open spec fn has_live_key(&self, k: (Seq<char>, Seq<char>, Seq<char>), now: u64) -> bool {
        exists|i: int|
            0 <= i < self.slots@.len() && (#[trigger] self.slots@[i]).key.view_key() == k && now
                < self.slots@[i].expires_at
    }

    /// Keys are unique and the capacity is respected.
    pub open spec fn wf(&self) -> bool {
        &&& forall|i: int, j: int|
            0 <= i < j < self.slots@.len() ==> (#[trigger] self.slots@[i]).key.view_key() != (
            #[trigger] self.slots@[j]).key.view_key()
        &&& self.slots@.len() <= self.max_capacity
    }

    /// Create a new cache instance (default TTL: 1 hour, capacity
    /// 10000).
    pub fn new() -> (r: ScraperCache)
        ensures
            r.wf(),
            r.slots@.len() == 0,
            r.ttl_ms == 3600u64 * 1000u64,
            r.max_capacity == 10000usize,
    {
        ScraperCache::with_config(3600, 10000)
    }

    /// Create a cache instance with custom configuration.
    pub fn with_config(ttl_seconds: u64, max_capacity: usize) -> (r: ScraperCache)
        requires
            ttl_seconds * 1000 <= u64::MAX,
        ensures
            r.wf(),
            r.slots@.len() == 0,
            r.ttl_ms == ttl_seconds * 1000,
            r.max_capacity == max_capacity,
    {
        ScraperCache { slots: Vec::new(), ttl_ms: ttl_seconds * 1000, max_capacity }
    }

    /// Find the slot of a key.
    fn find_slot(&self, key: &CacheKey) -> (r: Option<usize>)
        ensures
            match r {
                Some(i) => i < self.slots@.len() && self.slots@[i as int].key.view_key()
                    == key.view_key(),
                None => !self.has_key(key.view_key()),
            },
    {
        let mut i: usize = 0;
        while i < self.slots.len()
            invariant
                0 <= i <= self.slots@.len(),
                forall|j: int|
                    0 <= j < i ==> (#[trigger] self.slots@[j]).key.view_key() != key.view_key(),
            decreases self.slots@.len() - i,
        {
            if key_eq(&self.slots[i].key, key) {
                return Some(i);
            }
            i = i + 1;
        }
        None
    }

    /// Position of a least recently used slot, for eviction.
    fn lru_index(&self) -> (r: usize)
        requires
            self.slots@.len() > 0,
        ensures
            r < self.slots@.len(),
            forall|j: int|
                0 <= j < self.slots@.len() ==> self.slots@[r as int].last_used <= (
                #[trigger] self.slots@[j]).last_used,
    {
        let mut best: usize = 0;
        let mut i: usize = 1;
        while i < self.slots.len()
            invariant
                0 <= best < self.slots@.len(),
                best < i,
                1 <= i <= self.slots@.len(),
                forall|j: int|
                    0 <= j < i ==> self.slots@[best as int].last_used <= (
                    #[trigger] self.slots@[j]).last_used,
            decreases self.slots@.len() - i,
        {
            if self.slots[i].last_used < self.slots[best].last_used {
                best = i;
            }
            i = i + 1;
        }
        best
    }

    /// Store a blob under a key with the configured TTL, replacing any
    /// entry the key already had. At capacity, a least recently used
    /// entry makes room; a cache of capacity zero stores nothing.
    #[verifier::loop_isolation(false)]
    pub fn set(&mut self, key: CacheKey, value: Vec<u8>, now: u64)
        requires
            old(self).wf(),
            now + old(self).ttl_ms <= u64::MAX,
        ensures
            final(self).wf(),
            final(self).ttl_ms == old(self).ttl_ms,
            final(self).max_capacity == old(self).max_capacity,
            final(self).max_capacity > 0 ==> ({
                exists|i: int|
                    {
                        &&& 0 <= i < final(self).slots@.len()
                        &&& (#[trigger] final(self).slots@[i]).key.view_key() == key.view_key()
                        &&& final(self).slots@[i].value@ == value@
                        &&& final(self).slots@[i].expires_at == now + old(self).ttl_ms
                        &&& final(self).slots@[i].last_used == now
                    }
            }),
            // No other key appears, and at most one old entry was evicted.
            forall|k2: (Seq<char>, Seq<char>, Seq<char>)|
                final(self).has_key(k2) ==> k2 == key.view_key() || old(self).has_key(k2),
    {
        let ghost gkey = key.view_key();
        let ghost gval = value@;
        let slot = CacheSlot { key, value, expires_at: now + self.ttl_ms, last_used: now };
        proof {
            assert(slot.key.view_key() == gkey);
            assert(slot.value@ == gval);
        }
        let ghost gslot = slot;
        match self.find_slot(&slot.key) {
            Some(i) => {
                self.slots.remove(i);
                self.slots.insert(i, slot);
                proof {
                    lemma_set_keys(*old(self), *self, i as int);
                    assert(self.slots@[i as int] == gslot);
                }
            },
            None => {
                if self.max_capacity == 0 {
                    return ;
                }
                if self.slots.len() >= self.max_capacity {
                    let victim = self.lru_index();
                    self.slots.remove(victim);
                    proof {
                        assert forall|a: int, b: int|
                            0 <= a < b < self.slots@.len() implies (
                        #[trigger] self.slots@[a]).key.view_key() != (
                        #[trigger] self.slots@[b]).key.view_key() by {
                            let a2 = if a < victim {
                                a
                            } else {
                                a + 1
                            };
                            let b2 = if b < victim {
                                b
                            } else {
                                b + 1
                            };
                            assert(self.slots@[a] == old(self).slots@[a2]);
                            assert(self.slots@[b] == old(self).slots@[b2]);
                        }
                    }
                }
                let ghost mid = *self;
                self.slots.push(slot);
                proof {
                    assert(self.slots@[self.slots@.len() - 1] == gslot);
                    assert forall|a: int, b: int|
                        0 <= a < b < self.slots@.len() implies (
                    #[trigger] self.slots@[a]).key.view_key() != (
                    #[trigger] self.slots@[b]).key.view_key() by {
                        if b == self.slots@.len() - 1 {
                            // The new key was absent from the old table,
                            // and eviction only removed entries.
                            assert(self.slots@[b].key.view_key() == key.view_key());
                            let a2 = choose|a2: int|
                                0 <= a2 < old(self).slots@.len() && #[trigger] old(
                                    self,
                                ).slots@[a2] == mid.slots@[a];
                            assert(old(self).slots@[a2].key.view_key() != key.view_key());
                        } else {
                            assert(mid.slots@[a] == self.slots@[a]);
                            assert(mid.slots@[b] == self.slots@[b]);
                        }
                    }
                    assert forall|k2: (Seq<char>, Seq<char>, Seq<char>)|
                        final(self).has_key(k2) implies k2 == key.view_key() || old(
                        self,
                    ).has_key(k2) by {
                        if k2 != key.view_key() {
                            let i = choose|i: int|
                                0 <= i < self.slots@.len() && (
                                #[trigger] self.slots@[i]).key.view_key() == k2;
                            let i2 = choose|i2: int|
                                0 <= i2 < old(self).slots@.len() && #[trigger] old(
                                    self,
                                ).slots@[i2] == mid.slots@[i];
                        }
                    }
                }
            },
        }
    }

    /// Fetch the blob stored under a key, when it is still live at
    /// `now`; an expired entry is dropped on the way and reads as a
    /// miss. A hit refreshes the entry's recency.
    pub fn get(&mut self, key: &CacheKey, now: u64) -> (r: Option<Vec<u8>>)
        requires
            old(self).wf(),
        ensures
            final(self).wf(),
            final(self).ttl_ms == old(self).ttl_ms,
            final(self).max_capacity == old(self).max_capacity,
            match r {
                Some(v) => {
                    &&& old(self).has_live_key(key.view_key(), now)
                    &&& exists|i: int|
                        0 <= i < old(self).slots@.len() && (#[trigger] old(
                            self,
                        ).slots@[i]).key.view_key() == key.view_key() && old(self).slots@[i].value@
                            == v@
                },
                None => !old(self).has_live_key(key.view_key(), now),
            },
    {
        match self.find_slot(key) {
            Some(i) => {
                if now < self.slots[i].expires_at {
                    let ghost pre = *self;
                    let entry = self.slots.remove(i);
                    let value = clone_bytes(&entry.value);
                    let refreshed = CacheSlot {
                        key: entry.key,
                        value: entry.value,
                        expires_at: entry.expires_at,
                        last_used: now,
                    };
                    self.slots.insert(i, refreshed);
                    proof {
                        lemma_set_keys(pre, *self, i as int);
                        assert(pre.slots@[i as int].key.view_key() == key.view_key() && now
                            < pre.slots@[i as int].expires_at);
                    }
                    Some(value)
                } else {
                    self.slots.remove(i);
                    proof {
                        assert forall|a: int, b: int|
                            0 <= a < b < self.slots@.len() implies (
                        #[trigger] self.slots@[a]).key.view_key() != (
                        #[trigger] self.slots@[b]).key.view_key() by {
                            let a2 = if a < i {
                                a
                            } else {
                                a + 1
                            };
                            let b2 = if b < i {
                                b
                            } else {
                                b + 1
                            };
                            assert(self.slots@[a] == old(self).slots@[a2]);
                            assert(self.slots@[b] == old(self).slots@[b2]);
                        }
                        if old(self).has_live_key(key.view_key(), now) {
                            let w = choose|w: int|
                                0 <= w < old(self).slots@.len() && (#[trigger] old(
                                    self,
                                ).slots@[w]).key.view_key() == key.view_key() && now < old(
                                    self,
                                ).slots@[w].expires_at;
                            assert(w == i);
                        }
                    }
                    None
                }
            },
            None => None,
        }
    }

    /// Drop the entry stored under a key, if any.
    pub fn invalidate(&mut self, key: &CacheKey)
        requires
            old(self).wf(),
        ensures
            final(self).wf(),
            final(self).ttl_ms == old(self).ttl_ms,
            final(self).max_capacity == old(self).max_capacity,
            !final(self).has_key(key.view_key()),
            forall|k2: (Seq<char>, Seq<char>, Seq<char>)|
                k2 != key.view_key() ==> final(self).has_key(k2) == old(self).has_key(k2),
    {
        match self.find_slot(key) {
            Some(i) => {
                self.slots.remove(i);
                proof {
                    lemma_remove_keys(*old(self), *self, i as int, key.view_key());
                }
            },
            None => {},
        }
    }

    /// Drop every entry.
    pub fn clear(&mut self)
        ensures
            final(self).wf(),
            final(self).ttl_ms == old(self).ttl_ms,
            final(self).max_capacity == old(self).max_capacity,
            final(self).slots@.len() == 0,
    {
        self.slots.clear();
    }

    /// Number of stored entries, expired ones included until they are
    /// dropped.
    pub fn len(&self) -> (r: usize)
        ensures
            r == self.slots@.len(),
    {
        self.slots.len()
    }

    /// Whether the cache holds no entry.
    pub fn is_empty(&self) -> (r: bool)
        ensures
            r == (self.slots@.len() == 0),
    {
        self.slots.len() == 0
    }

    /// Drop every entry that has expired at `now`: the maintenance that
    /// otherwise happens lazily on access.
    #[verifier::loop_isolation(false)]
    pub fn run_pending_tasks(&mut self, now: u64)
        requires
            old(self).wf(),
        ensures
            final(self).wf(),
            final(self).ttl_ms == old(self).ttl_ms,
            final(self).max_capacity == old(self).max_capacity,
            forall|i: int|
                0 <= i < final(self).slots@.len() ==> now < (
                #[trigger] final(self).slots@[i]).expires_at,
            forall|k2: (Seq<char>, Seq<char>, Seq<char>)|
                final(self).has_key(k2) ==> old(self).has_key(k2),
            forall|k2: (Seq<char>, Seq<char>, Seq<char>)|
                old(self).has_live_key(k2, now) ==> final(self).has_live_key(k2, now),
    {
        let mut i: usize = 0;
        while i < self.slots.len()
            invariant
                0 <= i <= self.slots@.len(),
                self.slots@.len() <= old(self).slots@.len(),
                self.wf(),
                self.ttl_ms == old(self).ttl_ms,
                self.max_capacity == old(self).max_capacity,
                forall|j: int| 0 <= j < i ==> now < (#[trigger] self.slots@[j]).expires_at,
                forall|k2: (Seq<char>, Seq<char>, Seq<char>)|
                    self.has_key(k2) ==> old(self).has_key(k2),
                forall|k2: (Seq<char>, Seq<char>, Seq<char>)|
                    old(self).has_live_key(k2, now) ==> self.has_live_key(k2, now),
            decreases self.slots@.len() - i,
        {
            if now >= self.slots[i].expires_at {
                let ghost pre = self.slots@;
                self.slots.remove(i);
                proof {
                    lemma_maintenance_step(pre, self.slots@, i as int, now);
                    assert forall|k2: (Seq<char>, Seq<char>, Seq<char>)|
                        self.has_key(k2) implies old(self).has_key(k2) by {
                        let w = choose|w: int|
                            0 <= w < self.slots@.len() && (#[trigger] self.slots@[w]).key.view_key()
                                == k2;
                        let w2 = if w < i {
                            w
                        } else {
                            w + 1
                        };
                        assert(pre[w2] == self.slots@[w]);
                    }
                    assert forall|k2: (Seq<char>, Seq<char>, Seq<char>)|
                        old(self).has_live_key(k2, now) implies self.has_live_key(k2, now) by {
                        let w = choose|w: int|
                            0 <= w < pre.len() && (#[trigger] pre[w]).key.view_key() == k2 && now
                                < pre[w].expires_at;
                        assert(w != i);
                        let w2 = if w < i {
                            w
                        } else {
                            w - 1
                        };
                        assert(self.slots@[w2] == pre[w]);
                    }
                }
            } else {
                i = i + 1;
            }
        }
    }
}

/// Copy a byte vector.
fn clone_bytes(v: &Vec<u8>) -> (r: Vec<u8>)
    ensures
        r@ == v@,
{
    let mut out: Vec<u8> = Vec::new();
    let mut i: usize = 0;
    while i < v.len()
        invariant
            0 <= i <= v@.len(),
            out@ =~= v@.take(i as int),
        decreases v@.len() - i,
    {
        out.push(v[i]);
        proof {
            assert(out@ =~= v@.take(i + 1));
        }
        i = i + 1;
    }
    proof {
        assert(v@.take(v@.len() as int) =~= v@);
    }
    out
}

/// Replacing the slot at one position with a slot of the same key
/// keeps keys unique.
proof fn lemma_set_keys(pre: ScraperCache, post: ScraperCache, i: int)
    requires
        pre.wf(),
        0 <= i < pre.slots@.len(),
        post.slots@.len() == pre.slots@.len(),
        post.slots@[i].key.view_key() == pre.slots@[i].key.view_key(),
        forall|j: int|
            0 <= j < pre.slots@.len() && j != i ==> #[trigger] post.slots@[j] == pre.slots@[j],
        post.max_capacity == pre.max_capacity,
    ensures
        post.wf(),
{
    assert forall|a: int, b: int|
        0 <= a < b < post.slots@.len() implies (#[trigger] post.slots@[a]).key.view_key() != (
    #[trigger] post.slots@[b]).key.view_key() by {
        assert(post.slots@[a].key.view_key() == pre.slots@[a].key.view_key());
        assert(post.slots@[b].key.view_key() == pre.slots@[b].key.view_key());
    }
}

/// Removing the slot at one position keeps keys unique and removes its
/// key.
proof fn lemma_remove_keys(
    pre: ScraperCache,
    post: ScraperCache,
    i: int,
    k: (Seq<char>, Seq<char>, Seq<char>),
)
    requires
        pre.wf(),
        0 <= i < pre.slots@.len(),
        pre.slots@[i].key.view_key() == k,
        post.slots@ == pre.slots@.remove(i),
        post.max_capacity == pre.max_capacity,
    ensures
        post.wf(),
        !post.has_key(k),
        forall|k2: (Seq<char>, Seq<char>, Seq<char>)|
            k2 != k ==> post.has_key(k2) == pre.has_key(k2),
{
    assert forall|a: int, b: int|
        0 <= a < b < post.slots@.len() implies (#[trigger] post.slots@[a]).key.view_key() != (
    #[trigger] post.slots@[b]).key.view_key() by {
        let a2 = if a < i {
            a
        } else {
            a + 1
        };
        let b2 = if b < i {
            b
        } else {
            b + 1
        };
        assert(post.slots@[a] == pre.slots@[a2]);
        assert(post.slots@[b] == pre.slots@[b2]);
    }
    assert forall|w: int| 0 <= w < post.slots@.len() implies (
    #[trigger] post.slots@[w]).key.view_key() != k by {
        let w2 = if w < i {
            w
        } else {
            w + 1
        };
        assert(post.slots@[w] == pre.slots@[w2]);
    }
    assert forall|k2: (Seq<char>, Seq<char>, Seq<char>)|
        k2 != k implies post.has_key(k2) == pre.has_key(k2) by {
        if pre.has_key(k2) {
            let w = choose|w: int|
                0 <= w < pre.slots@.len() && (#[trigger] pre.slots@[w]).key.view_key() == k2;
            assert(w != i);
            let w2 = if w < i {
                w
            } else {
                w - 1
            };
            assert(post.slots@[w2] == pre.slots@[w]);
        }
        if post.has_key(k2) {
            let w = choose|w: int|
                0 <= w < post.slots@.len() && (#[trigger] post.slots@[w]).key.view_key() == k2;
            let w2 = if w < i {
                w
            } else {
                w + 1
            };
            assert(pre.slots@[w2] == post.slots@[w]);
        }
    }
}

/// One maintenance removal keeps the live entries and the invariant.
proof fn lemma_maintenance_step(pre: Seq<CacheSlot>, post: Seq<CacheSlot>, i: int, now: u64)
    requires
        0 <= i < pre.len(),
        post == pre.remove(i),
        forall|a: int, b: int|
            0 <= a < b < pre.len() ==> (#[trigger] pre[a]).key.view_key() != (
            #[trigger] pre[b]).key.view_key(),
    ensures
        forall|a: int, b: int|
            0 <= a < b < post.len() ==> (#[trigger] post[a]).key.view_key() != (
            #[trigger] post[b]).key.view_key(),
{
    assert forall|a: int, b: int|
        0 <= a < b < post.len() implies (#[trigger] post[a]).key.view_key() != (
    #[trigger] post[b]).key.view_key() by {
        let a2 = if a < i {
            a
        } else {
            a + 1
        };
        let b2 = if b < i {
            b
        } else {
            b + 1
        };
        assert(post[a] == pre[a2]);
        assert(post[b] == pre[b2]);
    }
}

} // verus!
