use std::collections::HashMap;
use vstd::prelude::*;

use crate::types::Identity;

verus! {

broadcast use vstd::std_specs::hash::group_hash_axioms;

/// A cached identity and the second at which it was stored.
#[derive(Clone, Debug)]
pub struct CacheEntry {
    pub identity: Identity,
    pub inserted_at: u64,
}

/// Whether an entry stored at `inserted_at` is still fresh at `now`
/// under a time-to-live of `ttl` seconds.
pub open spec fn is_fresh(inserted_at: u64, ttl: u64, now: u64) -> bool {
    now - inserted_at < ttl
}

/// What a lookup of `user_id` at `now` yields from the entries `m`.
pub open spec fn cached_lookup(m: Map<i32, CacheEntry>, ttl: u64, user_id: i32, now: u64) -> Option<
    Identity,
> {
    if m.contains_key(user_id) && is_fresh(m[user_id].inserted_at, ttl, now) {
        Some(m[user_id].identity)
    } else {
        None
    }
}

/// The entries left after a lookup of `user_id` at `now`: a stale entry is dropped.
pub open spec fn after_lookup(m: Map<i32, CacheEntry>, ttl: u64, user_id: i32, now: u64) -> Map<
    i32,
    CacheEntry,
> {
    if cached_lookup(m, ttl, user_id, now) is Some {
        m
    } else {
        m.remove(user_id)
    }
}

/// The entries after `identity` was stored at `now`.
pub open spec fn after_store(m: Map<i32, CacheEntry>, identity: Identity, now: u64) -> Map<
    i32,
    CacheEntry,
> {
    m.insert(identity.user_id, CacheEntry { identity, inserted_at: now })
}

/// Every entry is keyed by the user id of the identity it holds.
pub open spec fn keyed_by_user(m: Map<i32, CacheEntry>) -> bool {
    forall|k: i32| #[trigger] m.contains_key(k) ==> m[k].identity.user_id == k
}

/// Read-through cache from user id to identity, with a fixed time-to-live
/// and lazy eviction at access time.
pub struct IdentityCache {
    entries: HashMap<i32, CacheEntry>,
    ttl: u64,
}

impl IdentityCache {
    /// The cached entries, by user id.
    pub closed spec fn entries(&self) -> Map<i32, CacheEntry> {
        self.entries@
    }

    /// The time-to-live, in seconds.
    pub closed spec fn ttl_spec(&self) -> u64 {
        self.ttl
    }

    pub open spec fn wf(&self) -> bool {
        keyed_by_user(self.entries())
    }

    /// An empty cache whose entries stay fresh for `ttl` seconds.
    pub fn new(ttl: u64) -> (r: IdentityCache)
        ensures
            r.wf(),
            r.entries() == Map::<i32, CacheEntry>::empty(),
            r.ttl_spec() == ttl,
    {
        let r = IdentityCache { entries: HashMap::new(), ttl };
        assert(r.entries() =~= Map::<i32, CacheEntry>::empty());
        r
    }

    /// The time-to-live, in seconds.
    pub fn ttl(&self) -> (r: u64)
        ensures
            r == self.ttl_spec(),
    {
        self.ttl
    }

    /// Stores `identity` as of `now`, replacing any entry for the same user.
    pub fn store(&mut self, identity: Identity, now: u64)
        requires
            old(self).wf(),
        ensures
            final(self).wf(),
            final(self).ttl_spec() == old(self).ttl_spec(),
            final(self).entries() == after_store(old(self).entries(), identity, now),
    {
        let key = identity.user_id;
        self.entries.insert(key, CacheEntry { identity, inserted_at: now });
    }

    /// The identity cached for `user_id` if it is still fresh at `now`;
    /// a stale entry is evicted.
    pub fn get(&mut self, user_id: i32, now: u64) -> (r: Option<Identity>)
        requires
            old(self).wf(),
        ensures
            final(self).wf(),
            final(self).ttl_spec() == old(self).ttl_spec(),
            r == cached_lookup(old(self).entries(), old(self).ttl_spec(), user_id, now),
            final(self).entries() == after_lookup(
                old(self).entries(),
                old(self).ttl_spec(),
                user_id,
                now,
            ),
    {
        let fresh = match self.entries.get(&user_id) {
            Some(entry) => {
                if now >= entry.inserted_at && now - entry.inserted_at >= self.ttl {
                    None
                } else {
                    Some(entry.identity.duplicate())
                }
            },
            None => None,
        };
        if fresh.is_none() {
            self.entries.remove(&user_id);
        }
        fresh
    }

    /// Drops the entry for `user_id`, if any.
    pub fn remove(&mut self, user_id: i32)
        requires
            old(self).wf(),
        ensures
            final(self).wf(),
            final(self).ttl_spec() == old(self).ttl_spec(),
            final(self).entries() == old(self).entries().remove(user_id),
    {
        self.entries.remove(&user_id);
    }
}

} // verus!
