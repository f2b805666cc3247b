//! The cache engine: a concurrent keyed store with time-to-live entries.
//!
//! Every operation takes the current monotonic time as an explicit tick
//! count, so its whole effect is stated in its contract over the store's
//! model. The caller that owns the real clock reads it and passes the
//! ticks in.

use vstd::prelude::*;

use crate::asset::{after_lookup, empty_store, lookup, stored_entry, swept, AssetView, CachedAsset};
use crate::store::{
    store_get, store_insert, store_len, store_new, store_remove, store_retain_live, store_view,
};

verus! {

/// An in-memory mapping from string key to one cached entry, with lazy
/// expiry on read and a bulk sweep of expired entries.
pub struct Cache {
    store: dashmap::DashMap<String, CachedAsset>,
}

impl View for Cache {
    type V = Map<Seq<char>, AssetView>;

    closed spec fn view(&self) -> Map<Seq<char>, AssetView> {
        store_view(self.store)
    }
}

impl Cache {
    /// The store maps finitely many keys; every operation preserves this.
    pub closed spec fn wf(&self) -> bool {
        self@.dom().finite()
    }

    /// Creates an empty cache.
    pub fn new() -> (c: Cache)
        ensures
            c@ == empty_store(),
            c.wf(),
    {
        let c = Cache { store: store_new() };
        proof {
            assert(c@.dom() =~= Set::empty());
        }
        c
    }

    /// Stores `value` under `key` with expiry `now + ttl`, replacing in
    /// full any entry previously stored under `key`. A `ttl` of zero
    /// produces an entry that is already expired at `now`.
    ///
    /// The sum `now + ttl` must fit the clock's width; on a monotonic
    /// clock that began near zero this bounds nothing a caller would ask.
    pub fn set(&mut self, key: String, value: Vec<u8>, ttl: u64, now: u64)
        requires
            old(self).wf(),
            now + ttl <= u64::MAX,
        ensures
            final(self)@ == old(self)@.insert(key@, stored_entry(value@, now, ttl)),
            final(self).wf(),
    {
        let expiry: u64 = now + ttl;
        store_insert(&mut self.store, key, CachedAsset { data: value, expiry });
    }

    /// Returns the payload stored under `key` if its entry is live at
    /// `now`; otherwise returns `None`. An entry observed expired is
    /// removed from the store as a side effect of this read, so no caller
    /// can observe a stale entry twice.
    pub fn get(&mut self, key: &str, now: u64) -> (r: Option<Vec<u8>>)
        requires
            old(self).wf(),
        ensures
            r.deep_view() == lookup(old(self)@, key@, now),
            final(self)@ == after_lookup(old(self)@, key@, now),
            final(self).wf(),
    {
        match store_get(&self.store, key) {
            Some(asset) => {
                if now < asset.expiry {
                    Some(asset.data)
                } else {
                    store_remove(&mut self.store, key);
                    None
                }
            },
            None => None,
        }
    }

    /// Removes any entry stored under `key`, live or expired. Removing an
    /// absent key leaves the store unchanged.
    pub fn remove(&mut self, key: &str)
        requires
            old(self).wf(),
        ensures
            final(self)@ == old(self)@.remove(key@),
            final(self).wf(),
    {
        store_remove(&mut self.store, key);
    }

    /// Removes every entry whose expiry has passed at `now` and leaves
    /// every live entry in place, unchanged.
    pub fn sweep(&mut self, now: u64)
        requires
            old(self).wf(),
        ensures
            final(self)@ == swept(old(self)@, now),
            final(self).wf(),
    {
        store_retain_live(&mut self.store, now);
        proof {
            assert(self@.dom().subset_of(old(self)@.dom()));
            vstd::set_lib::lemma_len_subset(self@.dom(), old(self)@.dom());
        }
    }

    /// The number of entries currently stored, live or expired.
    pub fn len(&self) -> (n: usize)
        ensures
            n == self@.dom().len(),
    {
        store_len(&self.store)
    }
}

} // verus!
