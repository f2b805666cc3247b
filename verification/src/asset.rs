//! The cache entry and the mathematical model of the store.
//!
//! A stored entry pairs an opaque payload with an absolute expiry instant
//! on a monotonic clock, modelled as a `u64` tick count. The store itself
//! is modelled as a `Map` from the key's characters to the entry's view.

use vstd::prelude::*;

verus! {

/// A cached entry: an opaque payload and the absolute instant, in
/// monotonic clock ticks, after which the entry is invalid.
#[derive(Clone)]
pub struct CachedAsset {
    pub data: Vec<u8>,
    pub expiry: u64,
}

/// The mathematical view of a cache entry.
pub struct AssetView {
    pub data: Seq<u8>,
    pub expiry: u64,
}

impl View for CachedAsset {
    type V = AssetView;

    open spec fn view(&self) -> AssetView {
        AssetView { data: self.data@, expiry: self.expiry }
    }
}

/// The model of a store with no entries.
pub open spec fn empty_store() -> Map<Seq<char>, AssetView> {
    Map::empty()
}

/// The entry written by storing payload `p` at time `now` with
/// time-to-live `t`: its expiry is the absolute instant `now + t`.
pub open spec fn stored_entry(p: Seq<u8>, now: u64, t: u64) -> AssetView
    recommends
        now + t <= u64::MAX,
{
    AssetView { data: p, expiry: (now + t) as u64 }
}

/// An entry is live at `now` exactly when its expiry is strictly in the
/// future; an entry whose expiry equals `now` is already expired.
pub open spec fn live(a: AssetView, now: u64) -> bool {
    now < a.expiry
}

/// What a read of `k` at time `now` observes: the payload of a live entry,
/// or nothing when the key is absent or its entry has expired.
pub open spec fn lookup(m: Map<Seq<char>, AssetView>, k: Seq<char>, now: u64) -> Option<Seq<u8>> {
    if m.dom().contains(k) && live(m[k], now) {
        Some(m[k].data)
    } else {
        None
    }
}

/// The store after a read of `k` at time `now`: an entry observed expired
/// is removed as a side effect of the read; otherwise the store is
/// unchanged.
pub open spec fn after_lookup(
    m: Map<Seq<char>, AssetView>,
    k: Seq<char>,
    now: u64,
) -> Map<Seq<char>, AssetView> {
    if m.dom().contains(k) && !live(m[k], now) {
        m.remove(k)
    } else {
        m
    }
}

/// The store after a sweep at time `now`: exactly the entries live at
/// `now` remain, each unchanged.
pub open spec fn swept(m: Map<Seq<char>, AssetView>, now: u64) -> Map<Seq<char>, AssetView> {
    Map::new(
        |k: Seq<char>| m.dom().contains(k) && live(m[k], now),
        |k: Seq<char>| m[k],
    )
}

} // verus!
