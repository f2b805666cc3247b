//! The trusted boundary around the concurrent map that backs the cache.
//!
//! The store is a `dashmap::DashMap` from key to [`CachedAsset`]. Its
//! contents are named by the uninterpreted function [`store_view`]; each
//! wrapper below states, over that name, what the called method does, as
//! dashmap's documentation and source show. Everything above this module
//! is verified against these contracts.

use vstd::prelude::*;

use crate::asset::{empty_store, live, swept, AssetView, CachedAsset};

verus! {

#[verifier::external_type_specification]
#[verifier::external_body]
#[verifier::reject_recursive_types(K)]
#[verifier::reject_recursive_types(V)]
#[verifier::reject_recursive_types(S)]
pub struct ExDashMap<K, V, S>(dashmap::DashMap<K, V, S>);

/// The contents of the backing map: each stored key, with the view of the
/// entry stored under it.
pub uninterp spec fn store_view(m: dashmap::DashMap<String, CachedAsset>) -> Map<Seq<char>, AssetView>;

/// Relies on dashmap::DashMap::new: it returns a map with no entries.
#[verifier::external_body]
pub(crate) fn store_new() -> (m: dashmap::DashMap<String, CachedAsset>)
    ensures
        store_view(m) == empty_store(),
{
    dashmap::DashMap::new()
}

/// Relies on dashmap::DashMap::insert: it maps `key` to `value`,
/// replacing in full any entry previously stored under `key`.
#[verifier::external_body]
pub(crate) fn store_insert(m: &mut dashmap::DashMap<String, CachedAsset>, key: String, value: CachedAsset)
    ensures
        store_view(*final(m)) == store_view(*old(m)).insert(key@, value@),
{
    m.insert(key, value);
}

/// Relies on dashmap::DashMap::get: it returns the entry stored under
/// `key`, or `None` when the map holds no entry under `key`. The returned
/// entry is handed out as a copy of the stored one.
#[verifier::external_body]
pub(crate) fn store_get(m: &dashmap::DashMap<String, CachedAsset>, key: &str) -> (r: Option<CachedAsset>)
    ensures
        match r {
            Some(a) => store_view(*m).dom().contains(key@) && a@ == store_view(*m)[key@],
            None => !store_view(*m).dom().contains(key@),
        },
{
    m.get(key).map(|entry| entry.value().clone())
}

/// Relies on dashmap::DashMap::remove: it removes the entry stored under
/// `key`, if any, and leaves every other entry in place.
#[verifier::external_body]
pub(crate) fn store_remove(m: &mut dashmap::DashMap<String, CachedAsset>, key: &str)
    ensures
        store_view(*final(m)) == store_view(*old(m)).remove(key@),
{
    m.remove(key);
}

/// Relies on dashmap::DashMap::retain: it keeps exactly the entries on
/// which the given closure returns true. The closure here returns, by the
/// contract of [`asset_is_live`], whether the entry is live at `now`.
#[verifier::external_body]
pub(crate) fn store_retain_live(m: &mut dashmap::DashMap<String, CachedAsset>, now: u64)
    ensures
        store_view(*final(m)) == swept(store_view(*old(m)), now),
{
    m.retain(|_, a| asset_is_live(a, now));
}

/// Relies on dashmap::DashMap::len: it returns the number of entries in
/// the map.
#[verifier::external_body]
pub(crate) fn store_len(m: &dashmap::DashMap<String, CachedAsset>) -> (n: usize)
    ensures
        n == store_view(*m).dom().len(),
{
    m.len()
}

/// Whether `a` is live at `now`: its expiry is strictly in the future.
pub(crate) fn asset_is_live(a: &CachedAsset, now: u64) -> (r: bool)
    ensures
        r == live(a@, now),
{
    now < a.expiry
}

} // verus!
