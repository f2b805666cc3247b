//! Laws of the cache engine, stated over the store's model.
//!
//! Each proof function below states one property of the engine in terms
//! of the spec functions that the contracts of [`crate::cache::Cache`]'s
//! methods use, so the property holds of any sequence of calls through
//! those contracts.

use vstd::prelude::*;

use crate::asset::{after_lookup, live, lookup, stored_entry, swept, AssetView};

verus! {

/// Time-to-live correctness: immediately after storing `p` under `k` at
/// time `now` with a positive time-to-live `t`, a read of `k` at `now`
/// returns `p`; once the clock has passed `now + t`, a read of `k`
/// returns absent.
pub proof fn lemma_ttl_correctness(
    m: Map<Seq<char>, AssetView>,
    k: Seq<char>,
    p: Seq<u8>,
    t: u64,
    now: u64,
    later: u64,
)
    requires
        now + t <= u64::MAX,
        t > 0,
    ensures
        lookup(m.insert(k, stored_entry(p, now, t)), k, now) == Some(p),
        later >= now + t ==> lookup(m.insert(k, stored_entry(p, now, t)), k, later)
            == None::<Seq<u8>>,
{
}

/// Zero-time-to-live immediacy: an entry stored at time `now` with a
/// time-to-live of zero is already expired at `now`, so a read of its key
/// at `now` (or any later time) returns absent.
pub proof fn lemma_zero_ttl_immediacy(
    m: Map<Seq<char>, AssetView>,
    k: Seq<char>,
    p: Seq<u8>,
    now: u64,
    later: u64,
)
    requires
        later >= now,
    ensures
        lookup(m.insert(k, stored_entry(p, now, 0)), k, later) == None::<Seq<u8>>,
{
}

/// Overwrite semantics: storing under a key that already holds an entry
/// replaces that entry in full. The store after the two writes equals the
/// store after the second alone, so a read observes the second payload
/// with the expiry of the second write, never a blend of the two.
pub proof fn lemma_overwrite(
    m: Map<Seq<char>, AssetView>,
    k: Seq<char>,
    e1: AssetView,
    e2: AssetView,
    now: u64,
)
    ensures
        m.insert(k, e1).insert(k, e2) == m.insert(k, e2),
        m.insert(k, e1).insert(k, e2)[k] == e2,
        lookup(m.insert(k, e1).insert(k, e2), k, now) == (if live(e2, now) {
            Some(e2.data)
        } else {
            None
        }),
{
    assert(m.insert(k, e1).insert(k, e2) =~= m.insert(k, e2));
}

/// Lazy deletion: a read of a key whose entry has expired returns absent
/// and removes the entry, so the number of stored entries decreases by
/// exactly one as a result of that read.
pub proof fn lemma_lazy_deletion(m: Map<Seq<char>, AssetView>, k: Seq<char>, now: u64)
    requires
        m.dom().finite(),
        m.dom().contains(k),
        !live(m[k], now),
    ensures
        lookup(m, k, now) == None::<Seq<u8>>,
        !after_lookup(m, k, now).dom().contains(k),
        after_lookup(m, k, now).dom().len() == m.dom().len() - 1,
{
}

/// Delete idempotence: removing a key with no entry leaves the store
/// unchanged, and after a removal a read of the key returns absent.
pub proof fn lemma_delete_idempotence(m: Map<Seq<char>, AssetView>, k: Seq<char>, now: u64)
    ensures
        !m.dom().contains(k) ==> m.remove(k) == m,
        lookup(m.remove(k), k, now) == None::<Seq<u8>>,
{
    if !m.dom().contains(k) {
        assert(m.remove(k) =~= m);
    }
}

/// Sweep correctness: a sweep at time `now` removes exactly the entries
/// whose expiry has passed at `now` and keeps every other entry
/// unchanged. The result depends only on the store's contents, not on the
/// order in which they were inserted.
pub proof fn lemma_sweep_correctness(m: Map<Seq<char>, AssetView>, now: u64, k: Seq<char>)
    ensures
        swept(m, now).dom().contains(k) <==> (m.dom().contains(k) && live(m[k], now)),
        swept(m, now).dom().contains(k) ==> swept(m, now)[k] == m[k],
        swept(m, now).dom().contains(k) ==> lookup(swept(m, now), k, now) == lookup(m, k, now),
        !(m.dom().contains(k) && live(m[k], now)) ==> lookup(swept(m, now), k, now)
            == None::<Seq<u8>>,
{
}

/// Cross-key independence: a write, a read (with its possible lazy
/// removal) or a removal on key `k` leaves the entry under any other key
/// `j` exactly as it was — present with the same view, or absent.
pub proof fn lemma_cross_key_independence(
    m: Map<Seq<char>, AssetView>,
    k: Seq<char>,
    j: Seq<char>,
    e: AssetView,
    now: u64,
)
    requires
        j != k,
    ensures
        lookup(m.insert(k, e), j, now) == lookup(m, j, now),
        lookup(after_lookup(m, k, now), j, now) == lookup(m, j, now),
        lookup(m.remove(k), j, now) == lookup(m, j, now),
        m.insert(k, e).dom().contains(j) <==> m.dom().contains(j),
        m.dom().contains(j) ==> m.insert(k, e)[j] == m[j],
        after_lookup(m, k, now).dom().contains(j) <==> m.dom().contains(j),
        m.dom().contains(j) ==> after_lookup(m, k, now)[j] == m[j],
        m.remove(k).dom().contains(j) <==> m.dom().contains(j),
        m.dom().contains(j) ==> m.remove(k)[j] == m[j],
{
}

/// Cross-key commutation: two writes on distinct keys reach the same
/// store in either order, so no interleaving of them can lose an entry.
pub proof fn lemma_set_commutes_across_keys(
    m: Map<Seq<char>, AssetView>,
    k: Seq<char>,
    j: Seq<char>,
    e1: AssetView,
    e2: AssetView,
)
    requires
        j != k,
    ensures
        m.insert(k, e1).insert(j, e2) == m.insert(j, e2).insert(k, e1),
{
    assert(m.insert(k, e1).insert(j, e2) =~= m.insert(j, e2).insert(k, e1));
}

} // verus!
