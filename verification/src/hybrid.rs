//! The coordinator that composes a cache tier and a persistent tier
//! behind one provider contract.
//!
//! The hybrid owns no state of its own: it is a pure coordination
//! layer over the two tiers it holds. Writes are applied to the cache
//! first, then to the persistent store, and succeed only when both
//! succeed; a persistent-side failure therefore leaves the cache ahead
//! of truth until the next successful write — an explicit trade-off in
//! favour of low-latency read consistency. Reads try the cache and
//! fall back to the persistent tier only on a cache *error*; a clean
//! "not found" from the cache is trusted as-is. Recovered role and
//! name-resolution reads repopulate the cache (read-repair); ban and
//! mute fallback reads deliberately do not, since those records
//! expire on their own and the next write refreshes the cache. The
//! per-resource provider impls on [`Hybrid`] spell these policies
//! out.

use vstd::prelude::*;

verus! {

/// A provider composing a cache tier and a persistent tier.
pub struct Hybrid<C, P> {
    /// The fast tier, consulted first on reads and written first
    pub cache: C,
    /// The durable source of truth
    pub persistent: P,
}

impl<C, P> Hybrid<C, P> {
    /// Composes the two given tiers.
    pub fn new(cache: C, persistent: P) -> (r: Self)
        ensures
            r == (Hybrid { cache, persistent }),
    {
        Hybrid { cache, persistent }
    }
}

} // verus!
