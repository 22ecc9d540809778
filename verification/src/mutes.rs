//! The mutes service: setting, registering, fetching and testing
//! mutes against any provider backend.
//!
//! Every backend answers from a pair of logical views — `truth`, what
//! the durable side holds, and `visible`, what low-latency reads may
//! see. A single physical store (the cache tier alone, or the
//! persistent tier alone) keeps the two views equal; the hybrid
//! coordinator's truth is its persistent tier and its visible state is
//! its cache tier, which may run ahead after a partial write failure.

use vstd::prelude::*;

use crate::hybrid::Hybrid;
use crate::mute::Mute;
use crate::providers::{
    read_fault_error, spec_read_error, spec_write_error, write_fault_error, Cache, Fault,
    Persistent, ProviderError, TierKind,
};

verus! {

/// The record stored for `id`, if any.
pub open spec fn mute_lookup(m: Map<u64, Mute>, id: u64) -> Option<Mute> {
    if m.contains_key(id) {
        Some(m[id])
    } else {
        None
    }
}

/// Whether `m` holds a mute for `id` that is active at `now`.
pub open spec fn mute_active(m: Map<u64, Mute>, id: u64, now: u64) -> bool {
    m.contains_key(id) && m[id].spec_active(now)
}

/// An arbitrary backend for the mutes service. Backends may be used
/// in conjunction: the hybrid coordinator composes two of them.
pub trait Provider: Sized {
    /// The durable view of the mute store.
    open spec fn mute_truth(&self) -> Map<u64, Mute> {
        Map::empty()
    }

    /// The view low-latency reads may see.
    open spec fn mute_visible(&self) -> Map<u64, Mute> {
        Map::empty()
    }

    /// Whether this backend is one physical store, so that both views
    /// always coincide.
    open spec fn mute_unified(&self) -> bool {
        false
    }

    /// The backend's internal invariant.
    open spec fn mutes_wf(&self) -> bool {
        false
    }

    /// Reads never fail on this backend.
    open spec fn mute_reads_ok(&self) -> bool {
        false
    }

    /// Writes never fail on this backend.
    open spec fn mute_writes_ok(&self) -> bool {
        false
    }

    /// Every read fails on this backend.
    open spec fn mute_reads_fail(&self) -> bool {
        false
    }

    /// Every write fails on this backend.
    open spec fn mute_writes_fail(&self) -> bool {
        false
    }

    /// Sets a user's muted status. Muting writes a fresh record
    /// initiated at `now` and requires a duration; unmuting deletes
    /// the record. Returns whether the user already had an active
    /// mute.
    fn set_muted(&mut self, user_id: u64, muted: bool, duration: Option<u64>, now: u64) -> (r:
        Result<bool, ProviderError>)
        requires
            old(self).mutes_wf(),
        ensures
            final(self).mutes_wf(),
            final(self).mute_reads_ok() == old(self).mute_reads_ok(),
            final(self).mute_writes_ok() == old(self).mute_writes_ok(),
            final(self).mute_reads_fail() == old(self).mute_reads_fail(),
            final(self).mute_writes_fail() == old(self).mute_writes_fail(),
            final(self).mute_unified() == old(self).mute_unified(),
            old(self).mute_unified() ==> final(self).mute_truth() == final(self).mute_visible(),
            muted && duration is None ==> {
                &&& r matches Err(ProviderError::MissingArgument { arg })
                &&& arg@ == "duration"@
            },
            !(muted && duration is None) ==> {
                &&& (old(self).mute_writes_ok() ==> r is Ok)
                &&& (old(self).mute_writes_fail() ==> r is Err)
            },
            r matches Ok(was) ==> {
                &&& (was == mute_active(old(self).mute_truth(), user_id, now) || was
                    == mute_active(old(self).mute_visible(), user_id, now))
                &&& (muted ==> {
                    &&& duration matches Some(d)
                    &&& final(self).mute_truth() == old(self).mute_truth().insert(
                        user_id,
                        (Mute { user_id, duration: d, initiated_at: now }),
                    )
                    &&& final(self).mute_visible() == old(self).mute_visible().insert(
                        user_id,
                        (Mute { user_id, duration: d, initiated_at: now }),
                    )
                })
                &&& (!muted ==> final(self).mute_truth() == old(self).mute_truth().remove(user_id)
                    && final(self).mute_visible() == old(self).mute_visible().remove(user_id))
            },
    ;

    /// Registers a fully formed mute record, replacing any previous
    /// one and returning it.
    fn register_mute(&mut self, mute: &Mute) -> (r: Result<Option<Mute>, ProviderError>)
        requires
            old(self).mutes_wf(),
        ensures
            final(self).mutes_wf(),
            final(self).mute_reads_ok() == old(self).mute_reads_ok(),
            final(self).mute_writes_ok() == old(self).mute_writes_ok(),
            final(self).mute_reads_fail() == old(self).mute_reads_fail(),
            final(self).mute_writes_fail() == old(self).mute_writes_fail(),
            final(self).mute_unified() == old(self).mute_unified(),
            old(self).mute_unified() ==> final(self).mute_truth() == final(self).mute_visible(),
            old(self).mute_writes_ok() ==> r is Ok,
            old(self).mute_writes_fail() ==> r is Err,
            r matches Ok(prev) ==> {
                &&& final(self).mute_truth() == old(self).mute_truth().insert(mute.user_id, *mute)
                &&& final(self).mute_visible() == old(self).mute_visible().insert(
                    mute.user_id,
                    *mute,
                )
                &&& (prev == mute_lookup(old(self).mute_truth(), mute.user_id) || prev
                    == mute_lookup(old(self).mute_visible(), mute.user_id))
            },
    ;

    /// Fetches the mute record for the given user, whether or not it
    /// is still active. A user with no record yields `Ok(None)`,
    /// never an error.
    fn get_mute(&mut self, user_id: u64) -> (r: Result<Option<Mute>, ProviderError>)
        requires
            old(self).mutes_wf(),
        ensures
            final(self).mutes_wf(),
            final(self).mute_reads_ok() == old(self).mute_reads_ok(),
            final(self).mute_writes_ok() == old(self).mute_writes_ok(),
            final(self).mute_reads_fail() == old(self).mute_reads_fail(),
            final(self).mute_writes_fail() == old(self).mute_writes_fail(),
            final(self).mute_unified() == old(self).mute_unified(),
            old(self).mute_unified() ==> final(self).mute_truth() == final(self).mute_visible(),
            final(self).mute_truth() == old(self).mute_truth(),
            final(self).mute_visible() == old(self).mute_visible(),
            old(self).mute_reads_ok() ==> r is Ok,
            old(self).mute_reads_fail() ==> r is Err,
            r matches Ok(m) ==> (m == mute_lookup(old(self).mute_truth(), user_id) || m
                == mute_lookup(old(self).mute_visible(), user_id)),
    ;

    /// Whether the given user is muted at `now`: a record must both
    /// exist and still be active. Absence yields `Ok(false)`.
    fn is_muted(&mut self, user_id: u64, now: u64) -> (r: Result<bool, ProviderError>)
        requires
            old(self).mutes_wf(),
        ensures
            final(self).mutes_wf(),
            final(self).mute_reads_ok() == old(self).mute_reads_ok(),
            final(self).mute_writes_ok() == old(self).mute_writes_ok(),
            final(self).mute_reads_fail() == old(self).mute_reads_fail(),
            final(self).mute_writes_fail() == old(self).mute_writes_fail(),
            final(self).mute_unified() == old(self).mute_unified(),
            old(self).mute_unified() ==> final(self).mute_truth() == final(self).mute_visible(),
            final(self).mute_truth() == old(self).mute_truth(),
            final(self).mute_visible() == old(self).mute_visible(),
            old(self).mute_reads_ok() ==> r is Ok,
            old(self).mute_reads_fail() ==> r is Err,
            r matches Ok(b) ==> (b == mute_active(old(self).mute_truth(), user_id, now) || b
                == mute_active(old(self).mute_visible(), user_id, now)),
    ;
}

impl Provider for Cache {
    open spec fn mute_truth(&self) -> Map<u64, Mute> {
        self.mutes@
    }

    open spec fn mute_visible(&self) -> Map<u64, Mute> {
        self.mutes@
    }

    open spec fn mute_unified(&self) -> bool {
        true
    }

    open spec fn mutes_wf(&self) -> bool {
        self.inv()
    }

    open spec fn mute_reads_ok(&self) -> bool {
        self.fault == Fault::Off
    }

    open spec fn mute_writes_ok(&self) -> bool {
        self.fault == Fault::Off || self.fault == Fault::ReadTransport
    }

    open spec fn mute_reads_fail(&self) -> bool {
        self.fault != Fault::Off
    }

    open spec fn mute_writes_fail(&self) -> bool {
        self.fault == Fault::Transport || self.fault == Fault::Serialization
    }

    /// Unmuting deletes the cache key; muting swaps in a fresh record
    /// atomically and reports whether the old one was active. A
    /// failure leaves the store untouched and is never a
    /// missing-argument error unless the duration was missing.
    fn set_muted(&mut self, user_id: u64, muted: bool, duration: Option<u64>, now: u64) -> (r:
        Result<bool, ProviderError>)
        ensures
            r is Err ==> *final(self) == *old(self),
            r matches Err(e) ==> (muted && duration is None) || spec_write_error(
                e,
                old(self).fault,
                TierKind::Cache,
            ),
    {
        if muted {
            let d = match duration {
                Some(d) => d,
                None => {
                    return Err(ProviderError::MissingArgument { arg: "duration" });
                },
            };
            match self.register_mute(&Mute { user_id, duration: d, initiated_at: now }) {
                Ok(prev) => Ok(
                    match prev {
                        Some(m) => m.active_at(now),
                        None => false,
                    },
                ),
                Err(e) => Err(e),
            }
        } else {
            match write_fault_error(self.fault, TierKind::Cache) {
                Some(e) => Err(e),
                None => {
                    let prev = self.mutes.remove(user_id);
                    Ok(
                        match prev {
                            Some(m) => m.active_at(now),
                            None => false,
                        },
                    )
                },
            }
        }
    }

    /// Atomic get-and-set on the mute key: stores the record and hands
    /// back the one it replaced. A failure leaves the store untouched.
    fn register_mute(&mut self, mute: &Mute) -> (r: Result<Option<Mute>, ProviderError>)
        ensures
            r is Err ==> *final(self) == *old(self),
            r matches Err(e) ==> spec_write_error(e, old(self).fault, TierKind::Cache),
    {
        match write_fault_error(self.fault, TierKind::Cache) {
            Some(e) => Err(e),
            None => Ok(self.mutes.insert(mute.user_id, *mute)),
        }
    }

    /// Point lookup on the mute key; a missing key is `Ok(None)`.
    fn get_mute(&mut self, user_id: u64) -> (r: Result<Option<Mute>, ProviderError>)
        ensures
            *final(self) == *old(self),
            r matches Err(e) ==> spec_read_error(e, old(self).fault, TierKind::Cache),
    {
        match read_fault_error(self.fault, TierKind::Cache) {
            Some(e) => Err(e),
            None => Ok(
                match self.mutes.get(user_id) {
                    Some(m) => Some(*m),
                    None => None,
                },
            ),
        }
    }

    /// Fetch, then evaluate activity; absence defaults to false.
    fn is_muted(&mut self, user_id: u64, now: u64) -> (r: Result<bool, ProviderError>)
        ensures
            *final(self) == *old(self),
            r matches Err(e) ==> spec_read_error(e, old(self).fault, TierKind::Cache),
    {
        match self.get_mute(user_id) {
            Ok(Some(m)) => Ok(m.active_at(now)),
            Ok(None) => Ok(false),
            Err(e) => Err(e),
        }
    }
}

impl Provider for Persistent {
    open spec fn mute_truth(&self) -> Map<u64, Mute> {
        self.mutes@
    }

    open spec fn mute_visible(&self) -> Map<u64, Mute> {
        self.mutes@
    }

    open spec fn mute_unified(&self) -> bool {
        true
    }

    open spec fn mutes_wf(&self) -> bool {
        self.inv()
    }

    open spec fn mute_reads_ok(&self) -> bool {
        self.fault == Fault::Off
    }

    open spec fn mute_writes_ok(&self) -> bool {
        self.fault == Fault::Off || self.fault == Fault::ReadTransport
    }

    open spec fn mute_reads_fail(&self) -> bool {
        self.fault != Fault::Off
    }

    open spec fn mute_writes_fail(&self) -> bool {
        self.fault == Fault::Transport || self.fault == Fault::Serialization
    }

    /// Unmuting deletes the row; muting upserts a fresh row and
    /// reports whether the replaced row was active. A failure leaves
    /// the table untouched and is never a missing-argument error
    /// unless the duration was missing.
    fn set_muted(&mut self, user_id: u64, muted: bool, duration: Option<u64>, now: u64) -> (r:
        Result<bool, ProviderError>)
        ensures
            r is Err ==> *final(self) == *old(self),
            r matches Err(e) ==> (muted && duration is None) || spec_write_error(
                e,
                old(self).fault,
                TierKind::Persistent,
            ),
    {
        if muted {
            let d = match duration {
                Some(d) => d,
                None => {
                    return Err(ProviderError::MissingArgument { arg: "duration" });
                },
            };
            match self.register_mute(&Mute { user_id, duration: d, initiated_at: now }) {
                Ok(prev) => Ok(
                    match prev {
                        Some(m) => m.active_at(now),
                        None => false,
                    },
                ),
                Err(e) => Err(e),
            }
        } else {
            match write_fault_error(self.fault, TierKind::Persistent) {
                Some(e) => Err(e),
                None => {
                    let prev = self.mutes.remove(user_id);
                    Ok(
                        match prev {
                            Some(m) => m.active_at(now),
                            None => false,
                        },
                    )
                },
            }
        }
    }

    /// Upsert by primary key, returning the previous row if one
    /// existed. A failure leaves the table untouched.
    fn register_mute(&mut self, mute: &Mute) -> (r: Result<Option<Mute>, ProviderError>)
        ensures
            r is Err ==> *final(self) == *old(self),
            r matches Err(e) ==> spec_write_error(e, old(self).fault, TierKind::Persistent),
    {
        match write_fault_error(self.fault, TierKind::Persistent) {
            Some(e) => Err(e),
            None => Ok(self.mutes.insert(mute.user_id, *mute)),
        }
    }

    /// Point lookup by primary key; the store's "not found" is
    /// translated to `Ok(None)`, never propagated as an error.
    fn get_mute(&mut self, user_id: u64) -> (r: Result<Option<Mute>, ProviderError>)
        ensures
            *final(self) == *old(self),
            r matches Err(e) ==> spec_read_error(e, old(self).fault, TierKind::Persistent),
    {
        match read_fault_error(self.fault, TierKind::Persistent) {
            Some(e) => Err(e),
            None => Ok(
                match self.mutes.get(user_id) {
                    Some(m) => Some(*m),
                    None => None,
                },
            ),
        }
    }

    /// Fetch, then evaluate activity; absence defaults to false.
    fn is_muted(&mut self, user_id: u64, now: u64) -> (r: Result<bool, ProviderError>)
        ensures
            *final(self) == *old(self),
            r matches Err(e) ==> spec_read_error(e, old(self).fault, TierKind::Persistent),
    {
        match self.get_mute(user_id) {
            Ok(Some(m)) => Ok(m.active_at(now)),
            Ok(None) => Ok(false),
            Err(e) => Err(e),
        }
    }
}

impl<C: Provider, P: Provider> Provider for Hybrid<C, P> {
    open spec fn mute_truth(&self) -> Map<u64, Mute> {
        self.persistent.mute_truth()
    }

    open spec fn mute_visible(&self) -> Map<u64, Mute> {
        self.cache.mute_visible()
    }

    open spec fn mute_unified(&self) -> bool {
        false
    }

    open spec fn mutes_wf(&self) -> bool {
        &&& self.cache.mutes_wf()
        &&& self.persistent.mutes_wf()
        &&& self.cache.mute_unified()
        &&& self.persistent.mute_unified()
        &&& self.cache.mute_truth() == self.cache.mute_visible()
        &&& self.persistent.mute_truth() == self.persistent.mute_visible()
    }

    open spec fn mute_reads_ok(&self) -> bool {
        self.cache.mute_reads_ok() || self.persistent.mute_reads_ok()
    }

    open spec fn mute_writes_ok(&self) -> bool {
        self.cache.mute_writes_ok() && self.persistent.mute_writes_ok()
    }

    open spec fn mute_reads_fail(&self) -> bool {
        self.cache.mute_reads_fail() && self.persistent.mute_reads_fail()
    }

    open spec fn mute_writes_fail(&self) -> bool {
        self.cache.mute_writes_fail() || self.persistent.mute_writes_fail()
    }

    /// Applies the write to the cache first, then to the persistent
    /// tier; the overall result is a success only if both succeeded,
    /// and its value is the persistent tier's answer.
    fn set_muted(&mut self, user_id: u64, muted: bool, duration: Option<u64>, now: u64) -> (r:
        Result<bool, ProviderError>)
        ensures
            r matches Ok(was) ==> was == mute_active(
                old(self).persistent.mute_truth(),
                user_id,
                now,
            ),
    {
        let c = self.cache.set_muted(user_id, muted, duration, now);
        let p = self.persistent.set_muted(user_id, muted, duration, now);
        match c {
            Ok(_) => p,
            Err(e) => Err(e),
        }
    }

    /// Applies the write to the cache first, then to the persistent
    /// tier; the overall result is a success only if both succeeded,
    /// and the returned previous record is the persistent tier's.
    fn register_mute(&mut self, mute: &Mute) -> (r: Result<Option<Mute>, ProviderError>)
        ensures
            r matches Ok(prev) ==> prev == mute_lookup(
                old(self).persistent.mute_truth(),
                mute.user_id,
            ),
    {
        let c = self.cache.register_mute(mute);
        let p = self.persistent.register_mute(mute);
        match c {
            Ok(_) => p,
            Err(e) => Err(e),
        }
    }

    /// Tries the cache; only a cache *error* falls back to the
    /// persistent tier. A clean answer from the cache, including a
    /// clean miss, is trusted as-is. Mute reads do not repopulate the
    /// cache.
    fn get_mute(&mut self, user_id: u64) -> (r: Result<Option<Mute>, ProviderError>)
        ensures
            old(self).cache.mute_reads_ok() ==> {
                &&& r matches Ok(m)
                &&& m == mute_lookup(old(self).cache.mute_truth(), user_id)
            },
            old(self).cache.mute_reads_fail() && old(self).persistent.mute_reads_ok() ==> {
                &&& r matches Ok(m)
                &&& m == mute_lookup(old(self).persistent.mute_truth(), user_id)
            },
    {
        match self.cache.get_mute(user_id) {
            Ok(m) => Ok(m),
            Err(_) => self.persistent.get_mute(user_id),
        }
    }

    /// Tries the cache; only a cache *error* falls back to the
    /// persistent tier. A clean "not muted" from the cache is trusted
    /// as-is.
    fn is_muted(&mut self, user_id: u64, now: u64) -> (r: Result<bool, ProviderError>)
        ensures
            old(self).cache.mute_reads_fail() && old(self).persistent.mute_reads_ok() ==> {
                &&& r matches Ok(b)
                &&& b == mute_active(old(self).persistent.mute_truth(), user_id, now)
            },
            old(self).cache.mute_reads_ok() ==> {
                &&& r matches Ok(b)
                &&& b == mute_active(old(self).cache.mute_truth(), user_id, now)
            },
    {
        match self.cache.is_muted(user_id, now) {
            Ok(b) => Ok(b),
            Err(_) => self.persistent.is_muted(user_id, now),
        }
    }
}

} // verus!
