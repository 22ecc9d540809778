//! The name-resolution service: the bidirectional association between
//! usernames and user IDs.
//!
//! Each backend keeps the two directions as separate maps, so a
//! partial failure can leave them briefly inconsistent; that risk is
//! accepted and documented rather than masked. In the persistent tier
//! the username-to-ID table is upserted freely, while the canonical
//! ID-to-username record is updated only for users that exist.

use vstd::prelude::*;
use vstd::string::StringExecFns;

use crate::hybrid::Hybrid;
use crate::providers::{
    read_fault_error, spec_read_error, spec_write_error, string_views, write_fault_error, Cache,
    Fault, Persistent, ProviderError, TierKind,
};

verus! {

/// The ID stored under `name`, if any.
pub open spec fn id_lookup(m: Map<Seq<char>, u64>, name: Seq<char>) -> Option<u64> {
    if m.contains_key(name) {
        Some(m[name])
    } else {
        None
    }
}

/// The name stored under `id`, if any.
pub open spec fn name_lookup(m: Map<u64, Seq<char>>, id: u64) -> Option<Seq<char>> {
    if m.contains_key(id) {
        Some(m[id])
    } else {
        None
    }
}

/// The characters of an optional owned string.
pub open spec fn opt_name_view(v: Option<String>) -> Option<Seq<char>> {
    match v {
        Some(s) => Some(s@),
        None => None,
    }
}

/// An arbitrary backend for the name-resolution service. Backends may
/// be used in conjunction: the hybrid coordinator composes two of
/// them.
pub trait Provider: Sized {
    /// The durable view of the username-to-ID direction.
    open spec fn id_by_name_truth(&self) -> Map<Seq<char>, u64> {
        Map::empty()
    }

    /// The username-to-ID direction low-latency reads may see.
    open spec fn id_by_name_visible(&self) -> Map<Seq<char>, u64> {
        Map::empty()
    }

    /// The durable view of the ID-to-username direction.
    open spec fn name_by_id_truth(&self) -> Map<u64, Seq<char>> {
        Map::empty()
    }

    /// The ID-to-username direction low-latency reads may see.
    open spec fn name_by_id_visible(&self) -> Map<u64, Seq<char>> {
        Map::empty()
    }

    /// Whether this backend is one physical store, so that the
    /// durable and visible views always coincide.
    open spec fn names_unified(&self) -> bool {
        false
    }

    /// The backend's internal invariant.
    open spec fn names_wf(&self) -> bool {
        false
    }

    /// Reads never fail on this backend.
    open spec fn name_reads_ok(&self) -> bool {
        false
    }

    /// Writes never fail on this backend.
    open spec fn name_writes_ok(&self) -> bool {
        false
    }

    /// Every read fails on this backend.
    open spec fn name_reads_fail(&self) -> bool {
        false
    }

    /// Every write fails on this backend.
    open spec fn name_writes_fail(&self) -> bool {
        false
    }

    /// The user ID the given username maps to, or `None` when no
    /// mapping exists. A backend with a read-repair policy may
    /// repopulate its visible mapping on a recovered hit.
    fn user_id_for(&mut self, username: &str) -> (r: Result<Option<u64>, ProviderError>)
        requires
            old(self).names_wf(),
        ensures
            final(self).names_wf(),
            final(self).name_reads_ok() == old(self).name_reads_ok(),
            final(self).name_writes_ok() == old(self).name_writes_ok(),
            final(self).name_reads_fail() == old(self).name_reads_fail(),
            final(self).name_writes_fail() == old(self).name_writes_fail(),
            final(self).names_unified() == old(self).names_unified(),
            old(self).names_unified() ==> {
                &&& final(self).id_by_name_truth() == final(self).id_by_name_visible()
                &&& final(self).name_by_id_truth() == final(self).name_by_id_visible()
                &&& final(self).id_by_name_visible() == old(self).id_by_name_visible()
                &&& final(self).name_by_id_visible() == old(self).name_by_id_visible()
            },
            final(self).id_by_name_truth() == old(self).id_by_name_truth(),
            final(self).name_by_id_truth() == old(self).name_by_id_truth(),
            old(self).name_reads_ok() ==> r is Ok,
            old(self).name_reads_fail() ==> r is Err,
            r matches Ok(v) ==> {
                &&& (v == id_lookup(old(self).id_by_name_truth(), username@) || v == id_lookup(
                    old(self).id_by_name_visible(),
                    username@,
                ))
                &&& ((final(self).id_by_name_visible() == old(self).id_by_name_visible() && final(self).name_by_id_visible() == old(self).name_by_id_visible()) || (v matches Some(id)
                    && final(self).id_by_name_visible() == old(self).id_by_name_visible().insert(
                    username@,
                    id,
                ) && (final(self).name_by_id_visible() == old(self).name_by_id_visible().insert(
                    id,
                    username@,
                ) || final(self).name_by_id_visible() == old(self).name_by_id_visible())))
            },
    ;

    /// The username the given user ID maps to, or `None` when no
    /// mapping exists. A backend with a read-repair policy may
    /// repopulate its visible mapping on a recovered hit.
    fn username_for(&mut self, user_id: u64) -> (r: Result<Option<String>, ProviderError>)
        requires
            old(self).names_wf(),
        ensures
            final(self).names_wf(),
            final(self).name_reads_ok() == old(self).name_reads_ok(),
            final(self).name_writes_ok() == old(self).name_writes_ok(),
            final(self).name_reads_fail() == old(self).name_reads_fail(),
            final(self).name_writes_fail() == old(self).name_writes_fail(),
            final(self).names_unified() == old(self).names_unified(),
            old(self).names_unified() ==> {
                &&& final(self).id_by_name_truth() == final(self).id_by_name_visible()
                &&& final(self).name_by_id_truth() == final(self).name_by_id_visible()
                &&& final(self).id_by_name_visible() == old(self).id_by_name_visible()
                &&& final(self).name_by_id_visible() == old(self).name_by_id_visible()
            },
            final(self).id_by_name_truth() == old(self).id_by_name_truth(),
            final(self).name_by_id_truth() == old(self).name_by_id_truth(),
            old(self).name_reads_ok() ==> r is Ok,
            old(self).name_reads_fail() ==> r is Err,
            r matches Ok(v) ==> {
                &&& (opt_name_view(v) == name_lookup(old(self).name_by_id_truth(), user_id)
                    || opt_name_view(v) == name_lookup(old(self).name_by_id_visible(), user_id))
                &&& ((final(self).id_by_name_visible() == old(self).id_by_name_visible() && final(self).name_by_id_visible() == old(self).name_by_id_visible()) || (v matches Some(name)
                    && final(self).id_by_name_visible() == old(self).id_by_name_visible().insert(
                    name@,
                    user_id,
                ) && (final(self).name_by_id_visible() == old(self).name_by_id_visible().insert(
                    user_id,
                    name@,
                ) || final(self).name_by_id_visible() == old(self).name_by_id_visible())))
            },
    ;

    /// Stores the username-to-ID mapping in both directions. The
    /// username-to-ID direction is always upserted; the canonical
    /// ID-to-username record may be updated only for an existing
    /// user.
    fn set_combination(&mut self, username: &str, user_id: u64) -> (r: Result<
        (),
        ProviderError,
    >)
        requires
            old(self).names_wf(),
        ensures
            final(self).names_wf(),
            final(self).name_reads_ok() == old(self).name_reads_ok(),
            final(self).name_writes_ok() == old(self).name_writes_ok(),
            final(self).name_reads_fail() == old(self).name_reads_fail(),
            final(self).name_writes_fail() == old(self).name_writes_fail(),
            final(self).names_unified() == old(self).names_unified(),
            old(self).names_unified() ==> {
                &&& final(self).id_by_name_truth() == final(self).id_by_name_visible()
                &&& final(self).name_by_id_truth() == final(self).name_by_id_visible()
            },
            old(self).name_writes_ok() ==> r is Ok,
            old(self).name_writes_fail() ==> r is Err,
            r is Ok ==> {
                &&& final(self).id_by_name_truth() == old(self).id_by_name_truth().insert(
                    username@,
                    user_id,
                )
                &&& final(self).id_by_name_visible() == old(self).id_by_name_visible().insert(
                    username@,
                    user_id,
                )
                &&& (final(self).name_by_id_truth() == old(self).name_by_id_truth().insert(
                    user_id,
                    username@,
                ) || (final(self).name_by_id_truth() == old(self).name_by_id_truth() && !old(self).name_by_id_truth().contains_key(user_id)))
                &&& (final(self).name_by_id_visible() == old(self).name_by_id_visible().insert(
                    user_id,
                    username@,
                ) || (final(self).name_by_id_visible() == old(self).name_by_id_visible() && !old(self).name_by_id_visible().contains_key(user_id)))
            },
    ;
}

impl Provider for Cache {
    open spec fn id_by_name_truth(&self) -> Map<Seq<char>, u64> {
        self.ids@
    }

    open spec fn id_by_name_visible(&self) -> Map<Seq<char>, u64> {
        self.ids@
    }

    open spec fn name_by_id_truth(&self) -> Map<u64, Seq<char>> {
        string_views(self.names@)
    }

    open spec fn name_by_id_visible(&self) -> Map<u64, Seq<char>> {
        string_views(self.names@)
    }

    open spec fn names_unified(&self) -> bool {
        true
    }

    open spec fn names_wf(&self) -> bool {
        self.inv()
    }

    open spec fn name_reads_ok(&self) -> bool {
        self.fault == Fault::Off
    }

    open spec fn name_writes_ok(&self) -> bool {
        self.fault == Fault::Off || self.fault == Fault::ReadTransport
    }

    open spec fn name_reads_fail(&self) -> bool {
        self.fault != Fault::Off
    }

    open spec fn name_writes_fail(&self) -> bool {
        self.fault == Fault::Transport || self.fault == Fault::Serialization
    }

    /// Point lookup in the ID key namespace.
    fn user_id_for(&mut self, username: &str) -> (r: Result<Option<u64>, ProviderError>)
        ensures
            *final(self) == *old(self),
            r matches Err(e) ==> spec_read_error(e, old(self).fault, TierKind::Cache),
    {
        match read_fault_error(self.fault, TierKind::Cache) {
            Some(e) => Err(e),
            None => match self.ids.get(username) {
                Some(id) => Ok(Some(*id)),
                None => Ok(None),
            },
        }
    }

    /// Point lookup in the username key namespace.
    fn username_for(&mut self, user_id: u64) -> (r: Result<Option<String>, ProviderError>)
        ensures
            *final(self) == *old(self),
            r matches Err(e) ==> spec_read_error(e, old(self).fault, TierKind::Cache),
    {
        match read_fault_error(self.fault, TierKind::Cache) {
            Some(e) => Err(e),
            None => match self.names.get(user_id) {
                Some(name) => Ok(Some(name.clone())),
                None => Ok(None),
            },
        }
    }

    /// One multi-key write storing both directions: on success both
    /// the ID and the username key are written, unconditionally. A
    /// failure leaves the store untouched.
    fn set_combination(&mut self, username: &str, user_id: u64) -> (r: Result<
        (),
        ProviderError,
    >)
        ensures
            r is Err ==> *final(self) == *old(self),
            r matches Err(e) ==> spec_write_error(e, old(self).fault, TierKind::Cache),
            r is Ok ==> {
                &&& final(self).id_by_name_visible() == old(self).id_by_name_visible().insert(
                    username@,
                    user_id,
                )
                &&& final(self).name_by_id_visible() == old(self).name_by_id_visible().insert(
                    user_id,
                    username@,
                )
            },
    {
        match write_fault_error(self.fault, TierKind::Cache) {
            Some(e) => Err(e),
            None => {
                self.ids.insert(username, user_id);
                let owned = username.to_owned();
                self.names.insert(user_id, owned);
                proof {
                    assert(string_views(self.names@) =~= string_views(old(self).names@).insert(
                        user_id,
                        username@,
                    ));
                }
                Ok(())
            },
        }
    }
}

impl Provider for Persistent {
    open spec fn id_by_name_truth(&self) -> Map<Seq<char>, u64> {
        self.ids@
    }

    open spec fn id_by_name_visible(&self) -> Map<Seq<char>, u64> {
        self.ids@
    }

    open spec fn name_by_id_truth(&self) -> Map<u64, Seq<char>> {
        string_views(self.users@)
    }

    open spec fn name_by_id_visible(&self) -> Map<u64, Seq<char>> {
        string_views(self.users@)
    }

    open spec fn names_unified(&self) -> bool {
        true
    }

    open spec fn names_wf(&self) -> bool {
        self.inv()
    }

    open spec fn name_reads_ok(&self) -> bool {
        self.fault == Fault::Off
    }

    open spec fn name_writes_ok(&self) -> bool {
        self.fault == Fault::Off || self.fault == Fault::ReadTransport
    }

    open spec fn name_reads_fail(&self) -> bool {
        self.fault != Fault::Off
    }

    open spec fn name_writes_fail(&self) -> bool {
        self.fault == Fault::Transport || self.fault == Fault::Serialization
    }

    /// Point lookup in the mappings table; the store's "not found" is
    /// translated to `Ok(None)`, never propagated as an error.
    fn user_id_for(&mut self, username: &str) -> (r: Result<Option<u64>, ProviderError>)
        ensures
            *final(self) == *old(self),
            r matches Err(e) ==> spec_read_error(e, old(self).fault, TierKind::Persistent),
    {
        match read_fault_error(self.fault, TierKind::Persistent) {
            Some(e) => Err(e),
            None => match self.ids.get(username) {
                Some(id) => Ok(Some(*id)),
                None => Ok(None),
            },
        }
    }

    /// Point lookup in the users table; a user with no row yields
    /// `Ok(None)`, never an error.
    fn username_for(&mut self, user_id: u64) -> (r: Result<Option<String>, ProviderError>)
        ensures
            *final(self) == *old(self),
            r matches Err(e) ==> spec_read_error(e, old(self).fault, TierKind::Persistent),
    {
        match read_fault_error(self.fault, TierKind::Persistent) {
            Some(e) => Err(e),
            None => match self.users.get(user_id) {
                Some(name) => Ok(Some(name.clone())),
                None => Ok(None),
            },
        }
    }

    /// Updates the canonical username of an existing user, then
    /// upserts the username-to-ID mapping row. A failure leaves the
    /// tables untouched.
    fn set_combination(&mut self, username: &str, user_id: u64) -> (r: Result<
        (),
        ProviderError,
    >)
        ensures
            r is Err ==> *final(self) == *old(self),
            r matches Err(e) ==> spec_write_error(e, old(self).fault, TierKind::Persistent),
    {
        match write_fault_error(self.fault, TierKind::Persistent) {
            Some(e) => Err(e),
            None => {
                if self.users.contains_key(user_id) {
                    let owned = username.to_owned();
                    self.users.insert(user_id, owned);
                    proof {
                        assert(string_views(self.users@) =~= string_views(
                            old(self).users@,
                        ).insert(user_id, username@));
                    }
                }
                self.ids.insert(username, user_id);
                Ok(())
            },
        }
    }
}

impl<C: Provider, P: Provider> Provider for Hybrid<C, P> {
    open spec fn id_by_name_truth(&self) -> Map<Seq<char>, u64> {
        self.persistent.id_by_name_truth()
    }

    open spec fn id_by_name_visible(&self) -> Map<Seq<char>, u64> {
        self.cache.id_by_name_visible()
    }

    open spec fn name_by_id_truth(&self) -> Map<u64, Seq<char>> {
        self.persistent.name_by_id_truth()
    }

    open spec fn name_by_id_visible(&self) -> Map<u64, Seq<char>> {
        self.cache.name_by_id_visible()
    }

    open spec fn names_unified(&self) -> bool {
        false
    }

    open spec fn names_wf(&self) -> bool {
        &&& self.cache.names_wf()
        &&& self.persistent.names_wf()
        &&& self.cache.names_unified()
        &&& self.persistent.names_unified()
        &&& self.cache.id_by_name_truth() == self.cache.id_by_name_visible()
        &&& self.cache.name_by_id_truth() == self.cache.name_by_id_visible()
        &&& self.persistent.id_by_name_truth() == self.persistent.id_by_name_visible()
        &&& self.persistent.name_by_id_truth() == self.persistent.name_by_id_visible()
    }

    open spec fn name_reads_ok(&self) -> bool {
        self.cache.name_reads_ok() || (self.persistent.name_reads_ok()
            && self.cache.name_writes_ok())
    }

    open spec fn name_writes_ok(&self) -> bool {
        self.cache.name_writes_ok() && self.persistent.name_writes_ok()
    }

    open spec fn name_reads_fail(&self) -> bool {
        self.cache.name_reads_fail() && self.persistent.name_reads_fail()
    }

    open spec fn name_writes_fail(&self) -> bool {
        self.cache.name_writes_fail() || self.persistent.name_writes_fail()
    }

    /// Tries the cache; a clean cache answer, including a clean miss,
    /// is trusted as-is. On a cache *error* it answers from the
    /// persistent tier and, on a hit, repopulates the cache with the
    /// recovered combination.
    fn user_id_for(&mut self, username: &str) -> (r: Result<Option<u64>, ProviderError>)
        ensures
            old(self).cache.name_reads_ok() ==> {
                &&& r matches Ok(v)
                &&& v == id_lookup(old(self).cache.id_by_name_truth(), username@)
            },
            old(self).cache.name_reads_fail() && old(self).persistent.name_reads_ok() && old(
                self,
            ).cache.name_writes_ok() ==> {
                &&& r matches Ok(v)
                &&& v == id_lookup(old(self).persistent.id_by_name_truth(), username@)
                &&& (v matches Some(id) ==> final(self).id_by_name_visible() == old(
                    self,
                ).id_by_name_visible().insert(username@, id))
                &&& (v is None ==> final(self).id_by_name_visible() == old(
                    self,
                ).id_by_name_visible() && final(self).name_by_id_visible() == old(
                    self,
                ).name_by_id_visible())
            },
    {
        match self.cache.user_id_for(username) {
            Ok(v) => Ok(v),
            Err(_) => match self.persistent.user_id_for(username) {
                Ok(Some(id)) => match self.cache.set_combination(username, id) {
                    Ok(_) => Ok(Some(id)),
                    Err(e) => Err(e),
                },
                Ok(None) => Ok(None),
                Err(e) => Err(e),
            },
        }
    }

    /// Tries the cache; a clean cache answer, including a clean miss,
    /// is trusted as-is. On a cache *error* it answers from the
    /// persistent tier and, on a hit, repopulates the cache with the
    /// recovered combination.
    fn username_for(&mut self, user_id: u64) -> (r: Result<Option<String>, ProviderError>)
        ensures
            old(self).cache.name_reads_ok() ==> {
                &&& r matches Ok(v)
                &&& opt_name_view(v) == name_lookup(old(self).cache.name_by_id_truth(), user_id)
            },
            old(self).cache.name_reads_fail() && old(self).persistent.name_reads_ok() && old(
                self,
            ).cache.name_writes_ok() ==> {
                &&& r matches Ok(v)
                &&& opt_name_view(v) == name_lookup(
                    old(self).persistent.name_by_id_truth(),
                    user_id,
                )
                &&& (v matches Some(name) ==> final(self).id_by_name_visible() == old(
                    self,
                ).id_by_name_visible().insert(name@, user_id))
                &&& (v is None ==> final(self).id_by_name_visible() == old(
                    self,
                ).id_by_name_visible() && final(self).name_by_id_visible() == old(
                    self,
                ).name_by_id_visible())
            },
    {
        match self.cache.username_for(user_id) {
            Ok(v) => Ok(v),
            Err(_) => match self.persistent.username_for(user_id) {
                Ok(Some(name)) => match self.cache.set_combination(name.as_str(), user_id) {
                    Ok(_) => Ok(Some(name)),
                    Err(e) => Err(e),
                },
                Ok(None) => Ok(None),
                Err(e) => Err(e),
            },
        }
    }

    /// Applies the write to the cache first, then to the persistent
    /// tier; the overall result is a success only if both succeeded.
    fn set_combination(&mut self, username: &str, user_id: u64) -> (r: Result<
        (),
        ProviderError,
    >) {
        let c = self.cache.set_combination(username, user_id);
        let p = self.persistent.set_combination(username, user_id);
        match c {
            Ok(_) => p,
            Err(e) => Err(e),
        }
    }
}

} // verus!
