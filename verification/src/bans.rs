//! The bans service: setting, registering, fetching and testing bans
//! against any provider backend.
//!
//! Bans are keyed by user ID and, when an address was recorded,
//! indexed by that address in a second namespace. On the cache tier
//! the address namespace is pinned exactly; on the persistent tier an
//! address query scans the table, so its answer is pinned to a stored
//! row carrying that address. Across backends an address answer
//! always concerns the queried address.

use vstd::prelude::*;

use crate::ban::{Ban, BanView, NewBan};
use crate::hybrid::Hybrid;
use crate::providers::{
    read_fault_error, spec_read_error, spec_write_error, write_fault_error, Cache, Fault,
    Persistent, ProviderError, TierKind,
};

verus! {

/// A query for a ban, by user ID or by recorded address.
pub enum BanQuery<'a> {
    Address(&'a str),
    Id(u64),
}

/// The ban records a map of owned records denotes.
pub open spec fn ban_views(m: Map<u64, Ban>) -> Map<u64, BanView> {
    Map::new(|k: u64| m.contains_key(k), |k: u64| m[k]@)
}

/// The record stored for `id`, if any.
pub open spec fn ban_lookup(m: Map<u64, BanView>, id: u64) -> Option<BanView> {
    if m.contains_key(id) {
        Some(m[id])
    } else {
        None
    }
}

/// Whether `m` holds a ban for `id` that is active at `now`.
pub open spec fn ban_active(m: Map<u64, BanView>, id: u64, now: u64) -> bool {
    m.contains_key(id) && m[id].spec_active(now)
}

/// The view of the record a ban write for these arguments stores.
pub open spec fn requested_ban(user_id: u64, duration: Option<u64>, now: u64, ip: Option<&str>)
    -> BanView {
    BanView {
        user_id,
        duration,
        initiated_at: now,
        ip: match ip {
            Some(s) => Some(s@),
            None => None,
        },
    }
}

/// The ban records an address-indexed map of owned records denotes.
pub open spec fn addr_ban_views(m: Map<Seq<char>, Ban>) -> Map<Seq<char>, BanView> {
    Map::new(|a: Seq<char>| m.contains_key(a), |a: Seq<char>| m[a]@)
}

/// The record stored for address `a`, if any.
pub open spec fn addr_ban_lookup(m: Map<Seq<char>, BanView>, a: Seq<char>) -> Option<BanView> {
    if m.contains_key(a) {
        Some(m[a])
    } else {
        None
    }
}

/// An arbitrary backend for the bans service. Backends may be used in
/// conjunction: the hybrid coordinator composes two of them.
pub trait Provider: Sized {
    /// The durable view of the ban store, keyed by user ID.
    open spec fn ban_truth(&self) -> Map<u64, BanView> {
        Map::empty()
    }

    /// The view low-latency reads may see, keyed by user ID.
    open spec fn ban_visible(&self) -> Map<u64, BanView> {
        Map::empty()
    }

    /// Whether this backend is one physical store, so that both views
    /// always coincide.
    open spec fn ban_unified(&self) -> bool {
        false
    }

    /// The backend's internal invariant.
    open spec fn bans_wf(&self) -> bool {
        false
    }

    /// Reads never fail on this backend.
    open spec fn ban_reads_ok(&self) -> bool {
        false
    }

    /// Writes never fail on this backend.
    open spec fn ban_writes_ok(&self) -> bool {
        false
    }

    /// Every read fails on this backend.
    open spec fn ban_reads_fail(&self) -> bool {
        false
    }

    /// Every write fails on this backend.
    open spec fn ban_writes_fail(&self) -> bool {
        false
    }

    /// Sets a user's banned status. Banning writes a fresh record
    /// initiated at `now`; unbanning deletes the record (and the
    /// address entry when an address is given). Returns whether the
    /// user already had an active ban.
    fn set_banned(
        &mut self,
        user_id: u64,
        banned: bool,
        duration: Option<u64>,
        ip: Option<&str>,
        now: u64,
    ) -> (r: Result<bool, ProviderError>)
        requires
            old(self).bans_wf(),
        ensures
            final(self).bans_wf(),
            final(self).ban_reads_ok() == old(self).ban_reads_ok(),
            final(self).ban_writes_ok() == old(self).ban_writes_ok(),
            final(self).ban_reads_fail() == old(self).ban_reads_fail(),
            final(self).ban_writes_fail() == old(self).ban_writes_fail(),
            final(self).ban_unified() == old(self).ban_unified(),
            old(self).ban_unified() ==> final(self).ban_truth() == final(self).ban_visible(),
            old(self).ban_writes_ok() ==> r is Ok,
            old(self).ban_writes_fail() ==> r is Err,
            r matches Ok(was) ==> {
                &&& (was == ban_active(old(self).ban_truth(), user_id, now) || was == ban_active(
                    old(self).ban_visible(),
                    user_id,
                    now,
                ))
                &&& (banned ==> final(self).ban_truth() == old(self).ban_truth().insert(
                    user_id,
                    requested_ban(user_id, duration, now, ip),
                ) && final(self).ban_visible() == old(self).ban_visible().insert(
                    user_id,
                    requested_ban(user_id, duration, now, ip),
                ))
                &&& (!banned ==> final(self).ban_truth() == old(self).ban_truth().remove(user_id)
                    && final(self).ban_visible() == old(self).ban_visible().remove(user_id))
            },
    ;

    /// Registers a fully formed ban record, replacing any previous
    /// one and returning it.
    fn register_ban<'a>(&mut self, ban: &NewBan<'a>) -> (r: Result<Option<Ban>, ProviderError>)
        requires
            old(self).bans_wf(),
        ensures
            final(self).bans_wf(),
            final(self).ban_reads_ok() == old(self).ban_reads_ok(),
            final(self).ban_writes_ok() == old(self).ban_writes_ok(),
            final(self).ban_reads_fail() == old(self).ban_reads_fail(),
            final(self).ban_writes_fail() == old(self).ban_writes_fail(),
            final(self).ban_unified() == old(self).ban_unified(),
            old(self).ban_unified() ==> final(self).ban_truth() == final(self).ban_visible(),
            old(self).ban_writes_ok() ==> r is Ok,
            old(self).ban_writes_fail() ==> r is Err,
            r matches Ok(prev) ==> {
                &&& final(self).ban_truth() == old(self).ban_truth().insert(ban.user_id, ban@)
                &&& final(self).ban_visible() == old(self).ban_visible().insert(ban.user_id, ban@)
                &&& ((match prev {
                    Some(b) => Some(b@),
                    None => None,
                }) == ban_lookup(old(self).ban_truth(), ban.user_id) || (match prev {
                    Some(b) => Some(b@),
                    None => None,
                }) == ban_lookup(old(self).ban_visible(), ban.user_id))
            },
    ;

    /// Fetches the ban record for the given user or address, whether
    /// or not it is still active. A user with no record yields
    /// `Ok(None)`, never an error.
    fn get_ban(&mut self, query: &BanQuery) -> (r: Result<Option<Ban>, ProviderError>)
        requires
            old(self).bans_wf(),
        ensures
            final(self).bans_wf(),
            final(self).ban_reads_ok() == old(self).ban_reads_ok(),
            final(self).ban_writes_ok() == old(self).ban_writes_ok(),
            final(self).ban_reads_fail() == old(self).ban_reads_fail(),
            final(self).ban_writes_fail() == old(self).ban_writes_fail(),
            final(self).ban_unified() == old(self).ban_unified(),
            old(self).ban_unified() ==> final(self).ban_truth() == final(self).ban_visible(),
            final(self).ban_truth() == old(self).ban_truth(),
            final(self).ban_visible() == old(self).ban_visible(),
            old(self).ban_reads_ok() ==> r is Ok,
            old(self).ban_reads_fail() ==> r is Err,
            r matches Ok(ob) ==> match *query {
                BanQuery::Id(id) => ((match ob {
                    Some(b) => Some(b@),
                    None => None,
                }) == ban_lookup(old(self).ban_truth(), id) || (match ob {
                    Some(b) => Some(b@),
                    None => None,
                }) == ban_lookup(old(self).ban_visible(), id)),
                BanQuery::Address(a) => match ob {
                    Some(b) => b@.ip == Some(a@),
                    None => true,
                },
            },
    ;

    /// Whether the given user or address is banned at `now`: a record
    /// must both exist and still be active. Absence yields
    /// `Ok(false)`.
    fn is_banned(&mut self, query: &BanQuery, now: u64) -> (r: Result<bool, ProviderError>)
        requires
            old(self).bans_wf(),
        ensures
            final(self).bans_wf(),
            final(self).ban_reads_ok() == old(self).ban_reads_ok(),
            final(self).ban_writes_ok() == old(self).ban_writes_ok(),
            final(self).ban_reads_fail() == old(self).ban_reads_fail(),
            final(self).ban_writes_fail() == old(self).ban_writes_fail(),
            final(self).ban_unified() == old(self).ban_unified(),
            old(self).ban_unified() ==> final(self).ban_truth() == final(self).ban_visible(),
            final(self).ban_truth() == old(self).ban_truth(),
            final(self).ban_visible() == old(self).ban_visible(),
            old(self).ban_reads_ok() ==> r is Ok,
            old(self).ban_reads_fail() ==> r is Err,
            r matches Ok(b) ==> match *query {
                BanQuery::Id(id) => (b == ban_active(old(self).ban_truth(), id, now) || b
                    == ban_active(old(self).ban_visible(), id, now)),
                BanQuery::Address(_) => true,
            },
    ;
}

/// Unbanning a user who has no ban on record reports that no active
/// ban existed and leaves no record behind; doing it twice in a row
/// is safe, the second call being a no-op that reports the same.
/// Combined with the contract of `Provider::set_banned` with
/// `banned == false`, whose result is the prior activity and whose
/// final state removes the user's entry.
pub proof fn lemma_unban_idempotent(m: Map<u64, BanView>, user_id: u64, now: u64)
    requires
        !m.contains_key(user_id),
    ensures
        !ban_active(m, user_id, now),
        m.remove(user_id) == m,
        m.remove(user_id).remove(user_id) == m,
{
    assert(m.remove(user_id) =~= m);
}

/// After a register of ban `b`, both the durable and the visible view
/// hold exactly `b` for its user. Combined with the contract of
/// `Provider::register_ban` as implemented by the hybrid coordinator,
/// whose success updates the cache view and the persistent view
/// alike, a successful hybrid register leaves the record readable
/// from either tier.
pub proof fn lemma_register_ban_durable(
    truth: Map<u64, BanView>,
    visible: Map<u64, BanView>,
    b: BanView,
)
    ensures
        ban_lookup(truth.insert(b.user_id, b), b.user_id) == Some(b),
        ban_lookup(visible.insert(b.user_id, b), b.user_id) == Some(b),
{
}

impl Cache {
    /// Point lookup in the address namespace; a missing key is
    /// `Ok(None)`.
    fn get_ban_by_addr(&mut self, addr: &str) -> (r: Result<Option<Ban>, ProviderError>)
        requires
            old(self).inv(),
        ensures
            *final(self) == *old(self),
            r is Ok <==> old(self).fault == Fault::Off,
            r matches Err(e) ==> spec_read_error(e, old(self).fault, TierKind::Cache),
            r matches Ok(ob) ==> match ob {
                Some(b) => b@.ip == Some(addr@),
                None => true,
            },
            r matches Ok(ob) ==> (match ob {
                Some(b) => Some(b@),
                None => None,
            }) == addr_ban_lookup(addr_ban_views(old(self).addr_bans@), addr@),
    {
        match read_fault_error(self.fault, TierKind::Cache) {
            Some(e) => Err(e),
            None => match self.addr_bans.get(addr) {
                Some(b) => Ok(Some(b.clone())),
                None => Ok(None),
            },
        }
    }
}

impl Provider for Cache {
    open spec fn ban_truth(&self) -> Map<u64, BanView> {
        ban_views(self.bans@)
    }

    open spec fn ban_visible(&self) -> Map<u64, BanView> {
        ban_views(self.bans@)
    }

    open spec fn ban_unified(&self) -> bool {
        true
    }

    open spec fn bans_wf(&self) -> bool {
        self.inv()
    }

    open spec fn ban_reads_ok(&self) -> bool {
        self.fault == Fault::Off
    }

    open spec fn ban_writes_ok(&self) -> bool {
        self.fault == Fault::Off || self.fault == Fault::ReadTransport
    }

    open spec fn ban_reads_fail(&self) -> bool {
        self.fault != Fault::Off
    }

    open spec fn ban_writes_fail(&self) -> bool {
        self.fault == Fault::Transport || self.fault == Fault::Serialization
    }

    /// Unbanning deletes the ban key and, when an address is given,
    /// the address key; banning swaps in a fresh record atomically
    /// and indexes it under the address. A failure leaves the store
    /// untouched.
    fn set_banned(
        &mut self,
        user_id: u64,
        banned: bool,
        duration: Option<u64>,
        ip: Option<&str>,
        now: u64,
    ) -> (r: Result<bool, ProviderError>)
        ensures
            r is Err ==> *final(self) == *old(self),
            r matches Err(e) ==> spec_write_error(e, old(self).fault, TierKind::Cache),
            r is Ok ==> addr_ban_views(final(self).addr_bans@) == (match ip {
                Some(a) => if banned {
                    addr_ban_views(old(self).addr_bans@).insert(
                        a@,
                        requested_ban(user_id, duration, now, ip),
                    )
                } else {
                    addr_ban_views(old(self).addr_bans@).remove(a@)
                },
                None => addr_ban_views(old(self).addr_bans@),
            }),
    {
        if banned {
            match self.register_ban(&NewBan { user_id, duration, initiated_at: now, ip }) {
                Ok(prev) => Ok(
                    match prev {
                        Some(b) => b.active_at(now),
                        None => false,
                    },
                ),
                Err(e) => Err(e),
            }
        } else {
            match write_fault_error(self.fault, TierKind::Cache) {
                Some(e) => Err(e),
                None => {
                    if let Some(addr) = ip {
                        self.addr_bans.remove(addr);
                        proof {
                            assert(addr_ban_views(self.addr_bans@) =~~= addr_ban_views(
                                old(self).addr_bans@,
                            ).remove(addr@));
                        }
                    }
                    let prev = self.bans.remove(user_id);
                    proof {
                        assert(ban_views(self.bans@) =~= ban_views(old(self).bans@).remove(
                            user_id,
                        ));
                    }
                    Ok(
                        match prev {
                            Some(b) => b.active_at(now),
                            None => false,
                        },
                    )
                },
            }
        }
    }

    /// Writes the address entry when an address is on record, then
    /// performs an atomic get-and-set on the ban key. A failure
    /// leaves the store untouched.
    fn register_ban<'a>(&mut self, ban: &NewBan<'a>) -> (r: Result<Option<Ban>, ProviderError>)
        ensures
            r is Err ==> *final(self) == *old(self),
            r matches Err(e) ==> spec_write_error(e, old(self).fault, TierKind::Cache),
            r is Ok ==> addr_ban_views(final(self).addr_bans@) == (match ban.ip {
                Some(a) => addr_ban_views(old(self).addr_bans@).insert(a@, ban@),
                None => addr_ban_views(old(self).addr_bans@),
            }),
    {
        match write_fault_error(self.fault, TierKind::Cache) {
            Some(e) => Err(e),
            None => {
                if let Some(addr) = ban.ip {
                    self.addr_bans.insert(addr, ban.to_ban());
                    proof {
                        assert(addr_ban_views(self.addr_bans@) =~~= addr_ban_views(
                            old(self).addr_bans@,
                        ).insert(addr@, ban@));
                    }
                }
                let prev = self.bans.insert(ban.user_id, ban.to_ban());
                proof {
                    assert(ban_views(self.bans@) =~= ban_views(old(self).bans@).insert(
                        ban.user_id,
                        ban@,
                    ));
                }
                Ok(prev)
            },
        }
    }

    /// Point lookup in the ban or address namespace; a missing key is
    /// `Ok(None)`. The answer is exactly what the queried namespace
    /// stores.
    fn get_ban(&mut self, query: &BanQuery) -> (r: Result<Option<Ban>, ProviderError>)
        ensures
            *final(self) == *old(self),
            r matches Err(e) ==> spec_read_error(e, old(self).fault, TierKind::Cache),
            r matches Ok(ob) ==> match *query {
                BanQuery::Id(id) => (match ob {
                    Some(b) => Some(b@),
                    None => None,
                }) == ban_lookup(ban_views(old(self).bans@), id),
                BanQuery::Address(a) => (match ob {
                    Some(b) => Some(b@),
                    None => None,
                }) == addr_ban_lookup(addr_ban_views(old(self).addr_bans@), a@),
            },
    {
        match *query {
            BanQuery::Id(id) => match read_fault_error(self.fault, TierKind::Cache) {
                Some(e) => Err(e),
                None => match self.bans.get(id) {
                    Some(b) => Ok(Some(b.clone())),
                    None => Ok(None),
                },
            },
            BanQuery::Address(addr) => self.get_ban_by_addr(addr),
        }
    }

    /// Fetch, then evaluate activity; absence defaults to false.
    fn is_banned(&mut self, query: &BanQuery, now: u64) -> (r: Result<bool, ProviderError>)
        ensures
            *final(self) == *old(self),
            r matches Err(e) ==> spec_read_error(e, old(self).fault, TierKind::Cache),
            r matches Ok(b) ==> match *query {
                BanQuery::Id(id) => b == ban_active(ban_views(old(self).bans@), id, now),
                BanQuery::Address(a) => b == (addr_ban_views(
                    old(self).addr_bans@,
                ).contains_key(a@) && addr_ban_views(old(self).addr_bans@)[a@].spec_active(now)),
            },
    {
        match self.get_ban(query) {
            Ok(Some(b)) => Ok(b.active_at(now)),
            Ok(None) => Ok(false),
            Err(e) => Err(e),
        }
    }
}

impl Persistent {
    /// The first row whose address column matches, scanning the
    /// table. When no row matches, no stored ban carries the queried
    /// address.
    fn find_ban_by_addr(&self, addr: &str) -> (r: Option<Ban>)
        requires
            self.inv(),
        ensures
            r matches Some(b) ==> b@.ip == Some(addr@) && exists|id: u64|
                #[trigger] ban_views(self.bans@).contains_key(id) && ban_views(self.bans@)[id]
                    == b@,
            r is None ==> forall|id: u64|
                #[trigger] ban_views(self.bans@).contains_key(id) ==> ban_views(self.bans@)[id].ip
                    != Some(addr@),
    {
        let n = self.bans.entries.len();
        let mut i: usize = 0;
        while i < n
            invariant
                self.inv(),
                0 <= i <= n,
                n == self.bans.entries@.len(),
                forall|j: int|
                    0 <= j < i ==> (#[trigger] self.bans.entries@[j]).1@.ip != Some(addr@),
            decreases n - i,
        {
            match &self.bans.entries[i].1.ip {
                Some(row_ip) => {
                    if crate::text::str_eq(row_ip.as_str(), addr) {
                        proof {
                            self.bans.lemma_entries();
                            let key = self.bans.entries@[i as int].0;
                            assert(ban_views(self.bans@).contains_key(key) && ban_views(
                                self.bans@,
                            )[key] == self.bans.entries@[i as int].1@);
                        }
                        return Some(self.bans.entries[i].1.clone());
                    }
                },
                None => {},
            }
            i += 1;
        }
        proof {
            self.bans.lemma_entries();
            assert forall|id: u64| #[trigger]
                ban_views(self.bans@).contains_key(id) implies ban_views(self.bans@)[id].ip
                != Some(addr@) by {
                let j = choose|j: int|
                    0 <= j < self.bans.entries@.len() && (#[trigger] self.bans.entries@[j]).0
                        == id;
                assert(self.bans.entries@[j].1@.ip != Some(addr@));
            }
        }
        None
    }
}

impl Provider for Persistent {
    open spec fn ban_truth(&self) -> Map<u64, BanView> {
        ban_views(self.bans@)
    }

    open spec fn ban_visible(&self) -> Map<u64, BanView> {
        ban_views(self.bans@)
    }

    open spec fn ban_unified(&self) -> bool {
        true
    }

    open spec fn bans_wf(&self) -> bool {
        self.inv()
    }

    open spec fn ban_reads_ok(&self) -> bool {
        self.fault == Fault::Off
    }

    open spec fn ban_writes_ok(&self) -> bool {
        self.fault == Fault::Off || self.fault == Fault::ReadTransport
    }

    open spec fn ban_reads_fail(&self) -> bool {
        self.fault != Fault::Off
    }

    open spec fn ban_writes_fail(&self) -> bool {
        self.fault == Fault::Transport || self.fault == Fault::Serialization
    }

    /// Unbanning deletes the row; banning upserts a fresh row and
    /// reports whether the replaced row was active. A failure leaves
    /// the table untouched.
    fn set_banned(
        &mut self,
        user_id: u64,
        banned: bool,
        duration: Option<u64>,
        ip: Option<&str>,
        now: u64,
    ) -> (r: Result<bool, ProviderError>)
        ensures
            r is Err ==> *final(self) == *old(self),
            r matches Err(e) ==> spec_write_error(e, old(self).fault, TierKind::Persistent),
    {
        if banned {
            match self.register_ban(&NewBan { user_id, duration, initiated_at: now, ip }) {
                Ok(prev) => Ok(
                    match prev {
                        Some(b) => b.active_at(now),
                        None => false,
                    },
                ),
                Err(e) => Err(e),
            }
        } else {
            match write_fault_error(self.fault, TierKind::Persistent) {
                Some(e) => Err(e),
                None => {
                    let prev = self.bans.remove(user_id);
                    proof {
                        assert(ban_views(self.bans@) =~= ban_views(old(self).bans@).remove(
                            user_id,
                        ));
                    }
                    Ok(
                        match prev {
                            Some(b) => b.active_at(now),
                            None => false,
                        },
                    )
                },
            }
        }
    }

    /// Upsert by primary key, returning the previous row if one
    /// existed. A failure leaves the table untouched.
    fn register_ban<'a>(&mut self, ban: &NewBan<'a>) -> (r: Result<Option<Ban>, ProviderError>)
        ensures
            r is Err ==> *final(self) == *old(self),
            r matches Err(e) ==> spec_write_error(e, old(self).fault, TierKind::Persistent),
    {
        match write_fault_error(self.fault, TierKind::Persistent) {
            Some(e) => Err(e),
            None => {
                let prev = self.bans.insert(ban.user_id, ban.to_ban());
                proof {
                    assert(ban_views(self.bans@) =~= ban_views(old(self).bans@).insert(
                        ban.user_id,
                        ban@,
                    ));
                }
                Ok(prev)
            },
        }
    }

    /// Point lookup by primary key, or a filtered lookup by the
    /// address column; the store's "not found" is translated to
    /// `Ok(None)`, never propagated as an error. An address with no
    /// matching row truly has no ban on record here.
    fn get_ban(&mut self, query: &BanQuery) -> (r: Result<Option<Ban>, ProviderError>)
        ensures
            *final(self) == *old(self),
            r matches Err(e) ==> spec_read_error(e, old(self).fault, TierKind::Persistent),
            r matches Ok(ob) ==> match *query {
                BanQuery::Address(a) => match ob {
                    Some(b) => exists|id: u64|
                        #[trigger] old(self).ban_truth().contains_key(id) && old(
                            self,
                        ).ban_truth()[id] == b@,
                    None => forall|id: u64|
                        #[trigger] old(self).ban_truth().contains_key(id) ==> old(
                            self,
                        ).ban_truth()[id].ip != Some(a@),
                },
                BanQuery::Id(_) => true,
            },
    {
        match read_fault_error(self.fault, TierKind::Persistent) {
            Some(e) => Err(e),
            None => match *query {
                BanQuery::Id(id) => match self.bans.get(id) {
                    Some(b) => Ok(Some(b.clone())),
                    None => Ok(None),
                },
                BanQuery::Address(addr) => Ok(self.find_ban_by_addr(addr)),
            },
        }
    }

    /// Fetch, then evaluate activity; absence defaults to false. A
    /// true answer to an address query names an active stored ban
    /// with that address; an address nothing matches answers false.
    fn is_banned(&mut self, query: &BanQuery, now: u64) -> (r: Result<bool, ProviderError>)
        ensures
            *final(self) == *old(self),
            r matches Err(e) ==> spec_read_error(e, old(self).fault, TierKind::Persistent),
            r matches Ok(b) ==> match *query {
                BanQuery::Id(_) => true,
                BanQuery::Address(a) => {
                    &&& (b ==> exists|id: u64|
                        {
                            &&& #[trigger] ban_views(old(self).bans@).contains_key(id)
                            &&& ban_views(old(self).bans@)[id].ip == Some(a@)
                            &&& ban_views(old(self).bans@)[id].spec_active(now)
                        })
                    &&& ((forall|id: u64|
                        #[trigger] ban_views(old(self).bans@).contains_key(id) ==> ban_views(
                            old(self).bans@,
                        )[id].ip != Some(a@)) ==> !b)
                },
            },
    {
        match self.get_ban(query) {
            Ok(Some(b)) => Ok(b.active_at(now)),
            Ok(None) => Ok(false),
            Err(e) => Err(e),
        }
    }
}

impl<C: Provider, P: Provider> Provider for Hybrid<C, P> {
    open spec fn ban_truth(&self) -> Map<u64, BanView> {
        self.persistent.ban_truth()
    }

    open spec fn ban_visible(&self) -> Map<u64, BanView> {
        self.cache.ban_visible()
    }

    open spec fn ban_unified(&self) -> bool {
        false
    }

    open spec fn bans_wf(&self) -> bool {
        &&& self.cache.bans_wf()
        &&& self.persistent.bans_wf()
        &&& self.cache.ban_unified()
        &&& self.persistent.ban_unified()
        &&& self.cache.ban_truth() == self.cache.ban_visible()
        &&& self.persistent.ban_truth() == self.persistent.ban_visible()
    }

    open spec fn ban_reads_ok(&self) -> bool {
        self.cache.ban_reads_ok() || self.persistent.ban_reads_ok()
    }

    open spec fn ban_writes_ok(&self) -> bool {
        self.cache.ban_writes_ok() && self.persistent.ban_writes_ok()
    }

    open spec fn ban_reads_fail(&self) -> bool {
        self.cache.ban_reads_fail() && self.persistent.ban_reads_fail()
    }

    open spec fn ban_writes_fail(&self) -> bool {
        self.cache.ban_writes_fail() || self.persistent.ban_writes_fail()
    }

    /// Applies the write to the cache first, then to the persistent
    /// tier; the overall result is a success only if both succeeded,
    /// and its value is the persistent tier's answer.
    fn set_banned(
        &mut self,
        user_id: u64,
        banned: bool,
        duration: Option<u64>,
        ip: Option<&str>,
        now: u64,
    ) -> (r: Result<bool, ProviderError>)
        ensures
            r matches Ok(was) ==> was == ban_active(
                old(self).persistent.ban_truth(),
                user_id,
                now,
            ),
    {
        let c = self.cache.set_banned(user_id, banned, duration, ip, now);
        let p = self.persistent.set_banned(user_id, banned, duration, ip, now);
        match c {
            Ok(_) => p,
            Err(e) => Err(e),
        }
    }

    /// Applies the write to the cache first, then to the persistent
    /// tier; on success both tiers hold the registered record, and
    /// the returned previous record is the persistent tier's.
    fn register_ban<'a>(&mut self, ban: &NewBan<'a>) -> (r: Result<Option<Ban>, ProviderError>)
        ensures
            r matches Ok(prev) ==> (match prev {
                Some(b) => Some(b@),
                None => None,
            }) == ban_lookup(old(self).persistent.ban_truth(), ban.user_id),
    {
        let c = self.cache.register_ban(ban);
        let p = self.persistent.register_ban(ban);
        match c {
            Ok(_) => p,
            Err(e) => Err(e),
        }
    }

    /// Tries the cache; only a cache *error* falls back to the
    /// persistent tier. A clean answer from the cache, including a
    /// clean miss, is trusted as-is. Ban reads do not repopulate the
    /// cache.
    fn get_ban(&mut self, query: &BanQuery) -> (r: Result<Option<Ban>, ProviderError>)
        ensures
            old(self).cache.ban_reads_ok() ==> {
                &&& r is Ok
                &&& ((*query) matches BanQuery::Id(id) ==> {
                    &&& r matches Ok(ob)
                    &&& (match ob {
                        Some(b) => Some(b@),
                        None => None,
                    }) == ban_lookup(old(self).cache.ban_truth(), id)
                })
            },
            old(self).cache.ban_reads_fail() && old(self).persistent.ban_reads_ok() ==> {
                &&& r is Ok
                &&& ((*query) matches BanQuery::Id(id) ==> {
                    &&& r matches Ok(ob)
                    &&& (match ob {
                        Some(b) => Some(b@),
                        None => None,
                    }) == ban_lookup(old(self).persistent.ban_truth(), id)
                })
            },
    {
        match self.cache.get_ban(query) {
            Ok(ob) => Ok(ob),
            Err(_) => self.persistent.get_ban(query),
        }
    }

    /// Tries the cache; only a cache *error* falls back to the
    /// persistent tier. A clean "not banned" from the cache is
    /// trusted as-is.
    fn is_banned(&mut self, query: &BanQuery, now: u64) -> (r: Result<bool, ProviderError>)
        ensures
            old(self).cache.ban_reads_ok() ==> {
                &&& r is Ok
                &&& ((*query) matches BanQuery::Id(id) ==> r == Ok::<bool, ProviderError>(
                    ban_active(old(self).cache.ban_truth(), id, now),
                ))
            },
            old(self).cache.ban_reads_fail() && old(self).persistent.ban_reads_ok() ==> {
                &&& r is Ok
                &&& ((*query) matches BanQuery::Id(id) ==> r == Ok::<bool, ProviderError>(
                    ban_active(old(self).persistent.ban_truth(), id, now),
                ))
            },
    {
        match self.cache.is_banned(query, now) {
            Ok(b) => Ok(b),
            Err(_) => self.persistent.is_banned(query, now),
        }
    }
}

} // verus!
