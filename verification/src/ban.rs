//! Ban records and their logical-expiry semantics.
//!
//! A ban with no duration is permanent. A ban may carry the banned
//! user's IP address, which the cache tier indexes under a separate
//! key namespace. Times are nanoseconds since the Unix epoch.

use vstd::prelude::*;

use crate::clock::now_nanos;

verus! {

/// The mathematical content of a ban record: what the storage tiers'
/// contracts speak about.
pub struct BanView {
    pub user_id: u64,
    pub duration: Option<u64>,
    pub initiated_at: u64,
    pub ip: Option<Seq<char>>,
}

impl BanView {
    /// Whether the ban is active at time `now`: permanent bans always
    /// are; a timed ban is active strictly before its initiation time
    /// plus its duration.
    pub open spec fn spec_active(self, now: u64) -> bool {
        match self.duration {
            None => true,
            Some(d) => (now as int) < (self.initiated_at as int) + (d as int),
        }
    }
}

/// A ban entry: who is banned, for how long (or forever), since when,
/// and from which address.
#[derive(Debug)]
pub struct Ban {
    /// The ID of the user corresponding to this ban
    pub user_id: u64,
    /// The number of nanoseconds the ban is in effect for; `None`
    /// means the ban is permanent
    pub duration: Option<u64>,
    /// The time at which the ban was issued, in nanoseconds since the
    /// Unix epoch
    pub initiated_at: u64,
    /// The IP address of the user being banned
    pub ip: Option<String>,
}

impl View for Ban {
    type V = BanView;

    open spec fn view(&self) -> BanView {
        BanView {
            user_id: self.user_id,
            duration: self.duration,
            initiated_at: self.initiated_at,
            ip: match self.ip {
                Some(s) => Some(s@),
                None => None,
            },
        }
    }
}

impl Clone for Ban {
    fn clone(&self) -> (r: Self)
        ensures
            r@ == self@,
    {
        Ban {
            user_id: self.user_id,
            duration: self.duration,
            initiated_at: self.initiated_at,
            ip: match &self.ip {
                Some(s) => Some(s.clone()),
                None => None,
            },
        }
    }
}

impl Ban {
    /// Whether the ban is active at time `now`.
    pub open spec fn spec_active(self, now: u64) -> bool {
        self@.spec_active(now)
    }

    /// Creates a new ban primitive: a permanent ban issued at the
    /// current time, with no address on record.
    pub fn new(user_id: u64) -> (r: Self)
        ensures
            r.user_id == user_id,
            r.duration is None,
            r.ip is None,
    {
        Self { user_id, duration: None, initiated_at: now_nanos(), ip: None }
    }

    /// The same ban, reassigned to the given user.
    pub fn with_user_id(self, user_id: u64) -> (r: Self)
        ensures
            r == (Ban { user_id, ..self }),
    {
        Ban { user_id, ..self }
    }

    /// The same ban with the given duration, in nanoseconds.
    pub fn with_duration(self, duration: u64) -> (r: Self)
        ensures
            r == (Ban { duration: Some(duration), ..self }),
    {
        Ban { duration: Some(duration), ..self }
    }

    /// The same ban with the given initiation time.
    pub fn with_initiation_timestamp(self, initiated_at: u64) -> (r: Self)
        ensures
            r == (Ban { initiated_at, ..self }),
    {
        Ban { initiated_at, ..self }
    }

    /// The same ban with the given IP address on record.
    pub fn with_ip(self, ip: String) -> (r: Self)
        ensures
            r == (Ban { ip: Some(ip), ..self }),
    {
        Ban { ip: Some(ip), ..self }
    }

    /// Whether the ban is active at time `now`.
    pub fn active_at(&self, now: u64) -> (r: bool)
        ensures
            r == self.spec_active(now),
    {
        match self.duration {
            None => true,
            Some(d) => (now as u128) < (self.initiated_at as u128) + (d as u128),
        }
    }

    /// Whether the ban is active at the current wall-clock time. A
    /// permanent ban is active whatever the clock reads.
    pub fn active(&self) -> (r: bool)
        ensures
            self.duration is None ==> r,
            exists|now: u64| r == self.spec_active(now),
    {
        let now = now_nanos();
        self.active_at(now)
    }

    /// The ID of the user who is banned.
    pub fn concerns(&self) -> (r: u64)
        ensures
            r == self.user_id,
    {
        self.user_id
    }

    /// The timeframe the ban covers in nanoseconds, or `None` for a
    /// permanent ban.
    pub fn active_for(&self) -> (r: Option<u64>)
        ensures
            r == self.duration,
    {
        self.duration
    }

    /// The IP address of the user being banned, if one was recorded.
    pub fn address(&self) -> (r: Option<&str>)
        ensures
            match r {
                Some(s) => self@.ip == Some(s@),
                None => self@.ip is None,
            },
    {
        match &self.ip {
            Some(s) => Some(s.as_str()),
            None => None,
        }
    }
}

impl Default for Ban {
    /// A permanent ban of user 0 issued at the current time.
    fn default() -> (r: Self)
        ensures
            r.user_id == 0,
            r.duration is None,
            r.ip is None,
    {
        Self { user_id: 0, duration: None, initiated_at: now_nanos(), ip: None }
    }
}

/// A request to add a ban entry, borrowing its address.
#[derive(Debug)]
pub struct NewBan<'a> {
    /// The ID of the user corresponding to this ban
    pub user_id: u64,
    /// The number of nanoseconds the ban is in effect for; `None`
    /// means the ban is permanent
    pub duration: Option<u64>,
    /// The time at which the ban was issued, in nanoseconds since the
    /// Unix epoch
    pub initiated_at: u64,
    /// The IP address of the user being banned
    pub ip: Option<&'a str>,
}

impl<'a> View for NewBan<'a> {
    type V = BanView;

    open spec fn view(&self) -> BanView {
        BanView {
            user_id: self.user_id,
            duration: self.duration,
            initiated_at: self.initiated_at,
            ip: match self.ip {
                Some(s) => Some(s@),
                None => None,
            },
        }
    }
}

impl<'a> NewBan<'a> {
    /// Creates a new request to add a ban entry.
    pub fn new(user_id: u64, duration: Option<u64>, initiated_at: u64, ip: Option<&'a str>) -> (r:
        Self)
        ensures
            r == (NewBan { user_id, duration, initiated_at, ip }),
    {
        Self { user_id, duration, initiated_at, ip }
    }

    /// Whether the requested ban is active at time `now`.
    pub fn active_at(&self, now: u64) -> (r: bool)
        ensures
            r == self@.spec_active(now),
    {
        match self.duration {
            None => true,
            Some(d) => (now as u128) < (self.initiated_at as u128) + (d as u128),
        }
    }

    /// Whether the requested ban is active at the current wall-clock
    /// time. A permanent ban is active whatever the clock reads.
    pub fn active(&self) -> (r: bool)
        ensures
            self.duration is None ==> r,
            exists|now: u64| r == self@.spec_active(now),
    {
        let now = now_nanos();
        self.active_at(now)
    }

    /// The ID of the user who will be banned.
    pub fn concerns(&self) -> (r: u64)
        ensures
            r == self.user_id,
    {
        self.user_id
    }

    /// The timeframe the ban covers in nanoseconds, or `None` for a
    /// permanent ban.
    pub fn active_for(&self) -> (r: Option<u64>)
        ensures
            r == self.duration,
    {
        self.duration
    }

    /// The IP address of the user being banned, if one was given.
    pub fn address(&self) -> (r: Option<&'a str>)
        ensures
            r == self.ip,
    {
        self.ip
    }

    /// Converts the request into an owned ban record.
    pub fn to_ban(&self) -> (r: Ban)
        ensures
            r@ == self@,
    {
        Ban {
            user_id: self.user_id,
            duration: self.duration,
            initiated_at: self.initiated_at,
            ip: match self.ip {
                Some(s) => Some(s.to_owned()),
                None => None,
            },
        }
    }
}

/// The activity law for bans: a permanent ban (no duration) is active
/// at every time; a timed ban is active exactly strictly before its
/// initiation time plus its duration.
pub proof fn lemma_ban_activity(b: BanView, now: u64)
    ensures
        b.duration is None ==> b.spec_active(now),
        b.duration matches Some(d) ==> (b.spec_active(now) <==> (now as int) < (
        b.initiated_at as int) + (d as int)),
{
}

} // verus!
