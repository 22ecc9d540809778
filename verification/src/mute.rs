//! Mute records and their logical-expiry semantics.
//!
//! A mute always carries a duration: there are no permanent mutes. A
//! record that has logically expired is still fetchable; only activity
//! checks report it as inactive. Times are nanoseconds since the Unix
//! epoch; durations are nanoseconds.

use vstd::prelude::*;

use crate::clock::now_nanos;

verus! {

/// A mute entry: who is muted, for how long, and since when.
#[derive(Clone, Copy, PartialEq, Eq, Structural, Debug)]
pub struct Mute {
    /// The ID of the user corresponding to this mute
    pub user_id: u64,
    /// The number of nanoseconds that this mute will be in effect for
    pub duration: u64,
    /// The time at which this mute was issued, in nanoseconds since the
    /// Unix epoch
    pub initiated_at: u64,
}

impl Mute {
    /// Whether the mute is active at time `now`: strictly before the
    /// initiation time plus the duration.
    pub open spec fn spec_active(self, now: u64) -> bool {
        (now as int) < (self.initiated_at as int) + (self.duration as int)
    }

    /// Creates a new mute primitive, taking the current time as the
    /// initiation timestamp.
    pub fn new(user_id: u64, duration: u64) -> (r: Self)
        ensures
            r.user_id == user_id,
            r.duration == duration,
    {
        Self { user_id, duration, initiated_at: now_nanos() }
    }

    /// The same mute, reassigned to the given user.
    pub fn with_user_id(self, user_id: u64) -> (r: Self)
        ensures
            r == (Mute { user_id, ..self }),
    {
        Mute { user_id, ..self }
    }

    /// The same mute with the given duration, in nanoseconds.
    pub fn with_duration(self, duration: u64) -> (r: Self)
        ensures
            r == (Mute { duration, ..self }),
    {
        Mute { duration, ..self }
    }

    /// The same mute with the given initiation time.
    pub fn with_initiation_timestamp(self, initiated_at: u64) -> (r: Self)
        ensures
            r == (Mute { initiated_at, ..self }),
    {
        Mute { initiated_at, ..self }
    }

    /// Whether the mute is active at time `now`.
    pub fn active_at(&self, now: u64) -> (r: bool)
        ensures
            r == self.spec_active(now),
    {
        (now as u128) < (self.initiated_at as u128) + (self.duration as u128)
    }

    /// Whether the mute is active at the current wall-clock time:
    /// [`Mute::active_at`] applied to one clock reading. Nothing can
    /// be promised about which reading that is.
    pub fn active(&self) -> (r: bool)
        ensures
            exists|now: u64| r == self.spec_active(now),
    {
        let now = now_nanos();
        self.active_at(now)
    }

    /// The ID of the user who is muted.
    pub fn concerns(&self) -> (r: u64)
        ensures
            r == self.user_id,
    {
        self.user_id
    }

    /// The timeframe that the mute covers, in nanoseconds.
    pub fn active_for(&self) -> (r: u64)
        ensures
            r == self.duration,
    {
        self.duration
    }
}

impl Default for Mute {
    /// A mute of user 0 with duration 0, issued at the current time.
    fn default() -> (r: Self)
        ensures
            r.user_id == 0,
            r.duration == 0,
    {
        Self { user_id: 0, duration: 0, initiated_at: now_nanos() }
    }
}

/// The activity law for mutes: a mute with duration `d` initiated at
/// `t` is active at `now` exactly when `now` lies strictly before
/// `t + d`, and inactive at and after that bound.
pub proof fn lemma_mute_activity(m: Mute, now: u64)
    ensures
        m.spec_active(now) <==> (now as int) < (m.initiated_at as int) + (m.duration as int),
        (now as int) >= (m.initiated_at as int) + (m.duration as int) ==> !m.spec_active(now),
{
}

} // verus!
