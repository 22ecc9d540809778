//! The two storage tiers behind the provider interfaces, and the
//! errors any provider can emit.
//!
//! [`Cache`] models the fast key-value store: per-resource maps that
//! mirror the remote store's key namespaces, with atomic get-and-set
//! semantics. [`Persistent`] models the durable relational store: one
//! table per resource, point-keyed by user ID. Each tier carries a
//! [`Fault`] switch so that outage and corruption behaviour — what the
//! hybrid coordinator exists to handle — can be exercised and reasoned
//! about; a healthy tier never fails.
//!
//! The remote deployments of both tiers live outside the verified
//! library and implement the same provider traits against a real
//! key-value store and a real relational store.

use vstd::prelude::*;
use vstd::string::StringExecFns;

use crate::alist::{SMap, UMap};
use crate::ban::Ban;
use crate::mute::Mute;
use crate::text::str_eq;
use crate::user::{NewRoleEntry, Role};

verus! {

/// Which storage tier an error came from.
#[derive(Clone, Copy, PartialEq, Eq, Structural, Debug)]
pub enum TierKind {
    Cache,
    Persistent,
}

/// Any error emitted by a storage backend.
///
/// "Not found" is never an error: providers translate it to `None` or
/// an empty result at their boundary.
#[derive(Clone, Copy, Debug)]
pub enum ProviderError {
    /// The underlying store was unreachable or answered with a
    /// protocol-level failure. Recoverable by hybrid read fallback.
    TransportError { tier: TierKind },
    /// Stored bytes could not be decoded into the expected record
    /// shape. Treated like a transport failure for fallback purposes.
    SerializationError { tier: TierKind },
    /// The caller omitted a required argument. Always fatal, never
    /// retried.
    MissingArgument { arg: &'static str },
}

impl PartialEq for ProviderError {
    fn eq(&self, other: &Self) -> (r: bool) {
        match (self, other) {
            (Self::TransportError { tier: a }, Self::TransportError { tier: b }) => a == b,
            (Self::SerializationError { tier: a }, Self::SerializationError { tier: b }) => a == b,
            (Self::MissingArgument { arg: a }, Self::MissingArgument { arg: b }) => str_eq(a, b),
            _ => false,
        }
    }
}

impl vstd::std_specs::cmp::PartialEqSpecImpl for ProviderError {
    open spec fn obeys_eq_spec() -> bool {
        true
    }

    open spec fn eq_spec(&self, other: &Self) -> bool {
        match (self, other) {
            (Self::TransportError { tier: a }, Self::TransportError { tier: b }) => a == b,
            (Self::SerializationError { tier: a }, Self::SerializationError { tier: b }) => a == b,
            (Self::MissingArgument { arg: a }, Self::MissingArgument { arg: b }) => a@ == b@,
            _ => false,
        }
    }
}

impl ProviderError {
    /// The spelled-out description of the error.
    pub open spec fn spec_message(self) -> Seq<char> {
        match self {
            Self::TransportError { tier } => "the provider encountered a transport error"@,
            Self::SerializationError { tier } => "the provider encountered a serialization error"@,
            Self::MissingArgument { arg } => "malformed query; missing argument: "@ + arg@,
        }
    }

    /// A human-readable description of the error.
    pub fn message(&self) -> (r: String)
        ensures
            r@ == self.spec_message(),
    {
        match self {
            Self::TransportError { tier: _ } => String::from_str(
                "the provider encountered a transport error",
            ),
            Self::SerializationError { tier: _ } => String::from_str(
                "the provider encountered a serialization error",
            ),
            Self::MissingArgument { arg } => {
                let mut s = String::from_str("malformed query; missing argument: ");
                s.append(arg);
                s
            },
        }
    }
}

/// The character sequences a map of owned strings denotes.
pub open spec fn string_views(m: Map<u64, String>) -> Map<u64, Seq<char>> {
    Map::new(|k: u64| m.contains_key(k), |k: u64| m[k]@)
}

/// A simulated failure mode for a model tier.
#[derive(Clone, Copy, PartialEq, Eq, Structural, Debug)]
pub enum Fault {
    /// The tier is healthy: every operation succeeds.
    Off,
    /// Every store operation fails with a transport error.
    Transport,
    /// Every store operation fails with a serialization error.
    Serialization,
    /// Every read fails with a transport error; writes succeed.
    ReadTransport,
}

/// The shape a read failure of a tier with fault mode `f` may take:
/// a transport or serialization error tagged with that tier, matching
/// the fault mode; never a missing-argument error.
pub open spec fn spec_read_error(e: ProviderError, f: Fault, tier: TierKind) -> bool {
    match e {
        ProviderError::TransportError { tier: t } => t == tier && (f == Fault::Transport || f
            == Fault::ReadTransport),
        ProviderError::SerializationError { tier: t } => t == tier && f == Fault::Serialization,
        ProviderError::MissingArgument { .. } => false,
    }
}

/// The shape a write failure of a tier with fault mode `f` may take:
/// a transport or serialization error tagged with that tier, matching
/// the fault mode; never a missing-argument error.
pub open spec fn spec_write_error(e: ProviderError, f: Fault, tier: TierKind) -> bool {
    match e {
        ProviderError::TransportError { tier: t } => t == tier && f == Fault::Transport,
        ProviderError::SerializationError { tier: t } => t == tier && f == Fault::Serialization,
        ProviderError::MissingArgument { .. } => false,
    }
}

/// The error a read against a tier with fault mode `f` raises, tagged
/// with the tier it came from, or `None` when reads succeed.
pub fn read_fault_error(f: Fault, tier: TierKind) -> (r: Option<ProviderError>)
    ensures
        r is None <==> f == Fault::Off,
        r matches Some(e) ==> match e {
            ProviderError::TransportError { tier: t } => (f == Fault::Transport || f
                == Fault::ReadTransport) && t == tier,
            ProviderError::SerializationError { tier: t } => f == Fault::Serialization && t == tier,
            ProviderError::MissingArgument { .. } => false,
        },
{
    match f {
        Fault::Off => None,
        Fault::Transport => Some(ProviderError::TransportError { tier }),
        Fault::Serialization => Some(ProviderError::SerializationError { tier }),
        Fault::ReadTransport => Some(ProviderError::TransportError { tier }),
    }
}

/// The error a write against a tier with fault mode `f` raises,
/// tagged with the tier it came from, or `None` when writes succeed.
pub fn write_fault_error(f: Fault, tier: TierKind) -> (r: Option<ProviderError>)
    ensures
        r is None <==> (f == Fault::Off || f == Fault::ReadTransport),
        r matches Some(e) ==> match e {
            ProviderError::TransportError { tier: t } => f == Fault::Transport && t == tier,
            ProviderError::SerializationError { tier: t } => f == Fault::Serialization && t == tier,
            ProviderError::MissingArgument { .. } => false,
        },
{
    match f {
        Fault::Off => None,
        Fault::Transport => Some(ProviderError::TransportError { tier }),
        Fault::Serialization => Some(ProviderError::SerializationError { tier }),
        Fault::ReadTransport => None,
    }
}

/// The cache tier: a model of the fast key-value store, one map per
/// key namespace.
pub struct Cache {
    /// Bans keyed by user ID
    pub bans: UMap<Ban>,
    /// Bans keyed by banned address
    pub addr_bans: SMap<Ban>,
    /// Mutes keyed by user ID
    pub mutes: UMap<Mute>,
    /// Role-name sets keyed by user ID
    pub role_sets: UMap<Vec<Role>>,
    /// User IDs keyed by username
    pub ids: SMap<u64>,
    /// Usernames keyed by user ID
    pub names: UMap<String>,
    /// The simulated failure mode of the store
    pub fault: Fault,
}

impl Cache {
    /// Every map is well formed and role sets hold no duplicates.
    pub open spec fn inv(&self) -> bool {
        &&& self.bans.wf()
        &&& self.addr_bans.wf()
        &&& (forall|a: Seq<char>|
            self.addr_bans@.contains_key(a) ==> (#[trigger] self.addr_bans@[a])@.ip == Some(a))
        &&& self.mutes.wf()
        &&& self.role_sets.wf()
        &&& (forall|id: u64|
            self.role_sets@.contains_key(id) ==> (#[trigger] self.role_sets@[id])@.no_duplicates())
        &&& self.ids.wf()
        &&& self.names.wf()
    }

    /// Creates a healthy, empty cache tier.
    pub fn new() -> (r: Self)
        ensures
            r.inv(),
            r.fault == Fault::Off,
            r.bans@ == Map::<u64, Ban>::empty(),
            r.addr_bans@ == Map::<Seq<char>, Ban>::empty(),
            r.mutes@ == Map::<u64, Mute>::empty(),
            r.role_sets@ == Map::<u64, Vec<Role>>::empty(),
            r.ids@ == Map::<Seq<char>, u64>::empty(),
            r.names@ == Map::<u64, String>::empty(),
    {
        Cache {
            bans: UMap::new(),
            addr_bans: SMap::new(),
            mutes: UMap::new(),
            role_sets: UMap::new(),
            ids: SMap::new(),
            names: UMap::new(),
            fault: Fault::Off,
        }
    }

    /// Switches the simulated failure mode; the stored state is kept.
    pub fn set_fault(&mut self, f: Fault)
        ensures
            *final(self) == (Cache { fault: f, ..*old(self) }),
    {
        self.fault = f;
    }
}

/// The persistent tier: a model of the durable relational store, one
/// table per resource.
pub struct Persistent {
    /// The bans table, point-keyed by user ID
    pub bans: UMap<Ban>,
    /// The mutes table, point-keyed by user ID
    pub mutes: UMap<Mute>,
    /// The roles table: one row of nullable flags per user
    pub roles: UMap<NewRoleEntry>,
    /// The users table, reduced to the canonical username column
    pub users: UMap<String>,
    /// The username-to-ID mappings table
    pub ids: SMap<u64>,
    /// The simulated failure mode of the store
    pub fault: Fault,
}

impl Persistent {
    /// Every table is well formed and role rows belong to their key.
    pub open spec fn inv(&self) -> bool {
        &&& self.bans.wf()
        &&& self.mutes.wf()
        &&& self.roles.wf()
        &&& self.users.wf()
        &&& self.ids.wf()
    }

    /// Creates a healthy, empty persistent tier.
    pub fn new() -> (r: Self)
        ensures
            r.inv(),
            r.fault == Fault::Off,
            r.bans@ == Map::<u64, Ban>::empty(),
            r.mutes@ == Map::<u64, Mute>::empty(),
            r.roles@ == Map::<u64, NewRoleEntry>::empty(),
            r.users@ == Map::<u64, String>::empty(),
            r.ids@ == Map::<Seq<char>, u64>::empty(),
    {
        Persistent {
            bans: UMap::new(),
            mutes: UMap::new(),
            roles: UMap::new(),
            users: UMap::new(),
            ids: SMap::new(),
            fault: Fault::Off,
        }
    }

    /// Switches the simulated failure mode; the stored state is kept.
    pub fn set_fault(&mut self, f: Fault)
        ensures
            *final(self) == (Persistent { fault: f, ..*old(self) }),
    {
        self.fault = f;
    }

    /// Upserts a row of the users table: the durable account record
    /// that name resolution reads and updates.
    pub fn insert_user(&mut self, id: u64, username: &str)
        requires
            old(self).inv(),
        ensures
            final(self).inv(),
            string_views(final(self).users@) == string_views(old(self).users@).insert(
                id,
                username@,
            ),
            final(self).bans == old(self).bans,
            final(self).mutes == old(self).mutes,
            final(self).roles == old(self).roles,
            final(self).ids == old(self).ids,
            final(self).fault == old(self).fault,
    {
        let owned = username.to_owned();
        self.users.insert(id, owned);
        proof {
            assert(string_views(self.users@) =~= string_views(old(self).users@).insert(
                id,
                username@,
            ));
        }
    }
}

} // verus!
