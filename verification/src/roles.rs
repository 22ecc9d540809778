//! The roles service: granting, removing and listing role flags
//! against any provider backend.
//!
//! A user with no entry simply has no roles: querying never requires
//! the entry to exist. Granting a role must not disturb the user's
//! other roles — the persistent tier's upsert updates only the named
//! flag, the cache tier's set-add touches only the named member — so
//! concurrent grants of different roles to one user cannot clobber
//! each other.

use vstd::prelude::*;

use crate::hybrid::Hybrid;
use crate::providers::{
    read_fault_error, spec_read_error, spec_write_error, write_fault_error, Cache, Fault,
    Persistent, ProviderError, TierKind,
};
use crate::user::{role_seq_if, roles_contain, roles_in_order, NewRoleEntry, Role};

verus! {

/// The role sets a map of role-name vectors denotes.
pub open spec fn role_set_views(m: Map<u64, Vec<Role>>) -> Map<u64, Set<Role>> {
    Map::new(|k: u64| m.contains_key(k), |k: u64| m[k]@.to_set())
}

/// The role sets a table of role rows denotes.
pub open spec fn row_role_views(m: Map<u64, NewRoleEntry>) -> Map<u64, Set<Role>> {
    Map::new(|k: u64| m.contains_key(k), |k: u64| m[k].spec_roles())
}

/// The roles `m` grants `id`: absence of an entry means no roles,
/// not an error.
pub open spec fn roles_of(m: Map<u64, Set<Role>>, id: u64) -> Set<Role> {
    if m.contains_key(id) {
        m[id]
    } else {
        Set::empty()
    }
}

/// A copy of a role list.
fn clone_roles(v: &Vec<Role>) -> (r: Vec<Role>)
    ensures
        r@ == v@,
{
    let mut r: Vec<Role> = Vec::new();
    let n = v.len();
    let mut i: usize = 0;
    while i < n
        invariant
            0 <= i <= n,
            n == v@.len(),
            r@ == v@.take(i as int),
        decreases n - i,
    {
        r.push(v[i]);
        proof {
            assert(r@ =~= v@.take(i + 1));
        }
        i += 1;
    }
    proof {
        assert(v@.take(n as int) =~= v@);
    }
    r
}

/// The list `v` without `role`, order kept.
fn without_role(v: &Vec<Role>, role: Role) -> (r: Vec<Role>)
    requires
        v@.no_duplicates(),
    ensures
        r@.no_duplicates(),
        forall|x: Role| #[trigger] r@.contains(x) == (v@.contains(x) && x != role),
{
    broadcast use vstd::seq_lib::lemma_seq_contains_after_push;

    let mut r: Vec<Role> = Vec::new();
    let n = v.len();
    let mut i: usize = 0;
    while i < n
        invariant
            0 <= i <= n,
            n == v@.len(),
            v@.no_duplicates(),
            r@.no_duplicates(),
            forall|x: Role| #[trigger] r@.contains(x) == (v@.take(i as int).contains(x) && x
                != role),
        decreases n - i,
    {
        let ghost pre = r@;
        let x = v[i];
        if !(x == role) {
            proof {
                assert(!r@.contains(x));
            }
            r.push(x);
        }
        proof {
            assert(v@.take(i + 1) =~= v@.take(i as int).push(v@[i as int]));
            assert forall|y: Role| #[trigger] r@.contains(y) == (v@.take(i + 1).contains(y) && y
                != role) by {
                vstd::seq_lib::lemma_seq_contains_after_push(v@.take(i as int), v@[i as int], y);
                if x != role {
                    vstd::seq_lib::lemma_seq_contains_after_push(pre, x, y);
                }
            }
            assert(r@.no_duplicates());
        }
        i += 1;
    }
    proof {
        assert(v@.take(n as int) =~= v@);
    }
    r
}

/// The list `v` extended by the members of `extra` it lacks, order
/// kept.
fn with_roles(v: &Vec<Role>, extra: &[Role]) -> (r: Vec<Role>)
    requires
        v@.no_duplicates(),
    ensures
        r@.no_duplicates(),
        forall|x: Role| #[trigger] r@.contains(x) == (v@.contains(x) || extra@.contains(x)),
{
    broadcast use vstd::seq_lib::lemma_seq_contains_after_push;

    let mut r: Vec<Role> = clone_roles(v);
    let n = extra.len();
    let mut i: usize = 0;
    while i < n
        invariant
            0 <= i <= n,
            n == extra@.len(),
            r@.no_duplicates(),
            forall|x: Role| #[trigger] r@.contains(x) == (v@.contains(x) || extra@.take(
                i as int,
            ).contains(x)),
        decreases n - i,
    {
        let ghost pre = r@;
        let x = extra[i];
        if !roles_contain(r.as_slice(), x) {
            r.push(x);
        }
        proof {
            assert(extra@.take(i + 1) =~= extra@.take(i as int).push(extra@[i as int]));
            assert forall|y: Role| #[trigger] r@.contains(y) == (v@.contains(y) || extra@.take(
                i + 1,
            ).contains(y)) by {
                vstd::seq_lib::lemma_seq_contains_after_push(
                    extra@.take(i as int),
                    extra@[i as int],
                    y,
                );
                if !pre.contains(x) {
                    vstd::seq_lib::lemma_seq_contains_after_push(pre, x, y);
                }
            }
            assert(r@.no_duplicates());
        }
        i += 1;
    }
    proof {
        assert(extra@.take(n as int) =~= extra@);
    }
    r
}

/// The row `row` with the flag of `role` set to `value` and every
/// other flag kept.
fn set_role_flag(row: NewRoleEntry, role: Role, value: bool) -> (r: NewRoleEntry)
    ensures
        r.user_id == row.user_id,
        forall|x: Role| #[trigger] r.spec_has_role(x) == if x == role {
            value
        } else {
            row.spec_has_role(x)
        },
{
    let r = match role {
        Role::Administrator => NewRoleEntry { administrator: Some(value), ..row },
        Role::Moderator => NewRoleEntry { moderator: Some(value), ..row },
        Role::VIP => NewRoleEntry { vip: Some(value), ..row },
        Role::Protected => NewRoleEntry { protected: Some(value), ..row },
        Role::Subscriber => NewRoleEntry { subscriber: Some(value), ..row },
        Role::Bot => NewRoleEntry { bot: Some(value), ..row },
    };
    proof {
        assert forall|x: Role| #[trigger] r.spec_has_role(x) == if x == role {
            value
        } else {
            row.spec_has_role(x)
        } by {
            match x {
                Role::Administrator => {},
                Role::Moderator => {},
                Role::VIP => {},
                Role::Protected => {},
                Role::Subscriber => {},
                Role::Bot => {},
            }
        }
    }
    r
}

/// Granting one role never disturbs another: after a grant of
/// `granted`, the user holds `granted`, and holds any other role
/// exactly as before. Combined with the contract of
/// `Provider::give_role`, whose success updates the user's set to its
/// old value plus the granted role.
pub proof fn lemma_role_grant_independent(
    m: Map<u64, Set<Role>>,
    user_id: u64,
    granted: Role,
    other: Role,
)
    requires
        other != granted,
    ensures
        roles_of(m.insert(user_id, roles_of(m, user_id).insert(granted)), user_id).contains(
            granted,
        ),
        roles_of(m.insert(user_id, roles_of(m, user_id).insert(granted)), user_id).contains(other)
            == roles_of(m, user_id).contains(other),
{
}

/// An arbitrary backend for the roles service. Backends may be used
/// in conjunction: the hybrid coordinator composes two of them.
pub trait Provider: Sized {
    /// The durable view of the role store.
    open spec fn role_truth(&self) -> Map<u64, Set<Role>> {
        Map::empty()
    }

    /// The view low-latency reads may see.
    open spec fn role_visible(&self) -> Map<u64, Set<Role>> {
        Map::empty()
    }

    /// Whether this backend is one physical store, so that both views
    /// always coincide.
    open spec fn role_unified(&self) -> bool {
        false
    }

    /// The backend's internal invariant.
    open spec fn roles_wf(&self) -> bool {
        false
    }

    /// Reads never fail on this backend.
    open spec fn role_reads_ok(&self) -> bool {
        false
    }

    /// Writes never fail on this backend.
    open spec fn role_writes_ok(&self) -> bool {
        false
    }

    /// Every read fails on this backend.
    open spec fn role_reads_fail(&self) -> bool {
        false
    }

    /// Every write fails on this backend.
    open spec fn role_writes_fail(&self) -> bool {
        false
    }

    /// Whether the user holds the given role. Absence of an entry
    /// means no roles, never an error. A backend with a read-repair
    /// policy may refresh its visible entry for this user.
    fn has_role(&mut self, user_id: u64, role: &Role) -> (r: Result<bool, ProviderError>)
        requires
            old(self).roles_wf(),
        ensures
            final(self).roles_wf(),
            final(self).role_reads_ok() == old(self).role_reads_ok(),
            final(self).role_writes_ok() == old(self).role_writes_ok(),
            final(self).role_reads_fail() == old(self).role_reads_fail(),
            final(self).role_writes_fail() == old(self).role_writes_fail(),
            final(self).role_unified() == old(self).role_unified(),
            old(self).role_unified() ==> final(self).role_truth() == final(self).role_visible(),
            final(self).role_truth() == old(self).role_truth(),
            old(self).role_unified() ==> final(self).role_visible() == old(self).role_visible(),
            r is Ok ==> final(self).role_visible() == old(self).role_visible() || final(self).role_visible() == old(self).role_visible().insert(
                user_id,
                roles_of(old(self).role_visible(), user_id).insert(*role),
            ) || final(self).role_visible() == old(self).role_visible().insert(
                user_id,
                roles_of(old(self).role_visible(), user_id).remove(*role),
            ),
            old(self).role_reads_ok() ==> r is Ok,
            old(self).role_reads_fail() ==> r is Err,
            r matches Ok(b) ==> (b == roles_of(old(self).role_truth(), user_id).contains(*role)
                || b == roles_of(old(self).role_visible(), user_id).contains(*role)),
    ;

    /// Grants the given role without disturbing the user's other
    /// roles; the entry is created when absent.
    fn give_role(&mut self, user_id: u64, role: &Role) -> (r: Result<(), ProviderError>)
        requires
            old(self).roles_wf(),
        ensures
            final(self).roles_wf(),
            final(self).role_reads_ok() == old(self).role_reads_ok(),
            final(self).role_writes_ok() == old(self).role_writes_ok(),
            final(self).role_reads_fail() == old(self).role_reads_fail(),
            final(self).role_writes_fail() == old(self).role_writes_fail(),
            final(self).role_unified() == old(self).role_unified(),
            old(self).role_unified() ==> final(self).role_truth() == final(self).role_visible(),
            old(self).role_writes_ok() ==> r is Ok,
            old(self).role_writes_fail() ==> r is Err,
            r is Ok ==> {
                &&& final(self).role_truth() == old(self).role_truth().insert(
                    user_id,
                    roles_of(old(self).role_truth(), user_id).insert(*role),
                )
                &&& final(self).role_visible() == old(self).role_visible().insert(
                    user_id,
                    roles_of(old(self).role_visible(), user_id).insert(*role),
                )
            },
    ;

    /// Grants all the listed roles at once, disturbing nothing else.
    fn give_roles(&mut self, user_id: u64, roles: &[Role]) -> (r: Result<(), ProviderError>)
        requires
            old(self).roles_wf(),
        ensures
            final(self).roles_wf(),
            final(self).role_reads_ok() == old(self).role_reads_ok(),
            final(self).role_writes_ok() == old(self).role_writes_ok(),
            final(self).role_reads_fail() == old(self).role_reads_fail(),
            final(self).role_writes_fail() == old(self).role_writes_fail(),
            final(self).role_unified() == old(self).role_unified(),
            old(self).role_unified() ==> final(self).role_truth() == final(self).role_visible(),
            old(self).role_writes_ok() ==> r is Ok,
            old(self).role_writes_fail() ==> r is Err,
            r is Ok ==> {
                &&& final(self).role_truth() == old(self).role_truth().insert(
                    user_id,
                    roles_of(old(self).role_truth(), user_id).union(roles@.to_set()),
                )
                &&& final(self).role_visible() == old(self).role_visible().insert(
                    user_id,
                    roles_of(old(self).role_visible(), user_id).union(roles@.to_set()),
                )
            },
    ;

    /// Removes the given role, keeping every other role of the user.
    fn remove_role(&mut self, user_id: u64, role: &Role) -> (r: Result<(), ProviderError>)
        requires
            old(self).roles_wf(),
        ensures
            final(self).roles_wf(),
            final(self).role_reads_ok() == old(self).role_reads_ok(),
            final(self).role_writes_ok() == old(self).role_writes_ok(),
            final(self).role_reads_fail() == old(self).role_reads_fail(),
            final(self).role_writes_fail() == old(self).role_writes_fail(),
            final(self).role_unified() == old(self).role_unified(),
            old(self).role_unified() ==> final(self).role_truth() == final(self).role_visible(),
            old(self).role_writes_ok() ==> r is Ok,
            old(self).role_writes_fail() ==> r is Err,
            r is Ok ==> {
                &&& (final(self).role_truth() == old(self).role_truth().insert(
                    user_id,
                    roles_of(old(self).role_truth(), user_id).remove(*role),
                ) || (final(self).role_truth() == old(self).role_truth() && !old(self).role_truth().contains_key(user_id)))
                &&& (final(self).role_visible() == old(self).role_visible().insert(
                    user_id,
                    roles_of(old(self).role_visible(), user_id).remove(*role),
                ) || (final(self).role_visible() == old(self).role_visible() && !old(self).role_visible().contains_key(user_id)))
            },
    ;

    /// Removes every role of the user, returning what was removed.
    fn purge_roles(&mut self, user_id: u64) -> (r: Result<Vec<Role>, ProviderError>)
        requires
            old(self).roles_wf(),
        ensures
            final(self).roles_wf(),
            final(self).role_reads_ok() == old(self).role_reads_ok(),
            final(self).role_writes_ok() == old(self).role_writes_ok(),
            final(self).role_reads_fail() == old(self).role_reads_fail(),
            final(self).role_writes_fail() == old(self).role_writes_fail(),
            final(self).role_unified() == old(self).role_unified(),
            old(self).role_unified() ==> final(self).role_truth() == final(self).role_visible(),
            old(self).role_writes_fail() || old(self).role_reads_fail() ==> r is Err,
            r matches Ok(v) ==> {
                &&& final(self).role_truth() == old(self).role_truth().remove(user_id)
                &&& final(self).role_visible() == old(self).role_visible().remove(user_id)
                &&& v@.no_duplicates()
                &&& (v@.to_set() == roles_of(old(self).role_truth(), user_id) || v@.to_set()
                    == roles_of(old(self).role_visible(), user_id))
            },
    ;

    /// Lists the roles the user holds, without duplicates; a user
    /// with no entry yields an empty list, never an error. A backend
    /// with a read-repair policy may refresh its visible entry.
    fn roles_for_user(&mut self, user_id: u64) -> (r: Result<Vec<Role>, ProviderError>)
        requires
            old(self).roles_wf(),
        ensures
            final(self).roles_wf(),
            final(self).role_reads_ok() == old(self).role_reads_ok(),
            final(self).role_writes_ok() == old(self).role_writes_ok(),
            final(self).role_reads_fail() == old(self).role_reads_fail(),
            final(self).role_writes_fail() == old(self).role_writes_fail(),
            final(self).role_unified() == old(self).role_unified(),
            old(self).role_unified() ==> final(self).role_truth() == final(self).role_visible(),
            final(self).role_truth() == old(self).role_truth(),
            old(self).role_unified() ==> final(self).role_visible() == old(self).role_visible(),
            old(self).role_reads_ok() ==> r is Ok,
            old(self).role_reads_fail() ==> r is Err,
            r matches Ok(v) ==> {
                &&& v@.no_duplicates()
                &&& (v@.to_set() == roles_of(old(self).role_truth(), user_id) || v@.to_set()
                    == roles_of(old(self).role_visible(), user_id))
                &&& (final(self).role_visible() == old(self).role_visible() || final(self).role_visible() == old(self).role_visible().insert(
                    user_id,
                    roles_of(old(self).role_visible(), user_id).union(v@.to_set()),
                ))
            },
    ;
}

impl Provider for Cache {
    open spec fn role_truth(&self) -> Map<u64, Set<Role>> {
        role_set_views(self.role_sets@)
    }

    open spec fn role_visible(&self) -> Map<u64, Set<Role>> {
        role_set_views(self.role_sets@)
    }

    open spec fn role_unified(&self) -> bool {
        true
    }

    open spec fn roles_wf(&self) -> bool {
        self.inv()
    }

    open spec fn role_reads_ok(&self) -> bool {
        self.fault == Fault::Off
    }

    open spec fn role_writes_ok(&self) -> bool {
        self.fault == Fault::Off || self.fault == Fault::ReadTransport
    }

    open spec fn role_reads_fail(&self) -> bool {
        self.fault != Fault::Off
    }

    open spec fn role_writes_fail(&self) -> bool {
        self.fault == Fault::Transport || self.fault == Fault::Serialization
    }

    /// Set-membership test on the user's role set.
    fn has_role(&mut self, user_id: u64, role: &Role) -> (r: Result<bool, ProviderError>)
        ensures
            *final(self) == *old(self),
            r matches Err(e) ==> spec_read_error(e, old(self).fault, TierKind::Cache),
    {
        match read_fault_error(self.fault, TierKind::Cache) {
            Some(e) => Err(e),
            None => match self.role_sets.get(user_id) {
                Some(v) => Ok(roles_contain(v.as_slice(), *role)),
                None => Ok(false),
            },
        }
    }

    /// Set-add of a single member.
    fn give_role(&mut self, user_id: u64, role: &Role) -> (r: Result<(), ProviderError>)
        ensures
            r is Err ==> *final(self) == *old(self),
            r matches Err(e) ==> spec_write_error(e, old(self).fault, TierKind::Cache),
    {
        let single = vec![*role];
        proof {
            broadcast use vstd::seq_lib::lemma_seq_contains_after_push;

            assert(single@ =~= Seq::<Role>::empty().push(*role));
            assert forall|x: Role| single@.to_set().contains(x) == Set::<Role>::empty().insert(
                *role,
            ).contains(x) by {}
            assert(single@.to_set() =~= Set::<Role>::empty().insert(*role));
        }
        let r = self.give_roles(user_id, single.as_slice());
        proof {
            if r is Ok {
                assert(roles_of(old(self).role_visible(), user_id).union(single@.to_set())
                    =~= roles_of(old(self).role_visible(), user_id).insert(*role));
            }
        }
        r
    }

    /// Set-add of all the listed members at once.
    fn give_roles(&mut self, user_id: u64, roles: &[Role]) -> (r: Result<(), ProviderError>)
        ensures
            r is Err ==> *final(self) == *old(self),
            r matches Err(e) ==> spec_write_error(e, old(self).fault, TierKind::Cache),
    {
        match write_fault_error(self.fault, TierKind::Cache) {
            Some(e) => Err(e),
            None => {
                let cur: Vec<Role> = match self.role_sets.get(user_id) {
                    Some(v) => clone_roles(v),
                    None => Vec::new(),
                };
                let updated = with_roles(&cur, roles);
                self.role_sets.insert(user_id, updated);
                proof {
                    assert(role_set_views(self.role_sets@) =~~= role_set_views(
                        old(self).role_sets@,
                    ).insert(
                        user_id,
                        roles_of(role_set_views(old(self).role_sets@), user_id).union(
                            roles@.to_set(),
                        ),
                    ));
                }
                Ok(())
            },
        }
    }

    /// Set-remove of a single member; a user with no set is left
    /// without one.
    fn remove_role(&mut self, user_id: u64, role: &Role) -> (r: Result<(), ProviderError>)
        ensures
            r is Err ==> *final(self) == *old(self),
            r matches Err(e) ==> spec_write_error(e, old(self).fault, TierKind::Cache),
    {
        match write_fault_error(self.fault, TierKind::Cache) {
            Some(e) => Err(e),
            None => {
                match self.role_sets.get(user_id) {
                    Some(v) => {
                        let updated = without_role(v, *role);
                        self.role_sets.insert(user_id, updated);
                        proof {
                            assert(role_set_views(self.role_sets@) =~~= role_set_views(
                                old(self).role_sets@,
                            ).insert(
                                user_id,
                                roles_of(role_set_views(old(self).role_sets@), user_id).remove(
                                    *role,
                                ),
                            ));
                        }
                    },
                    None => {},
                }
                Ok(())
            },
        }
    }

    /// Reads the user's set, then deletes the key, returning what was
    /// read.
    fn purge_roles(&mut self, user_id: u64) -> (r: Result<Vec<Role>, ProviderError>)
        ensures
            old(self).fault == Fault::Off ==> r is Ok,
            r is Err ==> *final(self) == *old(self),
            r matches Err(e) ==> spec_read_error(e, old(self).fault, TierKind::Cache),
    {
        match read_fault_error(self.fault, TierKind::Cache) {
            Some(e) => Err(e),
            None => {
                let old_roles: Vec<Role> = match self.role_sets.get(user_id) {
                    Some(v) => clone_roles(v),
                    None => Vec::new(),
                };
                self.role_sets.remove(user_id);
                proof {
                    assert(role_set_views(self.role_sets@) =~~= role_set_views(
                        old(self).role_sets@,
                    ).remove(user_id));
                    if !old(self).role_sets@.contains_key(user_id) {
                        assert(old_roles@.to_set() =~= Set::<Role>::empty());
                    }
                }
                Ok(old_roles)
            },
        }
    }

    /// Set-members of the user's role set; a missing key yields the
    /// empty list.
    fn roles_for_user(&mut self, user_id: u64) -> (r: Result<Vec<Role>, ProviderError>)
        ensures
            *final(self) == *old(self),
            r matches Err(e) ==> spec_read_error(e, old(self).fault, TierKind::Cache),
    {
        match read_fault_error(self.fault, TierKind::Cache) {
            Some(e) => Err(e),
            None => {
                let found: Vec<Role> = match self.role_sets.get(user_id) {
                    Some(v) => clone_roles(v),
                    None => Vec::new(),
                };
                proof {
                    if !self.role_sets@.contains_key(user_id) {
                        assert(found@.to_set() =~= Set::<Role>::empty());
                    }
                }
                Ok(found)
            },
        }
    }
}

impl Provider for Persistent {
    open spec fn role_truth(&self) -> Map<u64, Set<Role>> {
        row_role_views(self.roles@)
    }

    open spec fn role_visible(&self) -> Map<u64, Set<Role>> {
        row_role_views(self.roles@)
    }

    open spec fn role_unified(&self) -> bool {
        true
    }

    open spec fn roles_wf(&self) -> bool {
        self.inv()
    }

    open spec fn role_reads_ok(&self) -> bool {
        self.fault == Fault::Off
    }

    open spec fn role_writes_ok(&self) -> bool {
        self.fault == Fault::Off || self.fault == Fault::ReadTransport
    }

    open spec fn role_reads_fail(&self) -> bool {
        self.fault != Fault::Off
    }

    open spec fn role_writes_fail(&self) -> bool {
        self.fault == Fault::Transport || self.fault == Fault::Serialization
    }

    /// Flag test on the user's row; a missing row means the role is
    /// not held, never an error.
    fn has_role(&mut self, user_id: u64, role: &Role) -> (r: Result<bool, ProviderError>)
        ensures
            *final(self) == *old(self),
            r matches Err(e) ==> spec_read_error(e, old(self).fault, TierKind::Persistent),
    {
        match read_fault_error(self.fault, TierKind::Persistent) {
            Some(e) => Err(e),
            None => match self.roles.get(user_id) {
                Some(row) => Ok(row.has_role(role)),
                None => Ok(false),
            },
        }
    }

    /// Conditional upsert: updates only the named flag of an existing
    /// row, or inserts a new row granting only that role.
    fn give_role(&mut self, user_id: u64, role: &Role) -> (r: Result<(), ProviderError>)
        ensures
            r is Err ==> *final(self) == *old(self),
            r matches Err(e) ==> spec_write_error(e, old(self).fault, TierKind::Persistent),
    {
        match write_fault_error(self.fault, TierKind::Persistent) {
            Some(e) => Err(e),
            None => {
                let row = match self.roles.get(user_id) {
                    Some(row) => *row,
                    None => NewRoleEntry {
                        user_id,
                        administrator: None,
                        moderator: None,
                        vip: None,
                        protected: None,
                        subscriber: None,
                        bot: None,
                    },
                };
                let updated = set_role_flag(row, *role, true);
                self.roles.insert(user_id, updated);
                proof {
                    assert(updated.spec_roles() =~= roles_of(
                        row_role_views(old(self).roles@),
                        user_id,
                    ).insert(*role));
                    assert(row_role_views(self.roles@) =~~= row_role_views(
                        old(self).roles@,
                    ).insert(
                        user_id,
                        roles_of(row_role_views(old(self).roles@), user_id).insert(*role),
                    ));
                }
                Ok(())
            },
        }
    }

    /// One conditional upsert for all the named flags at once, so
    /// concurrent grants of different roles cannot clobber each
    /// other.
    fn give_roles(&mut self, user_id: u64, roles: &[Role]) -> (r: Result<(), ProviderError>)
        ensures
            r is Err ==> *final(self) == *old(self),
            r matches Err(e) ==> spec_write_error(e, old(self).fault, TierKind::Persistent),
    {
        match write_fault_error(self.fault, TierKind::Persistent) {
            Some(e) => Err(e),
            None => {
                let mut row = match self.roles.get(user_id) {
                    Some(row) => *row,
                    None => NewRoleEntry {
                        user_id,
                        administrator: None,
                        moderator: None,
                        vip: None,
                        protected: None,
                        subscriber: None,
                        bot: None,
                    },
                };
                let ghost orig = row;
                let n = roles.len();
                let mut i: usize = 0;
                while i < n
                    invariant
                        0 <= i <= n,
                        n == roles@.len(),
                        row.user_id == orig.user_id,
                        forall|x: Role| #[trigger] row.spec_has_role(x) == (orig.spec_has_role(x)
                            || roles@.take(i as int).contains(x)),
                    decreases n - i,
                {
                    proof {
                        broadcast use vstd::seq_lib::lemma_seq_contains_after_push;

                        assert(roles@.take(i + 1) =~= roles@.take(i as int).push(
                            roles@[i as int],
                        ));
                    }
                    row = set_role_flag(row, roles[i], true);
                    i += 1;
                }
                proof {
                    assert(roles@.take(n as int) =~= roles@);
                }
                self.roles.insert(user_id, row);
                proof {
                    assert(row.spec_roles() =~= roles_of(
                        row_role_views(old(self).roles@),
                        user_id,
                    ).union(roles@.to_set()));
                    assert(row_role_views(self.roles@) =~~= row_role_views(
                        old(self).roles@,
                    ).insert(
                        user_id,
                        roles_of(row_role_views(old(self).roles@), user_id).union(
                            roles@.to_set(),
                        ),
                    ));
                }
                Ok(())
            },
        }
    }

    /// Conditional upsert setting the named flag false, keeping every
    /// other flag.
    fn remove_role(&mut self, user_id: u64, role: &Role) -> (r: Result<(), ProviderError>)
        ensures
            r is Err ==> *final(self) == *old(self),
            r matches Err(e) ==> spec_write_error(e, old(self).fault, TierKind::Persistent),
    {
        match write_fault_error(self.fault, TierKind::Persistent) {
            Some(e) => Err(e),
            None => {
                let row = match self.roles.get(user_id) {
                    Some(row) => *row,
                    None => NewRoleEntry {
                        user_id,
                        administrator: None,
                        moderator: None,
                        vip: None,
                        protected: None,
                        subscriber: None,
                        bot: None,
                    },
                };
                let updated = set_role_flag(row, *role, false);
                self.roles.insert(user_id, updated);
                proof {
                    assert(updated.spec_roles() =~= roles_of(
                        row_role_views(old(self).roles@),
                        user_id,
                    ).remove(*role));
                    assert(row_role_views(self.roles@) =~~= row_role_views(
                        old(self).roles@,
                    ).insert(
                        user_id,
                        roles_of(row_role_views(old(self).roles@), user_id).remove(*role),
                    ));
                }
                Ok(())
            },
        }
    }

    /// Reads the row's roles, deletes the row, and returns what was
    /// read.
    fn purge_roles(&mut self, user_id: u64) -> (r: Result<Vec<Role>, ProviderError>)
        ensures
            old(self).fault == Fault::Off ==> r is Ok,
            r is Err ==> *final(self) == *old(self),
            r matches Err(e) ==> spec_read_error(e, old(self).fault, TierKind::Persistent),
    {
        match read_fault_error(self.fault, TierKind::Persistent) {
            Some(e) => Err(e),
            None => {
                let old_roles: Vec<Role> = match self.roles.get(user_id) {
                    Some(row) => roles_vec_of_row(row),
                    None => Vec::new(),
                };
                self.roles.remove(user_id);
                proof {
                    assert(row_role_views(self.roles@) =~~= row_role_views(
                        old(self).roles@,
                    ).remove(user_id));
                    if old(self).roles@.contains_key(user_id) {
                        assert(old_roles@.to_set() =~= roles_of(
                            row_role_views(old(self).roles@),
                            user_id,
                        ));
                    } else {
                        assert(old_roles@.to_set() =~= Set::<Role>::empty());
                    }
                }
                Ok(old_roles)
            },
        }
    }

    /// Reads the row and reconstitutes the role list; a user with
    /// zero rows yields the empty list, never an error.
    fn roles_for_user(&mut self, user_id: u64) -> (r: Result<Vec<Role>, ProviderError>)
        ensures
            *final(self) == *old(self),
            r matches Err(e) ==> spec_read_error(e, old(self).fault, TierKind::Persistent),
    {
        match read_fault_error(self.fault, TierKind::Persistent) {
            Some(e) => Err(e),
            None => {
                let found: Vec<Role> = match self.roles.get(user_id) {
                    Some(row) => roles_vec_of_row(row),
                    None => Vec::new(),
                };
                proof {
                    if self.roles@.contains_key(user_id) {
                        assert(found@.to_set() =~= roles_of(
                            row_role_views(self.roles@),
                            user_id,
                        ));
                    } else {
                        assert(found@.to_set() =~= Set::<Role>::empty());
                    }
                }
                Ok(found)
            },
        }
    }
}

/// The list of roles a row grants, in the fixed vocabulary order,
/// without duplicates.
#[verifier::rlimit(40)]
fn roles_vec_of_row(row: &NewRoleEntry) -> (r: Vec<Role>)
    ensures
        r@ == roles_in_order(
            row.spec_has_role(Role::Administrator),
            row.spec_has_role(Role::Moderator),
            row.spec_has_role(Role::VIP),
            row.spec_has_role(Role::Protected),
            row.spec_has_role(Role::Subscriber),
            row.spec_has_role(Role::Bot),
        ),
        r@.no_duplicates(),
        forall|x: Role| #[trigger] r@.contains(x) == row.spec_has_role(x),
{
    broadcast use vstd::seq_lib::lemma_seq_contains_after_push;

    let mut r: Vec<Role> = Vec::new();
    if matches!(row.administrator, Some(true)) {
        r.push(Role::Administrator);
    }
    proof {
        assert(r@ =~= role_seq_if(row.spec_has_role(Role::Administrator), Role::Administrator));
    }
    if matches!(row.moderator, Some(true)) {
        proof {
            assert(!r@.contains(Role::Moderator));
        }
        r.push(Role::Moderator);
        proof {
            assert(r@.no_duplicates());
        }
    }
    proof {
        assert(r@ =~= role_seq_if(row.spec_has_role(Role::Administrator), Role::Administrator)
            + role_seq_if(row.spec_has_role(Role::Moderator), Role::Moderator));
    }
    if matches!(row.vip, Some(true)) {
        proof {
            assert(!r@.contains(Role::VIP));
        }
        r.push(Role::VIP);
        proof {
            assert(r@.no_duplicates());
        }
    }
    proof {
        assert(r@ =~= role_seq_if(row.spec_has_role(Role::Administrator), Role::Administrator)
            + role_seq_if(row.spec_has_role(Role::Moderator), Role::Moderator) + role_seq_if(
            row.spec_has_role(Role::VIP),
            Role::VIP,
        ));
    }
    if matches!(row.protected, Some(true)) {
        proof {
            assert(!r@.contains(Role::Protected));
        }
        r.push(Role::Protected);
        proof {
            assert(r@.no_duplicates());
        }
    }
    proof {
        assert(r@ =~= role_seq_if(row.spec_has_role(Role::Administrator), Role::Administrator)
            + role_seq_if(row.spec_has_role(Role::Moderator), Role::Moderator) + role_seq_if(
            row.spec_has_role(Role::VIP),
            Role::VIP,
        ) + role_seq_if(row.spec_has_role(Role::Protected), Role::Protected));
    }
    if matches!(row.subscriber, Some(true)) {
        proof {
            assert(!r@.contains(Role::Subscriber));
        }
        r.push(Role::Subscriber);
        proof {
            assert(r@.no_duplicates());
        }
    }
    proof {
        assert(r@ =~= role_seq_if(row.spec_has_role(Role::Administrator), Role::Administrator)
            + role_seq_if(row.spec_has_role(Role::Moderator), Role::Moderator) + role_seq_if(
            row.spec_has_role(Role::VIP),
            Role::VIP,
        ) + role_seq_if(row.spec_has_role(Role::Protected), Role::Protected) + role_seq_if(
            row.spec_has_role(Role::Subscriber),
            Role::Subscriber,
        ));
    }
    if matches!(row.bot, Some(true)) {
        proof {
            assert(!r@.contains(Role::Bot));
        }
        r.push(Role::Bot);
        proof {
            assert(r@.no_duplicates());
        }
    }
    proof {
        assert(r@ =~= roles_in_order(
            row.spec_has_role(Role::Administrator),
            row.spec_has_role(Role::Moderator),
            row.spec_has_role(Role::VIP),
            row.spec_has_role(Role::Protected),
            row.spec_has_role(Role::Subscriber),
            row.spec_has_role(Role::Bot),
        ));
        assert forall|x: Role| #[trigger] r@.contains(x) == row.spec_has_role(x) by {
            match x {
                Role::Administrator => {},
                Role::Moderator => {},
                Role::VIP => {},
                Role::Protected => {},
                Role::Subscriber => {},
                Role::Bot => {},
            }
        }
    }
    r
}

impl<C: Provider, P: Provider> Provider for Hybrid<C, P> {
    open spec fn role_truth(&self) -> Map<u64, Set<Role>> {
        self.persistent.role_truth()
    }

    open spec fn role_visible(&self) -> Map<u64, Set<Role>> {
        self.cache.role_visible()
    }

    open spec fn role_unified(&self) -> bool {
        false
    }

    open spec fn roles_wf(&self) -> bool {
        &&& self.cache.roles_wf()
        &&& self.persistent.roles_wf()
        &&& self.cache.role_unified()
        &&& self.persistent.role_unified()
        &&& self.cache.role_truth() == self.cache.role_visible()
        &&& self.persistent.role_truth() == self.persistent.role_visible()
    }

    open spec fn role_reads_ok(&self) -> bool {
        self.cache.role_reads_ok() || (self.persistent.role_reads_ok()
            && self.cache.role_writes_ok())
    }

    open spec fn role_writes_ok(&self) -> bool {
        self.cache.role_writes_ok() && self.persistent.role_writes_ok()
    }

    open spec fn role_reads_fail(&self) -> bool {
        self.cache.role_reads_fail() && (self.persistent.role_reads_fail()
            || self.cache.role_writes_fail())
    }

    open spec fn role_writes_fail(&self) -> bool {
        self.cache.role_writes_fail() || self.persistent.role_writes_fail()
    }

    /// Tries the cache; a clean cache answer is trusted as-is. On a
    /// cache *error* it answers from the persistent tier and repairs
    /// the cache entry for this role, which afterwards agrees with
    /// the answer.
    fn has_role(&mut self, user_id: u64, role: &Role) -> (r: Result<bool, ProviderError>)
        ensures
            old(self).cache.role_reads_ok() ==> {
                &&& r matches Ok(b)
                &&& b == roles_of(old(self).cache.role_truth(), user_id).contains(*role)
            },
            old(self).cache.role_reads_fail() && old(self).persistent.role_reads_ok() && old(
                self,
            ).cache.role_writes_ok() ==> {
                &&& r matches Ok(b)
                &&& b == roles_of(old(self).persistent.role_truth(), user_id).contains(*role)
                &&& roles_of(final(self).role_visible(), user_id).contains(*role) == b
            },
    {
        match self.cache.has_role(user_id, role) {
            Ok(b) => Ok(b),
            Err(_) => match self.persistent.has_role(user_id, role) {
                Ok(has) => {
                    let repaired = if has {
                        self.cache.give_role(user_id, role)
                    } else {
                        self.cache.remove_role(user_id, role)
                    };
                    match repaired {
                        Ok(_) => Ok(has),
                        Err(e) => Err(e),
                    }
                },
                Err(e) => Err(e),
            },
        }
    }

    /// Applies the write to the cache first, then to the persistent
    /// tier; the overall result is a success only if both succeeded.
    fn give_role(&mut self, user_id: u64, role: &Role) -> (r: Result<(), ProviderError>) {
        let c = self.cache.give_role(user_id, role);
        let p = self.persistent.give_role(user_id, role);
        match c {
            Ok(_) => p,
            Err(e) => Err(e),
        }
    }

    /// Applies the write to the cache first, then to the persistent
    /// tier; the overall result is a success only if both succeeded.
    fn give_roles(&mut self, user_id: u64, roles: &[Role]) -> (r: Result<(), ProviderError>) {
        let c = self.cache.give_roles(user_id, roles);
        let p = self.persistent.give_roles(user_id, roles);
        match c {
            Ok(_) => p,
            Err(e) => Err(e),
        }
    }

    /// Applies the write to the cache first, then to the persistent
    /// tier; the overall result is a success only if both succeeded.
    fn remove_role(&mut self, user_id: u64, role: &Role) -> (r: Result<(), ProviderError>) {
        let c = self.cache.remove_role(user_id, role);
        let p = self.persistent.remove_role(user_id, role);
        match c {
            Ok(_) => p,
            Err(e) => Err(e),
        }
    }

    /// Purges both tiers; the roles reported are those the source of
    /// truth held.
    fn purge_roles(&mut self, user_id: u64) -> (r: Result<Vec<Role>, ProviderError>)
        ensures
            r matches Ok(v) ==> v@.to_set() == roles_of(
                old(self).persistent.role_truth(),
                user_id,
            ),
    {
        let c = self.cache.purge_roles(user_id);
        let p = self.persistent.purge_roles(user_id);
        match c {
            Ok(_) => p,
            Err(e) => Err(e),
        }
    }

    /// Tries the cache; a clean cache answer, including an empty set,
    /// is trusted as-is. On a cache *error* it answers from the
    /// persistent tier and repopulates the cache set with the
    /// recovered roles.
    fn roles_for_user(&mut self, user_id: u64) -> (r: Result<Vec<Role>, ProviderError>)
        ensures
            old(self).cache.role_reads_ok() ==> {
                &&& r matches Ok(v)
                &&& v@.to_set() == roles_of(old(self).cache.role_truth(), user_id)
            },
            old(self).cache.role_reads_fail() && old(self).persistent.role_reads_ok() && old(
                self,
            ).cache.role_writes_ok() ==> {
                &&& r matches Ok(v)
                &&& v@.to_set() == roles_of(old(self).persistent.role_truth(), user_id)
                &&& final(self).role_visible() == old(self).role_visible().insert(
                    user_id,
                    roles_of(old(self).role_visible(), user_id).union(
                        roles_of(old(self).persistent.role_truth(), user_id),
                    ),
                )
            },
    {
        match self.cache.roles_for_user(user_id) {
            Ok(v) => Ok(v),
            Err(_) => match self.persistent.roles_for_user(user_id) {
                Ok(v) => match self.cache.give_roles(user_id, v.as_slice()) {
                    Ok(_) => Ok(v),
                    Err(e) => Err(e),
                },
                Err(e) => Err(e),
            },
        }
    }
}

} // verus!
