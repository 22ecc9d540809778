use gnomegg::hybrid::Hybrid;
use gnomegg::providers::{Cache, Fault, Persistent};
use gnomegg::roles::Provider;
use gnomegg::user::Role;

#[test]
fn roles_test_hybrid() {
    let mut roles = Hybrid::new(Cache::new(), Persistent::new());
    roles.give_role(1, &Role::Protected).unwrap();
    assert_eq!(roles.has_role(1, &Role::Protected).unwrap(), true);
}

#[test]
fn grant_does_not_clobber() {
    // Granting VIP to a user who already has Moderator must not
    // remove the moderator flag; afterwards the user holds exactly
    // both.
    let mut roles = Persistent::new();
    roles.give_role(7, &Role::Moderator).unwrap();
    roles.give_role(7, &Role::VIP).unwrap();
    let held = roles.roles_for_user(7).unwrap();
    assert_eq!(held.len(), 2);
    assert!(held.contains(&Role::Moderator));
    assert!(held.contains(&Role::VIP));
    assert_eq!(roles.has_role(7, &Role::Administrator).unwrap(), false);

    let mut cached = Cache::new();
    cached.give_role(7, &Role::Moderator).unwrap();
    cached.give_role(7, &Role::VIP).unwrap();
    let held = cached.roles_for_user(7).unwrap();
    assert_eq!(held.len(), 2);
    assert!(held.contains(&Role::Moderator));
    assert!(held.contains(&Role::VIP));
}

#[test]
fn roles_for_user_without_rows_is_empty() {
    // A user with zero rows yields an empty list, never an error.
    let mut roles = Persistent::new();
    assert_eq!(roles.roles_for_user(404).unwrap(), vec![]);
    assert_eq!(roles.has_role(404, &Role::Bot).unwrap(), false);
    let mut cached = Cache::new();
    assert_eq!(cached.roles_for_user(404).unwrap(), vec![]);
}

#[test]
fn give_roles_at_once() {
    let mut roles = Cache::new();
    roles.give_roles(3, &[Role::Subscriber, Role::Bot]).unwrap();
    assert!(roles.has_role(3, &Role::Subscriber).unwrap());
    assert!(roles.has_role(3, &Role::Bot).unwrap());
    assert!(!roles.has_role(3, &Role::VIP).unwrap());
    // Granting again, with one overlap, keeps the set a set.
    roles.give_roles(3, &[Role::Bot, Role::VIP]).unwrap();
    let held = roles.roles_for_user(3).unwrap();
    assert_eq!(held.len(), 3);
}

#[test]
fn remove_role_keeps_others() {
    let mut roles = Persistent::new();
    roles.give_roles(9, &[Role::Moderator, Role::VIP]).unwrap();
    roles.remove_role(9, &Role::VIP).unwrap();
    assert!(roles.has_role(9, &Role::Moderator).unwrap());
    assert!(!roles.has_role(9, &Role::VIP).unwrap());
}

#[test]
fn purge_returns_removed_roles() {
    let mut roles = Cache::new();
    roles.give_roles(5, &[Role::Administrator, Role::Bot]).unwrap();
    let removed = roles.purge_roles(5).unwrap();
    assert_eq!(removed.len(), 2);
    assert!(removed.contains(&Role::Administrator));
    assert!(removed.contains(&Role::Bot));
    assert_eq!(roles.roles_for_user(5).unwrap(), vec![]);
}

#[test]
fn hybrid_roles_read_repairs_cache() {
    // With cache reads down but writes up, a hybrid list answers from
    // the persistent tier and repopulates the cache set.
    let mut cache = Cache::new();
    cache.set_fault(Fault::ReadTransport);
    let mut persistent = Persistent::new();
    persistent.give_roles(6, &[Role::Protected, Role::Subscriber]).unwrap();
    let mut roles = Hybrid::new(cache, persistent);

    let held = roles.roles_for_user(6).unwrap();
    assert_eq!(held.len(), 2);
    assert!(held.contains(&Role::Protected));
    assert!(held.contains(&Role::Subscriber));

    // Once cache reads recover, the repaired entry answers directly.
    roles.cache.set_fault(Fault::Off);
    let cached = roles.cache.roles_for_user(6).unwrap();
    assert_eq!(cached.len(), 2);
    assert!(cached.contains(&Role::Protected));
    assert!(cached.contains(&Role::Subscriber));
}

#[test]
fn hybrid_has_role_repairs_cache() {
    let mut cache = Cache::new();
    cache.set_fault(Fault::ReadTransport);
    let mut persistent = Persistent::new();
    persistent.give_role(2, &Role::Moderator).unwrap();
    let mut roles = Hybrid::new(cache, persistent);

    assert_eq!(roles.has_role(2, &Role::Moderator).unwrap(), true);
    roles.cache.set_fault(Fault::Off);
    assert_eq!(roles.cache.has_role(2, &Role::Moderator).unwrap(), true);
}
