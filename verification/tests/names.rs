use gnomegg::hybrid::Hybrid;
use gnomegg::name_resolver::Provider;
use gnomegg::providers::{Cache, Fault, Persistent};

#[test]
fn name_resolver_test_cache() {
    let mut names = Cache::new();
    names.set_combination("MrMouton", 42069).unwrap();
    assert_eq!(names.username_for(42069).unwrap().unwrap(), "MrMouton");
    assert_eq!(names.user_id_for("MrMouton").unwrap().unwrap(), 42069);
}

#[test]
fn name_resolver_test_persistent() {
    let mut names = Persistent::new();
    names.insert_user(1, "MrMouton");
    names.set_combination("MrMouton", 1).unwrap();
    assert_eq!(names.username_for(1).unwrap().unwrap(), "MrMouton");
    assert_eq!(names.user_id_for("MrMouton").unwrap().unwrap(), 1);
}

#[test]
fn name_resolver_test_hybrid() {
    let mut persistent = Persistent::new();
    persistent.insert_user(1, "MrMouton");
    let mut names = Hybrid::new(Cache::new(), persistent);
    names.set_combination("MrMouton", 1).unwrap();
    assert_eq!(names.username_for(1).unwrap().unwrap(), "MrMouton");
    assert_eq!(names.user_id_for("MrMouton").unwrap().unwrap(), 1);
}

#[test]
fn unknown_names_resolve_to_none() {
    let mut names = Persistent::new();
    assert_eq!(names.user_id_for("nobody").unwrap(), None);
    assert_eq!(names.username_for(404).unwrap(), None);
    let mut cached = Cache::new();
    assert_eq!(cached.user_id_for("nobody").unwrap(), None);
    assert_eq!(cached.username_for(404).unwrap(), None);
}

#[test]
fn persistent_updates_only_existing_users() {
    // The canonical users row is update-on-set: a combination for a
    // user with no row fills only the username-to-ID table.
    let mut names = Persistent::new();
    names.set_combination("ghost", 99).unwrap();
    assert_eq!(names.user_id_for("ghost").unwrap(), Some(99));
    assert_eq!(names.username_for(99).unwrap(), None);

    names.insert_user(7, "OldName");
    names.set_combination("NewName", 7).unwrap();
    assert_eq!(names.username_for(7).unwrap().unwrap(), "NewName");
}

#[test]
fn hybrid_name_read_repairs_cache() {
    // With cache reads down but writes up, resolution answers from
    // the persistent tier and repopulates the cache combination.
    let mut cache = Cache::new();
    cache.set_fault(Fault::ReadTransport);
    let mut persistent = Persistent::new();
    persistent.insert_user(5, "MrMouton");
    persistent.set_combination("MrMouton", 5).unwrap();
    let mut names = Hybrid::new(cache, persistent);

    assert_eq!(names.user_id_for("MrMouton").unwrap(), Some(5));
    names.cache.set_fault(Fault::Off);
    assert_eq!(names.cache.user_id_for("MrMouton").unwrap(), Some(5));
    assert_eq!(names.cache.username_for(5).unwrap().unwrap(), "MrMouton");
}

#[test]
fn hybrid_trusts_clean_cache_miss() {
    // A clean miss from the cache is trusted as-is: no fallback.
    let mut persistent = Persistent::new();
    persistent.insert_user(5, "MrMouton");
    persistent.set_combination("MrMouton", 5).unwrap();
    let mut names = Hybrid::new(Cache::new(), persistent);
    assert_eq!(names.user_id_for("MrMouton").unwrap(), None);
}

#[test]
fn empty_username_is_a_valid_key() {
    let mut names = Cache::new();
    names.set_combination("", 11).unwrap();
    assert_eq!(names.user_id_for("").unwrap(), Some(11));
    assert_eq!(names.username_for(11).unwrap().unwrap(), "");
}
