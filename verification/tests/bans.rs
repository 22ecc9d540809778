use gnomegg::ban::NewBan;
use gnomegg::bans::{BanQuery, Provider};
use gnomegg::hybrid::Hybrid;
use gnomegg::providers::{Cache, Fault, Persistent};

const NOW: u64 = 1_700_000_000_000_000_000;

#[test]
fn bans_test_cache() {
    let mut bans = Cache::new();
    bans.set_banned(42069, true, None, None, NOW).unwrap();
    assert_eq!(bans.is_banned(&BanQuery::Id(42069), NOW).unwrap(), true);
}

#[test]
fn bans_test_persistent() {
    let mut bans = Persistent::new();
    bans.insert_user(1, "MrMouton");
    bans.set_banned(1, true, None, None, NOW).unwrap();
    assert_eq!(bans.is_banned(&BanQuery::Id(1), NOW).unwrap(), true);
}

#[test]
fn bans_test_hybrid() {
    let mut bans = Hybrid::new(Cache::new(), Persistent::new());
    bans.set_banned(1, true, None, None, NOW).unwrap();
    assert_eq!(bans.is_banned(&BanQuery::Id(1), NOW).unwrap(), true);
}

#[test]
fn unban_without_ban_is_idempotent() {
    // Unbanning a user with no existing ban reports "was not active"
    // and leaves no record; doing it twice is a safe no-op.
    let mut bans = Persistent::new();
    assert_eq!(bans.set_banned(5, false, None, None, NOW).unwrap(), false);
    assert_eq!(bans.set_banned(5, false, None, None, NOW).unwrap(), false);
    assert!(bans.get_ban(&BanQuery::Id(5)).unwrap().is_none());
    let mut cache = Cache::new();
    assert_eq!(cache.set_banned(5, false, None, None, NOW).unwrap(), false);
    assert_eq!(cache.set_banned(5, false, None, None, NOW).unwrap(), false);
    assert!(cache.get_ban(&BanQuery::Id(5)).unwrap().is_none());
}

#[test]
fn hybrid_register_ban_reaches_both_tiers() {
    // After a successful hybrid register, both tiers independently
    // return a record with matching user ID and duration.
    let mut bans = Hybrid::new(Cache::new(), Persistent::new());
    let request = NewBan::new(12, Some(3_600_000_000_000), NOW, None);
    bans.register_ban(&request).unwrap();

    let cached = bans
        .cache
        .get_ban(&BanQuery::Id(12))
        .unwrap()
        .expect("cache tier should hold the ban");
    assert_eq!(cached.concerns(), 12);
    assert_eq!(cached.active_for(), Some(3_600_000_000_000));

    let durable = bans
        .persistent
        .get_ban(&BanQuery::Id(12))
        .unwrap()
        .expect("persistent tier should hold the ban");
    assert_eq!(durable.concerns(), 12);
    assert_eq!(durable.active_for(), Some(3_600_000_000_000));
}

#[test]
fn get_ban_not_found_is_none() {
    // A user with zero rows yields Ok(None), never an error.
    let mut bans = Persistent::new();
    assert_eq!(bans.get_ban(&BanQuery::Id(404)).unwrap().is_none(), true);
    assert_eq!(
        bans.get_ban(&BanQuery::Address("203.0.113.1")).unwrap().is_none(),
        true
    );
}

#[test]
fn ban_by_address() {
    let mut bans = Cache::new();
    bans.set_banned(21, true, None, Some("203.0.113.7"), NOW).unwrap();
    let found = bans
        .get_ban(&BanQuery::Address("203.0.113.7"))
        .unwrap()
        .expect("address entry should exist");
    assert_eq!(found.address(), Some("203.0.113.7"));
    assert_eq!(bans.is_banned(&BanQuery::Address("203.0.113.7"), NOW).unwrap(), true);
    // Unbanning with the address removes the address entry too.
    bans.set_banned(21, false, None, Some("203.0.113.7"), NOW).unwrap();
    assert!(bans.get_ban(&BanQuery::Address("203.0.113.7")).unwrap().is_none());

    let mut durable = Persistent::new();
    durable.set_banned(21, true, None, Some("203.0.113.7"), NOW).unwrap();
    let row = durable
        .get_ban(&BanQuery::Address("203.0.113.7"))
        .unwrap()
        .expect("row with the address should match");
    assert_eq!(row.concerns(), 21);
}

#[test]
fn register_ban_supersedes() {
    // A later ban on the same user supersedes, not merges.
    let mut bans = Cache::new();
    bans.register_ban(&NewBan::new(2, Some(100), NOW, None)).unwrap();
    let prev = bans
        .register_ban(&NewBan::new(2, None, NOW + 5, None))
        .unwrap()
        .expect("previous record should be returned");
    assert_eq!(prev.active_for(), Some(100));
    let current = bans.get_ban(&BanQuery::Id(2)).unwrap().unwrap();
    assert_eq!(current.active_for(), None);
}

#[test]
fn hybrid_ban_read_falls_back() {
    let mut cache = Cache::new();
    cache.set_fault(Fault::Serialization);
    let mut persistent = Persistent::new();
    persistent.set_banned(33, true, None, None, NOW).unwrap();
    let mut bans = Hybrid::new(cache, persistent);
    assert_eq!(bans.is_banned(&BanQuery::Id(33), NOW).unwrap(), true);
    let found = bans.get_ban(&BanQuery::Id(33)).unwrap().unwrap();
    assert_eq!(found.concerns(), 33);
}
