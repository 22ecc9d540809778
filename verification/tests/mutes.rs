use gnomegg::hybrid::Hybrid;
use gnomegg::mute::Mute;
use gnomegg::mutes::Provider;
use gnomegg::providers::{Cache, Fault, Persistent, ProviderError, TierKind};

const NOW: u64 = 1_700_000_000_000_000_000;

#[test]
fn mutes_test_cache() {
    let mut mutes = Cache::new();
    mutes.set_muted(42069, true, Some(1_000_000), NOW).unwrap();
    assert_eq!(mutes.is_muted(42069, NOW).unwrap(), true);
}

#[test]
fn mutes_test_persistent() {
    let mut mutes = Persistent::new();
    mutes.insert_user(1, "MrMouton");
    mutes.set_muted(1, true, Some(1_000_000_000), NOW).unwrap();
    assert_eq!(mutes.is_muted(1, NOW).unwrap(), true);
}

#[test]
fn mutes_test_hybrid() {
    let mut mutes = Hybrid::new(Cache::new(), Persistent::new());
    mutes.set_muted(1, true, Some(1_000_000_000), NOW).unwrap();
    assert_eq!(mutes.is_muted(1, NOW).unwrap(), true);
}

#[test]
fn mute_requires_duration() {
    let mut mutes = Cache::new();
    let err = mutes.set_muted(5, true, None, NOW).unwrap_err();
    assert_eq!(err, ProviderError::MissingArgument { arg: "duration" });
    // The error is raised before any write: the store is unchanged.
    assert_eq!(mutes.get_mute(5).unwrap(), None);
    // The same caller contract violation is fatal on the durable tier.
    let mut persistent = Persistent::new();
    let err = persistent.set_muted(5, true, None, NOW).unwrap_err();
    assert_eq!(err, ProviderError::MissingArgument { arg: "duration" });
    assert_eq!(persistent.get_mute(5).unwrap(), None);
}

#[test]
fn expired_mute_still_fetchable() {
    // Logical expiry: the record stays fetchable, only activity
    // reports change.
    let mut mutes = Cache::new();
    mutes.set_muted(8, true, Some(100), NOW).unwrap();
    let later = NOW + 200;
    let record = mutes.get_mute(8).unwrap().expect("record should remain");
    assert_eq!(record.concerns(), 8);
    assert_eq!(mutes.is_muted(8, later).unwrap(), false);
}

#[test]
fn unmute_reports_prior_activity() {
    let mut mutes = Cache::new();
    mutes.set_muted(3, true, Some(1_000_000_000), NOW).unwrap();
    assert_eq!(mutes.set_muted(3, false, None, NOW).unwrap(), true);
    assert_eq!(mutes.set_muted(3, false, None, NOW).unwrap(), false);
    assert_eq!(mutes.get_mute(3).unwrap(), None);
}

#[test]
fn register_mute_returns_previous() {
    let mut mutes = Persistent::new();
    let first = Mute::new(6, 50).with_initiation_timestamp(NOW);
    assert_eq!(mutes.register_mute(&first).unwrap(), None);
    let second = Mute::new(6, 70).with_initiation_timestamp(NOW + 1);
    let prev = mutes.register_mute(&second).unwrap();
    assert_eq!(prev, Some(first));
    let held = mutes.get_mute(6).unwrap();
    assert_eq!(held, Some(second));
}

#[test]
fn hybrid_falls_back_when_cache_errors() {
    // The cache tier is simulated as always erroring; the user is
    // muted only in the persistent tier. The answer is sourced purely
    // from the persistent store.
    let mut cache = Cache::new();
    cache.set_fault(Fault::Transport);
    let mut persistent = Persistent::new();
    persistent
        .register_mute(&Mute::new(7, 1_000_000_000).with_initiation_timestamp(NOW))
        .unwrap();
    let mut mutes = Hybrid::new(cache, persistent);
    assert_eq!(mutes.is_muted(7, NOW + 1).unwrap(), true);
    assert_eq!(mutes.is_muted(123, NOW).unwrap(), false);
}

#[test]
fn hybrid_trusts_clean_cache_negative() {
    // A clean "not muted" from the cache does not fall through to the
    // persistent tier.
    let cache = Cache::new();
    let mut persistent = Persistent::new();
    persistent
        .register_mute(&Mute::new(7, 1_000_000_000).with_initiation_timestamp(NOW))
        .unwrap();
    let mut mutes = Hybrid::new(cache, persistent);
    assert_eq!(mutes.is_muted(7, NOW + 1).unwrap(), false);
}

#[test]
fn hybrid_write_needs_both_tiers() {
    let cache = Cache::new();
    let mut persistent = Persistent::new();
    persistent.set_fault(Fault::Transport);
    let mut mutes = Hybrid::new(cache, persistent);
    assert!(mutes.set_muted(2, true, Some(10), NOW).is_err());
    // The cache was written first and is now ahead of truth.
    assert_eq!(mutes.cache.is_muted(2, NOW).unwrap(), true);
    assert!(mutes.persistent.is_muted(2, NOW).is_err());
}

#[test]
fn fault_kinds_are_distinguishable() {
    let mut cache = Cache::new();
    cache.set_fault(Fault::Serialization);
    let err = cache.get_mute(1).unwrap_err();
    assert_eq!(err, ProviderError::SerializationError { tier: TierKind::Cache });
    let mut persistent = Persistent::new();
    persistent.set_fault(Fault::Transport);
    let err = persistent.get_mute(1).unwrap_err();
    assert_eq!(err, ProviderError::TransportError { tier: TierKind::Persistent });
}
