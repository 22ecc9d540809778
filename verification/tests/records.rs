use gnomegg::ban::{Ban, NewBan};
use gnomegg::mute::Mute;
use gnomegg::providers::{ProviderError, TierKind};
use gnomegg::user::{
    NewIdMapping, NewRoleEntry, NewUser, OauthConnection, RedditConnection, Role, RoleEntry,
};

#[test]
fn mute_activity_scenario() {
    // A mute of one second, evaluated half a second in and two
    // seconds in.
    let t0: u64 = 1_000_000_000_000;
    let mute = Mute::new(7, 1_000_000_000).with_initiation_timestamp(t0);
    assert_eq!(mute.concerns(), 7);
    assert_eq!(mute.active_for(), 1_000_000_000);
    assert!(mute.active_at(t0 + 500_000_000));
    assert!(!mute.active_at(t0 + 2_000_000_000));
    // The boundary itself is already inactive.
    assert!(!mute.active_at(t0 + 1_000_000_000));
}

#[test]
fn mute_builders() {
    let mute = Mute::new(1, 10)
        .with_user_id(2)
        .with_duration(20)
        .with_initiation_timestamp(30);
    assert_eq!(mute.user_id, 2);
    assert_eq!(mute.duration, 20);
    assert_eq!(mute.initiated_at, 30);
}

#[test]
fn permanent_ban_always_active() {
    let ban = Ban::new(9);
    assert_eq!(ban.concerns(), 9);
    assert_eq!(ban.active_for(), None);
    assert!(ban.active());
    assert!(ban.active_at(0));
    assert!(ban.active_at(u64::MAX));
}

#[test]
fn timed_ban_expires() {
    let t0: u64 = 500;
    let ban = Ban::new(9).with_duration(100).with_initiation_timestamp(t0);
    assert!(ban.active_at(t0 + 99));
    assert!(!ban.active_at(t0 + 100));
    assert!(!ban.active_at(t0 + 101));
}

#[test]
fn ban_address_on_record() {
    let ban = Ban::new(4).with_ip(String::from("203.0.113.9"));
    assert_eq!(ban.address(), Some("203.0.113.9"));
    let bare = Ban::new(4);
    assert_eq!(bare.address(), None);
}

#[test]
fn new_ban_converts() {
    let req = NewBan::new(11, Some(77), 123, Some("198.51.100.2"));
    assert_eq!(req.concerns(), 11);
    assert_eq!(req.active_for(), Some(77));
    assert_eq!(req.address(), Some("198.51.100.2"));
    assert!(req.active_at(123 + 76));
    assert!(!req.active_at(123 + 77));
    let owned = req.to_ban();
    assert_eq!(owned.concerns(), 11);
    assert_eq!(owned.active_for(), Some(77));
    assert_eq!(owned.address(), Some("198.51.100.2"));
}

#[test]
fn role_strings_round_trip() {
    let all = [
        Role::Administrator,
        Role::Moderator,
        Role::VIP,
        Role::Protected,
        Role::Subscriber,
        Role::Bot,
    ];
    for role in all {
        let parsed: Role = role.to_str().parse().expect("role identifier should parse");
        assert_eq!(parsed, role);
    }
    assert_eq!(Role::Administrator.to_str(), "administrator");
    assert_eq!(Role::VIP.to_str(), "vip");
    assert!("overlord".parse::<Role>().is_err());
    assert!("".parse::<Role>().is_err());
}

#[test]
fn new_role_entry_scenario() {
    let entry = NewRoleEntry::new(7, &[Role::Subscriber, Role::Bot]);
    assert!(entry.has_role(&Role::Subscriber));
    assert!(entry.has_role(&Role::Bot));
    assert!(!entry.has_role(&Role::Administrator));
    assert!(!entry.has_role(&Role::Moderator));
}

#[test]
fn role_entry_listing() {
    let entry = RoleEntry {
        id: 3,
        user_id: 8,
        administrator: None,
        moderator: Some(true),
        vip: Some(true),
        protected: Some(false),
        subscriber: None,
        bot: Some(true),
    };
    assert_eq!(entry.concerns(), 8);
    assert_eq!(entry.entry_id(), 3);
    assert!(entry.has_role(&Role::Moderator));
    assert!(!entry.has_role(&Role::Protected));
    let listed = entry.roles();
    assert_eq!(listed, vec![Role::Moderator, Role::VIP, Role::Bot]);
}

#[test]
fn new_user_builders() {
    let user = NewUser::default()
        .with_username("MrMouton")
        .with_verified(true)
        .with_nationality("US")
        .with_accepts_gifts(true)
        .with_minecraft_name("mouton_craft");
    assert_eq!(user.username, "MrMouton");
    assert!(user.verified);
    assert_eq!(user.nationality, "US");
    assert!(user.accepts_gifts);
    assert_eq!(user.minecraft_name, "mouton_craft");

    let filled = NewUser::new("a", false, "b", false, "c");
    assert_eq!(filled.username, "a");
    assert_eq!(filled.minecraft_name, "c");
}

#[test]
fn id_mapping_request() {
    let mapping = NewIdMapping::new("MrMouton", 42069);
    assert_eq!(mapping.username, "MrMouton");
    assert_eq!(mapping.user_id, 42069);
}

#[test]
fn reddit_connection_hashes() {
    let conn = RedditConnection::new("123456");
    assert_eq!(conn.id(), "123456");
    // A BLAKE3 digest is always 32 bytes, never the input itself.
    assert_eq!(conn.id_hash().len(), 32);
    assert_ne!(conn.id_hash(), "123456".as_bytes());
    let other = RedditConnection::new("123457");
    assert_ne!(conn.id_hash(), other.id_hash());
}

#[test]
fn provider_error_messages() {
    let transport = ProviderError::TransportError { tier: TierKind::Cache };
    assert_eq!(
        transport.message(),
        "the provider encountered a transport error"
    );
    let missing = ProviderError::MissingArgument { arg: "duration" };
    assert_eq!(
        missing.message(),
        "malformed query; missing argument: duration"
    );
    assert_eq!(missing, ProviderError::MissingArgument { arg: "duration" });
    assert_ne!(
        transport,
        ProviderError::TransportError { tier: TierKind::Persistent }
    );
    assert_ne!(transport, missing);
}
