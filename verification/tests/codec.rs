use gnomegg::ban::Ban;
use gnomegg::codec::{encode_ban, encode_mute, parse_ban, parse_mute};
use gnomegg::digits::{u64_dec, u64_pad20};
use gnomegg::keys::{ban_addr_key, ban_key, mute_key, roles_key, user_id_key, username_key};
use gnomegg::mute::Mute;

#[test]
fn decimal_spellings() {
    assert_eq!(u64_dec(0), "0");
    assert_eq!(u64_dec(7), "7");
    assert_eq!(u64_dec(42069), "42069");
    assert_eq!(u64_dec(u64::MAX), "18446744073709551615");
    assert_eq!(u64_pad20(7), "00000000000000000007");
    assert_eq!(u64_pad20(u64::MAX), "18446744073709551615");
}

#[test]
fn cache_keys() {
    assert_eq!(ban_key(7), "banned::7");
    assert_eq!(ban_addr_key("203.0.113.9"), "banned_addr::203.0.113.9");
    assert_eq!(mute_key(42069), "muted::42069");
    assert_eq!(roles_key(1), "roles::1");
    assert_eq!(user_id_key("MrMouton"), "user_id::MrMouton");
    assert_eq!(username_key(42069), "username::42069");
}

#[test]
fn mute_codec_round_trip() {
    let mute = Mute::new(7, 1_000_000_000).with_initiation_timestamp(123_456);
    let stored = encode_mute(&mute);
    assert_eq!(
        stored,
        "00000000000000000007;00000000001000000000;00000000000000123456"
    );
    let back = parse_mute(&stored).expect("own encoding should parse");
    assert_eq!(back, mute);
}

#[test]
fn mute_codec_rejects_corruption() {
    assert_eq!(parse_mute(""), None);
    assert_eq!(parse_mute("not a record"), None);
    // Right length, wrong separator.
    assert_eq!(
        parse_mute("00000000000000000007x00000000001000000000;00000000000000123456"),
        None
    );
    // Right shape, non-digit payload.
    assert_eq!(
        parse_mute("0000000000000000000a;00000000001000000000;00000000000000123456"),
        None
    );
}

#[test]
fn ban_codec_round_trip_permanent_with_address() {
    let ban = Ban::new(21)
        .with_initiation_timestamp(99)
        .with_ip(String::from("203.0.113.9"));
    let stored = encode_ban(&ban);
    assert_eq!(
        stored,
        "00000000000000000021;p00000000000000000000;00000000000000000099;203.0.113.9"
    );
    let back = parse_ban(&stored).expect("own encoding should parse");
    assert_eq!(back.concerns(), 21);
    assert_eq!(back.active_for(), None);
    assert_eq!(back.address(), Some("203.0.113.9"));
}

#[test]
fn ban_codec_round_trip_timed_without_address() {
    let ban = Ban::new(3).with_duration(500).with_initiation_timestamp(1_000);
    let stored = encode_ban(&ban);
    assert_eq!(
        stored,
        "00000000000000000003;t00000000000000000500;00000000000000001000"
    );
    let back = parse_ban(&stored).expect("own encoding should parse");
    assert_eq!(back.concerns(), 3);
    assert_eq!(back.active_for(), Some(500));
    assert_eq!(back.address(), None);
}

#[test]
fn ban_codec_rejects_corruption() {
    assert_eq!(parse_ban("").is_none(), true);
    assert_eq!(parse_ban("short").is_none(), true);
    // A permanence flag with a nonzero payload never comes from the
    // encoder.
    assert_eq!(
        parse_ban("00000000000000000003;p00000000000000000500;00000000000000001000").is_none(),
        true
    );
    // An unknown duration flag.
    assert_eq!(
        parse_ban("00000000000000000003;x00000000000000000500;00000000000000001000").is_none(),
        true
    );
}
