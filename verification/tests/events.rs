use gnomegg::event::{
    Ban, Broadcast, Command, CommandKind, Error, Event, EventKind, EventTarget, Message, Mute,
    Ping, Pong, PrivMessage, Subonly, Unban, Unmute,
};

#[test]
fn message_contents() {
    let msg = Message::new("Alright, you guys want to hear my most nuclear take?");
    assert_eq!(msg.msg(), "Alright, you guys want to hear my most nuclear take?");
}

#[test]
fn priv_message_fields() {
    let msg = PrivMessage::new("essaywriter", "I have information.");
    assert_eq!(msg.to(), "essaywriter");
    assert_eq!(msg.contents(), "I have information.");
}

#[test]
fn mute_command_fields() {
    let mute = Mute::new("essaywriter", 666);
    assert_eq!(mute.user(), "essaywriter");
    assert_eq!(mute.timeframe(), 666);
}

#[test]
fn unmute_command_fields() {
    let unmute = Unmute::new("essaywriter");
    assert_eq!(unmute.user(), "essaywriter");
}

#[test]
fn ban_command_fields() {
    let ban = Ban::new("RightToBearArmsLOL", "spamming", 1024);
    assert_eq!(ban.user(), "RightToBearArmsLOL");
    assert_eq!(ban.reason(), "spamming");
    assert_eq!(ban.timeframe(), 1024);
}

#[test]
fn unban_command_fields() {
    let unban = Unban::new("essaywriter");
    assert_eq!(unban.user(), "essaywriter");
}

#[test]
fn subonly_command_fields() {
    assert_eq!(Subonly::new(true).active(), true);
    assert_eq!(Subonly::new(false).active(), false);
}

#[test]
fn ping_pong_timestamps() {
    let ping = Ping::new_with_initiation_timestamp(420);
    assert_eq!(ping.started_at(), 420);
    let now_ping = Ping::default();
    let _ = now_ping.started_at();
    let pong = Pong::new();
    let _ = pong.responded_at();
}

#[test]
fn broadcast_fields() {
    let broadcast = Broadcast::new("MrMouton", "I am a living meme.");
    assert_eq!(broadcast.sent_by(), "MrMouton");
    assert_eq!(broadcast.msg(), "I am a living meme.");
}

#[test]
fn error_event_fields() {
    let err = Error::new(EventTarget::All, "mister mouton got evicted");
    assert!(matches!(err.targets(), EventTarget::All));
    assert_eq!(err.err_message(), "mister mouton got evicted");
}

#[test]
fn command_and_event_wrapping() {
    let msg = Message::new("Hi dadd");
    let cmd = Command::new("MrMouton", CommandKind::Message(msg));
    assert_eq!(cmd.sent_by(), "MrMouton");
    assert!(matches!(cmd.command_type(), CommandKind::Message(_)));

    let event = Event::new(
        EventTarget::User("Destiny"),
        EventKind::IssueCommand(Command::new("MrMouton", CommandKind::Ping(Ping::default()))),
    );
    assert!(matches!(event.targets(), EventTarget::User("Destiny")));
    assert!(matches!(event.event_kind(), EventKind::IssueCommand(_)));
}
