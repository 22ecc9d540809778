//! Events and commands exchanged between chat clients and the server.
//!
//! These are the value types behind the wire protocol; the wire
//! encoding itself belongs to the transport layer. Timestamps are
//! nanoseconds since the Unix epoch.

use vstd::prelude::*;

use crate::clock::now_nanos;

verus! {

/// A message sent as text, rendered on the client.
#[derive(Debug)]
pub struct Message<'a> {
    /// The contents of the message
    pub contents: &'a str,
}

impl<'a> Message<'a> {
    /// Creates a new message.
    pub fn new(contents: &'a str) -> (r: Self)
        ensures
            r.contents == contents,
    {
        Self { contents }
    }

    /// The contents of the message.
    pub fn msg(&self) -> (r: &str)
        ensures
            r == self.contents,
    {
        self.contents
    }
}

/// A message rendered only for the user it targets.
#[derive(Debug)]
pub struct PrivMessage<'a> {
    /// The username of the chatter that the message will be sent to
    pub concerns: &'a str,
    /// The contents of the private message
    pub message: Message<'a>,
}

impl<'a> PrivMessage<'a> {
    /// Creates a new private message for the given recipient.
    pub fn new(to: &'a str, contents: &'a str) -> (r: Self)
        ensures
            r.concerns == to,
            r.message.contents == contents,
    {
        Self { concerns: to, message: Message::new(contents) }
    }

    /// The username of the recipient of this message.
    pub fn to(&self) -> (r: &str)
        ensures
            r == self.concerns,
    {
        self.concerns
    }

    /// The contents of the private message.
    pub fn contents(&self) -> (r: &str)
        ensures
            r == self.message.contents,
    {
        self.message.msg()
    }
}

/// A command issued to mute a particular user.
#[derive(Debug)]
pub struct Mute<'a> {
    /// The user that will be muted by this command
    pub concerns: &'a str,
    /// The number of nanoseconds until the user will be unmuted
    pub duration: u64,
}

impl<'a> Mute<'a> {
    /// Creates a new mute command.
    pub fn new(user: &'a str, duration: u64) -> (r: Self)
        ensures
            r.concerns == user,
            r.duration == duration,
    {
        Self { concerns: user, duration }
    }

    /// The username of the user who will be muted by this command.
    pub fn user(&self) -> (r: &str)
        ensures
            r == self.concerns,
    {
        self.concerns
    }

    /// The number of nanoseconds the user should be muted for.
    pub fn timeframe(&self) -> (r: u64)
        ensures
            r == self.duration,
    {
        self.duration
    }
}

/// A command used to unmute a particular chatter.
#[derive(Debug)]
pub struct Unmute<'a> {
    /// The username of the user who will be unmuted by this command
    pub concerns: &'a str,
}

impl<'a> Unmute<'a> {
    /// Creates a new unmute command.
    pub fn new(user: &'a str) -> (r: Self)
        ensures
            r.concerns == user,
    {
        Self { concerns: user }
    }

    /// The username of the chatter who will be unmuted.
    pub fn user(&self) -> (r: &str)
        ensures
            r == self.concerns,
    {
        self.concerns
    }
}

/// A command that bans a chatter.
#[derive(Debug)]
pub struct Ban<'a> {
    /// The user that will be banned
    pub concerns: &'a str,
    /// Why the user will be banned
    pub reasoning: &'a str,
    /// The number of nanoseconds that the user will be banned for
    pub timeframe: u64,
}

impl<'a> Ban<'a> {
    /// Creates a new ban command.
    pub fn new(user: &'a str, reason: &'a str, duration: u64) -> (r: Self)
        ensures
            r.concerns == user,
            r.reasoning == reason,
            r.timeframe == duration,
    {
        Self { concerns: user, reasoning: reason, timeframe: duration }
    }

    /// The username of the chatter who will be banned.
    pub fn user(&self) -> (r: &str)
        ensures
            r == self.concerns,
    {
        self.concerns
    }

    /// The reason this user will be banned.
    pub fn reason(&self) -> (r: &str)
        ensures
            r == self.reasoning,
    {
        self.reasoning
    }

    /// The number of nanoseconds the user will be banned for.
    pub fn timeframe(&self) -> (r: u64)
        ensures
            r == self.timeframe,
    {
        self.timeframe
    }
}

/// A command used to unban a chatter.
#[derive(Debug)]
pub struct Unban<'a> {
    /// The user who will be unbanned by this command
    pub concerns: &'a str,
}

impl<'a> Unban<'a> {
    /// Creates a new unban command.
    pub fn new(user: &'a str) -> (r: Self)
        ensures
            r.concerns == user,
    {
        Self { concerns: user }
    }

    /// The username of the chatter unbanned by this command.
    pub fn user(&self) -> (r: &str)
        ensures
            r == self.concerns,
    {
        self.concerns
    }
}

/// A command setting whether the chat is open only to subscribers.
#[derive(Debug)]
pub struct Subonly {
    /// Whether or not the chat should be in subscriber-only mode
    pub on: bool,
}

impl Subonly {
    /// Creates a new subscriber-only command.
    pub fn new(on: bool) -> (r: Self)
        ensures
            r.on == on,
    {
        Self { on }
    }

    /// Whether subscriber-only mode will be active once this command
    /// is executed.
    pub fn active(&self) -> (r: bool)
        ensures
            r == self.on,
    {
        self.on
    }
}

/// A command used to initiate a client-server ping-pong loop.
#[derive(Debug)]
pub struct Ping {
    /// The time at which the ping request was initiated
    pub initiation_timestamp: u64,
}

impl Ping {
    /// Creates a new ping command at the current time.
    pub fn new() -> Self {
        Self { initiation_timestamp: now_nanos() }
    }

    /// Creates a new ping command at the provided time.
    pub fn new_with_initiation_timestamp(initiation_timestamp: u64) -> (r: Self)
        ensures
            r.initiation_timestamp == initiation_timestamp,
    {
        Self { initiation_timestamp }
    }

    /// The time at which this ping request was initiated.
    pub fn started_at(&self) -> (r: u64)
        ensures
            r == self.initiation_timestamp,
    {
        self.initiation_timestamp
    }
}

impl Default for Ping {
    /// A ping command at the current timestamp.
    fn default() -> Self {
        Self::new()
    }
}

/// A response to a ping request from the server.
#[derive(Debug)]
pub struct Pong {
    /// The time at which the server responded to the ping request
    pub response_timestamp: u64,
}

impl Pong {
    /// Creates a new pong response at the current time.
    pub fn new() -> Self {
        Self { response_timestamp: now_nanos() }
    }

    /// The time at which the server responded to the request.
    pub fn responded_at(&self) -> (r: u64)
        ensures
            r == self.response_timestamp,
    {
        self.response_timestamp
    }
}

impl Default for Pong {
    /// A pong response at the current timestamp.
    fn default() -> Self {
        Self::new()
    }
}

/// An incoming message intended for the entire server.
#[derive(Debug)]
pub struct Broadcast<'a> {
    /// The sender of the message
    pub sender: &'a str,
    /// The message sent in the broadcast event
    pub message: Message<'a>,
}

impl<'a> Broadcast<'a> {
    /// Creates a new broadcast event with the given sender and
    /// message.
    pub fn new(sender: &'a str, message: &'a str) -> (r: Self)
        ensures
            r.sender == sender,
            r.message.contents == message,
    {
        Self { sender, message: Message::new(message) }
    }

    /// The username of the chatter that sent the message.
    pub fn sent_by(&self) -> (r: &str)
        ensures
            r == self.sender,
    {
        self.sender
    }

    /// The contents of the broadcasted message.
    pub fn msg(&self) -> (r: &str)
        ensures
            r == self.message.contents,
    {
        self.message.msg()
    }
}

/// The group of users an event is communicated to.
#[derive(Debug)]
pub enum EventTarget<'a> {
    /// The event targets all active chatters
    All,
    /// The event targets a specific user
    User(&'a str),
    /// The event is hidden, and will only be seen by the server
    Server,
}

/// A failure response from the server to a set of clients.
#[derive(Debug)]
pub struct Error<'a> {
    /// The users that this error will be communicated to
    pub concerns: EventTarget<'a>,
    /// The error that will be sent to each user
    pub error: &'a str,
}

impl<'a> Error<'a> {
    /// Creates a new error with the given target and error message.
    pub fn new(target: EventTarget<'a>, error: &'a str) -> (r: Self)
        ensures
            r.concerns == target,
            r.error == error,
    {
        Self { concerns: target, error }
    }

    /// The users that will be affected by this error.
    pub fn targets(&self) -> (r: &EventTarget<'a>)
        ensures
            r == self.concerns,
    {
        &self.concerns
    }

    /// The message corresponding to this error.
    pub fn err_message(&self) -> (r: &str)
        ensures
            r == self.error,
    {
        self.error
    }
}

/// Any one of the possible commands.
#[derive(Debug)]
pub enum CommandKind<'a> {
    /// This command sends a message
    Message(Message<'a>),
    /// This command sends a message to one user
    PrivMessage(PrivMessage<'a>),
    /// This command mutes a user
    Mute(Mute<'a>),
    /// This command unmutes a user
    Unmute(Unmute<'a>),
    /// This command bans a user
    Ban(Ban<'a>),
    /// This command unbans a user
    Unban(Unban<'a>),
    /// This command makes the chat subscriber-only
    Subonly(Subonly),
    /// This command pings a user
    Ping(Ping),
}

/// Any valid command, alongside the user issuing it.
#[derive(Debug)]
pub struct Command<'a> {
    /// The issuer of the command
    pub issuer: &'a str,
    /// The kind of command being issued
    pub kind: CommandKind<'a>,
}

impl<'a> Command<'a> {
    /// Creates a new command from the given issuer and payload.
    pub fn new(issuer: &'a str, cmd: CommandKind<'a>) -> (r: Self)
        ensures
            r.issuer == issuer,
            r.kind == cmd,
    {
        Self { issuer, kind: cmd }
    }

    /// The underlying command.
    pub fn command_type(&self) -> (r: &CommandKind<'a>)
        ensures
            r == self.kind,
    {
        &self.kind
    }

    /// The username of the chatter issuing the command.
    pub fn sent_by(&self) -> (r: &str)
        ensures
            r == self.issuer,
    {
        self.issuer
    }
}

/// Any valid kind of event.
#[derive(Debug)]
pub enum EventKind<'a> {
    /// A new command being issued
    IssueCommand(Command<'a>),
    /// A response to a ping request from the server
    Pong,
    /// A new message being broadcasted
    Broadcast,
    /// A response to a client request with an error
    Error,
}

/// Any action that might require a change in state.
#[derive(Debug)]
pub struct Event<'a> {
    /// Users affected by this event
    pub concerns: EventTarget<'a>,
    /// The kind of event being emitted
    pub kind: EventKind<'a>,
}

impl<'a> Event<'a> {
    /// Creates a new event with the given target and payload.
    pub fn new(target: EventTarget<'a>, underlying_event: EventKind<'a>) -> (r: Self)
        ensures
            r.concerns == target,
            r.kind == underlying_event,
    {
        Self { concerns: target, kind: underlying_event }
    }

    /// The set of users affected by this event.
    pub fn targets(&self) -> (r: &EventTarget<'a>)
        ensures
            r == self.concerns,
    {
        &self.concerns
    }

    /// The kind of this event.
    pub fn event_kind(&self) -> (r: &EventKind<'a>)
        ensures
            r == self.kind,
    {
        &self.kind
    }
}

} // verus!
