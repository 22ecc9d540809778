//! Moderation and identity backend for a chat platform.
//!
//! The library tracks bans, mutes, role grants and username/user-ID
//! mappings, each behind a `Provider` interface with two conforming
//! storage tiers — a fast cache and a durable persistent store — and a
//! [`Hybrid`](hybrid::Hybrid) coordinator that composes the two and
//! reconciles them when they disagree or when one is unavailable.
//!
//! [`clock`] supplies wall-clock time for the logical-expiry rules of
//! bans and mutes; everything else is ordinary verified code.

pub mod alist;
pub mod ban;
pub mod bans;
pub mod clock;
pub mod codec;
pub mod digits;
pub mod event;
pub mod hybrid;
pub mod keys;
pub mod mute;
pub mod mutes;
pub mod name_resolver;
pub mod providers;
pub mod roles;
pub mod text;
pub mod user;

pub use clock::now_nanos;
