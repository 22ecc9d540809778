//! Derivation of the cache tier's key namespaces.
//!
//! The remote key-value store keeps every resource under a namespaced
//! string key: `banned::<user_id>`, `banned_addr::<ip>`,
//! `muted::<user_id>`, `roles::<user_id>`, `user_id::<username>` and
//! `username::<user_id>`. Keys of one namespace never collide:
//! numeric suffixes are canonical decimal spellings.

use vstd::prelude::*;
use vstd::string::StringExecFns;

use crate::digits::{dec_digits, lemma_dec_digits_injective, u64_dec};

verus! {

/// The ban key of a user.
pub open spec fn spec_ban_key(id: u64) -> Seq<char> {
    "banned::"@ + dec_digits(id as nat)
}

/// The address-indexed ban key of an address.
pub open spec fn spec_ban_addr_key(addr: Seq<char>) -> Seq<char> {
    "banned_addr::"@ + addr
}

/// The mute key of a user.
pub open spec fn spec_mute_key(id: u64) -> Seq<char> {
    "muted::"@ + dec_digits(id as nat)
}

/// The role-set key of a user.
pub open spec fn spec_roles_key(id: u64) -> Seq<char> {
    "roles::"@ + dec_digits(id as nat)
}

/// The username-to-ID key of a username.
pub open spec fn spec_user_id_key(username: Seq<char>) -> Seq<char> {
    "user_id::"@ + username
}

/// The ID-to-username key of a user.
pub open spec fn spec_username_key(id: u64) -> Seq<char> {
    "username::"@ + dec_digits(id as nat)
}

/// The ban key of the given user.
pub fn ban_key(id: u64) -> (r: String)
    ensures
        r@ == spec_ban_key(id),
{
    let mut s = String::from_str("banned::");
    let digits = u64_dec(id);
    s.append(digits.as_str());
    s
}

/// The address-indexed ban key of the given address.
pub fn ban_addr_key(addr: &str) -> (r: String)
    ensures
        r@ == spec_ban_addr_key(addr@),
{
    let mut s = String::from_str("banned_addr::");
    s.append(addr);
    s
}

/// The mute key of the given user.
pub fn mute_key(id: u64) -> (r: String)
    ensures
        r@ == spec_mute_key(id),
{
    let mut s = String::from_str("muted::");
    let digits = u64_dec(id);
    s.append(digits.as_str());
    s
}

/// The role-set key of the given user.
pub fn roles_key(id: u64) -> (r: String)
    ensures
        r@ == spec_roles_key(id),
{
    let mut s = String::from_str("roles::");
    let digits = u64_dec(id);
    s.append(digits.as_str());
    s
}

/// The username-to-ID key of the given username.
pub fn user_id_key(username: &str) -> (r: String)
    ensures
        r@ == spec_user_id_key(username@),
{
    let mut s = String::from_str("user_id::");
    s.append(username);
    s
}

/// The ID-to-username key of the given user.
pub fn username_key(id: u64) -> (r: String)
    ensures
        r@ == spec_username_key(id),
{
    let mut s = String::from_str("username::");
    let digits = u64_dec(id);
    s.append(digits.as_str());
    s
}

/// Distinct users get distinct mute keys; the same holds of each
/// numeric namespace, whose suffix is the canonical decimal spelling.
pub proof fn lemma_mute_key_injective(a: u64, b: u64)
    requires
        spec_mute_key(a) == spec_mute_key(b),
    ensures
        a == b,
{
    let p = "muted::"@;
    assert((p + dec_digits(a as nat)).subrange(
        p.len() as int,
        (p + dec_digits(a as nat)).len() as int,
    ) =~= dec_digits(a as nat));
    assert((p + dec_digits(b as nat)).subrange(
        p.len() as int,
        (p + dec_digits(b as nat)).len() as int,
    ) =~= dec_digits(b as nat));
    lemma_dec_digits_injective(a as nat, b as nat);
}

} // verus!
