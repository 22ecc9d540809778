//! Users, role flags, and identity primitives.
//!
//! Roles form a fixed closed vocabulary of six boolean flags. Each
//! role maps to exactly one lowercase identifier string, used both as
//! a cache set member and as a persistent column name; unknown strings
//! fail to parse and are dropped, not errored, when reconstituting a
//! role list.

use vstd::prelude::*;

use vstd::string::StringSliceAdditionalSpecFns;

use crate::text::str_eq;

verus! {

/// A generic chat-platform user.
#[derive(Debug)]
pub struct User {
    /// The user's unique identifier
    pub id: u64,
    /// The username of the user
    pub username: String,
    /// Whether or not the user has a verified email
    pub verified: bool,
    /// The country that the user most identifies with
    pub nationality: String,
    /// Whether or not the user accepts gifts
    pub accepts_gifts: bool,
    /// The user's minecraft username
    pub minecraft_name: String,
}

/// A request to create a new user.
#[derive(Debug)]
pub struct NewUser<'a> {
    /// The username of the user
    pub username: &'a str,
    /// Whether or not the user has a verified email
    pub verified: bool,
    /// The country that the user most identifies with
    pub nationality: &'a str,
    /// Whether or not the user accepts gifts
    pub accepts_gifts: bool,
    /// The user's minecraft username
    pub minecraft_name: &'a str,
}

impl<'a> NewUser<'a> {
    /// Creates a completely filled user request with the given fields.
    pub fn new(
        username: &'a str,
        verified: bool,
        nationality: &'a str,
        accepts_gifts: bool,
        minecraft_name: &'a str,
    ) -> (r: Self)
        ensures
            r == (NewUser { username, verified, nationality, accepts_gifts, minecraft_name }),
    {
        Self { username, verified, nationality, accepts_gifts, minecraft_name }
    }

    /// The same request with the given username.
    pub fn with_username(self, username: &'a str) -> (r: Self)
        ensures
            r == (NewUser { username, ..self }),
    {
        NewUser { username, ..self }
    }

    /// The same request with the given "verified" status.
    pub fn with_verified(self, verified: bool) -> (r: Self)
        ensures
            r == (NewUser { verified, ..self }),
    {
        NewUser { verified, ..self }
    }

    /// The same request with the given nationality.
    pub fn with_nationality(self, nationality: &'a str) -> (r: Self)
        ensures
            r == (NewUser { nationality, ..self }),
    {
        NewUser { nationality, ..self }
    }

    /// The same request with the given "accepts gifts" status.
    pub fn with_accepts_gifts(self, accepts_gifts: bool) -> (r: Self)
        ensures
            r == (NewUser { accepts_gifts, ..self }),
    {
        NewUser { accepts_gifts, ..self }
    }

    /// The same request with the given minecraft username.
    pub fn with_minecraft_name(self, minecraft_name: &'a str) -> (r: Self)
        ensures
            r == (NewUser { minecraft_name, ..self }),
    {
        NewUser { minecraft_name, ..self }
    }
}

impl<'a> Default for NewUser<'a> {
    /// A request with empty names and every flag off.
    fn default() -> (r: Self)
        ensures
            r.username@ =~= Seq::<char>::empty(),
            r.verified == false,
            r.nationality@ =~= Seq::<char>::empty(),
            r.accepts_gifts == false,
            r.minecraft_name@ =~= Seq::<char>::empty(),
    {
        proof {
            reveal_strlit("");
        }
        Self {
            username: "",
            verified: false,
            nationality: "",
            accepts_gifts: false,
            minecraft_name: "",
        }
    }
}

/// An entry mapping a username to a user ID.
#[derive(Debug)]
pub struct IdMapping {
    /// The nonce of the mapping
    pub id: u64,
    /// The username of the user
    pub username: String,
    /// The user ID of the user
    pub user_id: u64,
}

/// A request to map a username to a user ID.
#[derive(Debug)]
pub struct NewIdMapping<'a> {
    /// The username of the user
    pub username: &'a str,
    /// The user ID of the user
    pub user_id: u64,
}

impl<'a> NewIdMapping<'a> {
    /// Creates a new username-to-ID mapping request.
    pub fn new(username: &'a str, user_id: u64) -> (r: Self)
        ensures
            r == (NewIdMapping { username, user_id }),
    {
        Self { username, user_id }
    }
}

/// A connection to an OAuth provider for a chat-platform user.
pub trait OauthConnection {
    /// The identifier the OAuth provider assigned to the user.
    fn id(&self) -> &str;

    /// A hash of the identifier associated with the provider.
    fn id_hash(&self) -> &[u8];
}

/// The digest that `blake3::hash` assigns to a byte string. The result
/// depends on the input bytes alone.
pub uninterp spec fn blake3_digest(data: Seq<u8>) -> Seq<u8>;

/// Relies on blake3::hash: a digest of always exactly 32 bytes that is
/// a function of the input bytes alone.
#[verifier::external_body]
fn blake3_hash_bytes(data: &[u8]) -> (r: Vec<u8>)
    ensures
        r@ == blake3_digest(data@),
        r@.len() == 32,
{
    blake3::hash(data).as_bytes().to_vec()
}

/// An OAuth connection to Reddit.
#[derive(Debug)]
pub struct RedditConnection<'a> {
    /// The ID assigned to the user
    pub value: &'a str,
    /// The hash associated with the user
    pub hash: Vec<u8>,
}

impl<'a> RedditConnection<'a> {
    /// Creates a new Reddit connection primitive for the given
    /// Reddit-assigned identifier.
    pub fn new(reddit_id: &'a str) -> (r: Self)
        ensures
            r.value == reddit_id,
            r.hash@ == blake3_digest(reddit_id.spec_bytes()),
            r.hash@.len() == 32,
    {
        let bytes = reddit_id.as_bytes();
        Self { value: reddit_id, hash: blake3_hash_bytes(bytes) }
    }
}

impl<'a> OauthConnection for RedditConnection<'a> {
    /// The identifier Reddit assigned to the user.
    fn id(&self) -> (r: &str)
        ensures
            r == self.value,
    {
        self.value
    }

    /// The BLAKE3 hash of the identifier.
    fn id_hash(&self) -> (r: &[u8])
        ensures
            r@ == self.hash@,
    {
        self.hash.as_slice()
    }
}

/// An exclusive, individual role.
#[derive(Clone, Copy, PartialEq, Eq, Structural, Debug)]
pub enum Role {
    Administrator,
    Moderator,
    VIP,
    Protected,
    Subscriber,
    Bot,
}

/// The lowercase identifier string of each role.
pub open spec fn role_str(r: Role) -> Seq<char> {
    match r {
        Role::Administrator => "administrator"@,
        Role::Moderator => "moderator"@,
        Role::VIP => "vip"@,
        Role::Protected => "protected"@,
        Role::Subscriber => "subscriber"@,
        Role::Bot => "bot"@,
    }
}

impl Role {
    /// The lowercase identifier of this role, used as a cache set
    /// member and as a persistent column name.
    pub fn to_str(&self) -> (r: &'static str)
        ensures
            r@ == role_str(*self),
    {
        match self {
            Self::Administrator => "administrator",
            Self::Moderator => "moderator",
            Self::VIP => "vip",
            Self::Protected => "protected",
            Self::Subscriber => "subscriber",
            Self::Bot => "bot",
        }
    }

    /// Parses a role from its identifier string: succeeds exactly on
    /// the six role identifiers.
    pub fn parse(s: &str) -> (r: Result<Role, ParseRoleError>)
        ensures
            match r {
                Ok(role) => role_str(role) == s@,
                Err(e) => e == ParseRoleError::NoMatchingRole && forall|role: Role|
                    role_str(role) != s@,
            },
    {
        if str_eq(s, "administrator") {
            Ok(Self::Administrator)
        } else if str_eq(s, "moderator") {
            Ok(Self::Moderator)
        } else if str_eq(s, "vip") {
            Ok(Self::VIP)
        } else if str_eq(s, "protected") {
            Ok(Self::Protected)
        } else if str_eq(s, "subscriber") {
            Ok(Self::Subscriber)
        } else if str_eq(s, "bot") {
            Ok(Self::Bot)
        } else {
            proof {
                assert forall|role: Role| role_str(role) != s@ by {
                    match role {
                        Role::Administrator => assert(role_str(role) == "administrator"@),
                        Role::Moderator => assert(role_str(role) == "moderator"@),
                        Role::VIP => assert(role_str(role) == "vip"@),
                        Role::Protected => assert(role_str(role) == "protected"@),
                        Role::Subscriber => assert(role_str(role) == "subscriber"@),
                        Role::Bot => assert(role_str(role) == "bot"@),
                    }
                }
            }
            Err(ParseRoleError::NoMatchingRole)
        }
    }
}

impl core::str::FromStr for Role {
    type Err = ParseRoleError;

    /// Parses a role from its identifier string.
    fn from_str(s: &str) -> Result<Self, ParseRoleError> {
        Role::parse(s)
    }
}

/// An error encountered while converting a string to a role.
#[derive(Clone, Copy, PartialEq, Eq, Structural, Debug)]
pub enum ParseRoleError {
    NoMatchingRole,
}

impl ParseRoleError {
    /// A human-readable description of the error.
    pub fn message(&self) -> (r: &'static str) {
        "no role matches the provided string"
    }
}

/// A one-role list when the flag holds, else the empty list.
pub open spec fn role_seq_if(held: bool, role: Role) -> Seq<Role> {
    if held {
        seq![role]
    } else {
        Seq::empty()
    }
}

/// The held roles listed in the fixed vocabulary order: administrator,
/// moderator, vip, protected, subscriber, bot.
pub open spec fn roles_in_order(
    administrator: bool,
    moderator: bool,
    vip: bool,
    protected: bool,
    subscriber: bool,
    bot: bool,
) -> Seq<Role> {
    role_seq_if(administrator, Role::Administrator) + role_seq_if(moderator, Role::Moderator)
        + role_seq_if(vip, Role::VIP) + role_seq_if(protected, Role::Protected) + role_seq_if(
        subscriber,
        Role::Subscriber,
    ) + role_seq_if(bot, Role::Bot)
}

/// Whether a slice of roles mentions `role`.
pub fn roles_contain(roles: &[Role], role: Role) -> (r: bool)
    ensures
        r == roles@.contains(role),
{
    let n = roles.len();
    let mut i: usize = 0;
    while i < n
        invariant
            0 <= i <= n,
            n == roles@.len(),
            forall|j: int| 0 <= j < i ==> roles@[j] != role,
        decreases n - i,
    {
        if roles[i] == role {
            return true;
        }
        i += 1;
    }
    false
}

/// A non-exclusionary role row for a given user: each flag may be
/// absent, and absence means the role is not held.
#[derive(Clone, Copy, PartialEq, Eq, Structural, Debug)]
pub struct RoleEntry {
    /// A unique identifier assigned to the role row
    pub id: u64,
    /// The ID of the user associated with the row
    pub user_id: u64,
    /// Whether or not this user is an administrator
    pub administrator: Option<bool>,
    /// Whether or not this user is a moderator
    pub moderator: Option<bool>,
    /// Whether or not this user is a VIP
    pub vip: Option<bool>,
    /// Whether or not this user is protected
    pub protected: Option<bool>,
    /// Whether or not this user is a subscriber
    pub subscriber: Option<bool>,
    /// Whether or not this user is a bot
    pub bot: Option<bool>,
}

impl RoleEntry {
    /// Whether the row grants the given role: an absent flag counts
    /// as false.
    pub open spec fn spec_has_role(self, role: Role) -> bool {
        match role {
            Role::Administrator => self.administrator == Some(true),
            Role::Moderator => self.moderator == Some(true),
            Role::VIP => self.vip == Some(true),
            Role::Protected => self.protected == Some(true),
            Role::Subscriber => self.subscriber == Some(true),
            Role::Bot => self.bot == Some(true),
        }
    }

    /// The set of roles the row grants.
    pub open spec fn spec_roles(self) -> Set<Role> {
        Set::new(|role: Role| self.spec_has_role(role))
    }

    /// The ID of the user the role row concerns.
    pub fn concerns(&self) -> (r: u64)
        ensures
            r == self.user_id,
    {
        self.user_id
    }

    /// The identifier of the role row itself.
    pub fn entry_id(&self) -> (r: u64)
        ensures
            r == self.id,
    {
        self.id
    }

    /// Whether the row grants the given role.
    pub fn has_role(&self, role: &Role) -> (r: bool)
        ensures
            r == self.spec_has_role(*role),
    {
        match role {
            Role::Administrator => matches!(self.administrator, Some(true)),
            Role::Moderator => matches!(self.moderator, Some(true)),
            Role::VIP => matches!(self.vip, Some(true)),
            Role::Protected => matches!(self.protected, Some(true)),
            Role::Subscriber => matches!(self.subscriber, Some(true)),
            Role::Bot => matches!(self.bot, Some(true)),
        }
    }

    /// The list of roles the row grants, in the fixed vocabulary
    /// order, without duplicates.
    #[verifier::rlimit(40)]
    pub fn roles(&self) -> (r: Vec<Role>)
        ensures
            r@ == roles_in_order(
                self.spec_has_role(Role::Administrator),
                self.spec_has_role(Role::Moderator),
                self.spec_has_role(Role::VIP),
                self.spec_has_role(Role::Protected),
                self.spec_has_role(Role::Subscriber),
                self.spec_has_role(Role::Bot),
            ),
            r@.no_duplicates(),
            forall|role: Role| #[trigger] r@.contains(role) == self.spec_has_role(role),
    {
        broadcast use vstd::seq_lib::lemma_seq_contains_after_push;

        let mut r: Vec<Role> = Vec::new();
        if matches!(self.administrator, Some(true)) {
            r.push(Role::Administrator);
        }
        proof {
            assert(r@ =~= role_seq_if(self.spec_has_role(Role::Administrator), Role::Administrator));
        }
        if matches!(self.moderator, Some(true)) {
            proof {
                assert(!r@.contains(Role::Moderator));
            }
            r.push(Role::Moderator);
            proof {
                assert(r@.no_duplicates());
            }
        }
        proof {
            assert(r@ =~= role_seq_if(self.spec_has_role(Role::Administrator), Role::Administrator)
                + role_seq_if(self.spec_has_role(Role::Moderator), Role::Moderator));
        }
        if matches!(self.vip, Some(true)) {
            proof {
                assert(!r@.contains(Role::VIP));
            }
            r.push(Role::VIP);
            proof {
                assert(r@.no_duplicates());
            }
        }
        proof {
            assert(r@ =~= role_seq_if(self.spec_has_role(Role::Administrator), Role::Administrator)
                + role_seq_if(self.spec_has_role(Role::Moderator), Role::Moderator) + role_seq_if(
                self.spec_has_role(Role::VIP),
                Role::VIP,
            ));
        }
        if matches!(self.protected, Some(true)) {
            proof {
                assert(!r@.contains(Role::Protected));
            }
            r.push(Role::Protected);
            proof {
                assert(r@.no_duplicates());
            }
        }
        proof {
            assert(r@ =~= role_seq_if(self.spec_has_role(Role::Administrator), Role::Administrator)
                + role_seq_if(self.spec_has_role(Role::Moderator), Role::Moderator) + role_seq_if(
                self.spec_has_role(Role::VIP),
                Role::VIP,
            ) + role_seq_if(self.spec_has_role(Role::Protected), Role::Protected));
        }
        if matches!(self.subscriber, Some(true)) {
            proof {
                assert(!r@.contains(Role::Subscriber));
            }
            r.push(Role::Subscriber);
            proof {
                assert(r@.no_duplicates());
            }
        }
        proof {
            assert(r@ =~= role_seq_if(self.spec_has_role(Role::Administrator), Role::Administrator)
                + role_seq_if(self.spec_has_role(Role::Moderator), Role::Moderator) + role_seq_if(
                self.spec_has_role(Role::VIP),
                Role::VIP,
            ) + role_seq_if(self.spec_has_role(Role::Protected), Role::Protected) + role_seq_if(
                self.spec_has_role(Role::Subscriber),
                Role::Subscriber,
            ));
        }
        if matches!(self.bot, Some(true)) {
            proof {
                assert(!r@.contains(Role::Bot));
            }
            r.push(Role::Bot);
            proof {
                assert(r@.no_duplicates());
            }
        }
        proof {
            assert(r@ =~= roles_in_order(
                self.spec_has_role(Role::Administrator),
                self.spec_has_role(Role::Moderator),
                self.spec_has_role(Role::VIP),
                self.spec_has_role(Role::Protected),
                self.spec_has_role(Role::Subscriber),
                self.spec_has_role(Role::Bot),
            ));
            assert forall|role: Role| #[trigger] r@.contains(role) == self.spec_has_role(
                role,
            ) by {
                match role {
                    Role::Administrator => {},
                    Role::Moderator => {},
                    Role::VIP => {},
                    Role::Protected => {},
                    Role::Subscriber => {},
                    Role::Bot => {},
                }
            }
        }
        r
    }
}

impl Default for RoleEntry {
    /// A row for user 0 granting nothing.
    fn default() -> (r: Self)
        ensures
            r.id == 0 && r.user_id == 0,
            forall|role: Role| !r.spec_has_role(role),
    {
        Self {
            id: 0,
            user_id: 0,
            administrator: None,
            moderator: None,
            vip: None,
            protected: None,
            subscriber: None,
            bot: None,
        }
    }
}

/// A request to create a role row for some user.
#[derive(Clone, Copy, PartialEq, Eq, Structural, Debug)]
pub struct NewRoleEntry {
    /// The ID of the user associated with the row
    pub user_id: u64,
    /// Whether or not this user is an administrator
    pub administrator: Option<bool>,
    /// Whether or not this user is a moderator
    pub moderator: Option<bool>,
    /// Whether or not this user is a VIP
    pub vip: Option<bool>,
    /// Whether or not this user is protected
    pub protected: Option<bool>,
    /// Whether or not this user is a subscriber
    pub subscriber: Option<bool>,
    /// Whether or not this user is a bot
    pub bot: Option<bool>,
}

impl NewRoleEntry {
    /// Whether the row grants the given role: an absent flag counts
    /// as false.
    pub open spec fn spec_has_role(self, role: Role) -> bool {
        match role {
            Role::Administrator => self.administrator == Some(true),
            Role::Moderator => self.moderator == Some(true),
            Role::VIP => self.vip == Some(true),
            Role::Protected => self.protected == Some(true),
            Role::Subscriber => self.subscriber == Some(true),
            Role::Bot => self.bot == Some(true),
        }
    }

    /// The set of roles the row grants.
    pub open spec fn spec_roles(self) -> Set<Role> {
        Set::new(|role: Role| self.spec_has_role(role))
    }

    /// Creates a role row granting exactly the listed roles to the
    /// given user.
    pub fn new(user_id: u64, roles: &[Role]) -> (r: Self)
        ensures
            r.user_id == user_id,
            r.administrator == Some(roles@.contains(Role::Administrator)),
            r.moderator == Some(roles@.contains(Role::Moderator)),
            r.vip == Some(roles@.contains(Role::VIP)),
            r.protected == Some(roles@.contains(Role::Protected)),
            r.subscriber == Some(roles@.contains(Role::Subscriber)),
            r.bot == Some(roles@.contains(Role::Bot)),
            forall|role: Role| #[trigger] r.spec_has_role(role) == roles@.contains(role),
    {
        let r = Self {
            user_id,
            administrator: Some(roles_contain(roles, Role::Administrator)),
            moderator: Some(roles_contain(roles, Role::Moderator)),
            vip: Some(roles_contain(roles, Role::VIP)),
            protected: Some(roles_contain(roles, Role::Protected)),
            subscriber: Some(roles_contain(roles, Role::Subscriber)),
            bot: Some(roles_contain(roles, Role::Bot)),
        };
        proof {
            assert forall|role: Role| #[trigger] r.spec_has_role(role) == roles@.contains(
                role,
            ) by {
                match role {
                    Role::Administrator => {},
                    Role::Moderator => {},
                    Role::VIP => {},
                    Role::Protected => {},
                    Role::Subscriber => {},
                    Role::Bot => {},
                }
            }
        }
        r
    }

    /// Whether the row grants the given role.
    pub fn has_role(&self, role: &Role) -> (r: bool)
        ensures
            r == self.spec_has_role(*role),
    {
        match role {
            Role::Administrator => matches!(self.administrator, Some(true)),
            Role::Moderator => matches!(self.moderator, Some(true)),
            Role::VIP => matches!(self.vip, Some(true)),
            Role::Protected => matches!(self.protected, Some(true)),
            Role::Subscriber => matches!(self.subscriber, Some(true)),
            Role::Bot => matches!(self.bot, Some(true)),
        }
    }
}

impl Default for NewRoleEntry {
    /// A request for user 0 granting nothing.
    fn default() -> (r: Self)
        ensures
            r.user_id == 0,
            forall|role: Role| !r.spec_has_role(role),
    {
        Self {
            user_id: 0,
            administrator: None,
            moderator: None,
            vip: None,
            protected: None,
            subscriber: None,
            bot: None,
        }
    }
}

} // verus!
