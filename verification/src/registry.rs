//! Roles and the mailbox key names derived from a passphrase.
use vstd::prelude::*;
use crate::wire::same_text;
use vstd::string::*;

verus! {

/// The side of a rendezvous that a connection was assigned.
#[derive(Clone, Copy, Debug, PartialEq, Eq, Structural)]
pub enum Role {
    /// Claimed the passphrase first; creates the offer.
    Caller,
    /// Found the passphrase already claimed; answers the offer.
    Callee,
}

/// The mark by which a peer is told its role: `"1"` for the caller, `"0"`
/// for the callee.
pub open spec fn role_marker(role: Role) -> Seq<char> {
    match role {
        Role::Caller => "1"@,
        Role::Callee => "0"@,
    }
}

/// The role that a mark stands for.
pub open spec fn role_marked(marker: Seq<char>) -> Option<Role> {
    if marker == "1"@ {
        Some(Role::Caller)
    } else if marker == "0"@ {
        Some(Role::Callee)
    } else {
        None
    }
}

/// Every role is found again under its mark.
pub proof fn law_role_is_found_by_marker(role: Role)
    ensures
        role_marked(role_marker(role)) == Some(role),
{
    reveal_strlit("1");
    reveal_strlit("0");
    assert("1"@[0] == '1');
    assert("0"@[0] == '0');
}

impl Role {
    /// The mark by which a peer is told this role.
    pub fn marker(&self) -> (marker: &'static str)
        ensures
            marker@ == role_marker(*self),
    {
        match self {
            Role::Caller => "1",
            Role::Callee => "0",
        }
    }

    /// The role that `marker` stands for.
    pub fn from_marker(marker: &str) -> (role: Option<Role>)
        ensures
            role == role_marked(marker@),
    {
        if same_text(marker, "1") {
            Some(Role::Caller)
        } else if same_text(marker, "0") {
            Some(Role::Callee)
        } else {
            None
        }
    }
}

/// Name of the key that is claimed for `passphrase`.
pub open spec fn passphrase_key_of(passphrase: Seq<char>) -> Seq<char> {
    "passphrase:"@ + passphrase
}

/// Name of the mailbox that the caller of `passphrase` writes to.
pub open spec fn caller_channel_key_of(passphrase: Seq<char>) -> Seq<char> {
    "channel:caller:"@ + passphrase
}

/// Name of the mailbox that the callee of `passphrase` writes to.
pub open spec fn callee_channel_key_of(passphrase: Seq<char>) -> Seq<char> {
    "channel:callee:"@ + passphrase
}

/// The three key names of one session.
#[derive(Debug, PartialEq, Eq)]
pub struct Registry {
    passphrase_key: String,
    send_channel_key: String,
    receive_channel_key: String,
}

/// Mathematical value of a [`Registry`].
pub struct RegistryView {
    pub passphrase_key: Seq<char>,
    pub send_channel_key: Seq<char>,
    pub receive_channel_key: Seq<char>,
}

/// The registry that `role` holds for `passphrase`: a peer sends on its own
/// channel and receives on the other party's.
pub open spec fn registry_of(passphrase: Seq<char>, role: Role) -> RegistryView {
    match role {
        Role::Caller => RegistryView {
            passphrase_key: passphrase_key_of(passphrase),
            send_channel_key: caller_channel_key_of(passphrase),
            receive_channel_key: callee_channel_key_of(passphrase),
        },
        Role::Callee => RegistryView {
            passphrase_key: passphrase_key_of(passphrase),
            send_channel_key: callee_channel_key_of(passphrase),
            receive_channel_key: caller_channel_key_of(passphrase),
        },
    }
}

impl View for Registry {
    type V = RegistryView;

    closed spec fn view(&self) -> RegistryView {
        RegistryView {
            passphrase_key: self.passphrase_key@,
            send_channel_key: self.send_channel_key@,
            receive_channel_key: self.receive_channel_key@,
        }
    }
}

impl Clone for Registry {
    fn clone(&self) -> (copy: Registry)
        ensures
            copy == *self,
    {
        Registry {
            passphrase_key: self.passphrase_key.clone(),
            send_channel_key: self.send_channel_key.clone(),
            receive_channel_key: self.receive_channel_key.clone(),
        }
    }
}

impl Registry {
    /// Derives the keys of the session that holds `role` for `passphrase`.
    pub fn new(passphrase: String, role: Role) -> (registry: Registry)
        ensures
            registry@ == registry_of(passphrase@, role),
    {
        let (send_channel_key, receive_channel_key) = match role {
            Role::Caller => (
                Self::caller_channel_key(passphrase.as_str()),
                Self::callee_channel_key(passphrase.as_str()),
            ),
            Role::Callee => (
                Self::callee_channel_key(passphrase.as_str()),
                Self::caller_channel_key(passphrase.as_str()),
            ),
        };
        let passphrase_key = Self::passphrase_key(passphrase.as_str());
        Registry { passphrase_key, send_channel_key, receive_channel_key }
    }

    /// The key that is claimed for `passphrase`.
    pub fn passphrase_key(passphrase: &str) -> (key: String)
        ensures
            key@ == passphrase_key_of(passphrase@),
    {
        "passphrase:".to_owned().concat(passphrase)
    }

    /// The mailbox that the caller of `passphrase` writes to.
    pub fn caller_channel_key(passphrase: &str) -> (key: String)
        ensures
            key@ == caller_channel_key_of(passphrase@),
    {
        "channel:caller:".to_owned().concat(passphrase)
    }

    /// The mailbox that the callee of `passphrase` writes to.
    pub fn callee_channel_key(passphrase: &str) -> (key: String)
        ensures
            key@ == callee_channel_key_of(passphrase@),
    {
        "channel:callee:".to_owned().concat(passphrase)
    }

    /// The key that this session's passphrase is claimed under.
    pub fn claim_key(&self) -> (key: &str)
        ensures
            key@ == self@.passphrase_key,
    {
        self.passphrase_key.as_str()
    }

    /// The mailbox that this session writes to.
    pub fn send_key(&self) -> (key: &str)
        ensures
            key@ == self@.send_channel_key,
    {
        self.send_channel_key.as_str()
    }

    /// The mailbox that this session reads from.
    pub fn receive_key(&self) -> (key: &str)
        ensures
            key@ == self@.receive_channel_key,
    {
        self.receive_channel_key.as_str()
    }
}

/// Whether a registry holds the keys of some passphrase and role.
pub open spec fn derived(registry: RegistryView) -> bool {
    exists|passphrase: Seq<char>, role: Role| registry == registry_of(passphrase, role)
}

proof fn lemma_prefixes()
    ensures
        "passphrase:"@.len() == 11,
        "channel:caller:"@.len() == 15,
        "channel:callee:"@.len() == 15,
        "passphrase:"@[0] == 'p',
        "channel:caller:"@[0] == 'c',
        "channel:callee:"@[0] == 'c',
        "channel:caller:"@[13] == 'r',
        "channel:callee:"@[13] == 'e',
{
    reveal_strlit("passphrase:");
    reveal_strlit("channel:caller:");
    reveal_strlit("channel:callee:");
}

proof fn lemma_same_prefix(prefix: Seq<char>, a: Seq<char>, b: Seq<char>)
    requires
        prefix + a == prefix + b,
    ensures
        a == b,
{
    assert(a =~= (prefix + a).skip(prefix.len() as int));
    assert(b =~= (prefix + b).skip(prefix.len() as int));
}

/// The two sessions of one passphrase mirror each other: each reads the
/// mailbox that the other writes, and both claim the same key.
pub proof fn law_channels_mirror(passphrase: Seq<char>)
    ensures
        registry_of(passphrase, Role::Caller).send_channel_key == registry_of(
            passphrase,
            Role::Callee,
        ).receive_channel_key,
        registry_of(passphrase, Role::Caller).receive_channel_key == registry_of(
            passphrase,
            Role::Callee,
        ).send_channel_key,
        registry_of(passphrase, Role::Caller).passphrase_key == registry_of(
            passphrase,
            Role::Callee,
        ).passphrase_key,
{
}

/// The three keys of a session are three different keys: in particular a
/// session never writes to the mailbox that it reads, which is the one that
/// the other session writes.
pub proof fn law_keys_differ(passphrase: Seq<char>, role: Role)
    ensures
        registry_of(passphrase, role).send_channel_key != registry_of(
            passphrase,
            role,
        ).receive_channel_key,
        registry_of(passphrase, role).passphrase_key != registry_of(
            passphrase,
            role,
        ).send_channel_key,
        registry_of(passphrase, role).passphrase_key != registry_of(
            passphrase,
            role,
        ).receive_channel_key,
{
    lemma_prefixes();
    let p = passphrase_key_of(passphrase);
    let r = caller_channel_key_of(passphrase);
    let e = callee_channel_key_of(passphrase);
    assert(p[0] == 'p');
    assert(r[0] == 'c' && r[13] == 'r');
    assert(e[0] == 'c' && e[13] == 'e');
}

/// Keys of different passphrases never meet: a key names its kind and its
/// passphrase.
pub proof fn law_keys_name_their_passphrase(a: Seq<char>, b: Seq<char>)
    ensures
        passphrase_key_of(a) == passphrase_key_of(b) ==> a == b,
        caller_channel_key_of(a) == caller_channel_key_of(b) ==> a == b,
        callee_channel_key_of(a) == callee_channel_key_of(b) ==> a == b,
        passphrase_key_of(a) != caller_channel_key_of(b),
        passphrase_key_of(a) != callee_channel_key_of(b),
        caller_channel_key_of(a) != callee_channel_key_of(b),
{
    lemma_prefixes();
    if passphrase_key_of(a) == passphrase_key_of(b) {
        lemma_same_prefix("passphrase:"@, a, b);
    }
    if caller_channel_key_of(a) == caller_channel_key_of(b) {
        lemma_same_prefix("channel:caller:"@, a, b);
    }
    if callee_channel_key_of(a) == callee_channel_key_of(b) {
        lemma_same_prefix("channel:callee:"@, a, b);
    }
    assert(passphrase_key_of(a)[0] == 'p');
    assert(caller_channel_key_of(b)[0] == 'c' && caller_channel_key_of(b)[13] == 'r');
    assert(callee_channel_key_of(b)[0] == 'c' && callee_channel_key_of(b)[13] == 'e');
    assert(caller_channel_key_of(a)[13] == 'r');
}

} // verus!
