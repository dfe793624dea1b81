use std::collections::HashMap;

use vstd::prelude::*;
use vstd::string::{StrSliceExecFns, StringExecFns};

use crate::error::CoreError;

verus! {

/// The shortest allowed username, in characters.
pub const USERNAME_MIN_CHARS: usize = 1;

/// The longest allowed username, in characters.
pub const USERNAME_MAX_CHARS: usize = 40;

/// The username of the made-up contact.
pub const DEBUG_CONTACT_NAME: &'static str = "DEBUG_CONTACT";

/// The Ed25519 public key that belongs to a 32-byte secret key.
pub uninterp spec fn ed25519_public_of(secret: Seq<u8>) -> Seq<u8>;

/// How far the local user trusts a contact.
#[derive(Debug, Clone, Copy, Hash, PartialEq, Eq, PartialOrd, Ord, Structural)]
pub enum Trust {
    Unknown,
    Trusted,
    Rejected,
}

impl Trust {
    /// The name of the trust level.
    pub open spec fn name_text(&self) -> &'static str {
        match self {
            Trust::Unknown => "Unknown",
            Trust::Trusted => "Trusted",
            Trust::Rejected => "Rejected",
        }
    }

    /// The name of the trust level, for display.
    pub fn name(&self) -> (r: &'static str)
        ensures
            r == self.name_text(),
    {
        match self {
            Trust::Unknown => "Unknown",
            Trust::Trusted => "Trusted",
            Trust::Rejected => "Rejected",
        }
    }
}

/// A 32-byte Ed25519 public key, as the bytes of its compressed form.
#[derive(Debug, Clone, Copy, Hash, PartialEq, Eq, PartialOrd, Ord)]
pub struct PublicKey {
    pub bytes: [u8; 32],
}

/// A 32-byte Ed25519 secret key.
#[derive(Debug, Clone, Copy, PartialEq, Eq)]
pub struct SecretKey {
    pub bytes: [u8; 32],
}

impl View for PublicKey {
    type V = Seq<u8>;

    open spec fn view(&self) -> Seq<u8> {
        self.bytes@
    }
}

impl View for SecretKey {
    type V = Seq<u8>;

    open spec fn view(&self) -> Seq<u8> {
        self.bytes@
    }
}

impl PublicKey {
    /// Whether two keys are the same, byte for byte.
    pub fn same_as(&self, other: &PublicKey) -> (r: bool)
        ensures
            r == (self@ == other@),
    {
        let mut i: usize = 0;
        while i < 32
            invariant
                i <= 32,
                self@.len() == 32,
                other@.len() == 32,
                forall|j: int| 0 <= j < i ==> self@[j] == other@[j],
            decreases 32 - i,
        {
            if self.bytes[i] != other.bytes[i] {
                return false;
            }
            i = i + 1;
        }
        assert(self@ =~= other@);
        true
    }
}

/// A point in time: whole seconds since the Unix epoch and the nanoseconds
/// within the second.
#[derive(Debug, Clone, Copy, Hash, PartialEq, Eq, PartialOrd, Ord, Structural)]
pub struct Timestamp {
    pub secs: i64,
    pub nanos: u32,
}

/// Optional capabilities an identity announces.
#[derive(Debug, Copy, Clone, PartialEq, Eq, Default, Structural)]
pub struct Flags {
    pub uses_relay: bool,
    pub is_machine_account: bool,
    pub is_relay_server: bool,
    pub prefers_async: bool,
}

impl Flags {
    /// No flag set.
    pub fn none() -> (r: Flags)
        ensures
            !r.uses_relay && !r.is_machine_account && !r.is_relay_server && !r.prefers_async,
    {
        Flags { uses_relay: false, is_machine_account: false, is_relay_server: false, prefers_async: false }
    }
}

/// Optional data attached to an identity.
#[derive(Debug, Clone, PartialEq, Eq, Default)]
pub struct Extensions {
    pub profile_picture: Option<Vec<u8>>,
    pub additional_metadata: HashMap<String, Vec<u8>>,
}

/// The public identity of a user, as peers see it.
#[derive(Debug, Clone, PartialEq, Eq)]
pub struct Identity {
    pub username: String,
    pub public_key: PublicKey,
    pub flags: Flags,
    pub extensions: Option<Extensions>,
}

/// Two sets of extensions say the same: the same picture bytes, if any,
/// and the same metadata.
pub open spec fn same_extensions(a: Option<Extensions>, b: Option<Extensions>) -> bool {
    match (a, b) {
        (None, None) => true,
        (Some(x), Some(y)) => {
            &&& match (x.profile_picture, y.profile_picture) {
                (None, None) => true,
                (Some(p), Some(q)) => p@ == q@,
                _ => false,
            }
            &&& x.additional_metadata@ == y.additional_metadata@
        },
        _ => false,
    }
}

/// Two identities say the same: username, key, flags and extensions.
pub open spec fn same_identity(a: Identity, b: Identity) -> bool {
    &&& a.username@ == b.username@
    &&& a.public_key == b.public_key
    &&& a.flags == b.flags
    &&& same_extensions(a.extensions, b.extensions)
}

/// Two contact records say the same.
pub open spec fn same_contact(a: ContactIdentity, b: ContactIdentity) -> bool {
    &&& same_identity(a.identity, b.identity)
    &&& a.trust == b.trust
    &&& a.first_seen == b.first_seen
    &&& a.last_seen == b.last_seen
}

/// A username is valid if it has between 1 and 40 characters.
pub open spec fn valid_username(name: Seq<char>) -> bool {
    USERNAME_MIN_CHARS <= name.len() <= USERNAME_MAX_CHARS
}

impl Identity {
    /// Makes an identity with no flags and no extensions.
    pub fn build(username: &str, public_key: PublicKey) -> (r: Result<Identity, CoreError>)
        ensures
            r is Ok <==> valid_username(username@),
            r is Err ==> r == Err::<Identity, CoreError>(CoreError::InvalidUsername),
            r matches Ok(id) ==> id.username@ == username@ && id.public_key == public_key
                && id.flags == Flags::none_spec() && id.extensions is None,
    {
        Self::validate_username(username)?;
        Ok(Identity { username: username.to_owned(), public_key, flags: Flags::none(), extensions: None })
    }

    /// The username.
    pub fn username(&self) -> (r: &str)
        ensures
            r@ == self.username@,
    {
        self.username.as_str()
    }

    /// Accepts a username of 1 to 40 characters.
    pub fn validate_username(username: &str) -> (r: Result<(), CoreError>)
        ensures
            r is Ok <==> valid_username(username@),
            r is Err ==> r == Err::<(), CoreError>(CoreError::InvalidUsername),
    {
        let chars_len = username.unicode_len();
        if chars_len < USERNAME_MIN_CHARS || chars_len > USERNAME_MAX_CHARS {
            Err(CoreError::InvalidUsername)
        } else {
            Ok(())
        }
    }
}

/// The upper-case hexadecimal digit of a number below 16.
pub open spec fn hex_digit(n: u8) -> char {
    if n == 0 {
        '0'
    } else if n == 1 {
        '1'
    } else if n == 2 {
        '2'
    } else if n == 3 {
        '3'
    } else if n == 4 {
        '4'
    } else if n == 5 {
        '5'
    } else if n == 6 {
        '6'
    } else if n == 7 {
        '7'
    } else if n == 8 {
        '8'
    } else if n == 9 {
        '9'
    } else if n == 10 {
        'A'
    } else if n == 11 {
        'B'
    } else if n == 12 {
        'C'
    } else if n == 13 {
        'D'
    } else if n == 14 {
        'E'
    } else {
        'F'
    }
}

/// Bytes written as upper-case hexadecimal, two digits each.
pub open spec fn hex_of(bytes: Seq<u8>) -> Seq<char>
    decreases bytes.len(),
{
    if bytes.len() == 0 {
        Seq::empty()
    } else {
        hex_of(bytes.drop_last()) + seq![hex_digit(bytes.last() / 16), hex_digit(bytes.last() % 16)]
    }
}

/// The digit of a number below 16, as a string.
fn hex_digit_str(n: u8) -> (r: &'static str)
    requires
        n < 16,
    ensures
        r@ == seq![hex_digit(n)],
{
    if n == 0 {
        proof {
            reveal_strlit("0");
        }
        "0"
    } else if n == 1 {
        proof {
            reveal_strlit("1");
        }
        "1"
    } else if n == 2 {
        proof {
            reveal_strlit("2");
        }
        "2"
    } else if n == 3 {
        proof {
            reveal_strlit("3");
        }
        "3"
    } else if n == 4 {
        proof {
            reveal_strlit("4");
        }
        "4"
    } else if n == 5 {
        proof {
            reveal_strlit("5");
        }
        "5"
    } else if n == 6 {
        proof {
            reveal_strlit("6");
        }
        "6"
    } else if n == 7 {
        proof {
            reveal_strlit("7");
        }
        "7"
    } else if n == 8 {
        proof {
            reveal_strlit("8");
        }
        "8"
    } else if n == 9 {
        proof {
            reveal_strlit("9");
        }
        "9"
    } else if n == 10 {
        proof {
            reveal_strlit("A");
        }
        "A"
    } else if n == 11 {
        proof {
            reveal_strlit("B");
        }
        "B"
    } else if n == 12 {
        proof {
            reveal_strlit("C");
        }
        "C"
    } else if n == 13 {
        proof {
            reveal_strlit("D");
        }
        "D"
    } else if n == 14 {
        proof {
            reveal_strlit("E");
        }
        "E"
    } else {
        proof {
            reveal_strlit("F");
        }
        "F"
    }
}

/// A public key written as 64 upper-case hexadecimal digits.
pub fn format_key(key: &PublicKey) -> (r: String)
    ensures
        r@ == hex_of(key@),
{
    let mut buf = String::new();
    let mut i: usize = 0;
    while i < 32
        invariant
            i <= 32,
            key@.len() == 32,
            buf@ == hex_of(key@.subrange(0, i as int)),
        decreases 32 - i,
    {
        let b = key.bytes[i];
        buf.append(hex_digit_str(b / 16));
        buf.append(hex_digit_str(b % 16));
        proof {
            let s = key@.subrange(0, i + 1);
            assert(s.drop_last() =~= key@.subrange(0, i as int));
            assert(s.last() == b);
        }
        i = i + 1;
    }
    assert(key@.subrange(0, 32) =~= key@);
    buf
}

impl Identity {
    /// A copy that says the same.
    pub fn duplicate(&self) -> (r: Identity)
        ensures
            same_identity(r, *self),
    {
        let extensions = match &self.extensions {
            None => None,
            Some(e) => {
                let profile_picture = match &e.profile_picture {
                    None => None,
                    Some(p) => Some(vstd::slice::slice_to_vec(p.as_slice())),
                };
                Some(Extensions { profile_picture, additional_metadata: e.additional_metadata.clone() })
            },
        };
        Identity { username: self.username.clone(), public_key: self.public_key, flags: self.flags, extensions }
    }
}

impl ContactIdentity {
    /// A copy that says the same.
    pub fn duplicate(&self) -> (r: ContactIdentity)
        ensures
            same_contact(r, *self),
    {
        ContactIdentity {
            identity: self.identity.duplicate(),
            trust: self.trust,
            first_seen: self.first_seen,
            last_seen: self.last_seen,
        }
    }
}

/// The local user: the public identity and the secret key behind it.
#[derive(Debug, Clone, PartialEq, Eq)]
pub struct UserIdentity {
    pub identity: Identity,
    pub private_key: SecretKey,
    pub created: Timestamp,
}

/// What the local user knows of a peer.
#[derive(Debug, Clone, PartialEq, Eq)]
pub struct ContactIdentity {
    pub identity: Identity,
    pub trust: Trust,
    pub first_seen: Timestamp,
    pub last_seen: Timestamp,
}

/// Relies on `ed25519_dalek::SigningKey::from_bytes` and
/// `SigningKey::verifying_key`: the public key of a secret key depends on the
/// secret key alone.
#[verifier::external_body]
fn public_key_of(secret: &SecretKey) -> (r: PublicKey)
    ensures
        r@ == ed25519_public_of(secret@),
{
    let signing = ed25519_dalek::SigningKey::from_bytes(&secret.bytes);
    PublicKey { bytes: signing.verifying_key().to_bytes() }
}

/// Relies on `ed25519_dalek::SigningKey::generate` with the operating
/// system's random source: a fresh secret key.
#[verifier::external_body]
fn generate_secret_key() -> (r: SecretKey) {
    let mut csprng = rand::rngs::OsRng;
    SecretKey { bytes: ed25519_dalek::SigningKey::generate(&mut csprng).to_bytes() }
}

/// Relies on `chrono::Utc::now`: the current time.
#[verifier::external_body]
pub(crate) fn now() -> (r: Timestamp) {
    let t = chrono::Utc::now();
    Timestamp { secs: t.timestamp(), nanos: t.timestamp_subsec_nanos() }
}

impl UserIdentity {
    /// Makes a new user with a fresh secret key, created now.
    pub fn build(username: &str) -> (r: Result<UserIdentity, CoreError>)
        ensures
            r is Ok <==> valid_username(username@),
            r is Err ==> r == Err::<UserIdentity, CoreError>(CoreError::InvalidUsername),
            r matches Ok(u) ==> u.identity.username@ == username@
                && u.identity.public_key@ == ed25519_public_of(u.private_key@),
    {
        let key = generate_secret_key();
        Self::load(username, key, now())
    }

    /// Makes a user of a secret key and a creation time.
    pub fn load(username: &str, key: SecretKey, created: Timestamp) -> (r: Result<UserIdentity, CoreError>)
        ensures
            r is Ok <==> valid_username(username@),
            r is Err ==> r == Err::<UserIdentity, CoreError>(CoreError::InvalidUsername),
            r matches Ok(u) ==> u.identity.username@ == username@
                && u.identity.public_key@ == ed25519_public_of(key@) && u.private_key == key
                && u.created == created && u.identity.flags == Flags::none_spec()
                && u.identity.extensions is None,
    {
        let identity = Identity::build(username, public_key_of(&key))?;
        Ok(UserIdentity { identity, private_key: key, created })
    }

    /// The secret key.
    pub fn private_key(&self) -> (r: &SecretKey)
        ensures
            *r == self.private_key,
    {
        &self.private_key
    }
}

impl ContactIdentity {
    /// Makes a contact record.
    pub fn build(
        username: &str,
        public_key: PublicKey,
        trust: Trust,
        first_seen: Timestamp,
        last_seen: Timestamp,
    ) -> (r: Result<ContactIdentity, CoreError>)
        ensures
            r is Ok <==> valid_username(username@),
            r is Err ==> r == Err::<ContactIdentity, CoreError>(CoreError::InvalidUsername),
            r matches Ok(c) ==> c.identity.username@ == username@ && c.identity.public_key == public_key
                && c.identity.flags == Flags::none_spec() && c.identity.extensions is None
                && c.trust == trust && c.first_seen == first_seen && c.last_seen == last_seen,
    {
        let identity = Identity::build(username, public_key)?;
        Ok(ContactIdentity { identity, trust, first_seen, last_seen })
    }

    /// The record of a peer seen for the first time: trust unknown, first and
    /// last seen at `seen`.
    pub fn first_contact(identity: Identity, seen: Timestamp) -> (r: ContactIdentity)
        ensures
            r.identity == identity,
            r.trust == Trust::Unknown,
            r.first_seen == seen,
            r.last_seen == seen,
    {
        ContactIdentity { identity, trust: Trust::Unknown, first_seen: seen, last_seen: seen }
    }

    /// A made-up contact with a fresh key, seen now, for trying things out.
    pub fn debug_contact() -> (r: ContactIdentity)
        ensures
            r.identity.username@ == DEBUG_CONTACT_NAME@,
            r.trust == Trust::Unknown,
            r.first_seen == r.last_seen,
    {
        let key = public_key_of(&generate_secret_key());
        let identity = Identity {
            username: String::from_str(DEBUG_CONTACT_NAME),
            public_key: key,
            flags: Flags::none(),
            extensions: None,
        };
        ContactIdentity::first_contact(identity, now())
    }

    /// Records that the peer was seen at `last_seen`.
    pub fn set_last_seen(&mut self, last_seen: Timestamp)
        ensures
            final(self).last_seen == last_seen,
            final(self).identity == old(self).identity,
            final(self).trust == old(self).trust,
            final(self).first_seen == old(self).first_seen,
    {
        self.last_seen = last_seen;
    }
}

impl Flags {
    pub open spec fn none_spec() -> Flags {
        Flags { uses_relay: false, is_machine_account: false, is_relay_server: false, prefers_async: false }
    }
}

} // verus!
