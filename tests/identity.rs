use sremp_core::error::CoreError;
use sremp_core::identity::{
    format_key, ContactIdentity, Identity, PublicKey, SecretKey, Timestamp, Trust, UserIdentity,
};
use sremp_core::version;

fn key(b: u8) -> PublicKey {
    PublicKey { bytes: [b; 32] }
}

#[test]
fn username_length_limits() {
    assert_eq!(Identity::validate_username(""), Err(CoreError::InvalidUsername));
    assert_eq!(Identity::validate_username("a"), Ok(()));
    assert_eq!(Identity::validate_username(&"x".repeat(40)), Ok(()));
    assert_eq!(Identity::validate_username(&"x".repeat(41)), Err(CoreError::InvalidUsername));
    // characters, not bytes, are counted
    assert_eq!(Identity::validate_username(&"é".repeat(40)), Ok(()));
}

#[test]
fn identity_build_fields() {
    let id = Identity::build("alice", key(3)).unwrap();
    assert_eq!(id.username(), "alice");
    assert_eq!(id.public_key, key(3));
    assert!(!id.flags.uses_relay && !id.flags.is_machine_account);
    assert!(id.extensions.is_none());
    assert_eq!(Identity::build("", key(3)), Err(CoreError::InvalidUsername));
}

#[test]
fn user_identity_load_derives_public_key() {
    let secret = SecretKey { bytes: [42u8; 32] };
    let created = Timestamp { secs: 1_700_000_000, nanos: 5 };
    let user = UserIdentity::load("bob", secret, created).unwrap();
    let expected = ed25519_dalek::SigningKey::from_bytes(&[42u8; 32]).verifying_key().to_bytes();
    assert_eq!(user.identity.public_key.bytes, expected);
    assert_ne!(user.identity.public_key.bytes, [42u8; 32]);
    assert_eq!(user.private_key(), &secret);
    assert_eq!(user.created, created);
    assert_eq!(
        UserIdentity::load(&"y".repeat(41), secret, created),
        Err(CoreError::InvalidUsername)
    );
}

#[test]
fn user_identity_build_fresh_keys() {
    let a = UserIdentity::build("carol").unwrap();
    let b = UserIdentity::build("carol").unwrap();
    assert_ne!(a.private_key, b.private_key);
    let expected = ed25519_dalek::SigningKey::from_bytes(&a.private_key.bytes).verifying_key().to_bytes();
    assert_eq!(a.identity.public_key.bytes, expected);
    assert!(UserIdentity::build("").is_err());
}

#[test]
fn contact_identity_records() {
    let t1 = Timestamp { secs: 10, nanos: 0 };
    let t2 = Timestamp { secs: 20, nanos: 1 };
    let mut c = ContactIdentity::build("dave", key(1), Trust::Trusted, t1, t1).unwrap();
    assert_eq!(c.trust, Trust::Trusted);
    c.set_last_seen(t2);
    assert_eq!(c.last_seen, t2);
    assert_eq!(c.first_seen, t1);
    let id = Identity::build("erin", key(2)).unwrap();
    let first = ContactIdentity::first_contact(id.clone(), t2);
    assert_eq!(first.identity, id);
    assert_eq!(first.trust, Trust::Unknown);
    assert_eq!(first.first_seen, t2);
    assert_eq!(first.last_seen, t2);
    assert!(ContactIdentity::build("", key(1), Trust::Unknown, t1, t1).is_err());
}

#[test]
fn format_key_hex() {
    let mut bytes = [0u8; 32];
    bytes[0] = 0xAB;
    bytes[1] = 0x01;
    bytes[31] = 0xF0;
    let s = format_key(&PublicKey { bytes });
    assert_eq!(s.len(), 64);
    assert!(s.starts_with("AB01"));
    assert!(s.ends_with("F0"));
    assert_eq!(format_key(&key(0)), "0".repeat(64));
}

#[test]
fn trust_names() {
    assert_eq!(Trust::Unknown.name(), "Unknown");
    assert_eq!(Trust::Trusted.name(), "Trusted");
    assert_eq!(Trust::Rejected.name(), "Rejected");
}

#[test]
fn version_names_library() {
    assert_eq!(version(), "sremp_core v0.1.0");
}
