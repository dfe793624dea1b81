//! The calls into the Noise protocol implementation and into Ed25519 key
//! conversion that sessions make.
use vstd::prelude::*;

use crate::identity::{PublicKey, SecretKey};

verus! {

#[verifier::external_type_specification]
#[verifier::external_body]
pub struct ExHandshakeState(snow::HandshakeState);

#[verifier::external_type_specification]
#[verifier::external_body]
pub struct ExTransportState(snow::TransportState);

#[verifier::external_type_specification]
#[verifier::external_body]
pub struct ExNoiseError(snow::Error);

/// The X25519 secret key that belongs to an Ed25519 secret key.
pub uninterp spec fn x25519_secret_of(ed25519_secret: Seq<u8>) -> Seq<u8>;

/// The X25519 public key that belongs to an Ed25519 public key; `None` where
/// the bytes are no valid Ed25519 key.
pub uninterp spec fn x25519_public_of(ed25519_public: Seq<u8>) -> Option<Seq<u8>>;

/// Relies on `ed25519_dalek::SigningKey::from_bytes` and
/// `SigningKey::to_scalar_bytes`: the X25519 secret of a signing key, a
/// function of the key alone.
#[verifier::external_body]
pub(crate) fn dh_secret_of(secret: &SecretKey) -> (r: [u8; 32])
    ensures
        r@ == x25519_secret_of(secret@),
{
    ed25519_dalek::SigningKey::from_bytes(&secret.bytes).to_scalar_bytes()
}

/// Relies on `ed25519_dalek::VerifyingKey::from_bytes`, which rejects bytes
/// that are no valid key, and `VerifyingKey::to_montgomery`, which gives the
/// X25519 public key of the holder of the matching signing key.
#[verifier::external_body]
pub(crate) fn dh_public_of(key: &PublicKey) -> (r: Option<[u8; 32]>)
    ensures
        r is Some == x25519_public_of(key@) is Some,
        r matches Some(m) ==> x25519_public_of(key@) == Some(m@),
{
    ed25519_dalek::VerifyingKey::from_bytes(&key.bytes).ok().map(|k| k.to_montgomery().to_bytes())
}

/// Relies on parsing `snow::params::NoiseParams` from its name, then
/// `snow::Builder::new`, `Builder::local_private_key` and
/// `Builder::build_initiator`: a handshake state for the party that sends the
/// first message, with `local_private_key` as static key.
#[verifier::external_body]
pub(crate) fn noise_initiator(params: &str, local_private_key: &[u8; 32]) -> (r: Result<
    snow::HandshakeState,
    snow::Error,
>) {
    let params: snow::params::NoiseParams = params.parse()?;
    snow::Builder::new(params).local_private_key(local_private_key)?.build_initiator()
}

/// Relies on parsing `snow::params::NoiseParams` from its name, then
/// `snow::Builder::new`, `Builder::local_private_key` and
/// `Builder::build_responder`: a handshake state for the party that receives
/// the first message, with `local_private_key` as static key.
#[verifier::external_body]
pub(crate) fn noise_responder(params: &str, local_private_key: &[u8; 32]) -> (r: Result<
    snow::HandshakeState,
    snow::Error,
>) {
    let params: snow::params::NoiseParams = params.parse()?;
    snow::Builder::new(params).local_private_key(local_private_key)?.build_responder()
}

/// Relies on `snow::HandshakeState::write_message` with an empty payload:
/// the next handshake message, written into a buffer of the Noise maximum
/// message length of 65535 bytes.
#[verifier::external_body]
pub(crate) fn handshake_write(state: &mut snow::HandshakeState) -> (r: Result<Vec<u8>, snow::Error>)
    ensures
        r matches Ok(m) ==> m@.len() <= 65535,
{
    let mut buf = vec![0u8; 65535];
    let len = state.write_message(&[], &mut buf)?;
    buf.truncate(len);
    Ok(buf)
}

/// Relies on `snow::HandshakeState::read_message`: takes in the peer's next
/// handshake message; its payload is not used.
#[verifier::external_body]
pub(crate) fn handshake_read(state: &mut snow::HandshakeState, message: &[u8]) -> (r: Result<
    (),
    snow::Error,
>) {
    let mut buf = vec![0u8; 65535];
    state.read_message(message, &mut buf)?;
    Ok(())
}

/// Relies on `snow::HandshakeState::get_remote_static`: the static public
/// key the peer revealed during the handshake, if any.
#[verifier::external_body]
pub(crate) fn handshake_remote_static(state: &snow::HandshakeState) -> (r: Option<Vec<u8>>) {
    state.get_remote_static().map(|k| k.to_vec())
}

/// Relies on `snow::HandshakeState::into_transport_mode`: the transport
/// cipher state of a finished handshake.
#[verifier::external_body]
pub(crate) fn handshake_into_transport(state: snow::HandshakeState) -> (r: Result<
    snow::TransportState,
    snow::Error,
>) {
    state.into_transport_mode()
}

/// Relies on `snow::TransportState::write_message`: encrypts `payload` into
/// the ciphertext and a 16-byte tag, which fails where the two exceed 65535
/// bytes.
#[verifier::external_body]
pub(crate) fn transport_write(state: &mut snow::TransportState, payload: &[u8]) -> (r: Result<
    Vec<u8>,
    snow::Error,
>)
    ensures
        payload@.len() + 16 > 65535 ==> r is Err,
        r matches Ok(m) ==> m@.len() == payload@.len() + 16,
{
    let mut buf = vec![0u8; 65535];
    let len = state.write_message(payload, &mut buf)?;
    buf.truncate(len);
    Ok(buf)
}

/// Relies on `snow::TransportState::read_message`: decrypts and
/// authenticates `message`.
#[verifier::external_body]
pub(crate) fn transport_read(state: &mut snow::TransportState, message: &[u8]) -> (r: Result<
    Vec<u8>,
    snow::Error,
>)
    ensures
        r matches Ok(p) ==> p@.len() <= 65535,
{
    let mut buf = vec![0u8; 65535];
    let len = state.read_message(message, &mut buf)?;
    buf.truncate(len);
    Ok(buf)
}

} // verus!
