use vstd::prelude::*;

use crate::addr::PeerAddr;

verus! {

/// Errors raised by the session layer.
#[derive(Debug, PartialEq)]
pub enum CoreError {
    /// An operation needed the local user identity, but none is set.
    NoUserIdentity,
    /// A frame payload longer than the maximum was given or announced.
    FrameTooLarge(usize),
    /// A frame length does not fit in two bytes.
    FrameLengthOverU16(usize),
    /// The Noise protocol implementation reported an error.
    Noise(snow::Error),
    /// The peer revealed no static key during the handshake.
    NoisePeerHasNoPublicKey(PeerAddr),
    /// The static key the peer revealed has the wrong length.
    PeerKeyIsMalformed(PeerAddr),
    /// The identity the peer claims is not bound to the key it proved
    /// during the handshake.
    PeerKeyIsInvalid { remote: PeerAddr },
    /// A transport I/O operation failed.
    Io,
    /// The peer's identity payload could not be decoded.
    MalformedIdentity,
    /// The connection was disconnected.
    Disconnected,
    /// A username is empty or longer than 40 characters.
    InvalidUsername,
}

impl CoreError {
    /// A short description, for display.
    pub open spec fn reason_text(&self) -> &'static str {
        match self {
            CoreError::NoUserIdentity => "no user identity currently exists",
            CoreError::FrameTooLarge(_) => "frame payload exceeds the maximum frame size",
            CoreError::FrameLengthOverU16(_) => "frame length does not fit in two bytes",
            CoreError::Noise(_) => "noise protocol error",
            CoreError::NoisePeerHasNoPublicKey(_) => "the peer revealed no static key during the handshake",
            CoreError::PeerKeyIsMalformed(_) => "the static key of the peer is malformed",
            CoreError::PeerKeyIsInvalid { .. } => "the public key of the peer is invalid",
            CoreError::Io => "transport i/o error",
            CoreError::MalformedIdentity => "the identity of the peer could not be decoded",
            CoreError::Disconnected => "the connection was disconnected",
            CoreError::InvalidUsername => "the username must have between 1 and 40 characters",
        }
    }

    /// A short description, for display.
    pub fn reason(&self) -> (r: &'static str)
        ensures
            r == self.reason_text(),
    {
        match self {
            CoreError::NoUserIdentity => "no user identity currently exists",
            CoreError::FrameTooLarge(_) => "frame payload exceeds the maximum frame size",
            CoreError::FrameLengthOverU16(_) => "frame length does not fit in two bytes",
            CoreError::Noise(_) => "noise protocol error",
            CoreError::NoisePeerHasNoPublicKey(_) => "the peer revealed no static key during the handshake",
            CoreError::PeerKeyIsMalformed(_) => "the static key of the peer is malformed",
            CoreError::PeerKeyIsInvalid { .. } => "the public key of the peer is invalid",
            CoreError::Io => "transport i/o error",
            CoreError::MalformedIdentity => "the identity of the peer could not be decoded",
            CoreError::Disconnected => "the connection was disconnected",
            CoreError::InvalidUsername => "the username must have between 1 and 40 characters",
        }
    }
}

/// Errors raised while loading stored application data.
#[derive(Debug, PartialEq, Eq)]
pub enum LoadError {
    Placeholder,
}

} // verus!
