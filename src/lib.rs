//! Secure-session layer of a peer-to-peer messaging client: frame codec,
//! Noise handshake with identity binding, connection registry and the
//! decision logic of the network actor.

pub mod error;
pub mod frame;
pub mod identity;
pub mod addr;
pub mod noise;
pub mod session;
pub mod connection;
pub mod registry;
pub mod domain;
pub mod messages;
pub mod chat;

use vstd::prelude::*;
use vstd::string::StringExecFns;

verus! {

/// The name and version of this library.
pub const VERSION_TEXT: &'static str = "sremp_core v0.1.0";

/// The name and version of this library.
pub fn version() -> (r: String)
    ensures
        r@ == VERSION_TEXT@,
{
    String::from_str(VERSION_TEXT)
}

} // verus!
