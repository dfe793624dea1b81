//! An established session with a peer: the stream, the transport cipher and
//! the peer's verified identity.
use vstd::prelude::*;

use crate::error::CoreError;
use crate::frame::Frame;
use crate::identity::Identity;
use crate::noise::{transport_read, transport_write};
use crate::session::{Session, Step};

verus! {

/// A connection over a direct stream to the peer.
pub struct P2PConnection<S> {
    stream: S,
    peer_identity: Identity,
    transport: snow::TransportState,
    connected: bool,
}

/// A connection to a peer, by the way it reaches the peer. Direct streams
/// are the one way today; a relayed one would be a further variant.
pub enum Connection<S> {
    P2P(P2PConnection<S>),
}

impl<S> Connection<S> {
    /// The peer's verified identity.
    pub open spec fn peer(&self) -> Identity {
        match self {
            Connection::P2P(c) => c.peer(),
        }
    }

    /// Whether the connection was not yet disconnected.
    pub open spec fn connected(&self) -> bool {
        match self {
            Connection::P2P(c) => c.connected(),
        }
    }

    /// The stream to the peer.
    pub open spec fn link(&self) -> S {
        match self {
            Connection::P2P(c) => c.link(),
        }
    }

    /// The connection of an established session over `stream`.
    pub fn establish(stream: S, session: Session) -> (r: Connection<S>)
        requires
            session.wf(),
            session.step() == Step::Done,
        ensures
            session.peer_identity() == Some(r.peer()),
            r.connected(),
            r.link() == stream,
    {
        let (peer_identity, transport) = session.into_parts();
        Connection::P2P(P2PConnection { stream, peer_identity, transport, connected: true })
    }

    /// The peer's verified identity.
    pub fn peer_identity(&self) -> (r: &Identity)
        ensures
            *r == self.peer(),
    {
        match self {
            Connection::P2P(c) => &c.peer_identity,
        }
    }

    /// Whether the connection was not yet disconnected.
    pub fn is_connected(&self) -> (r: bool)
        ensures
            r == self.connected(),
    {
        match self {
            Connection::P2P(c) => c.connected,
        }
    }

    /// Marks the connection disconnected. Returns whether the stream must be
    /// shut down now: only on the first call, so disconnecting twice does
    /// nothing the second time.
    pub fn disconnect(&mut self) -> (r: bool)
        ensures
            r == old(self).connected(),
            !final(self).connected(),
            final(self).peer() == old(self).peer(),
            final(self).link() == old(self).link(),
    {
        match self {
            Connection::P2P(c) => {
                let was = c.connected;
                c.connected = false;
                was
            },
        }
    }

    /// Encrypts `payload` as a frame to send.
    pub fn send_message(&mut self, payload: &[u8]) -> (r: Result<Frame, CoreError>)
        ensures
            final(self).peer() == old(self).peer(),
            final(self).connected() == old(self).connected(),
            final(self).link() == old(self).link(),
            !old(self).connected() ==> r == Err::<Frame, CoreError>(CoreError::Disconnected),
            old(self).connected() && payload@.len() + 16 > 65535 ==> r matches Err(
                CoreError::Noise(_),
            ),
            old(self).connected() ==> (r matches Err(e) ==> e is Noise),
            r matches Ok(f) ==> f.payload().len() == payload@.len() + 16,
    {
        match self {
            Connection::P2P(c) => {
                if !c.connected {
                    return Err(CoreError::Disconnected);
                }
                match transport_write(&mut c.transport, payload) {
                    Ok(m) => Frame::raw(m.as_slice()),
                    Err(e) => Err(CoreError::Noise(e)),
                }
            },
        }
    }

    /// Decrypts a received frame.
    pub fn receive_message(&mut self, frame: &Frame) -> (r: Result<Vec<u8>, CoreError>)
        ensures
            final(self).peer() == old(self).peer(),
            final(self).connected() == old(self).connected(),
            final(self).link() == old(self).link(),
            !old(self).connected() ==> r == Err::<Vec<u8>, CoreError>(CoreError::Disconnected),
            old(self).connected() ==> (r matches Err(e) ==> e is Noise),
    {
        match self {
            Connection::P2P(c) => {
                if !c.connected {
                    return Err(CoreError::Disconnected);
                }
                match transport_read(&mut c.transport, frame.data()) {
                    Ok(p) => Ok(p),
                    Err(e) => Err(CoreError::Noise(e)),
                }
            },
        }
    }

    /// The stream, for the caller to carry frames over.
    pub fn stream(&self) -> (r: &S)
        ensures
            *r == self.link(),
    {
        match self {
            Connection::P2P(c) => &c.stream,
        }
    }
}

impl<S> P2PConnection<S> {
    pub closed spec fn peer(&self) -> Identity {
        self.peer_identity
    }

    pub closed spec fn connected(&self) -> bool {
        self.connected
    }

    pub closed spec fn link(&self) -> S {
        self.stream
    }
}

} // verus!
