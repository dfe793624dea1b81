//! The decisions of the network actor. The actor takes one command at a
//! time; each command yields a plan, and each plan ends in exactly one
//! event: at once, or through the one completion call that the plan names
//! once the caller has done the outside work (opening a stream, binding a
//! socket, writing a frame).
use vstd::prelude::*;
use vstd::string::StringExecFns;

use crate::addr::PeerAddr;
use crate::connection::Connection;
use crate::error::CoreError;
use crate::frame::Frame;
use crate::identity::{same_contact, same_identity, ContactIdentity, PublicKey, Timestamp, Trust, UserIdentity};
use crate::registry::{has_addr, unique_addrs, ActiveConnections, ConnectionData};

verus! {

/// Why a connection attempt to an address that is already connected fails.
pub const REASON_DUPLICATE: &'static str = "already connected to this peer";

/// Why a command that needs an open connection fails without one.
pub const REASON_NOT_CONNECTED: &'static str = "not connected to this peer";

/// Why a message is not sent when the peer at the address has another key.
pub const REASON_WRONG_KEY: &'static str = "the peer at this address has another public key";

/// A request to the network actor.
#[derive(Debug, Clone)]
pub enum NetworkCommand {
    Connect(PeerAddr),
    Disconnect(PeerAddr),
    SendMessage(PeerAddr, PublicKey, Vec<u8>),
    /// The address is the local one to listen on.
    StartListener(PeerAddr),
    StopListener,
    SetIdentity(UserIdentity),
}

/// What the network actor reports.
#[derive(Debug, Clone, PartialEq, Eq)]
pub enum NetworkEvent {
    ConnectionEstablished(PeerAddr, PublicKey),
    ConnectionLost(PeerAddr, PublicKey),
    IncomingMessage(PeerAddr, PublicKey, Vec<u8>),
    MessageSent(PeerAddr, PublicKey, Vec<u8>),
    ConnectionReset(PeerAddr),
    ConnectionFailed(PeerAddr, String),
    ListenerStarted(PeerAddr),
    ListenerStopped,
    /// The local user identity was set; it has this public key.
    IdentitySet(PublicKey),
}

/// What the caller does for a command.
pub enum Plan<S> {
    /// Nothing; the command's event is this one.
    Done(NetworkEvent),
    /// Open a stream to the address and run an initiator session over it,
    /// then hand the connection to `init_connection`, or the error to `failed`.
    Dial(PeerAddr),
    /// Bind a listener at the address, then report the bound address to
    /// `listener_started`, or the error to `failed`.
    Bind(PeerAddr),
    /// Write the frame to the stream of the peer at the address, then call
    /// `transmitted`, or `drop_connection` if the write failed.
    Transmit(PeerAddr, PublicKey, Frame, Vec<u8>),
    /// Shut down the stream of this connection, which left the registry;
    /// the event follows.
    Close(ConnectionData<S>, NetworkEvent),
}

/// A plan that ends at once in a failure for `addr`, for `reason`.
pub open spec fn fails_with<S>(p: Plan<S>, addr: PeerAddr, reason: Seq<char>) -> bool {
    match p {
        Plan::Done(NetworkEvent::ConnectionFailed(a, s)) => a == addr && s@ == reason,
        _ => false,
    }
}

/// An event that may end a command: it names the command's address, and
/// reports success or failure of what the command asked.
pub open spec fn answers(command: NetworkCommand, event: NetworkEvent) -> bool {
    match command {
        NetworkCommand::Connect(a) => match event {
            NetworkEvent::ConnectionEstablished(b, _) => b == a,
            NetworkEvent::ConnectionFailed(b, _) => b == a,
            _ => false,
        },
        NetworkCommand::Disconnect(a) => match event {
            NetworkEvent::ConnectionLost(b, _) => b == a,
            NetworkEvent::ConnectionFailed(b, _) => b == a,
            _ => false,
        },
        NetworkCommand::SendMessage(a, k, p) => match event {
            NetworkEvent::MessageSent(b, k2, p2) => b == a && k2 == k && p2@ == p@,
            NetworkEvent::ConnectionLost(b, _) => b == a,
            NetworkEvent::ConnectionFailed(b, _) => b == a,
            _ => false,
        },
        NetworkCommand::StartListener(a) => match event {
            NetworkEvent::ListenerStarted(_) => true,
            NetworkEvent::ConnectionFailed(b, _) => b == a,
            _ => false,
        },
        NetworkCommand::StopListener => event == NetworkEvent::ListenerStopped,
        NetworkCommand::SetIdentity(u) => event == NetworkEvent::IdentitySet(u.identity.public_key),
    }
}

/// A plan that is right for a command: its event answers the command, or the
/// outside work it names is the one the command asks for.
pub open spec fn plan_answers<S>(command: NetworkCommand, plan: Plan<S>) -> bool {
    match plan {
        Plan::Done(e) => answers(command, e),
        Plan::Close(_, e) => answers(command, e),
        Plan::Dial(a) => command == NetworkCommand::Connect(a),
        Plan::Bind(a) => command == NetworkCommand::StartListener(a),
        Plan::Transmit(a, k, _, p) => command matches NetworkCommand::SendMessage(b, k2, p2) && a == b
            && k == k2 && p@ == p2@,
    }
}

/// The listener after a command was decided on: stopping unbinds it, and
/// starting binds it only once the caller reports the bound address.
pub open spec fn listener_after(command: NetworkCommand, before: Option<PeerAddr>) -> Option<PeerAddr> {
    match command {
        NetworkCommand::StopListener => None,
        _ => before,
    }
}

/// The plan of a listener command.
pub open spec fn listener_plan<S>(command: NetworkCommand) -> Option<Plan<S>> {
    match command {
        NetworkCommand::StartListener(a) => Some(Plan::Bind(a)),
        NetworkCommand::StopListener => Some(Plan::Done(NetworkEvent::ListenerStopped)),
        _ => None,
    }
}

/// Listener lifecycle: starting on an idle actor asks the caller to bind and
/// leaves the actor idle until the bound address is reported, which makes it
/// listen there with a `ListenerStarted` event for that address; stopping
/// makes the actor idle with a `ListenerStopped` event, whether it was
/// listening or already idle.
pub proof fn lemma_listener_lifecycle<S>(addr: PeerAddr, bound: PeerAddr, before: Option<PeerAddr>)
    ensures
        listener_plan::<S>(NetworkCommand::StartListener(addr)) == Some(Plan::<S>::Bind(addr)),
        listener_after(NetworkCommand::StartListener(addr), None) is None,
        answers(NetworkCommand::StartListener(addr), NetworkEvent::ListenerStarted(bound)),
        listener_plan::<S>(NetworkCommand::StopListener) == Some(Plan::<S>::Done(NetworkEvent::ListenerStopped)),
        listener_after(NetworkCommand::StopListener, before) is None,
        answers(NetworkCommand::StopListener, NetworkEvent::ListenerStopped),
{
}

/// Each event names the command it answers: commands that an event answers
/// share their address, or are both `StopListener`, or both set the
/// identity with the same key.
pub proof fn lemma_event_names_command(c1: NetworkCommand, c2: NetworkCommand, event: NetworkEvent)
    requires
        answers(c1, event),
        answers(c2, event),
        !(c1 is StartListener && c2 is StartListener),
    ensures
        command_addr(c1) == command_addr(c2),
        c1 is StopListener <==> c2 is StopListener,
        c1 is SetIdentity <==> c2 is SetIdentity,
{
}

/// The address a command is about, if any.
pub open spec fn command_addr(command: NetworkCommand) -> Option<PeerAddr> {
    match command {
        NetworkCommand::Connect(a) => Some(a),
        NetworkCommand::Disconnect(a) => Some(a),
        NetworkCommand::SendMessage(a, _, _) => Some(a),
        NetworkCommand::StartListener(a) => Some(a),
        _ => None,
    }
}

/// The state of the network actor: the open connections, the local user
/// identity and the address of the listener, if one is bound. The sockets
/// themselves stay with the caller.
pub struct NetworkDomain<S> {
    active_connections: ActiveConnections<S>,
    known_contacts: Vec<ContactIdentity>,
    user_identity: Option<UserIdentity>,
    listener: Option<PeerAddr>,
}

/// Whether a contact list has a record for `key`.
pub open spec fn has_contact(cs: Seq<ContactIdentity>, key: Seq<u8>) -> bool {
    exists|i: int| 0 <= i < cs.len() && #[trigger] cs[i].identity.public_key@ == key
}

/// A contact list whose `i`-th record was seen again at `seen`.
pub open spec fn refresh_at(cs: Seq<ContactIdentity>, i: int, seen: Timestamp) -> Seq<ContactIdentity> {
    cs.update(i, ContactIdentity { last_seen: seen, ..cs[i] })
}

/// A string holding `s`.
fn owned(s: &str) -> (r: String)
    ensures
        r@ == s@,
{
    String::from_str(s)
}

impl<S> NetworkDomain<S> {
    /// The open connections, as the registry sees them.
    pub closed spec fn connections(&self) -> Seq<(PeerAddr, Seq<u8>)> {
        self.active_connections.view()
    }

    /// The peers with whom a session was established, in order of first
    /// contact.
    pub closed spec fn contacts(&self) -> Seq<ContactIdentity> {
        self.known_contacts@
    }

    /// The contact records held with the open connections, in the order of
    /// `connections`.
    pub closed spec fn entry_records(&self) -> Seq<ContactIdentity> {
        self.active_connections.records()
    }

    /// A well-formed actor holds at most one connection per address.
    pub proof fn lemma_unique_addresses(&self)
        requires
            self.wf(),
        ensures
            unique_addrs(self.connections()),
            self.entry_records().len() == self.connections().len(),
    {
    }

    /// The local user identity, if one is set.
    pub closed spec fn identity(&self) -> Option<UserIdentity> {
        self.user_identity
    }

    /// The address the listener is bound to, if one is.
    pub closed spec fn listening(&self) -> Option<PeerAddr> {
        self.listener
    }

    pub closed spec fn wf(&self) -> bool {
        self.active_connections.wf()
    }

    /// An idle actor: no connection, no identity, no listener.
    pub fn new() -> (r: NetworkDomain<S>)
        ensures
            r.wf(),
            r.connections() == Seq::<(PeerAddr, Seq<u8>)>::empty(),
            r.contacts() == Seq::<ContactIdentity>::empty(),
            r.identity() is None,
            r.listening() is None,
    {
        NetworkDomain {
            active_connections: ActiveConnections::new(),
            known_contacts: Vec::new(),
            user_identity: None,
            listener: None,
        }
    }

    /// The local user identity, if one is set.
    pub fn user_identity(&self) -> (r: Option<&UserIdentity>)
        ensures
            r is Some == self.identity() is Some,
            r matches Some(u) ==> self.identity() == Some(*u),
    {
        match &self.user_identity {
            Some(u) => Some(u),
            None => None,
        }
    }

    /// Whether a listener is bound.
    pub fn is_listening(&self) -> (r: bool)
        ensures
            r == self.listening() is Some,
    {
        self.listener.is_some()
    }

    /// The open connections.
    pub fn connections_ref(&self) -> (r: &ActiveConnections<S>)
        ensures
            r.view() == self.connections(),
            r.records() == self.entry_records(),
            self.wf() ==> r.wf(),
    {
        &self.active_connections
    }

    /// Decides what a command takes. Starting a listener while one is bound
    /// is a misuse the caller must rule out.
    pub fn process_network_command(&mut self, command: NetworkCommand) -> (r: Plan<S>)
        requires
            old(self).wf(),
            command is StartListener ==> old(self).listening() is None,
        ensures
            final(self).wf(),
            final(self).contacts() == old(self).contacts(),
            plan_answers(command, r),
            final(self).listening() == listener_after(command, old(self).listening()),
            listener_plan::<S>(command) matches Some(p) ==> r == p,
            match command {
                NetworkCommand::Connect(a) => {
                    &&& final(self).connections() == old(self).connections()
                    &&& final(self).identity() == old(self).identity()
                    &&& final(self).listening() == old(self).listening()
                    &&& old(self).identity() is None ==> fails_with(r, a, CoreError::NoUserIdentity.reason_text()@)
                    &&& old(self).identity() is Some && has_addr(old(self).connections(), a)
                        ==> fails_with(r, a, REASON_DUPLICATE@)
                    &&& old(self).identity() is Some && !has_addr(old(self).connections(), a)
                        ==> r == Plan::<S>::Dial(a)
                },
                NetworkCommand::Disconnect(a) => {
                    &&& final(self).identity() == old(self).identity()
                    &&& final(self).listening() == old(self).listening()
                    &&& !has_addr(final(self).connections(), a)
                    &&& !has_addr(old(self).connections(), a) ==> fails_with(r, a, REASON_NOT_CONNECTED@)
                        && final(self).connections() == old(self).connections()
                    &&& has_addr(old(self).connections(), a) ==> (r matches Plan::Close(e, NetworkEvent::ConnectionLost(b, k))
                        && e.addr == a && b == a && k == e.iden.identity.public_key
                        && exists|i: int| 0 <= i < old(self).connections().len()
                            && old(self).connections()[i] == (a, k@)
                            && final(self).connections() == #[trigger] old(self).connections().remove(i))
                },
                NetworkCommand::SendMessage(a, k, p) => {
                    &&& final(self).connections() == old(self).connections()
                    &&& final(self).identity() == old(self).identity()
                    &&& final(self).listening() == old(self).listening()
                    &&& !has_addr(old(self).connections(), a) ==> fails_with(r, a, REASON_NOT_CONNECTED@)
                    &&& (has_addr(old(self).connections(), a) && !(exists|i: int| 0 <= i < old(self).connections().len()
                        && #[trigger] old(self).connections()[i] == (a, k@))) ==> fails_with(r, a, REASON_WRONG_KEY@)
                    &&& (exists|i: int| 0 <= i < old(self).connections().len()
                        && #[trigger] old(self).connections()[i] == (a, k@)) ==> (r matches Plan::Transmit(b, k2, _, p2)
                        && b == a && k2 == k && p2@ == p@) || (r matches Plan::Done(NetworkEvent::ConnectionFailed(b, s))
                        && b == a && exists|e: CoreError| e is Noise && s@ == #[trigger] e.reason_text()@)
                },
                NetworkCommand::StartListener(a) => {
                    &&& r == Plan::<S>::Bind(a)
                    &&& final(self).connections() == old(self).connections()
                    &&& final(self).identity() == old(self).identity()
                    &&& final(self).listening() == old(self).listening()
                },
                NetworkCommand::StopListener => {
                    &&& r == Plan::<S>::Done(NetworkEvent::ListenerStopped)
                    &&& final(self).connections() == old(self).connections()
                    &&& final(self).identity() == old(self).identity()
                    &&& final(self).listening() is None
                },
                NetworkCommand::SetIdentity(u) => {
                    &&& r == Plan::<S>::Done(NetworkEvent::IdentitySet(u.identity.public_key))
                    &&& final(self).connections() == old(self).connections()
                    &&& final(self).identity() == Some(u)
                    &&& final(self).listening() == old(self).listening()
                },
            },
    {
        match command {
            NetworkCommand::Connect(remote) => {
                if self.user_identity.is_none() {
                    return Plan::Done(self.failed(remote, &CoreError::NoUserIdentity));
                }
                if self.active_connections.contains(&remote) {
                    return Plan::Done(NetworkEvent::ConnectionFailed(remote, owned(REASON_DUPLICATE)));
                }
                Plan::Dial(remote)
            },
            NetworkCommand::Disconnect(remote) => self.drop_connection(remote),
            NetworkCommand::SendMessage(remote, key, payload) => {
                match self.active_connections.key_at(&remote) {
                    None => {
                        proof {
                            let v = self.active_connections.view();
                            assert forall|i: int| 0 <= i < v.len() implies #[trigger] v[i] != (remote, key@) by {
                                if v[i] == (remote, key@) {
                                    assert(v[i].0 == remote);
                                }
                            }
                        }
                        Plan::Done(NetworkEvent::ConnectionFailed(remote, owned(REASON_NOT_CONNECTED)))
                    },
                    Some(k) => {
                        if !k.same_as(&key) {
                            proof {
                                let v = self.connections();
                                if exists|i: int| 0 <= i < v.len() && #[trigger] v[i] == (remote, key@) {
                                    let i = choose|i: int| 0 <= i < v.len() && #[trigger] v[i] == (remote, key@);
                                    let j = choose|j: int| 0 <= j < v.len() && #[trigger] v[j] == (remote, k@);
                                    assert(v[i].0 == v[j].0);
                                }
                            }
                            return Plan::Done(NetworkEvent::ConnectionFailed(remote, owned(REASON_WRONG_KEY)));
                        }
                        proof {
                            let v = self.active_connections.view();
                            let j = choose|j: int| 0 <= j < v.len() && #[trigger] v[j] == (remote, k@);
                            assert(v[j].0 == remote);
                        }
                        match self.active_connections.encrypt_for(&remote, payload.as_slice()) {
                            Some(Ok(frame)) => Plan::Transmit(remote, key, frame, payload),
                            Some(Err(e)) => {
                                let reason = owned(e.reason());
                                assert(exists|e2: CoreError| e2 is Noise && reason@ == #[trigger] e2.reason_text()@);
                                Plan::Done(NetworkEvent::ConnectionFailed(remote, reason))
                            },
                            None => {
                                Plan::Done(NetworkEvent::ConnectionFailed(remote, owned(REASON_NOT_CONNECTED)))
                            },
                        }
                    },
                }
            },
            NetworkCommand::StartListener(local) => Plan::Bind(local),
            NetworkCommand::StopListener => {
                self.listener = None;
                Plan::Done(NetworkEvent::ListenerStopped)
            },
            NetworkCommand::SetIdentity(user) => {
                let key = user.identity.public_key;
                self.user_identity = Some(user);
                Plan::Done(NetworkEvent::IdentitySet(key))
            },
        }
    }

    /// The event of an attempt at `addr` that failed with `error`.
    pub fn failed(&self, addr: PeerAddr, error: &CoreError) -> (r: NetworkEvent)
        ensures
            r matches NetworkEvent::ConnectionFailed(a, s) && a == addr && s@ == error.reason_text()@,
            answers(NetworkCommand::Connect(addr), r),
            answers(NetworkCommand::StartListener(addr), r),
    {
        NetworkEvent::ConnectionFailed(addr, owned(error.reason()))
    }

    /// Takes the connection to `addr` out of the registry, to be shut down;
    /// its peer is then lost.
    pub fn drop_connection(&mut self, addr: PeerAddr) -> (r: Plan<S>)
        requires
            old(self).wf(),
        ensures
            final(self).wf(),
            final(self).contacts() == old(self).contacts(),
            final(self).identity() == old(self).identity(),
            final(self).listening() == old(self).listening(),
            !has_addr(final(self).connections(), addr),
            plan_answers(NetworkCommand::Disconnect(addr), r),
            !has_addr(old(self).connections(), addr) ==> fails_with(r, addr, REASON_NOT_CONNECTED@)
                && final(self).connections() == old(self).connections(),
            has_addr(old(self).connections(), addr) ==> (r matches Plan::Close(e, NetworkEvent::ConnectionLost(b, k))
                && e.addr == addr && b == addr && k == e.iden.identity.public_key
                && exists|i: int| 0 <= i < old(self).connections().len()
                    && old(self).connections()[i] == (addr, k@)
                    && final(self).connections() == #[trigger] old(self).connections().remove(i)),
    {
        match self.active_connections.remove(&addr) {
            None => Plan::Done(NetworkEvent::ConnectionFailed(addr, owned(REASON_NOT_CONNECTED))),
            Some(e) => {
                let key = e.iden.identity.public_key;
                Plan::Close(e, NetworkEvent::ConnectionLost(addr, key))
            },
        }
    }

    /// The position of the record of the peer with `key`.
    fn contact_position(&self, key: &PublicKey) -> (r: Option<usize>)
        ensures
            r is None <==> !has_contact(self.contacts(), key@),
            r matches Some(i) ==> i < self.contacts().len() && self.contacts()[i as int].identity.public_key@ == key@,
    {
        let mut i: usize = 0;
        while i < self.known_contacts.len()
            invariant
                i <= self.known_contacts@.len(),
                forall|j: int| 0 <= j < i ==> #[trigger] self.known_contacts@[j].identity.public_key@ != key@,
            decreases self.known_contacts@.len() - i,
        {
            if self.known_contacts[i].identity.public_key.same_as(key) {
                return Some(i);
            }
            i = i + 1;
        }
        None
    }

    /// The record of the peer with `key`, if a session with it was ever
    /// established.
    pub fn contact_for(&self, key: &PublicKey) -> (r: Option<&ContactIdentity>)
        ensures
            r is None <==> !has_contact(self.contacts(), key@),
            r matches Some(c) ==> exists|i: int| 0 <= i < self.contacts().len() && #[trigger] self.contacts()[i] == *c
                && c.identity.public_key@ == key@,
    {
        match self.contact_position(key) {
            None => None,
            Some(i) => {
                let c = &self.known_contacts[i];
                assert(self.contacts()[i as int] == *c);
                Some(c)
            },
        }
    }

    /// Takes a connection whose session with the peer at `addr` is
    /// established into the registry. If `addr` already has one, that one
    /// stays and the new one comes back, to be shut down. Otherwise the
    /// peer's contact record is refreshed to `seen`, or made if the peer is
    /// new, with unknown trust and first seen at `seen`.
    pub fn init_connection(&mut self, addr: PeerAddr, conn: Connection<S>, seen: Timestamp) -> (r: (NetworkEvent, Option<Connection<S>>))
        requires
            old(self).wf(),
            conn.connected(),
        ensures
            final(self).wf(),
            final(self).identity() == old(self).identity(),
            final(self).listening() == old(self).listening(),
            answers(NetworkCommand::Connect(addr), r.0),
            has_addr(old(self).connections(), addr) ==> {
                &&& r.0 matches NetworkEvent::ConnectionFailed(a, s) && a == addr && s@ == REASON_DUPLICATE@
                &&& r.1 == Some(conn)
                &&& final(self).connections() == old(self).connections()
                &&& final(self).contacts() == old(self).contacts()
                &&& final(self).entry_records() == old(self).entry_records()
            },
            !has_addr(old(self).connections(), addr) ==> {
                &&& r.0 == NetworkEvent::ConnectionEstablished(addr, conn.peer().public_key)
                &&& r.1 is None
                &&& final(self).connections() == old(self).connections().push((addr, conn.peer().public_key@))
                &&& final(self).entry_records().len() == old(self).entry_records().len() + 1
                &&& final(self).entry_records().drop_last() == old(self).entry_records()
                &&& has_contact(old(self).contacts(), conn.peer().public_key@) ==> exists|i: int|
                    0 <= i < old(self).contacts().len()
                    && old(self).contacts()[i].identity.public_key@ == conn.peer().public_key@
                    && final(self).contacts() == #[trigger] refresh_at(old(self).contacts(), i, seen)
                    && same_contact(final(self).entry_records().last(), final(self).contacts()[i])
                &&& !has_contact(old(self).contacts(), conn.peer().public_key@) ==> {
                    &&& final(self).contacts().len() == old(self).contacts().len() + 1
                    &&& final(self).contacts().drop_last() == old(self).contacts()
                    &&& same_identity(final(self).contacts().last().identity, conn.peer())
                    &&& same_contact(final(self).entry_records().last(), final(self).contacts().last())
                    &&& final(self).contacts().last().trust == Trust::Unknown
                    &&& final(self).contacts().last().first_seen == seen
                    &&& final(self).contacts().last().last_seen == seen
                }
            },
    {
        if self.active_connections.contains(&addr) {
            return (NetworkEvent::ConnectionFailed(addr, owned(REASON_DUPLICATE)), Some(conn));
        }
        let key = conn.peer_identity().public_key;
        let ghost old_contacts = self.known_contacts@;
        let iden = match self.contact_position(&key) {
            Some(i) => {
                let ghost before = self.known_contacts@;
                let mut c = self.known_contacts.remove(i);
                c.set_last_seen(seen);
                let copy = c.duplicate();
                self.known_contacts.insert(i, c);
                assert(self.known_contacts@ =~= refresh_at(before, i as int, seen));
                copy
            },
            None => {
                let ghost before = self.known_contacts@;
                let c = ContactIdentity::first_contact(conn.peer_identity().duplicate(), seen);
                let copy = c.duplicate();
                self.known_contacts.push(c);
                assert(self.known_contacts@.drop_last() =~= before);
                copy
            },
        };
        assert(has_contact(old_contacts, key@) ==> exists|i: int|
            0 <= i < old_contacts.len() && old_contacts[i].identity.public_key@ == key@
                && self.known_contacts@ == #[trigger] refresh_at(old_contacts, i, seen)
                && same_contact(iden, self.known_contacts@[i]));
        let entry = ConnectionData { addr, conn, iden };
        match self.active_connections.insert(entry) {
            Ok(()) => (NetworkEvent::ConnectionEstablished(addr, key), None),
            Err(e) => (NetworkEvent::ConnectionFailed(addr, owned(REASON_DUPLICATE)), Some(e.conn)),
        }
    }

    /// Records the listener bound at `bound`.
    pub fn listener_started(&mut self, bound: PeerAddr) -> (r: NetworkEvent)
        requires
            old(self).wf(),
        ensures
            final(self).wf(),
            r == NetworkEvent::ListenerStarted(bound),
            forall|a: PeerAddr| answers(NetworkCommand::StartListener(a), r),
            final(self).listening() == Some(bound),
            final(self).contacts() == old(self).contacts(),
            final(self).connections() == old(self).connections(),
            final(self).identity() == old(self).identity(),
    {
        self.listener = Some(bound);
        NetworkEvent::ListenerStarted(bound)
    }

    /// The event of a message written to the stream of the peer at `addr`.
    pub fn transmitted(&self, addr: PeerAddr, key: PublicKey, payload: Vec<u8>) -> (r: NetworkEvent)
        ensures
            r matches NetworkEvent::MessageSent(a, k, p) && a == addr && k == key && p@ == payload@,
            answers(NetworkCommand::SendMessage(addr, key, payload), r),
    {
        NetworkEvent::MessageSent(addr, key, payload)
    }
}

} // verus!
