//! A conversation with one contact: its messages in order of arrival time.
use vstd::prelude::*;

use crate::addr::PeerAddr;
use crate::domain::NetworkDomain;
use crate::identity::{ContactIdentity, Timestamp};
use crate::messages::Message;
use crate::registry::lookup_key;

verus! {

/// `a` is not later than `b`.
pub open spec fn not_later(a: Timestamp, b: Timestamp) -> bool {
    a.secs < b.secs || (a.secs == b.secs && a.nanos <= b.nanos)
}

/// Messages in order of arrival time.
pub open spec fn in_time_order(msgs: Seq<Message>) -> bool {
    forall|i: int, j: int|
        0 <= i < j < msgs.len() ==> not_later(#[trigger] msgs[i].meta.time_received, #[trigger] msgs[j].meta.time_received)
}

impl Timestamp {
    /// Whether `self` is later than `other`.
    pub fn is_later_than(&self, other: &Timestamp) -> (r: bool)
        ensures
            r == !not_later(*self, *other),
    {
        self.secs > other.secs || (self.secs == other.secs && self.nanos > other.nanos)
    }
}

/// The messages exchanged with one contact, always in order of arrival
/// time.
#[derive(Debug, PartialEq, Eq)]
pub struct Chat {
    messages: Vec<Message>,
    contact: ContactIdentity,
}

impl Chat {
    #[verifier::type_invariant]
    spec fn ordered(self) -> bool {
        in_time_order(self.messages@)
    }

    /// The messages, oldest first.
    pub closed spec fn history(&self) -> Seq<Message> {
        self.messages@
    }

    pub closed spec fn peer(&self) -> ContactIdentity {
        self.contact
    }

    /// An empty chat with `contact`.
    pub fn new(contact: ContactIdentity) -> (r: Chat)
        ensures
            r.history() == Seq::<Message>::empty(),
            r.peer() == contact,
    {
        let messages: Vec<Message> = Vec::new();
        assert(messages@ =~= Seq::<Message>::empty());
        Chat { messages, contact }
    }

    /// The arrival time of the latest message.
    pub fn latest_timestamp(&self) -> (r: Option<Timestamp>)
        ensures
            self.history().len() == 0 ==> r is None,
            self.history().len() > 0 ==> r == Some(self.history().last().meta.time_received),
    {
        if self.messages.len() == 0 {
            None
        } else {
            Some(self.messages[self.messages.len() - 1].meta().time_received)
        }
    }

    /// The messages, oldest first.
    pub fn messages(&self) -> (r: &[Message])
        ensures
            r@ == self.history(),
            in_time_order(r@),
    {
        proof {
            use_type_invariant(self);
        }
        self.messages.as_slice()
    }

    /// The contact.
    pub fn contact(&self) -> (r: &ContactIdentity)
        ensures
            *r == self.peer(),
    {
        &self.contact
    }

    /// Adds a message where its arrival time puts it: after every message
    /// not later than it, before every later one.
    pub fn add_message(&mut self, msg: Message)
        ensures
            in_time_order(final(self).history()),
            final(self).peer() == old(self).peer(),
            exists|p: int|
                0 <= p <= old(self).history().len() && final(self).history() == old(self).history().insert(p, msg)
                    && (forall|i: int| 0 <= i < p ==> not_later(#[trigger] old(self).history()[i].meta.time_received, msg.meta.time_received))
                    && (forall|i: int| p <= i < old(self).history().len() ==> !not_later(#[trigger] old(self).history()[i].meta.time_received, msg.meta.time_received)),
    {
        proof {
            use_type_invariant(&*self);
        }
        let mut messages: Vec<Message> = Vec::new();
        std::mem::swap(&mut messages, &mut self.messages);
        let t = msg.meta.time_received;
        let n = messages.len();
        let mut p: usize = n;
        while p > 0 && messages[p - 1].meta.time_received.is_later_than(&t)
            invariant
                p <= n,
                n == messages@.len(),
                forall|i: int| p <= i < n ==> !not_later(#[trigger] messages@[i].meta.time_received, t),
            decreases p,
        {
            p = p - 1;
        }
        let ghost old_msgs = messages@;
        assert forall|i: int| 0 <= i < p implies not_later(#[trigger] old_msgs[i].meta.time_received, t) by {
            if i < p - 1 {
                assert(not_later(old_msgs[i].meta.time_received, old_msgs[p - 1].meta.time_received));
            }
        }
        messages.insert(p, msg);
        let ghost new_msgs = messages@;
        assert forall|i: int, j: int| 0 <= i < j < new_msgs.len() implies not_later(#[trigger] new_msgs[i].meta.time_received, #[trigger] new_msgs[j].meta.time_received) by {
            if j < p {
                assert(new_msgs[i] == old_msgs[i] && new_msgs[j] == old_msgs[j]);
            } else if j == p {
                assert(new_msgs[i] == old_msgs[i]);
            } else if i == p {
                assert(new_msgs[j] == old_msgs[j - 1]);
            } else if i < p {
                assert(new_msgs[i] == old_msgs[i] && new_msgs[j] == old_msgs[j - 1]);
            } else {
                assert(new_msgs[i] == old_msgs[i - 1] && new_msgs[j] == old_msgs[j - 1]);
            }
        }
        assert(old_msgs == old(self).history());
        assert(new_msgs == old_msgs.insert(p as int, msg));
        self.messages = messages;
    }
}

impl<S> NetworkDomain<S> {
    /// The address of an open connection to the chat's contact.
    pub fn find_socket_addr_for_chat(&self, chat: &Chat) -> (r: Option<PeerAddr>)
        ensures
            lookup_key(self.connections(), chat.peer().identity.public_key@, r),
    {
        self.connections_ref().find_socket_addr_for_contact(&chat.contact().identity.public_key)
    }
}

} // verus!
