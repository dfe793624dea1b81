//! Chat messages and their status flags.
use vstd::prelude::*;

use crate::identity::{PublicKey, Timestamp};

verus! {

/// The delivery status of a message, owned by whoever owns the message.
#[derive(Debug, Clone, Copy, PartialEq, Eq, Default, Structural)]
pub struct MessageFlags {
    pub received: bool,
    pub sent: bool,
    pub read: bool,
}

impl MessageFlags {
    /// No flag set.
    pub fn new() -> (r: MessageFlags)
        ensures
            !r.received && !r.sent && !r.read,
    {
        MessageFlags { received: false, sent: false, read: false }
    }

    pub fn received(&self) -> (r: bool)
        ensures
            r == self.received,
    {
        self.received
    }

    pub fn sent(&self) -> (r: bool)
        ensures
            r == self.sent,
    {
        self.sent
    }

    pub fn read(&self) -> (r: bool)
        ensures
            r == self.read,
    {
        self.read
    }

    pub fn set_sent(&mut self, value: bool)
        ensures
            *final(self) == (MessageFlags { sent: value, ..*old(self) }),
    {
        self.sent = value;
    }

    pub fn set_received(&mut self, value: bool)
        ensures
            *final(self) == (MessageFlags { received: value, ..*old(self) }),
    {
        self.received = value;
    }

    pub fn set_read(&mut self, value: bool)
        ensures
            *final(self) == (MessageFlags { read: value, ..*old(self) }),
    {
        self.read = value;
    }
}

/// When a message arrived and who wrote it.
#[derive(Debug, Clone, Copy, PartialEq, Eq)]
pub struct MessageMeta {
    pub author_key: PublicKey,
    pub time_received: Timestamp,
}

impl MessageMeta {
    pub fn new(time_received: Timestamp, author_key: PublicKey) -> (r: MessageMeta)
        ensures
            r.time_received == time_received,
            r.author_key == author_key,
    {
        MessageMeta { author_key, time_received }
    }
}

/// Files attached to a message.
#[derive(Debug, Clone, PartialEq, Eq, Default)]
pub struct MessageAttachments {
    pub files: Vec<Vec<u8>>,
}

/// A chat message.
#[derive(Debug, Clone, PartialEq, Eq)]
pub struct Message {
    pub text: String,
    pub attachments: MessageAttachments,
    pub meta: MessageMeta,
    pub flags: MessageFlags,
}

impl Message {
    /// A message with no attachment and no flag set.
    pub fn new(text: &str, time_received: Timestamp, author_key: PublicKey) -> (r: Message)
        ensures
            r.text@ == text@,
            r.attachments.files@.len() == 0,
            r.meta.time_received == time_received,
            r.meta.author_key == author_key,
            !r.flags.received && !r.flags.sent && !r.flags.read,
    {
        Message {
            text: text.to_owned(),
            attachments: MessageAttachments { files: Vec::new() },
            meta: MessageMeta::new(time_received, author_key),
            flags: MessageFlags::new(),
        }
    }

    pub fn meta(&self) -> (r: &MessageMeta)
        ensures
            *r == self.meta,
    {
        &self.meta
    }
}

} // verus!
