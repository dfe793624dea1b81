use sremp_core::chat::Chat;
use sremp_core::identity::{ContactIdentity, PublicKey, Timestamp, Trust};
use sremp_core::messages::{Message, MessageFlags, MessageMeta};

fn t(secs: i64) -> Timestamp {
    Timestamp { secs, nanos: 0 }
}

fn contact() -> ContactIdentity {
    ContactIdentity::build("frank", PublicKey { bytes: [8; 32] }, Trust::Unknown, t(0), t(0)).unwrap()
}

#[test]
fn chat_keeps_messages_in_time_order() {
    let mut chat = Chat::new(contact());
    assert_eq!(chat.latest_timestamp(), None);
    let k = PublicKey { bytes: [8; 32] };
    chat.add_message(Message::new("second", t(20), k));
    chat.add_message(Message::new("first", t(10), k));
    chat.add_message(Message::new("third", t(30), k));
    chat.add_message(Message::new("second again", t(20), k));
    let texts: Vec<&str> = chat.messages().iter().map(|m| m.text.as_str()).collect();
    assert_eq!(texts, vec!["first", "second", "second again", "third"]);
    assert_eq!(chat.latest_timestamp(), Some(t(30)));
    assert_eq!(chat.contact().identity.username(), "frank");
}

#[test]
fn message_flags_setters() {
    let mut f = MessageFlags::new();
    assert!(!f.sent() && !f.received() && !f.read());
    f.set_sent(true);
    f.set_read(true);
    assert!(f.sent() && f.read() && !f.received());
    f.set_received(true);
    f.set_sent(false);
    assert!(!f.sent() && f.received());
}

#[test]
fn message_new_fields() {
    let k = PublicKey { bytes: [3; 32] };
    let m = Message::new("hey", t(5), k);
    assert_eq!(m.text, "hey");
    assert!(m.attachments.files.is_empty());
    assert_eq!(*m.meta(), MessageMeta::new(t(5), k));
    assert_eq!(m.flags, MessageFlags::new());
}
