use std::collections::VecDeque;

use sremp_core::addr::PeerAddr;
use sremp_core::chat::Chat;
use sremp_core::domain::{NetworkCommand, NetworkDomain, NetworkEvent, Plan, REASON_DUPLICATE, REASON_WRONG_KEY};
use sremp_core::connection::Connection;
use sremp_core::frame::Frame;
use sremp_core::identity::{ContactIdentity, PublicKey, SecretKey, Timestamp, Trust, UserIdentity};
use sremp_core::registry::{ActiveConnections, ConnectionData};
use sremp_core::session::{Role, Session, Step};

fn user(seed: u8) -> UserIdentity {
    UserIdentity::load("peer", SecretKey { bytes: [seed; 32] }, Timestamp { secs: 0, nanos: 0 }).unwrap()
}

/// An established connection from a local user to the peer with `seed`.
fn connection_to(seed: u8) -> Connection<()> {
    let a = user(200);
    let b = user(seed);
    let addr = PeerAddr::v4([127, 0, 0, 1], 9);
    let mut sides = [
        Session::start(Role::Initiator, &a, addr).unwrap(),
        Session::start(Role::Responder, &b, addr).unwrap(),
    ];
    let claims = [b.identity.clone(), a.identity.clone()];
    let mut queues: [VecDeque<Vec<u8>>; 2] = [VecDeque::new(), VecDeque::new()];
    loop {
        let mut moved = false;
        for me in 0..2 {
            let s = &mut sides[me];
            let r = match s.next_step() {
                Step::SendHandshake => s.write_handshake().map(|f| queues[1 - me].push_back(f.encode())),
                Step::SendIdentity => s.write_identity(b"id").map(|f| queues[1 - me].push_back(f.encode())),
                Step::ReceiveHandshake | Step::ReceiveIdentity => match queues[me].pop_front() {
                    None => continue,
                    Some(bytes) => {
                        let (f, _) = Frame::decode(&bytes).unwrap();
                        if s.next_step() == Step::ReceiveHandshake {
                            s.read_handshake(&f)
                        } else {
                            s.read_identity(&f).map(|_| ())
                        }
                    }
                },
                Step::CheckIdentity => s.check_identity(claims[me].clone()),
                Step::Done | Step::Failed => continue,
            };
            r.unwrap();
            moved = true;
        }
        if !moved {
            break;
        }
    }
    let [ini, _] = sides;
    Connection::establish((), ini)
}

fn entry(port: u16, seed: u8) -> ConnectionData<()> {
    let conn = connection_to(seed);
    let contact = ContactIdentity::first_contact(conn.peer_identity().clone(), Timestamp { secs: 1, nanos: 0 });
    ConnectionData { addr: PeerAddr::v4([10, 0, 0, 1], port), conn, iden: contact }
}

fn key_of(seed: u8) -> PublicKey {
    user(seed).identity.public_key
}

#[test]
fn registry_duplicate_insertion_keeps_first() {
    let mut reg = ActiveConnections::new();
    assert!(reg.insert(entry(1, 1)).is_ok());
    let rejected = reg.insert(entry(1, 2));
    let loser = rejected.err().expect("second entry for the address is turned away");
    assert_eq!(loser.conn.peer_identity().public_key, key_of(2));
    assert_eq!(reg.len(), 1);
    let addr = PeerAddr::v4([10, 0, 0, 1], 1);
    assert_eq!(reg.key_at(&addr), Some(key_of(1)));
}

#[test]
fn registry_lookup_by_public_key() {
    let mut reg = ActiveConnections::new();
    for (port, seed) in [(1u16, 1u8), (2, 2), (3, 3)] {
        assert!(reg.insert(entry(port, seed)).is_ok());
    }
    for (port, seed) in [(1u16, 1u8), (2, 2), (3, 3)] {
        assert_eq!(reg.find_socket_addr_for_contact(&key_of(seed)), Some(PeerAddr::v4([10, 0, 0, 1], port)));
    }
    assert_eq!(reg.find_socket_addr_for_contact(&key_of(9)), None);
}

#[test]
fn registry_lookup_after_removals() {
    let mut reg = ActiveConnections::new();
    assert!(reg.insert(entry(1, 1)).is_ok());
    assert!(reg.insert(entry(2, 2)).is_ok());
    let removed = reg.remove(&PeerAddr::v4([10, 0, 0, 1], 1)).expect("entry present");
    assert_eq!(removed.addr, PeerAddr::v4([10, 0, 0, 1], 1));
    assert!(reg.remove(&PeerAddr::v4([10, 0, 0, 1], 1)).is_none());
    assert_eq!(reg.find_socket_addr_for_contact(&key_of(1)), None);
    assert_eq!(reg.find_socket_addr_for_contact(&key_of(2)), Some(PeerAddr::v4([10, 0, 0, 1], 2)));
    assert!(reg.insert(entry(3, 3)).is_ok());
    assert!(reg.insert(entry(1, 4)).is_ok());
    assert_eq!(reg.find_socket_addr_for_contact(&key_of(4)), Some(PeerAddr::v4([10, 0, 0, 1], 1)));
    assert_eq!(reg.find_socket_addr_for_contact(&key_of(3)), Some(PeerAddr::v4([10, 0, 0, 1], 3)));
    assert_eq!(reg.len(), 3);
    assert!(reg.contains(&PeerAddr::v4([10, 0, 0, 1], 3)));
    assert!(!reg.contains(&PeerAddr::v4([10, 0, 0, 1], 4)));
}

#[test]
fn registry_encrypt_for_open_connection() {
    let mut reg = ActiveConnections::new();
    assert!(reg.insert(entry(1, 1)).is_ok());
    let f = reg.encrypt_for(&PeerAddr::v4([10, 0, 0, 1], 1), b"hi").expect("connection open").unwrap();
    assert_eq!(f.data().len(), 2 + 16);
    assert!(reg.encrypt_for(&PeerAddr::v4([10, 0, 0, 1], 2), b"hi").is_none());
}

#[test]
fn peer_addr_v4_layout() {
    let a = PeerAddr::v4([192, 168, 1, 2], 8080);
    assert!(!a.v6);
    assert_eq!(a.ip, 0xC0A80102);
    assert_eq!(a.port, 8080);
}


#[test]
fn domain_init_connection_and_contacts() {
    let mut d: NetworkDomain<()> = NetworkDomain::new();
    let a = PeerAddr::v4([10, 0, 0, 9], 1);
    let t1 = Timestamp { secs: 100, nanos: 0 };
    let t2 = Timestamp { secs: 200, nanos: 0 };
    let (ev, rejected) = d.init_connection(a, connection_to(1), t1);
    assert_eq!(ev, NetworkEvent::ConnectionEstablished(a, key_of(1)));
    assert!(rejected.is_none());
    let c = d.contact_for(&key_of(1)).expect("contact recorded");
    assert_eq!((c.trust, c.first_seen, c.last_seen), (Trust::Unknown, t1, t1));
    assert_eq!(c.identity, user(1).identity);
    let held = d.connections_ref().get(&a).expect("entry held");
    assert_eq!(held.iden, *c);
    assert_eq!(held.conn.peer_identity(), &user(1).identity);

    // a second connection for the same address is turned away
    let (ev, rejected) = d.init_connection(a, connection_to(2), t2);
    assert_eq!(ev, NetworkEvent::ConnectionFailed(a, REASON_DUPLICATE.to_string()));
    assert_eq!(rejected.expect("loser comes back").peer_identity().public_key, key_of(2));
    assert!(d.contact_for(&key_of(2)).is_none());

    // disconnecting and coming back refreshes the record
    match d.process_network_command(NetworkCommand::Disconnect(a)) {
        Plan::Close(data, NetworkEvent::ConnectionLost(b, k)) => {
            assert_eq!((b, k), (a, key_of(1)));
            assert_eq!(data.addr, a);
        }
        _ => panic!("expected a close"),
    }
    let (ev, _) = d.init_connection(a, connection_to(1), t2);
    assert_eq!(ev, NetworkEvent::ConnectionEstablished(a, key_of(1)));
    let c = d.contact_for(&key_of(1)).unwrap();
    assert_eq!((c.first_seen, c.last_seen), (t1, t2));
}

#[test]
fn domain_send_message_plans() {
    let mut d: NetworkDomain<()> = NetworkDomain::new();
    let a = PeerAddr::v4([10, 0, 0, 9], 1);
    let _ = d.init_connection(a, connection_to(1), Timestamp { secs: 1, nanos: 0 });
    match d.process_network_command(NetworkCommand::SendMessage(a, key_of(1), vec![1, 2, 3])) {
        Plan::Transmit(b, k, frame, payload) => {
            assert_eq!((b, k, payload), (a, key_of(1), vec![1, 2, 3]));
            assert_eq!(frame.data().len(), 3 + 16);
        }
        _ => panic!("expected a transmit"),
    }
    match d.process_network_command(NetworkCommand::SendMessage(a, key_of(2), vec![1])) {
        Plan::Done(NetworkEvent::ConnectionFailed(b, r)) => {
            assert_eq!(b, a);
            assert_eq!(r, REASON_WRONG_KEY);
        }
        _ => panic!("expected a failure"),
    }
    match d.process_network_command(NetworkCommand::Connect(a)) {
        Plan::Done(NetworkEvent::ConnectionFailed(b, _)) => assert_eq!(b, a),
        _ => panic!("expected a failure"),
    }
    let chat = Chat::new(ContactIdentity::first_contact(user(1).identity, Timestamp { secs: 0, nanos: 0 }));
    assert_eq!(d.find_socket_addr_for_chat(&chat), Some(a));
}

#[test]
fn registry_lookup_random_interleaving() {
    // a fixed pseudo-random run of insertions and removals, checked against a
    // plain list of what should be there
    let mut reg = ActiveConnections::new();
    let mut model: Vec<(u16, u8)> = Vec::new();
    let mut state: u32 = 12345;
    for _ in 0..40 {
        state = state.wrapping_mul(1103515245).wrapping_add(12345);
        let port = ((state >> 16) % 6) as u16;
        let insert = (state >> 8) % 3 != 0;
        let addr = PeerAddr::v4([10, 0, 0, 1], port);
        if insert {
            if model.iter().any(|(p, _)| *p == port) {
                continue;
            }
            let seed = 10 + port as u8;
            if model.iter().any(|(_, s)| *s == seed) {
                continue;
            }
            assert!(reg.insert(entry(port, seed)).is_ok());
            model.push((port, seed));
        } else {
            let removed = reg.remove(&addr);
            assert_eq!(removed.is_some(), model.iter().any(|(p, _)| *p == port));
            model.retain(|(p, _)| *p != port);
        }
        assert_eq!(reg.len(), model.len());
        for seed in 10u8..16 {
            let expected = model.iter().find(|(_, s)| *s == seed).map(|(p, _)| PeerAddr::v4([10, 0, 0, 1], *p));
            assert_eq!(reg.find_socket_addr_for_contact(&key_of(seed)), expected);
        }
    }
}
