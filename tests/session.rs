use std::collections::VecDeque;

use sremp_core::addr::PeerAddr;
use sremp_core::connection::Connection;
use sremp_core::error::CoreError;
use sremp_core::frame::Frame;
use sremp_core::identity::{Identity, SecretKey, Timestamp, UserIdentity};
use sremp_core::session::{Role, Session, Step};

fn user(name: &str, seed: u8) -> UserIdentity {
    UserIdentity::load(name, SecretKey { bytes: [seed; 32] }, Timestamp { secs: 0, nanos: 0 }).unwrap()
}

/// Moves one session one step on, if it can; returns whether it moved.
fn step(
    s: &mut Session,
    inbox: &mut VecDeque<Vec<u8>>,
    outbox: &mut VecDeque<Vec<u8>>,
    claim: &Identity,
    result: &mut Option<CoreError>,
) -> bool {
    let r = match s.next_step() {
        Step::SendHandshake => s.write_handshake().map(|f| outbox.push_back(f.encode())),
        Step::SendIdentity => s.write_identity(b"encoded identity").map(|f| outbox.push_back(f.encode())),
        Step::ReceiveHandshake => match inbox.pop_front() {
            None => return false,
            Some(bytes) => {
                let (f, _) = Frame::decode(&bytes).unwrap();
                s.read_handshake(&f)
            }
        },
        Step::ReceiveIdentity => match inbox.pop_front() {
            None => return false,
            Some(bytes) => {
                let (f, _) = Frame::decode(&bytes).unwrap();
                s.read_identity(&f).map(|p| assert_eq!(p, b"encoded identity".to_vec()))
            }
        },
        Step::CheckIdentity => s.check_identity(claim.clone()),
        Step::Done | Step::Failed => return false,
    };
    if let Err(e) = r {
        *result = Some(e);
    }
    true
}

/// Runs an initiator and a responder against each other; each is handed the
/// given identity as the one its peer claims.
fn run(
    a: &UserIdentity,
    b: &UserIdentity,
    a_hears: &Identity,
    b_hears: &Identity,
) -> (Session, Session, Option<CoreError>, Option<CoreError>) {
    let addr_a = PeerAddr::v4([127, 0, 0, 1], 4000);
    let addr_b = PeerAddr::v4([127, 0, 0, 1], 5000);
    let mut ini = Session::start(Role::Initiator, a, addr_b).unwrap();
    let mut res = Session::start(Role::Responder, b, addr_a).unwrap();
    let mut to_res = VecDeque::new();
    let mut to_ini = VecDeque::new();
    let (mut ea, mut eb) = (None, None);
    loop {
        let moved_a = step(&mut ini, &mut to_ini, &mut to_res, a_hears, &mut ea);
        let moved_b = step(&mut res, &mut to_res, &mut to_ini, b_hears, &mut eb);
        if !moved_a && !moved_b {
            break;
        }
    }
    (ini, res, ea, eb)
}

#[test]
fn session_handshake_establishes_both_sides() {
    let a = user("alice", 1);
    let b = user("bob", 2);
    let (ini, res, ea, eb) = run(&a, &b, &b.identity, &a.identity);
    assert_eq!(ea, None);
    assert_eq!(eb, None);
    assert_eq!(ini.next_step(), Step::Done);
    assert_eq!(res.next_step(), Step::Done);
    let mut ca = Connection::establish((), ini);
    let mut cb = Connection::establish((), res);
    assert_eq!(ca.peer_identity().public_key, b.identity.public_key);
    assert_eq!(cb.peer_identity().public_key, a.identity.public_key);
    assert_eq!(ca.peer_identity().username(), "bob");

    let f = ca.send_message(b"hello bob").unwrap();
    assert_ne!(f.data(), b"hello bob");
    assert_eq!(cb.receive_message(&f).unwrap(), b"hello bob".to_vec());
    let g = cb.send_message(b"hello alice").unwrap();
    assert_eq!(ca.receive_message(&g).unwrap(), b"hello alice".to_vec());
    let h = ca.send_message(b"again").unwrap();
    assert_eq!(cb.receive_message(&h).unwrap(), b"again".to_vec());
}

#[test]
fn session_identity_must_match_handshake_key() {
    let a = user("alice", 1);
    let b = user("bob", 2);
    let mallory = user("mallory", 3);
    // the responder proves key b but the initiator is told it is mallory
    let (ini, _res, ea, _eb) = run(&a, &b, &mallory.identity, &a.identity);
    let remote = PeerAddr::v4([127, 0, 0, 1], 5000);
    assert_eq!(ea, Some(CoreError::PeerKeyIsInvalid { remote }));
    assert_eq!(ini.next_step(), Step::Failed);
}

#[test]
fn session_responder_rejects_false_initiator_identity() {
    let a = user("alice", 1);
    let b = user("bob", 2);
    let mallory = user("mallory", 3);
    let (_ini, res, _ea, eb) = run(&a, &b, &b.identity, &mallory.identity);
    let remote = PeerAddr::v4([127, 0, 0, 1], 4000);
    assert_eq!(eb, Some(CoreError::PeerKeyIsInvalid { remote }));
    assert_eq!(res.next_step(), Step::Failed);
}

#[test]
fn session_first_steps() {
    let a = user("alice", 1);
    let addr = PeerAddr::v4([10, 0, 0, 2], 7);
    let ini = Session::start(Role::Initiator, &a, addr).unwrap();
    let res = Session::start(Role::Responder, &a, addr).unwrap();
    assert_eq!(ini.next_step(), Step::SendHandshake);
    assert_eq!(res.next_step(), Step::ReceiveHandshake);
}

#[test]
fn session_garbage_handshake_fails() {
    let a = user("alice", 1);
    let addr = PeerAddr::v4([10, 0, 0, 2], 7);
    let mut res = Session::start(Role::Responder, &a, addr).unwrap();
    let junk = Frame::raw(&[1, 2, 3]).unwrap();
    assert!(matches!(res.read_handshake(&junk), Err(CoreError::Noise(_))));
    assert_eq!(res.next_step(), Step::Failed);
}

#[test]
fn connection_disconnect_is_idempotent() {
    let a = user("alice", 1);
    let b = user("bob", 2);
    let (ini, _res, _, _) = run(&a, &b, &b.identity, &a.identity);
    let mut c = Connection::establish((), ini);
    assert!(c.is_connected());
    assert!(c.disconnect());
    assert!(!c.is_connected());
    assert!(!c.disconnect());
    assert_eq!(c.send_message(b"x"), Err(CoreError::Disconnected));
}

#[test]
fn connection_payload_too_large() {
    let a = user("alice", 1);
    let b = user("bob", 2);
    let (ini, _res, _, _) = run(&a, &b, &b.identity, &a.identity);
    let mut c = Connection::establish((), ini);
    assert!(matches!(c.send_message(&vec![0u8; 65520]), Err(CoreError::Noise(_))));
    assert!(c.send_message(&vec![0u8; 65519]).is_ok());
}

#[test]
fn session_record_peer_static_cases() {
    let a = user("alice", 1);
    let addr = PeerAddr::v4([10, 0, 0, 2], 7);

    let mut s = Session::start(Role::Initiator, &a, addr).unwrap();
    assert_eq!(s.record_peer_static(None), Err(CoreError::NoisePeerHasNoPublicKey(addr)));
    assert_eq!(s.next_step(), Step::Failed);

    let mut s = Session::start(Role::Initiator, &a, addr).unwrap();
    assert_eq!(s.record_peer_static(Some(vec![1u8; 31])), Err(CoreError::PeerKeyIsMalformed(addr)));
    assert_eq!(s.next_step(), Step::Failed);

    let mut s = Session::start(Role::Initiator, &a, addr).unwrap();
    assert_eq!(s.record_peer_static(Some(vec![1u8; 32])), Ok(()));
    assert_eq!(s.next_step(), Step::SendHandshake);
}
