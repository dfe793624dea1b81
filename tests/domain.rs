use sremp_core::addr::PeerAddr;
use sremp_core::domain::{NetworkCommand, NetworkDomain, NetworkEvent, Plan};
use sremp_core::error::CoreError;
use sremp_core::identity::{PublicKey, SecretKey, Timestamp, UserIdentity};

fn user() -> UserIdentity {
    UserIdentity::load("alice", SecretKey { bytes: [5; 32] }, Timestamp { secs: 0, nanos: 0 }).unwrap()
}

fn addr(port: u16) -> PeerAddr {
    PeerAddr::v4([127, 0, 0, 1], port)
}

fn done(p: Plan<()>) -> NetworkEvent {
    match p {
        Plan::Done(e) => e,
        _ => panic!("expected an immediate event"),
    }
}

#[test]
fn domain_listener_lifecycle() {
    let mut d: NetworkDomain<()> = NetworkDomain::new();
    assert!(!d.is_listening());
    match d.process_network_command(NetworkCommand::StartListener(addr(0))) {
        Plan::Bind(a) => assert_eq!(a, addr(0)),
        _ => panic!("expected a bind"),
    }
    assert!(!d.is_listening());
    assert_eq!(d.listener_started(addr(4567)), NetworkEvent::ListenerStarted(addr(4567)));
    assert!(d.is_listening());
    assert_eq!(done(d.process_network_command(NetworkCommand::StopListener)), NetworkEvent::ListenerStopped);
    assert!(!d.is_listening());
    // stopping an idle actor is a no-op that still reports the stop
    assert_eq!(done(d.process_network_command(NetworkCommand::StopListener)), NetworkEvent::ListenerStopped);
    assert!(!d.is_listening());
}

#[test]
fn domain_connect_needs_identity() {
    let mut d: NetworkDomain<()> = NetworkDomain::new();
    match done(d.process_network_command(NetworkCommand::Connect(addr(1)))) {
        NetworkEvent::ConnectionFailed(a, reason) => {
            assert_eq!(a, addr(1));
            assert_eq!(reason, CoreError::NoUserIdentity.reason());
        }
        e => panic!("unexpected {e:?}"),
    }
    let u = user();
    let key = u.identity.public_key;
    assert_eq!(done(d.process_network_command(NetworkCommand::SetIdentity(u))), NetworkEvent::IdentitySet(key));
    assert!(d.user_identity().is_some());
    match d.process_network_command(NetworkCommand::Connect(addr(1))) {
        Plan::Dial(a) => assert_eq!(a, addr(1)),
        _ => panic!("expected a dial"),
    }
}

#[test]
fn domain_commands_yield_one_event_each_in_order() {
    let mut d: NetworkDomain<()> = NetworkDomain::new();
    let u = user();
    let key = u.identity.public_key;
    let commands = vec![
        NetworkCommand::StopListener,
        NetworkCommand::Connect(addr(1)),
        NetworkCommand::SetIdentity(u),
        NetworkCommand::Disconnect(addr(2)),
        NetworkCommand::SendMessage(addr(3), PublicKey { bytes: [1; 32] }, vec![1, 2]),
        NetworkCommand::StopListener,
    ];
    let events: Vec<NetworkEvent> = commands.into_iter().map(|c| done(d.process_network_command(c))).collect();
    assert_eq!(events.len(), 6);
    assert_eq!(events[0], NetworkEvent::ListenerStopped);
    assert!(matches!(&events[1], NetworkEvent::ConnectionFailed(a, _) if *a == addr(1)));
    assert_eq!(events[2], NetworkEvent::IdentitySet(key));
    assert!(matches!(&events[3], NetworkEvent::ConnectionFailed(a, r) if *a == addr(2) && r == "not connected to this peer"));
    assert!(matches!(&events[4], NetworkEvent::ConnectionFailed(a, _) if *a == addr(3)));
    assert_eq!(events[5], NetworkEvent::ListenerStopped);
}

#[test]
fn domain_failed_and_transmitted_events() {
    let d: NetworkDomain<()> = NetworkDomain::new();
    assert_eq!(
        d.failed(addr(9), &CoreError::Io),
        NetworkEvent::ConnectionFailed(addr(9), "transport i/o error".to_string())
    );
    let k = PublicKey { bytes: [7; 32] };
    assert_eq!(d.transmitted(addr(9), k, vec![4]), NetworkEvent::MessageSent(addr(9), k, vec![4]));
}
