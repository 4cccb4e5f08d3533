use ws_connect::error::{
    map_upgrade_fault, ConnectError, IoKind, ProtocolFault, SocksFault, TlsFault, UpgradeFault,
};
use ws_connect::machine::{Action, Connection, Event, Phase};
use ws_connect::resolve::{plan_direct, plan_via_proxy, Plan};

fn direct_plan(disable_nagle: bool) -> Plan {
    plan_direct(Some("127.0.0.1"), Some("ws"), Some(9001), disable_nagle).unwrap()
}

fn proxied_plan(disable_nagle: bool) -> Plan {
    plan_via_proxy(
        Some("target"),
        Some("ws"),
        Some(9001),
        Some("127.0.0.1"),
        Some("socks5"),
        Some(1080),
        disable_nagle,
    )
    .unwrap()
}

#[test]
fn direct_happy_path() {
    let mut c = Connection::new(direct_plan(false));
    assert_eq!(c.phase, Phase::Ready);
    assert!(!c.socket_open);

    assert_eq!(c.step(Event::Launch), Action::Dial);
    assert_eq!(c.dial_endpoint().host, "127.0.0.1");
    assert_eq!(c.dial_endpoint().port, 9001);

    assert_eq!(c.step(Event::DialOk), Action::Secure);
    assert!(c.socket_open);
    assert_eq!(c.step(Event::SecureOk), Action::Upgrade);
    assert_eq!(c.step(Event::UpgradeOk(101)), Action::Finish);

    assert_eq!(c.phase, Phase::Done);
    assert!(c.socket_open);
    assert_eq!(c.status, Some(101));
    assert_eq!(c.fault, None);
}

#[test]
fn direct_path_sets_nodelay_after_dial() {
    let mut c = Connection::new(direct_plan(true));
    assert_eq!(c.step(Event::Launch), Action::Dial);
    assert_eq!(c.step(Event::DialOk), Action::SetNodelay);
    assert_eq!(c.step(Event::NodelayOk), Action::Secure);
    assert!(c.nodelay_on);
    assert_eq!(c.step(Event::SecureOk), Action::Upgrade);
    assert_eq!(c.step(Event::UpgradeOk(101)), Action::Finish);
    assert_eq!(c.phase, Phase::Done);
}

#[test]
fn proxied_path_sets_nodelay_after_negotiation() {
    let mut c = Connection::new(proxied_plan(true));
    assert_eq!(c.step(Event::Launch), Action::Dial);
    // The dial goes to the proxy, not to the target.
    assert_eq!(c.dial_endpoint().host, "127.0.0.1");
    assert_eq!(c.dial_endpoint().port, 1080);

    assert_eq!(c.step(Event::DialOk), Action::Negotiate);
    assert!(!c.nodelay_on);
    // TCP_NODELAY is applied only once the tunneled socket pipes to the
    // target, so it lands on the socket that carries the WebSocket bytes.
    assert_eq!(c.step(Event::NegotiateOk), Action::SetNodelay);
    assert!(c.negotiated);
    assert_eq!(c.step(Event::NodelayOk), Action::Secure);
    assert!(c.nodelay_on);
    assert_eq!(c.step(Event::SecureOk), Action::Upgrade);
    assert_eq!(c.step(Event::UpgradeOk(101)), Action::Finish);
    assert_eq!(c.phase, Phase::Done);
}

#[test]
fn refused_dial_aborts_with_io_error() {
    let mut c = Connection::new(direct_plan(false));
    assert_eq!(c.step(Event::Launch), Action::Dial);
    assert_eq!(
        c.step(Event::DialFailed(IoKind::ConnectionRefused)),
        Action::Abort
    );
    assert_eq!(c.phase, Phase::Failed);
    assert!(!c.socket_open);
    assert_eq!(c.fault, Some(ConnectError::Io(IoKind::ConnectionRefused)));
}

#[test]
fn socks_version_mismatch_aborts_with_protocol_error() {
    let mut c = Connection::new(proxied_plan(false));
    c.step(Event::Launch);
    c.step(Event::DialOk);
    assert_eq!(
        c.step(Event::NegotiateFailed(SocksFault::WrongVersion)),
        Action::Abort
    );
    assert_eq!(c.phase, Phase::Failed);
    assert!(!c.socket_open);
    assert_eq!(
        c.fault,
        Some(ConnectError::Protocol(ProtocolFault::WrongVersion))
    );
}

#[test]
fn other_socks_anomaly_aborts_as_junk() {
    let mut c = Connection::new(proxied_plan(false));
    c.step(Event::Launch);
    c.step(Event::DialOk);
    c.step(Event::NegotiateFailed(SocksFault::Other));
    assert_eq!(
        c.fault,
        Some(ConnectError::Protocol(ProtocolFault::JunkAfterRequest))
    );
    assert!(!c.socket_open);
}

#[test]
fn socks_io_failure_stays_io() {
    let mut c = Connection::new(proxied_plan(false));
    c.step(Event::Launch);
    c.step(Event::DialOk);
    c.step(Event::NegotiateFailed(SocksFault::Io(IoKind::ConnectionReset)));
    assert_eq!(c.fault, Some(ConnectError::Io(IoKind::ConnectionReset)));
}

#[test]
fn nodelay_failure_aborts_with_io_error() {
    let mut c = Connection::new(direct_plan(true));
    c.step(Event::Launch);
    c.step(Event::DialOk);
    assert_eq!(c.step(Event::NodelayFailed(IoKind::Other)), Action::Abort);
    assert_eq!(c.fault, Some(ConnectError::Io(IoKind::Other)));
    assert!(!c.socket_open);
}

#[test]
fn tls_failure_aborts_with_tls_error() {
    let plan = plan_direct(Some("localhost"), Some("wss"), Some(9443), false).unwrap();
    assert!(plan.secure);
    let mut c = Connection::new(plan);
    c.step(Event::Launch);
    c.step(Event::DialOk);
    assert_eq!(
        c.step(Event::SecureFailed(TlsFault::NameMismatch)),
        Action::Abort
    );
    assert_eq!(c.fault, Some(ConnectError::Tls(TlsFault::NameMismatch)));
    assert!(!c.socket_open);
}

#[test]
fn non_switching_status_aborts() {
    let mut c = Connection::new(direct_plan(false));
    c.step(Event::Launch);
    c.step(Event::DialOk);
    c.step(Event::SecureOk);
    assert_eq!(c.step(Event::UpgradeOk(200)), Action::Abort);
    assert_eq!(c.phase, Phase::Failed);
    assert_eq!(c.status, Some(200));
    assert_eq!(
        c.fault,
        Some(ConnectError::Protocol(ProtocolFault::NonSwitchingStatus(200)))
    );
    assert!(!c.socket_open);
}

#[test]
fn bad_accept_key_aborts() {
    let mut c = Connection::new(direct_plan(false));
    c.step(Event::Launch);
    c.step(Event::DialOk);
    c.step(Event::SecureOk);
    assert_eq!(
        c.step(Event::UpgradeFailed(UpgradeFault::Protocol(ProtocolFault::InvalidAccept))),
        Action::Abort
    );
    assert_eq!(
        c.fault,
        Some(ConnectError::Protocol(ProtocolFault::InvalidAccept))
    );
}

#[test]
fn upgrade_faults_map_into_taxonomy() {
    assert_eq!(
        map_upgrade_fault(UpgradeFault::Io(IoKind::NotConnected)),
        ConnectError::Io(IoKind::NotConnected)
    );
    assert_eq!(
        map_upgrade_fault(UpgradeFault::Protocol(ProtocolFault::HandshakeIncomplete)),
        ConnectError::Protocol(ProtocolFault::HandshakeIncomplete)
    );
}

#[test]
fn incomplete_handshake_aborts() {
    let mut c = Connection::new(direct_plan(false));
    c.step(Event::Launch);
    c.step(Event::DialOk);
    c.step(Event::SecureOk);
    assert_eq!(
        c.step(Event::UpgradeFailed(UpgradeFault::Io(IoKind::ConnectionReset))),
        Action::Abort
    );
    assert_eq!(c.fault, Some(ConnectError::Io(IoKind::ConnectionReset)));
    assert!(!c.socket_open);
}

#[test]
fn two_attempts_are_independent() {
    let mut a = Connection::new(direct_plan(false));
    let mut b = Connection::new(direct_plan(false));
    a.step(Event::Launch);
    b.step(Event::Launch);
    a.step(Event::DialOk);
    b.step(Event::DialFailed(IoKind::ConnectionRefused));
    a.step(Event::SecureOk);
    a.step(Event::UpgradeOk(101));
    assert_eq!(a.phase, Phase::Done);
    assert_eq!(b.phase, Phase::Failed);
    assert!(a.socket_open);
    assert!(!b.socket_open);
    drop(b);
    assert_eq!(a.phase, Phase::Done);
}
