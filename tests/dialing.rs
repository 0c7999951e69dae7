use smtp_net::addr::{
    bind_local_address, filter_candidates, resolved_address_filter, IpAddress, SocketAddress,
};
use smtp_net::dial::{AttemptOutcome, DialAction, Dialer};
use smtp_net::error::{Cause, ErrorKind};
use smtp_net::stream::NetworkStream;

fn v4(a: u8, b: u8, c: u8, d: u8, port: u16) -> SocketAddress {
    SocketAddress {
        ip: IpAddress::V4(u32::from_be_bytes([a, b, c, d])),
        port,
    }
}

fn v6(last: u128, port: u16) -> SocketAddress {
    SocketAddress { ip: IpAddress::V6(last), port }
}

fn attempt_target(a: &DialAction) -> SocketAddress {
    match a {
        DialAction::Attempt { target, .. } => *target,
        other => panic!("expected an attempt, got {:?}", other),
    }
}

#[test]
fn filter_keeps_v4_for_v4_local() {
    let resolved = vec![v4(10, 0, 0, 1, 25), v6(1, 25), v4(10, 0, 0, 2, 25), v6(2, 25)];
    let local = Some(IpAddress::V4(u32::from_be_bytes([192, 168, 0, 1])));
    let kept = filter_candidates(&resolved, local);
    assert_eq!(kept, vec![v4(10, 0, 0, 1, 25), v4(10, 0, 0, 2, 25)]);
}

#[test]
fn filter_keeps_v6_for_v6_local() {
    let resolved = vec![v4(10, 0, 0, 1, 25), v6(1, 25), v4(10, 0, 0, 2, 25), v6(2, 25)];
    let kept = filter_candidates(&resolved, Some(IpAddress::V6(7)));
    assert_eq!(kept, vec![v6(1, 25), v6(2, 25)]);
}

#[test]
fn filter_keeps_all_without_local() {
    let resolved = vec![v6(1, 25), v4(10, 0, 0, 1, 25), v6(2, 587)];
    assert_eq!(filter_candidates(&resolved, None), resolved);
}

#[test]
fn filter_of_single_address() {
    assert!(resolved_address_filter(&v4(1, 2, 3, 4, 25), Some(IpAddress::V4(1))));
    assert!(!resolved_address_filter(&v4(1, 2, 3, 4, 25), Some(IpAddress::V6(1))));
    assert!(!resolved_address_filter(&v6(9, 25), Some(IpAddress::V4(1))));
    assert!(resolved_address_filter(&v6(9, 25), None));
}

#[test]
fn bind_to_explicit_local_address() {
    let local = IpAddress::V4(u32::from_be_bytes([192, 168, 1, 7]));
    let r = bind_local_address(&v4(10, 0, 0, 1, 25), Some(local), false);
    assert_eq!(r, Some(SocketAddress { ip: local, port: 0 }));
    let r = bind_local_address(&v4(10, 0, 0, 1, 25), Some(local), true);
    assert_eq!(r, Some(SocketAddress { ip: local, port: 0 }));
}

#[test]
fn bind_unspecified_where_required() {
    assert_eq!(
        bind_local_address(&v4(10, 0, 0, 1, 25), None, true),
        Some(SocketAddress { ip: IpAddress::V4(0), port: 0 })
    );
    assert_eq!(
        bind_local_address(&v6(5, 25), None, true),
        Some(SocketAddress { ip: IpAddress::V6(0), port: 0 })
    );
}

#[test]
fn no_bind_where_not_required() {
    assert_eq!(bind_local_address(&v4(10, 0, 0, 1, 25), None, false), None);
    assert_eq!(bind_local_address(&v6(5, 25), None, false), None);
}

#[test]
fn unreachable_then_reachable_connects_to_second() {
    let resolved = vec![v4(10, 0, 0, 1, 25), v4(10, 0, 0, 2, 25)];
    let mut dialer = Dialer::new(&resolved, None, false);
    let a = dialer.start();
    assert_eq!(attempt_target(&a), v4(10, 0, 0, 1, 25));
    let a = dialer.step(AttemptOutcome::ConnectFailed("network unreachable".to_string()));
    assert_eq!(attempt_target(&a), v4(10, 0, 0, 2, 25));
    let a = dialer.step(AttemptOutcome::Connected);
    match a {
        DialAction::Connected(addr) => assert_eq!(addr, v4(10, 0, 0, 2, 25)),
        other => panic!("expected a connection, got {:?}", other),
    }
    assert!(dialer.is_finished());
    let stream: NetworkStream<SocketAddress, (), ()> = NetworkStream::new(v4(10, 0, 0, 2, 25));
    assert!(!stream.is_encrypted());
}

#[test]
fn first_success_stops_dialing() {
    let resolved = vec![v4(10, 0, 0, 1, 25), v4(10, 0, 0, 2, 25), v4(10, 0, 0, 3, 25)];
    let mut dialer = Dialer::new(&resolved, None, false);
    let a = dialer.start();
    assert_eq!(attempt_target(&a), v4(10, 0, 0, 1, 25));
    let a = dialer.step(AttemptOutcome::Connected);
    assert!(matches!(a, DialAction::Connected(addr) if addr == v4(10, 0, 0, 1, 25)));
    assert!(dialer.is_finished());
}

#[test]
fn all_failed_reports_last_error() {
    let resolved = vec![v4(10, 0, 0, 1, 25), v6(2, 25)];
    let mut dialer = Dialer::new(&resolved, None, false);
    dialer.start();
    dialer.step(AttemptOutcome::ConnectFailed("first".to_string()));
    let a = dialer.step(AttemptOutcome::ConnectFailed("second".to_string()));
    match a {
        DialAction::Failed(e) => {
            assert_eq!(e.kind, ErrorKind::Connection);
            assert!(matches!(e.cause, Cause::Failure(ref m) if m == "second"));
        }
        other => panic!("expected a failure, got {:?}", other),
    }
    assert!(dialer.is_finished());
}

#[test]
fn nothing_resolved_is_unresolved_error() {
    let mut dialer = Dialer::new(&vec![], None, false);
    match dialer.start() {
        DialAction::Failed(e) => {
            assert!(e.is_connection());
            assert!(matches!(e.cause, Cause::Unresolved));
        }
        other => panic!("expected a failure, got {:?}", other),
    }
}

#[test]
fn nothing_eligible_is_unresolved_error() {
    let resolved = vec![v6(1, 25), v6(2, 25)];
    let mut dialer = Dialer::new(&resolved, Some(IpAddress::V4(1)), false);
    assert!(matches!(
        dialer.start(),
        DialAction::Failed(e) if matches!(e.cause, Cause::Unresolved)
    ));
}

#[test]
fn attempts_carry_bind_address() {
    let local = IpAddress::V4(u32::from_be_bytes([192, 168, 1, 7]));
    let resolved = vec![v6(1, 25), v4(10, 0, 0, 1, 25)];
    let mut dialer = Dialer::new(&resolved, Some(local), false);
    match dialer.start() {
        DialAction::Attempt { target, bind } => {
            assert_eq!(target, v4(10, 0, 0, 1, 25));
            assert_eq!(bind, Some(SocketAddress { ip: local, port: 0 }));
        }
        other => panic!("expected an attempt, got {:?}", other),
    }
}

#[test]
fn socket_or_bind_failure_stops_dialing() {
    let resolved = vec![v4(10, 0, 0, 1, 25), v4(10, 0, 0, 2, 25)];
    let mut dialer = Dialer::new(&resolved, None, true);
    dialer.start();
    let a = dialer.step(AttemptOutcome::BindFailed("address in use".to_string()));
    assert!(matches!(a, DialAction::Failed(ref e) if e.is_connection()));
    assert!(dialer.is_finished());

    let mut dialer = Dialer::new(&resolved, None, true);
    dialer.start();
    let a = dialer.step(AttemptOutcome::SocketFailed("no descriptors".to_string()));
    assert!(matches!(a, DialAction::Failed(ref e) if matches!(e.cause, Cause::Failure(ref m) if m == "no descriptors")));
}
