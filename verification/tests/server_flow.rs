//! The server's lifecycle on concrete runs: accepting, reaping,
//! isolation of one session's failure, and a clean drain.

use tcp2socks::model::error::ErrorKind;
use tcp2socks::model::model::{IpAddr, SocketAddr};
use tcp2socks::server::{AcceptDecision, AcceptOutcome, Server, ServerPhase};
use tcp2socks::server_command::ServerCommand;
use tcp2socks::session::SessionId;
use tcp2socks::ServerConfig;

fn addr(d: u8, port: u16) -> SocketAddr {
    SocketAddr { ip: IpAddr::V4(127, 0, 0, d), port }
}

fn accepting_server() -> Server {
    let mut server = Server::new(ServerConfig::default());
    server.on_bind(Ok(())).unwrap();
    server
}

fn accept_one(server: &mut Server, client: SocketAddr) -> SessionId {
    match server.on_accept_outcome(AcceptOutcome::Accepted(client)) {
        AcceptDecision::Spawn(session) => session.id,
        _ => panic!("an accepted connection must spawn a session"),
    }
}

#[test]
fn new_server_is_idle_until_bound() {
    let server = Server::new(ServerConfig::default());
    assert_eq!(server.phase, ServerPhase::Idle);
    assert_eq!(server.session_count(), 0);
}

#[test]
fn bind_success_starts_accepting() {
    let server = accepting_server();
    assert_eq!(server.phase, ServerPhase::Accepting);
}

#[test]
fn bind_failure_is_fatal_at_startup() {
    let mut server = Server::new(ServerConfig::default());
    let listen = addr(1, 1081);
    let r = server.on_bind(Err(ErrorKind::AddressAlreadInUse { addr: listen }));
    assert!(r.is_err());
    assert_eq!(server.phase, ServerPhase::Stopped);
}

#[test]
fn accepted_connections_get_distinct_monotone_ids() {
    let mut server = accepting_server();
    let a = accept_one(&mut server, addr(9, 50000));
    let b = accept_one(&mut server, addr(9, 50001));
    let c = accept_one(&mut server, addr(9, 50002));
    assert_eq!(a, SessionId(0));
    assert_eq!(b, SessionId(1));
    assert_eq!(c, SessionId(2));
    assert_eq!(server.session_count(), 3);
}

#[test]
fn accept_timeout_is_not_an_error() {
    let mut server = accepting_server();
    let d = server.on_accept_outcome(AcceptOutcome::TimedOut);
    assert!(matches!(d, AcceptDecision::Retry));
    assert_eq!(server.phase, ServerPhase::Accepting);
    assert_eq!(server.session_count(), 0);
}

#[test]
fn transient_accept_failure_is_retried() {
    let mut server = accepting_server();
    let d = server.on_accept_outcome(AcceptOutcome::Failed(ErrorKind::Io));
    assert!(matches!(d, AcceptDecision::Retry));
    assert_eq!(server.phase, ServerPhase::Accepting);
}

#[test]
fn address_failures_are_fatal() {
    let mut server = accepting_server();
    let listen = addr(1, 1081);
    let d = server.on_accept_outcome(AcceptOutcome::Failed(ErrorKind::AddressNotAvailable {
        addr: listen,
    }));
    match d {
        AcceptDecision::Fatal(err) => {
            assert!(matches!(err.kind, ErrorKind::AddressNotAvailable { .. }))
        }
        _ => panic!("an address failure must be fatal"),
    }
}

#[test]
fn disconnect_reaps_exactly_that_session() {
    let mut server = accepting_server();
    let a = accept_one(&mut server, addr(9, 50000));
    let b = accept_one(&mut server, addr(9, 50001));
    let reaped = server.on_command(ServerCommand::Disconnect(a));
    assert_eq!(reaped.len(), 1);
    assert_eq!(reaped[0].id, a);
    assert_eq!(reaped[0].handle.client_addr(), addr(9, 50000));
    assert_eq!(server.session_count(), 1);
    let _ = b;
}

#[test]
fn disconnect_for_a_reaped_id_is_benign() {
    let mut server = accepting_server();
    let a = accept_one(&mut server, addr(9, 50000));
    let first = server.on_command(ServerCommand::Disconnect(a));
    assert_eq!(first.len(), 1);
    let second = server.on_command(ServerCommand::Disconnect(a));
    assert_eq!(second.len(), 0);
    assert_eq!(server.session_count(), 0);
}

#[test]
fn one_sessions_failure_leaves_the_rest_untouched() {
    let mut server = accepting_server();
    let healthy = accept_one(&mut server, addr(9, 50000));
    let doomed = accept_one(&mut server, addr(9, 50001));
    // The doomed session's connector failed; its disconnect notification
    // arrives while the healthy one keeps relaying.
    let reaped = server.on_command(ServerCommand::Disconnect(doomed));
    assert_eq!(reaped.len(), 1);
    assert_eq!(reaped[0].id, doomed);
    assert_eq!(server.phase, ServerPhase::Accepting);
    assert_eq!(server.session_count(), 1);
    // The accept loop is unaffected: the next client still gets served.
    let next = accept_one(&mut server, addr(9, 50002));
    assert_eq!(next, SessionId(2));
    let _ = healthy;
}

#[test]
fn terminate_drains_cleanly() {
    let mut server = accepting_server();
    accept_one(&mut server, addr(9, 50000));
    accept_one(&mut server, addr(9, 50001));
    accept_one(&mut server, addr(9, 50002));
    let reaped = server.on_command(ServerCommand::Terminate);
    assert_eq!(server.phase, ServerPhase::Draining);
    assert_eq!(server.session_count(), 0);
    assert_eq!(reaped.len(), 3);
    for entry in &reaped {
        // Every live session was asked to stop, in both directions.
        assert!(entry.handle.cancel_up.requested);
        assert!(entry.handle.cancel_down.requested);
    }
    // Only after every handle is joined does the server stop.
    server.finish_drain();
    assert_eq!(server.phase, ServerPhase::Stopped);
}

#[test]
fn terminate_with_no_live_session_stops_at_once() {
    let mut server = accepting_server();
    let reaped = server.on_command(ServerCommand::Terminate);
    assert!(reaped.is_empty());
    server.finish_drain();
    assert_eq!(server.phase, ServerPhase::Stopped);
}
