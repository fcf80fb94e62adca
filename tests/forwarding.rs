use quic_bridge::accept::{
    exit_code, on_session_accept, AcceptAction, StreamAccept, StreamAcceptor,
    LISTEN_FAILURE_EXIT_CODE,
};
use quic_bridge::config::{BridgeConfig, Endpoint, IpAddress, CONNECT_TIMEOUT_MS};
use quic_bridge::error::{BridgeError, IoFault};
use quic_bridge::relay::{Relay, RelayStep};
use quic_bridge::unit::{DialOutcome, Direction, ForwardingUnit, UnitAction, UnitPhase};

fn backend() -> Endpoint {
    Endpoint { ip: IpAddress::V4([127, 0, 0, 1]), port: 5100 }
}

fn valid_config() -> BridgeConfig {
    BridgeConfig::new(Some(backend()))
}

/// Feeds `chunks` through a relay, writing each chunk in pieces of at most
/// `piece` bytes, and returns the bytes that reached the sink.
fn pump(relay: &mut Relay, chunks: &[&[u8]], piece: usize) -> Vec<u8> {
    let mut sink: Vec<u8> = Vec::new();
    for chunk in chunks {
        assert_eq!(relay.next_step(), RelayStep::Read);
        relay.on_read(chunk);
        while relay.next_step() == RelayStep::Write {
            let bytes = relay.pending_bytes();
            let n = bytes.len().min(piece);
            sink.extend_from_slice(&bytes[..n]);
            relay.on_written(n);
        }
    }
    assert_eq!(relay.next_step(), RelayStep::Read);
    relay.on_read(&[]);
    assert_eq!(relay.next_step(), RelayStep::Shutdown);
    relay.on_shutdown(Ok(()));
    assert_eq!(relay.next_step(), RelayStep::Finished);
    sink
}

#[test]
fn config_uses_standard_connect_timeout() {
    let cfg = valid_config();
    assert_eq!(cfg.connect_timeout_ms, 2000);
    assert_eq!(cfg.connect_timeout_ms, CONNECT_TIMEOUT_MS);
    assert!(cfg.has_valid_target());
    assert!(!BridgeConfig::new(None).has_valid_target());
}

#[test]
fn relay_copies_bytes_unchanged_and_in_order() {
    let mut relay = Relay::new();
    let data: Vec<u8> = (0u8..=255).collect();
    let sink = pump(&mut relay, &[&data[..100], &data[100..], b"tail"], 7);
    let mut expected = data.clone();
    expected.extend_from_slice(b"tail");
    assert_eq!(sink, expected);
    assert_eq!(relay.outcome(), Some(Ok(260)));
    assert_eq!(relay.transferred(), 260);
    assert_eq!(relay.received_count(), 260);
}

#[test]
fn relay_with_empty_stream_reports_zero_bytes() {
    let mut relay = Relay::new();
    let sink = pump(&mut relay, &[], 4);
    assert!(sink.is_empty());
    assert_eq!(relay.outcome(), Some(Ok(0)));
}

#[test]
fn relay_partial_write_keeps_the_rest_pending() {
    let mut relay = Relay::new();
    relay.on_read(b"abcdefghij");
    relay.on_written(3);
    assert_eq!(relay.pending_bytes(), b"defghij");
    assert_eq!(relay.transferred(), 3);
    assert_eq!(relay.next_step(), RelayStep::Write);
    assert_eq!(relay.outcome(), None);
}

#[test]
fn relay_write_of_nothing_fails_with_write_zero() {
    let mut relay = Relay::new();
    relay.on_read(b"abc");
    relay.on_written(0);
    assert_eq!(relay.next_step(), RelayStep::Finished);
    assert_eq!(relay.outcome(), Some(Err(IoFault::WriteZero)));
}

#[test]
fn relay_io_error_ends_direction() {
    let mut relay = Relay::new();
    relay.on_read(b"abc");
    relay.on_written(1);
    relay.on_error(IoFault::ConnectionReset);
    assert_eq!(relay.next_step(), RelayStep::Finished);
    assert_eq!(relay.outcome(), Some(Err(IoFault::ConnectionReset)));
    assert_eq!(relay.transferred(), 1);
}

#[test]
fn relay_failed_shutdown_is_a_failure() {
    let mut relay = Relay::new();
    relay.on_read(&[]);
    relay.on_shutdown(Err(IoFault::NotConnected));
    assert_eq!(relay.outcome(), Some(Err(IoFault::NotConnected)));
}

#[test]
fn ping_pong_scenario() {
    let (mut unit, action) = ForwardingUnit::start(&valid_config());
    assert_eq!(action, UnitAction::Dial(backend(), 2000));
    assert_eq!(unit.on_dialed(DialOutcome::Connected), UnitAction::Forward);

    let mut to_backend = Relay::new();
    let mut to_peer = Relay::new();

    // The peer sends "PING" and closes its write half.
    to_backend.on_read(b"PING");
    assert_eq!(to_backend.pending_bytes(), b"PING");
    to_backend.on_written(4);
    to_backend.on_read(&[]);
    assert_eq!(to_backend.next_step(), RelayStep::Shutdown);
    to_backend.on_shutdown(Ok(()));

    // The backend answers "PONG" and closes.
    to_peer.on_read(b"PONG");
    assert_eq!(to_peer.pending_bytes(), b"PONG");
    to_peer.on_written(4);
    to_peer.on_read(&[]);
    assert_eq!(to_peer.next_step(), RelayStep::Shutdown);
    to_peer.on_shutdown(Ok(()));

    let a = unit.on_direction_finished(Direction::ToBackend, to_backend.outcome().unwrap());
    assert_eq!(a, UnitAction::Wait);
    let b = unit.on_direction_finished(Direction::ToPeer, to_peer.outcome().unwrap());
    assert_eq!(b, UnitAction::Report(Ok((4, 4))));
    assert_eq!(unit.current_phase(), UnitPhase::Done);
    assert_eq!(unit.report(), Some(Ok((4, 4))));
}

#[test]
fn forwarding_n_and_m_bytes_is_exact() {
    let mut to_backend = Relay::new();
    let mut to_peer = Relay::new();
    let up: Vec<u8> = (0..1000u32).map(|i| (i % 251) as u8).collect();
    let down: Vec<u8> = (0..37u32).map(|i| (i * 3) as u8).collect();
    let at_backend = pump(&mut to_backend, &[&up[..500], &up[500..]], 64);
    let at_peer = pump(&mut to_peer, &[&down], 5);
    assert_eq!(at_backend, up);
    assert_eq!(at_peer, down);

    let (mut unit, _) = ForwardingUnit::start(&valid_config());
    unit.on_dialed(DialOutcome::Connected);
    unit.on_direction_finished(Direction::ToPeer, to_peer.outcome().unwrap());
    let r = unit.on_direction_finished(Direction::ToBackend, to_backend.outcome().unwrap());
    assert_eq!(r, UnitAction::Report(Ok((1000, 37))));
}

#[test]
fn unreachable_backend_fails_with_connect_failed() {
    let (mut unit, action) = ForwardingUnit::start(&valid_config());
    assert_eq!(action, UnitAction::Dial(backend(), CONNECT_TIMEOUT_MS));
    let a = unit.on_dialed(DialOutcome::Failed(IoFault::ConnectionRefused));
    assert_eq!(a, UnitAction::ShutdownStream);
    assert_eq!(unit.current_phase(), UnitPhase::Closing);
    let r = unit.on_shutdown_done();
    assert_eq!(
        r,
        UnitAction::Report(Err(BridgeError::ConnectFailed(IoFault::ConnectionRefused)))
    );
    assert_eq!(unit.current_phase(), UnitPhase::Done);
}

#[test]
fn dial_timeout_fails_with_connect_timeout() {
    let (mut unit, _) = ForwardingUnit::start(&valid_config());
    assert_eq!(unit.on_dialed(DialOutcome::TimedOut), UnitAction::ShutdownStream);
    assert_eq!(
        unit.on_shutdown_done(),
        UnitAction::Report(Err(BridgeError::ConnectTimeout))
    );
}

#[test]
fn malformed_target_never_dials() {
    let cfg = BridgeConfig::new(None);
    for _ in 0..3 {
        let (mut unit, action) = ForwardingUnit::start(&cfg);
        assert_eq!(action, UnitAction::ShutdownStream);
        assert_eq!(unit.current_phase(), UnitPhase::Closing);
        assert_eq!(
            unit.on_shutdown_done(),
            UnitAction::Report(Err(BridgeError::InvalidTargetConfig))
        );
    }
}

#[test]
fn unit_waits_for_both_directions() {
    let (mut unit, _) = ForwardingUnit::start(&valid_config());
    unit.on_dialed(DialOutcome::Connected);
    // The backend-bound direction ends first; the other keeps running.
    assert_eq!(unit.on_direction_finished(Direction::ToBackend, Ok(0)), UnitAction::Wait);
    assert_eq!(unit.current_phase(), UnitPhase::Forwarding);
    assert_eq!(unit.report(), None);
    let mut to_peer = Relay::new();
    let sink = pump(&mut to_peer, &[b"late reply"], 3);
    assert_eq!(sink, b"late reply".to_vec());
    assert_eq!(
        unit.on_direction_finished(Direction::ToPeer, to_peer.outcome().unwrap()),
        UnitAction::Report(Ok((0, 10)))
    );
}

#[test]
fn forwarding_failure_reports_first_fault_after_shutdown() {
    let (mut unit, _) = ForwardingUnit::start(&valid_config());
    unit.on_dialed(DialOutcome::Connected);
    assert_eq!(
        unit.on_direction_finished(Direction::ToPeer, Err(IoFault::ConnectionReset)),
        UnitAction::Wait
    );
    assert_eq!(
        unit.on_direction_finished(Direction::ToBackend, Err(IoFault::BrokenPipe)),
        UnitAction::ShutdownAll
    );
    assert_eq!(
        unit.on_shutdown_done(),
        UnitAction::Report(Err(BridgeError::ForwardingFailed(IoFault::ConnectionReset)))
    );
}

#[test]
fn one_failed_direction_fails_the_unit() {
    let (mut unit, _) = ForwardingUnit::start(&valid_config());
    unit.on_dialed(DialOutcome::Connected);
    unit.on_direction_finished(Direction::ToBackend, Ok(12));
    assert_eq!(
        unit.on_direction_finished(Direction::ToPeer, Err(IoFault::TimedOut)),
        UnitAction::ShutdownAll
    );
    assert_eq!(
        unit.on_shutdown_done(),
        UnitAction::Report(Err(BridgeError::ForwardingFailed(IoFault::TimedOut)))
    );
}

#[test]
fn streams_of_one_session_are_independent() {
    let cfg = valid_config();
    let mut acceptor = StreamAcceptor::new();
    assert_eq!(acceptor.on_accept(StreamAccept::Stream), AcceptAction::Spawn);
    let (mut s1, _) = ForwardingUnit::start(&cfg);
    assert_eq!(acceptor.on_accept(StreamAccept::Stream), AcceptAction::Spawn);
    let (mut s2, _) = ForwardingUnit::start(&cfg);

    assert_eq!(
        s1.on_dialed(DialOutcome::Failed(IoFault::HostUnreachable)),
        UnitAction::ShutdownStream
    );
    assert_eq!(s2.on_dialed(DialOutcome::Connected), UnitAction::Forward);
    s1.on_shutdown_done();
    s2.on_direction_finished(Direction::ToBackend, Ok(3));
    assert_eq!(
        s2.on_direction_finished(Direction::ToPeer, Ok(5)),
        UnitAction::Report(Ok((3, 5)))
    );
    assert_eq!(
        s1.report(),
        Some(Err(BridgeError::ConnectFailed(IoFault::HostUnreachable)))
    );
}

#[test]
fn sessions_are_independent() {
    let cfg = valid_config();
    let mut session_a = StreamAcceptor::new();
    let mut session_b = StreamAcceptor::new();
    assert_eq!(session_a.on_accept(StreamAccept::Stream), AcceptAction::Spawn);
    let (mut unit_a, _) = ForwardingUnit::start(&cfg);
    assert_eq!(session_b.on_accept(StreamAccept::Stream), AcceptAction::Spawn);
    let (mut unit_b, _) = ForwardingUnit::start(&cfg);
    unit_a.on_dialed(DialOutcome::Connected);
    unit_b.on_dialed(DialOutcome::Connected);

    // Session A closes; its loop stops and its unit sees a reset.
    assert_eq!(session_a.on_accept(StreamAccept::EndOfSession), AcceptAction::Stop);
    unit_a.on_direction_finished(Direction::ToPeer, Err(IoFault::ConnectionReset));

    // Session B goes on accepting and forwarding.
    assert_eq!(session_b.on_accept(StreamAccept::Stream), AcceptAction::Spawn);
    assert_eq!(session_b.stopped(), None);
    unit_b.on_direction_finished(Direction::ToBackend, Ok(8));
    assert_eq!(
        unit_b.on_direction_finished(Direction::ToPeer, Ok(9)),
        UnitAction::Report(Ok((8, 9)))
    );
}

#[test]
fn stream_acceptor_stops_at_end_of_session() {
    let mut acceptor = StreamAcceptor::new();
    assert_eq!(acceptor.on_accept(StreamAccept::EndOfSession), AcceptAction::Stop);
    assert_eq!(acceptor.stopped(), Some(BridgeError::EndOfSession));
    assert_eq!(acceptor.on_accept(StreamAccept::Stream), AcceptAction::Stop);
    assert_eq!(acceptor.stopped(), Some(BridgeError::EndOfSession));
}

#[test]
fn stream_acceptor_stops_on_accept_failure() {
    let mut acceptor = StreamAcceptor::new();
    assert_eq!(acceptor.on_accept(StreamAccept::Stream), AcceptAction::Spawn);
    assert_eq!(
        acceptor.on_accept(StreamAccept::Failed(IoFault::ConnectionAborted)),
        AcceptAction::Stop
    );
    assert_eq!(acceptor.stopped(), Some(BridgeError::StreamAcceptError));
}

#[test]
fn session_accept_failure_is_fatal() {
    assert_eq!(on_session_accept(Ok(())), Ok(AcceptAction::Spawn));
    let e = on_session_accept(Err(IoFault::Other)).unwrap_err();
    assert_eq!(e, BridgeError::ListenError);
    assert!(e.is_fatal());
    assert_eq!(exit_code(e), 1);
    assert_eq!(exit_code(e), LISTEN_FAILURE_EXIT_CODE);
    assert_eq!(exit_code(BridgeError::EndOfSession), 0);
    assert!(!BridgeError::ConnectTimeout.is_fatal());
}

#[test]
fn error_kinds() {
    assert_eq!(BridgeError::InvalidTargetConfig.io_kind(), IoFault::InvalidInput);
    assert_eq!(BridgeError::ConnectTimeout.io_kind(), IoFault::TimedOut);
    assert_eq!(
        BridgeError::ConnectFailed(IoFault::ConnectionRefused).io_kind(),
        IoFault::ConnectionRefused
    );
    assert_eq!(
        BridgeError::ForwardingFailed(IoFault::ConnectionReset).io_kind(),
        IoFault::BrokenPipe
    );
    assert_eq!(BridgeError::EndOfSession.io_kind(), IoFault::UnexpectedEof);
    assert_eq!(BridgeError::ListenError.io_kind(), IoFault::Other);
    assert_eq!(BridgeError::StreamAcceptError.io_kind(), IoFault::Other);
    assert_eq!(BridgeError::SessionAcceptError.io_kind(), IoFault::Other);
}

#[test]
fn ipv6_target_is_dialed_as_configured() {
    let target = Endpoint { ip: IpAddress::V6([0, 0, 0, 0, 0, 0, 0, 1]), port: 8443 };
    let cfg = BridgeConfig::new(Some(target));
    let (unit, action) = ForwardingUnit::start(&cfg);
    assert_eq!(action, UnitAction::Dial(target, 2000));
    assert_eq!(unit.current_phase(), UnitPhase::Dialing);
    assert_eq!(unit.report(), None);
}
