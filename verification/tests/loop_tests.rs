//! Tests of the connectivity machines: the session loop's uniform error
//! recovery and publish cycle, and the link supervisor's unending
//! reconnection.

use bmp180_agent::link::{link_command, link_step, LinkCommand, LinkEvent, LinkState};
use bmp180_agent::session::{
    broker_host, client_id, topic, SessionCommand, SessionEvent, SessionLoop, BROKER_PORT,
    PACING_MS, PUBLISH_PERIOD_MS, PUBLISH_QOS, PUBLISH_RETAIN,
};

/// The published example coefficient set, laid out as the sensor's raw
/// big-endian calibration block. UT = 27898 (bytes 108, 250) computes to
/// 15.04 degrees Celsius under it.
fn sample_block() -> [u8; 22] {
    [
        1, 152, 255, 184, 199, 209, 127, 229, 127, 245, 90, 113, 24, 46, 0, 4, 128, 0, 221, 249,
        11, 52,
    ]
}

#[test]
fn resolver_failure_never_reaches_connect() {
    let mut session = SessionLoop::new(&sample_block());
    assert_eq!(session.initial_command(), SessionCommand::Pace);
    for _ in 0..5 {
        let cmd = session.step(SessionEvent::DelayElapsed);
        assert_eq!(cmd, SessionCommand::ResolveBroker);
        let cmd = session.step(SessionEvent::ResolveFailed);
        // Back to the pacing delay: the iteration restarts, no connect.
        assert_eq!(cmd, SessionCommand::Pace);
    }
}

#[test]
fn handshake_network_error_restarts_iteration() {
    let mut session = SessionLoop::new(&sample_block());
    assert_eq!(
        session.step(SessionEvent::DelayElapsed),
        SessionCommand::ResolveBroker
    );
    assert_eq!(
        session.step(SessionEvent::Resolved { addr: 0xc0a80101 }),
        SessionCommand::ConnectBroker { addr: 0xc0a80101 }
    );
    assert_eq!(session.step(SessionEvent::Connected), SessionCommand::Handshake);
    // A network error answers with a full restart, not a retried handshake.
    assert_eq!(
        session.step(SessionEvent::HandshakeNetworkError),
        SessionCommand::Pace
    );
    // The next iteration begins from resolution again.
    assert_eq!(
        session.step(SessionEvent::DelayElapsed),
        SessionCommand::ResolveBroker
    );
}

#[test]
fn handshake_refusal_restarts_iteration() {
    let mut session = SessionLoop::new(&sample_block());
    session.step(SessionEvent::DelayElapsed);
    session.step(SessionEvent::Resolved { addr: 1 });
    session.step(SessionEvent::Connected);
    assert_eq!(
        session.step(SessionEvent::HandshakeRefused { code: 135 }),
        SessionCommand::Pace
    );
}

#[test]
fn connect_failure_restarts_iteration() {
    let mut session = SessionLoop::new(&sample_block());
    session.step(SessionEvent::DelayElapsed);
    session.step(SessionEvent::Resolved { addr: 7 });
    assert_eq!(session.step(SessionEvent::ConnectFailed), SessionCommand::Pace);
}

#[test]
fn steady_cycles_publish_each_reading() {
    let mut session = SessionLoop::new(&sample_block());
    session.step(SessionEvent::DelayElapsed);
    session.step(SessionEvent::Resolved { addr: 0x0a000001 });
    session.step(SessionEvent::Connected);
    assert_eq!(session.step(SessionEvent::HandshakeOk), SessionCommand::Measure);

    let mut publishes: usize = 0;
    for _ in 0..3 {
        let cmd = session.step(SessionEvent::Measured { msb: 108, lsb: 250 });
        assert_eq!(
            cmd,
            SessionCommand::Publish {
                payload: b"15.04".to_vec()
            }
        );
        publishes += 1;
        assert_eq!(session.step(SessionEvent::PublishOk), SessionCommand::IdleWait);
        assert_eq!(session.step(SessionEvent::DelayElapsed), SessionCommand::Measure);
    }
    assert_eq!(publishes, 3);

    // The first induced publish failure tears the session down.
    session.step(SessionEvent::Measured { msb: 108, lsb: 250 });
    assert_eq!(
        session.step(SessionEvent::PublishNetworkError),
        SessionCommand::Pace
    );
    assert_eq!(
        session.step(SessionEvent::DelayElapsed),
        SessionCommand::ResolveBroker
    );
}

#[test]
fn publish_payload_tracks_the_reading() {
    let mut session = SessionLoop::new(&sample_block());
    session.step(SessionEvent::DelayElapsed);
    session.step(SessionEvent::Resolved { addr: 2 });
    session.step(SessionEvent::Connected);
    session.step(SessionEvent::HandshakeOk);
    // UT = 25600 (bytes 100, 0) computes to a different reading.
    let cmd = session.step(SessionEvent::Measured { msb: 100, lsb: 0 });
    match cmd {
        SessionCommand::Publish { payload } => {
            assert_ne!(payload, b"15.04".to_vec());
            let dot = payload.iter().position(|&b| b == b'.').unwrap();
            assert_eq!(dot, payload.len() - 3);
        }
        other => panic!("expected a publish, got {:?}", other),
    }
}

#[test]
fn mid_session_bus_error_restarts_iteration() {
    let mut session = SessionLoop::new(&sample_block());
    session.step(SessionEvent::DelayElapsed);
    session.step(SessionEvent::Resolved { addr: 2 });
    session.step(SessionEvent::Connected);
    session.step(SessionEvent::HandshakeOk);
    assert_eq!(session.step(SessionEvent::MeasureFailed), SessionCommand::Pace);
}

#[test]
fn degenerate_reading_restarts_iteration() {
    // A block whose compensation formula is undefined at raw reading 2:
    // ac5 = 16384, ac6 = 0, md = -1, all else zero.
    let mut block = [0u8; 22];
    block[8] = 64;
    block[20] = 255;
    block[21] = 255;
    let mut session = SessionLoop::new(&block);
    session.step(SessionEvent::DelayElapsed);
    session.step(SessionEvent::Resolved { addr: 2 });
    session.step(SessionEvent::Connected);
    session.step(SessionEvent::HandshakeOk);
    assert_eq!(
        session.step(SessionEvent::Measured { msb: 0, lsb: 2 }),
        SessionCommand::Pace
    );
}

#[test]
fn session_constants_are_fixed() {
    assert_eq!(broker_host(), "broker.hivemq.com");
    assert_eq!(client_id(), "clientId-8rhWgBODCl");
    assert_eq!(topic(), "temperature/1");
    assert_eq!(BROKER_PORT, 1883);
    assert_eq!(PACING_MS, 1000);
    assert_eq!(PUBLISH_PERIOD_MS, 3000);
    assert_eq!(PUBLISH_QOS, 1);
    assert!(PUBLISH_RETAIN);
}

#[test]
fn supervisor_reconnects_after_every_disconnect() {
    let mut state = LinkState::Disconnected;
    assert_eq!(link_command(state), LinkCommand::ConfigureAndStart);
    let (next, backoff) = link_step(state, LinkEvent::StartOk);
    assert!(!backoff);
    state = next;
    for _ in 0..4 {
        assert_eq!(link_command(state), LinkCommand::AttemptConnect);
        let (next, backoff) = link_step(state, LinkEvent::ConnectOk);
        assert!(!backoff);
        state = next;
        assert_eq!(link_command(state), LinkCommand::AwaitDisconnect);
        let (next, backoff) = link_step(state, LinkEvent::DisconnectObserved);
        // Every disconnect is answered with a backoff and a reconnection
        // attempt; the loop never ends.
        assert!(backoff);
        assert_eq!(next, LinkState::Connecting);
        state = next;
    }
}

#[test]
fn supervisor_retries_failed_activation_flatly() {
    let (next, backoff) = link_step(LinkState::Disconnected, LinkEvent::StartFailed);
    assert!(backoff);
    assert_eq!(next, LinkState::Disconnected);
    assert_eq!(link_command(next), LinkCommand::ConfigureAndStart);
    let (next, backoff) = link_step(LinkState::Connecting, LinkEvent::ConnectFailed);
    assert!(backoff);
    assert_eq!(next, LinkState::Connecting);
    assert_eq!(link_command(next), LinkCommand::AttemptConnect);
}
