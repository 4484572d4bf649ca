use gateway_client::error::ShardError;
use gateway_client::intents::GatewayIntents;
use gateway_client::shard::{Action, Frame, Shard, ShardEvent, ShardPhase};

fn fresh_shard(entropy: u64) -> Shard {
    Shard::new("bot-token".to_string(), GatewayIntents::from_bits(513), entropy)
}

/// Walks a fresh shard to the steady state: hello at 45 s, identify,
/// ready with session id "abc" and sequence 1, first heartbeat, ack.
#[test]
fn hello_identify_ready_heartbeat_ack() {
    let mut shard = fresh_shard(30_000);
    assert_eq!(shard.phase, ShardPhase::Disconnected);

    let a = shard.start(0);
    assert!(matches!(a, Action::Connect { delay_ms: 0 }));
    assert_eq!(shard.phase, ShardPhase::Connecting);

    let a = shard.step(500, ShardEvent::TransportOpened);
    assert!(matches!(a, Action::Continue));
    assert_eq!(shard.phase, ShardPhase::AwaitingHello);

    let a = shard.step(1000, ShardEvent::Inbound(Frame::Hello { heartbeat_interval_ms: 45_000 }));
    assert!(matches!(a, Action::SendIdentify));
    assert_eq!(shard.phase, ShardPhase::Identifying);
    assert!(shard.heartbeat.acknowledged);
    // first heartbeat is jittered: 30000 % 45000 = 30000 after the hello
    assert_eq!(shard.heartbeat.next_deadline_ms, 31_000);

    let a = shard.step(
        2000,
        ShardEvent::Inbound(Frame::Ready {
            session_id: "abc".to_string(),
            resume_url: "wss://resume.example".to_string(),
            sequence: 1,
        }),
    );
    assert!(matches!(a, Action::Continue));
    assert_eq!(shard.phase, ShardPhase::Connected);
    assert_eq!(shard.session.session_id, Some("abc".to_string()));
    assert_eq!(shard.session.sequence, Some(1));

    let a = shard.step(31_000, ShardEvent::TimerFired);
    match a {
        Action::SendHeartbeat { sequence } => assert_eq!(sequence, Some(1)),
        _ => panic!("expected a heartbeat send"),
    }
    assert!(!shard.heartbeat.acknowledged);
    assert_eq!(shard.heartbeat.last_sent_ms, Some(31_000));
    assert_eq!(shard.heartbeat.next_deadline_ms, 76_000);

    let a = shard.step(31_200, ShardEvent::Inbound(Frame::HeartbeatAck));
    assert!(matches!(a, Action::Continue));
    assert!(shard.heartbeat.acknowledged);
    assert_eq!(shard.phase, ShardPhase::Connected);
    assert_eq!(shard.session.session_id, Some("abc".to_string()));
}

/// A connected shard at sequence 10 misses an acknowledgment: at the next
/// deadline it tears the connection down, redials, and resumes with the
/// saved session id and sequence 10.
#[test]
fn missed_ack_tears_down_and_resumes() {
    let mut shard = fresh_shard(0);
    shard.start(0);
    shard.step(0, ShardEvent::TransportOpened);
    shard.step(0, ShardEvent::Inbound(Frame::Hello { heartbeat_interval_ms: 45_000 }));
    shard.step(
        0,
        ShardEvent::Inbound(Frame::Ready {
            session_id: "abc".to_string(),
            resume_url: "wss://resume.example".to_string(),
            sequence: 1,
        }),
    );
    shard.step(
        10,
        ShardEvent::Inbound(Frame::Dispatch { sequence: 10, payload: "evt".to_string() }),
    );
    assert_eq!(shard.session.sequence, Some(10));

    let a = shard.step(100, ShardEvent::TimerFired);
    assert!(matches!(a, Action::SendHeartbeat { .. }));
    assert!(!shard.heartbeat.acknowledged);

    // no ack arrives before the next deadline
    let a = shard.step(45_100, ShardEvent::TimerFired);
    assert!(matches!(a, Action::CloseTransport));
    assert_eq!(shard.phase, ShardPhase::Reconnecting);
    assert_eq!(shard.last_error, Some(ShardError::Transport));

    let a = shard.step(45_150, ShardEvent::TransportClosed);
    assert!(matches!(a, Action::Connect { .. }));
    assert_eq!(shard.phase, ShardPhase::Connecting);

    shard.step(45_500, ShardEvent::TransportOpened);
    let a = shard.step(46_000, ShardEvent::Inbound(Frame::Hello { heartbeat_interval_ms: 45_000 }));
    match a {
        Action::SendResume { session_id, sequence } => {
            assert_eq!(session_id, "abc".to_string());
            assert_eq!(sequence, 10);
        }
        _ => panic!("expected a resume after a zombied connection"),
    }
    assert_eq!(shard.phase, ShardPhase::Resuming);
}

/// The server closes the connection rejecting the token: the failure is
/// terminal and no reconnect is ever attempted.
#[test]
fn auth_failure_is_fatal_and_final() {
    let mut shard = fresh_shard(0);
    shard.start(0);
    shard.step(0, ShardEvent::TransportOpened);
    let a = shard.step(0, ShardEvent::Inbound(Frame::Hello { heartbeat_interval_ms: 45_000 }));
    assert!(matches!(a, Action::SendIdentify));

    let a = shard.step(50, ShardEvent::AuthFailed);
    match a {
        Action::Fatal { error } => assert_eq!(error, ShardError::Auth),
        _ => panic!("expected a fatal auth error"),
    }
    assert_eq!(shard.phase, ShardPhase::Closed);
    assert_eq!(shard.last_error, Some(ShardError::Auth));

    // closed is terminal: nothing triggers a reconnect
    assert!(matches!(shard.step(60, ShardEvent::TransportClosed), Action::Continue));
    assert!(matches!(shard.step(70, ShardEvent::TimerFired), Action::Continue));
    assert!(matches!(shard.step(80, ShardEvent::Start), Action::Continue));
    assert_eq!(shard.phase, ShardPhase::Closed);
}
