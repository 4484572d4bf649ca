use gateway_client::heartbeat::{saturating_add, HeartbeatState};
use gateway_client::session::SessionState;
use gateway_client::shard::backoff_delay;

#[test]
fn sequence_counter_keeps_maximum() {
    let mut session = SessionState::new();
    assert_eq!(session.sequence, None);
    session.note_sequence(5);
    assert_eq!(session.sequence, Some(5));
    session.note_sequence(3);
    assert_eq!(session.sequence, Some(5));
    session.note_sequence(7);
    assert_eq!(session.sequence, Some(7));
    session.note_sequence(7);
    assert_eq!(session.sequence, Some(7));
}

#[test]
fn establish_then_clear_session() {
    let mut session = SessionState::new();
    session.establish("id".to_string(), "wss://u".to_string(), 42);
    assert_eq!(session.session_id, Some("id".to_string()));
    assert_eq!(session.resume_url, Some("wss://u".to_string()));
    assert_eq!(session.sequence, Some(42));
    session.clear();
    assert_eq!(session.session_id, None);
    assert_eq!(session.resume_url, None);
    assert_eq!(session.sequence, None);
}

#[test]
fn heartbeat_arm_send_ack_cycle() {
    let mut hb = HeartbeatState::idle();
    assert!(hb.acknowledged);
    assert_eq!(hb.next_deadline(), u64::MAX);

    hb.arm(100, 45_000, 300);
    assert!(hb.acknowledged);
    assert_eq!(hb.last_sent_ms, None);
    assert_eq!(hb.next_deadline(), 400);

    hb.record_send(400);
    assert!(!hb.acknowledged);
    assert_eq!(hb.last_sent_ms, Some(400));
    assert_eq!(hb.next_deadline(), 45_400);

    hb.record_ack();
    assert!(hb.acknowledged);
    // the next deadline stays relative to the send, not to the ack
    assert_eq!(hb.next_deadline(), 45_400);
}

#[test]
fn instant_addition_saturates() {
    assert_eq!(saturating_add(3, 4), 7);
    assert_eq!(saturating_add(u64::MAX - 1, 1), u64::MAX);
    assert_eq!(saturating_add(u64::MAX - 1, 5), u64::MAX);
    assert_eq!(saturating_add(0, u64::MAX), u64::MAX);
}

#[test]
fn backoff_delays_are_exponential_and_capped() {
    assert_eq!(backoff_delay(0), 1000);
    assert_eq!(backoff_delay(1), 2000);
    assert_eq!(backoff_delay(2), 4000);
    assert_eq!(backoff_delay(3), 8000);
    assert_eq!(backoff_delay(4), 16_000);
    assert_eq!(backoff_delay(100), 16_000);
}
