use vstd::prelude::*;

use crate::session::apply_sequences;
use crate::session::max_sequence;
use crate::session::lemma_sequence_is_max;
use crate::session::SessionState;
use crate::shard::Action;
use crate::shard::Frame;
use crate::shard::Shard;
use crate::shard::ShardEvent;

verus! {

/// A closed shard is terminal: no event changes it and no action is
/// ever requested again.
pub proof fn lemma_closed_is_terminal(s: Shard, now_ms: u64, e: ShardEvent)
    requires
        s.phase is Closed,
    ensures
        Shard::step_spec(s, now_ms, e).0 == s,
        Shard::step_spec(s, now_ms, e).1 is Continue,
{
}

/// The credentials, the intents and the jitter entropy never change: no
/// step rewrites what the shard was constructed with.
pub proof fn lemma_identity_is_stable(s: Shard, now_ms: u64, e: ShardEvent)
    ensures
        Shard::step_spec(s, now_ms, e).0.token == s.token,
        Shard::step_spec(s, now_ms, e).0.intents == s.intents,
        Shard::step_spec(s, now_ms, e).0.entropy == s.entropy,
{
}

/// A freshly constructed shard is well-formed, and every step keeps it
/// so: the retry counters never pass their bounds.
pub proof fn lemma_wf_is_preserved(s: Shard, now_ms: u64, e: ShardEvent, token: String)
    ensures
        Shard::initial_spec(token, s.intents, s.entropy).wf(),
        s.wf() ==> Shard::step_spec(s, now_ms, e).0.wf(),
{
}

/// Whenever a step asks the driver to send a heartbeat, the shard has
/// recorded that an acknowledgment is now owed.
pub proof fn lemma_heartbeat_send_awaits_ack(s: Shard, now_ms: u64, e: ShardEvent)
    ensures
        Shard::step_spec(s, now_ms, e).1 is SendHeartbeat
            ==> !Shard::step_spec(s, now_ms, e).0.heartbeat.acknowledged,
{
}

/// Once a heartbeat is unacknowledged it stays unacknowledged until the
/// server acknowledges it or a new connection's hello frame re-arms the
/// heartbeat bookkeeping: no other event sets `acknowledged`.
pub proof fn lemma_unacknowledged_persists(s: Shard, now_ms: u64, e: ShardEvent)
    requires
        !s.heartbeat.acknowledged,
        !(e matches ShardEvent::Inbound(Frame::HeartbeatAck)),
        !(e matches ShardEvent::Inbound(Frame::Hello { .. })),
    ensures
        !Shard::step_spec(s, now_ms, e).0.heartbeat.acknowledged,
{
}

/// A zombied connection is detected exactly once: when the heartbeat
/// deadline passes with the previous heartbeat unacknowledged, a
/// connected shard moves to `Reconnecting` and asks for one teardown,
/// and a further deadline in `Reconnecting` changes nothing.
pub proof fn lemma_zombie_reconnects_exactly_once(s: Shard, now_ms: u64, later_ms: u64)
    requires
        s.phase is Connected,
        !s.heartbeat.acknowledged,
    ensures
        Shard::step_spec(s, now_ms, ShardEvent::TimerFired).0.phase is Reconnecting,
        Shard::step_spec(s, now_ms, ShardEvent::TimerFired).1 is CloseTransport,
        Shard::step_spec(
            Shard::step_spec(s, now_ms, ShardEvent::TimerFired).0,
            later_ms,
            ShardEvent::TimerFired,
        ).0 == Shard::step_spec(s, now_ms, ShardEvent::TimerFired).0,
        Shard::step_spec(
            Shard::step_spec(s, now_ms, ShardEvent::TimerFired).0,
            later_ms,
            ShardEvent::TimerFired,
        ).1 is Continue,
{
}

/// A resume is attempted if and only if a session id is saved when the
/// hello frame arrives; otherwise a fresh identify is sent.  A resume
/// carries exactly the saved session id and the last sequence seen.
pub proof fn lemma_resume_iff_session_saved(s: Shard, now_ms: u64, interval_ms: u64)
    requires
        s.phase is AwaitingHello,
    ensures
        ({
            let r = Shard::step_spec(
                s,
                now_ms,
                ShardEvent::Inbound(Frame::Hello { heartbeat_interval_ms: interval_ms }),
            );
            &&& (r.1 is SendResume <==> s.session.session_id is Some)
            &&& (r.1 is SendIdentify <==> s.session.session_id is None)
            &&& (r.0.phase is Resuming <==> s.session.session_id is Some)
            &&& (r.0.phase is Identifying <==> s.session.session_id is None)
            &&& (r.1 matches Action::SendResume { session_id, sequence }
                ==> Some(session_id) == s.session.session_id
                    && sequence == s.session.resume_sequence())
        }),
{
}

/// A shutdown request moves any shard to `Closed` in one step, and never
/// sends another heartbeat, identify or resume frame on the way out.
pub proof fn lemma_shutdown_closes_quietly(s: Shard, now_ms: u64)
    ensures
        Shard::step_spec(s, now_ms, ShardEvent::Shutdown).0.phase is Closed,
        !(Shard::step_spec(s, now_ms, ShardEvent::Shutdown).1 is SendHeartbeat),
        !(Shard::step_spec(s, now_ms, ShardEvent::Shutdown).1 is SendIdentify),
        !(Shard::step_spec(s, now_ms, ShardEvent::Shutdown).1 is SendResume),
{
}

/// The shard after a run of dispatch frames, numbered and loaded as
/// given, has been fed to a connected shard in order.
pub open spec fn run_dispatches(s: Shard, now_ms: u64, frames: Seq<(u64, String)>) -> Shard
    decreases frames.len(),
{
    if frames.len() == 0 {
        s
    } else {
        run_dispatches(
            Shard::step_spec(
                s,
                now_ms,
                ShardEvent::Inbound(Frame::Dispatch { sequence: frames[0].0, payload: frames[0].1 }),
            ).0,
            now_ms,
            frames.drop_first(),
        )
    }
}

/// Feeding dispatch frames to a connected shard keeps it connected and
/// folds their sequence numbers into the session's counter one by one.
pub proof fn lemma_dispatches_fold_sequences(s: Shard, now_ms: u64, frames: Seq<(u64, String)>)
    requires
        s.phase is Connected,
    ensures
        run_dispatches(s, now_ms, frames).phase is Connected,
        run_dispatches(s, now_ms, frames).session.sequence == apply_sequences(
            s.session.sequence,
            frames.map_values(|p: (u64, String)| p.0),
        ),
    decreases frames.len(),
{
    let seqs = frames.map_values(|p: (u64, String)| p.0);
    if frames.len() == 0 {
        assert(seqs.len() == 0);
    } else {
        let s1 = Shard::step_spec(
            s,
            now_ms,
            ShardEvent::Inbound(Frame::Dispatch { sequence: frames[0].0, payload: frames[0].1 }),
        ).0;
        assert(s1.phase is Connected);
        assert(s1.session.sequence == SessionState::next_sequence(s.session.sequence, frames[0].0));
        lemma_dispatches_fold_sequences(s1, now_ms, frames.drop_first());
        assert(frames.drop_first().map_values(|p: (u64, String)| p.0) =~= seqs.drop_first());
    }
}

/// The session's sequence counter equals the maximum sequence number
/// seen: after any non-empty run of dispatch frames reaches a connected
/// shard, the counter is the largest number among the run and whatever
/// the counter held before the run.
pub proof fn lemma_sequence_is_maximum_seen(s: Shard, now_ms: u64, frames: Seq<(u64, String)>)
    requires
        s.phase is Connected,
        frames.len() > 0,
    ensures
        ({
            let seqs = frames.map_values(|p: (u64, String)| p.0);
            run_dispatches(s, now_ms, frames).session.sequence == (Some(
                match s.session.sequence {
                    Some(m) => if m >= max_sequence(seqs) { m } else { max_sequence(seqs) },
                    None => max_sequence(seqs),
                },
            ))
        }),
{
    let seqs = frames.map_values(|p: (u64, String)| p.0);
    lemma_dispatches_fold_sequences(s, now_ms, frames);
    lemma_sequence_is_max(s.session.sequence, seqs);
}

} // verus!
