use vstd::prelude::*;

verus! {

/// Liveness bookkeeping for one connection.
///
/// The server announces an interval in its hello frame; the shard must
/// send a heartbeat at that cadence and the server must acknowledge each
/// one.  `acknowledged` starts true, turns false the moment a heartbeat is
/// sent and turns true again only when an acknowledgment arrives.  If the
/// deadline for the next heartbeat passes while `acknowledged` is still
/// false, the connection is zombied and must be torn down.
///
/// All instants are milliseconds on the driver's monotonic clock.
pub struct HeartbeatState {
    pub interval_ms: u64,
    pub last_sent_ms: Option<u64>,
    pub acknowledged: bool,
    pub next_deadline_ms: u64,
}

/// `a + b`, stopping at the largest representable instant.
pub open spec fn saturating_add_ms(a: u64, b: u64) -> u64 {
    if a + b <= u64::MAX {
        (a + b) as u64
    } else {
        u64::MAX
    }
}

impl HeartbeatState {
    /// The state before any hello has arrived: no timer is armed, so the
    /// deadline sits at the end of time and no heartbeat is owed.
    pub open spec fn idle_spec() -> HeartbeatState {
        HeartbeatState {
            interval_ms: 0,
            last_sent_ms: None,
            acknowledged: true,
            next_deadline_ms: u64::MAX,
        }
    }

    /// The state right after a hello frame armed the timer at `now_ms`:
    /// the first heartbeat is owed after an initial jittered delay, and
    /// nothing is awaiting acknowledgment yet.
    pub open spec fn armed_spec(now_ms: u64, interval_ms: u64, jitter_ms: u64) -> HeartbeatState {
        HeartbeatState {
            interval_ms: interval_ms,
            last_sent_ms: None,
            acknowledged: true,
            next_deadline_ms: saturating_add_ms(now_ms, jitter_ms),
        }
    }

    /// The state right after a heartbeat went out at `now_ms`: the send is
    /// recorded, an acknowledgment is now owed, and the next heartbeat is
    /// due one full interval later.
    pub open spec fn after_send_spec(self, now_ms: u64) -> HeartbeatState {
        HeartbeatState {
            interval_ms: self.interval_ms,
            last_sent_ms: Some(now_ms),
            acknowledged: false,
            next_deadline_ms: saturating_add_ms(now_ms, self.interval_ms),
        }
    }

    /// The state after the server acknowledged the outstanding heartbeat.
    pub open spec fn after_ack_spec(self) -> HeartbeatState {
        HeartbeatState {
            interval_ms: self.interval_ms,
            last_sent_ms: self.last_sent_ms,
            acknowledged: true,
            next_deadline_ms: self.next_deadline_ms,
        }
    }

    /// A fresh, unarmed heartbeat record.
    pub fn idle() -> (h: HeartbeatState)
        ensures
            h == HeartbeatState::idle_spec(),
    {
        HeartbeatState {
            interval_ms: 0,
            last_sent_ms: None,
            acknowledged: true,
            next_deadline_ms: u64::MAX,
        }
    }

    /// Arm the timer with the interval a hello frame announced.  The first
    /// deadline is jittered to avoid a thundering herd of heartbeats when
    /// many shards connect at once.
    pub fn arm(&mut self, now_ms: u64, interval_ms: u64, jitter_ms: u64)
        ensures
            *final(self) == HeartbeatState::armed_spec(now_ms, interval_ms, jitter_ms),
    {
        self.interval_ms = interval_ms;
        self.last_sent_ms = None;
        self.acknowledged = true;
        self.next_deadline_ms = saturating_add(now_ms, jitter_ms);
    }

    /// Record that a heartbeat was sent at `now_ms`.
    pub fn record_send(&mut self, now_ms: u64)
        ensures
            *final(self) == old(self).after_send_spec(now_ms),
    {
        self.last_sent_ms = Some(now_ms);
        self.acknowledged = false;
        self.next_deadline_ms = saturating_add(now_ms, self.interval_ms);
    }

    /// Record that the server acknowledged the outstanding heartbeat.
    pub fn record_ack(&mut self)
        ensures
            *final(self) == old(self).after_ack_spec(),
    {
        self.acknowledged = true;
    }

    /// The instant at which the next heartbeat is due.
    pub fn next_deadline(&self) -> (r: u64)
        ensures
            r == self.next_deadline_ms,
    {
        self.next_deadline_ms
    }
}

/// `a + b` in milliseconds, stopping at the largest representable instant.
pub fn saturating_add(a: u64, b: u64) -> (r: u64)
    ensures
        r == saturating_add_ms(a, b),
{
    if b <= u64::MAX - a {
        a + b
    } else {
        u64::MAX
    }
}

} // verus!
