use vstd::prelude::*;

use crate::error::ShardError;
use crate::heartbeat::HeartbeatState;
use crate::intents::GatewayIntents;
use crate::session::SessionState;

verus! {

/// How many consecutive failures to open the transport are tolerated
/// before the shard gives up and surfaces a fatal transport error.
pub const MAX_CONNECT_FAILURES: u64 = 5;

/// How many invalid-session notices may arrive in a row (with no
/// successful handshake in between) before the shard gives up.
pub const MAX_INVALID_SESSIONS: u64 = 3;

/// The lifecycle phase of a shard.
#[derive(Clone, Copy, PartialEq, Eq, Structural, Debug)]
pub enum ShardPhase {
    /// Constructed; no transport yet.
    Disconnected,
    /// The driver is opening the transport.
    Connecting,
    /// The transport is open; waiting for the server's hello frame.
    AwaitingHello,
    /// An identify frame went out; waiting for ready.
    Identifying,
    /// A resume frame went out; waiting for resumed.
    Resuming,
    /// Steady state: frames are dispatched and heartbeats exchanged.
    Connected,
    /// Tearing the transport down before dialing again.
    Reconnecting,
    /// Terminal: explicit shutdown or an unrecoverable error.
    Closed,
}

/// A decoded inbound frame from the gateway.
pub enum Frame {
    /// The server's first frame, announcing the heartbeat interval.
    Hello { heartbeat_interval_ms: u64 },
    /// A new session was established.
    Ready { session_id: String, resume_url: String, sequence: u64 },
    /// A prior session was resumed.
    Resumed,
    /// An application event, numbered by the server.
    Dispatch { sequence: u64, payload: String },
    /// The server asks for an immediate heartbeat.
    HeartbeatRequest,
    /// The server acknowledges the last heartbeat.
    HeartbeatAck,
    /// The server asks the client to reconnect; the session stays valid.
    Reconnect,
    /// The server declares the session invalid; it may still be resumable.
    InvalidSession { resumable: bool },
}

/// One occurrence the connection driver reports to the shard.
pub enum ShardEvent {
    /// The application asked the shard to start connecting.
    Start,
    /// The transport the driver was told to open is now open.
    TransportOpened,
    /// The transport the driver was told to close is now closed.
    TransportClosed,
    /// The transport failed: it could not be opened, a write failed, or
    /// the connection dropped.
    TransportFailed,
    /// The server closed the connection rejecting the credentials.
    AuthFailed,
    /// No hello frame arrived within the driver's handshake window.
    HandshakeTimeout,
    /// The heartbeat deadline was reached.
    TimerFired,
    /// A decoded frame arrived.
    Inbound(Frame),
    /// The application asked for an orderly shutdown.
    Shutdown,
}

/// What the driver must do after a step.
pub enum Action {
    /// Nothing; wait for the next event.
    Continue,
    /// Open the transport after waiting `delay_ms`.
    Connect { delay_ms: u64 },
    /// Send an identify frame built from the shard's token and intents.
    SendIdentify,
    /// Send a resume frame for the given session.
    SendResume { session_id: String, sequence: u64 },
    /// Send a heartbeat frame carrying the current sequence number.
    SendHeartbeat { sequence: Option<u64> },
    /// Hand the payload to the application's event handler, decoupled
    /// from this protocol loop.
    DispatchPayload { payload: String },
    /// Close the transport; the shard decides what follows from the
    /// `TransportClosed` event that the close produces.
    CloseTransport,
    /// Surface a terminal error to the application.
    Fatal { error: ShardError },
}

/// One gateway connection's protocol state machine.
///
/// The shard holds no socket and no clock: the driver owns both, feeds
/// every occurrence in as a [`ShardEvent`] together with the current
/// instant, and performs the [`Action`] each step returns.  Everything
/// the shard decides is specified by [`Shard::step_spec`].
pub struct Shard {
    /// The bearer token used for identify and resume frames.  Kept inside
    /// the shard and read only by the frame writer.
    pub token: String,
    /// The event categories requested at identify; fixed for the life of
    /// the shard.
    pub intents: GatewayIntents,
    /// Randomness supplied at construction, used to jitter the first
    /// heartbeat of every connection.
    pub entropy: u64,
    pub phase: ShardPhase,
    pub session: SessionState,
    pub heartbeat: HeartbeatState,
    /// Consecutive failures to open the transport.
    pub connect_attempts: u64,
    /// Consecutive invalid-session notices since the last successful
    /// handshake.
    pub invalid_session_streak: u64,
    /// The classified cause of the most recent teardown or terminal
    /// failure, for diagnostics; cleared by a successful handshake.
    pub last_error: Option<ShardError>,
}

/// The delay before the retry that follows `failures` consecutive dial
/// failures: exponential from one second, capped.
pub open spec fn backoff_ms(failures: u64) -> u64 {
    if failures == 0 {
        1000
    } else if failures == 1 {
        2000
    } else if failures == 2 {
        4000
    } else if failures == 3 {
        8000
    } else {
        16000
    }
}

/// The jittered delay before the first heartbeat of a connection: a
/// fraction of the interval, drawn from the shard's entropy.
pub open spec fn first_jitter(entropy: u64, interval_ms: u64) -> u64 {
    if interval_ms == 0 {
        0
    } else {
        entropy % interval_ms
    }
}

impl Shard {
    /// The state of a freshly constructed shard.
    pub open spec fn initial_spec(token: String, intents: GatewayIntents, entropy: u64) -> Shard {
        Shard {
            token: token,
            intents: intents,
            entropy: entropy,
            phase: ShardPhase::Disconnected,
            session: SessionState::empty_spec(),
            heartbeat: HeartbeatState::idle_spec(),
            connect_attempts: 0,
            invalid_session_streak: 0,
            last_error: None,
        }
    }

    /// Well-formedness: the retry counters never pass their bounds, so
    /// the bookkeeping arithmetic of every step stays in range.
    pub open spec fn wf(self) -> bool {
        &&& self.connect_attempts < MAX_CONNECT_FAILURES
        &&& self.invalid_session_streak < MAX_INVALID_SESSIONS
    }

    /// Tear the transport down and dial again, keeping the session and
    /// recording why, if the teardown was provoked by a fault.
    pub open spec fn teardown_spec(s: Shard, reason: Option<ShardError>) -> (Shard, Action) {
        (
            Shard { phase: ShardPhase::Reconnecting, last_error: reason, ..s },
            Action::CloseTransport,
        )
    }

    /// A hello frame arrived: arm the heartbeat timer and either resume
    /// the saved session or identify afresh.
    pub open spec fn on_hello_spec(s: Shard, now_ms: u64, interval_ms: u64) -> (Shard, Action) {
        let hb = HeartbeatState::armed_spec(now_ms, interval_ms, first_jitter(s.entropy, interval_ms));
        match s.session.session_id {
            Some(sid) => (
                Shard { phase: ShardPhase::Resuming, heartbeat: hb, ..s },
                Action::SendResume { session_id: sid, sequence: s.session.resume_sequence() },
            ),
            None => (
                Shard { phase: ShardPhase::Identifying, heartbeat: hb, ..s },
                Action::SendIdentify,
            ),
        }
    }

    /// The heartbeat deadline passed: if the previous heartbeat is still
    /// unacknowledged the connection is zombied and is torn down; else a
    /// heartbeat goes out.
    pub open spec fn on_timer_spec(s: Shard, now_ms: u64) -> (Shard, Action) {
        if s.heartbeat.acknowledged {
            (
                Shard { heartbeat: s.heartbeat.after_send_spec(now_ms), ..s },
                Action::SendHeartbeat { sequence: s.session.sequence },
            )
        } else {
            Shard::teardown_spec(s, Some(ShardError::Transport))
        }
    }

    /// An invalid-session notice arrived: the session is forgotten unless
    /// the server marked it resumable, and the connection is torn down;
    /// if such notices keep recurring the shard gives up.
    pub open spec fn on_invalid_session_spec(s: Shard, resumable: bool) -> (Shard, Action) {
        let session = if resumable { s.session } else { SessionState::empty_spec() };
        if s.invalid_session_streak + 1 >= MAX_INVALID_SESSIONS {
            (
                Shard {
                    phase: ShardPhase::Closed,
                    session: session,
                    last_error: Some(ShardError::InvalidSession),
                    ..s
                },
                Action::Fatal { error: ShardError::InvalidSession },
            )
        } else {
            (
                Shard {
                    phase: ShardPhase::Reconnecting,
                    session: session,
                    invalid_session_streak: (s.invalid_session_streak + 1) as u64,
                    last_error: Some(ShardError::InvalidSession),
                    ..s
                },
                Action::CloseTransport,
            )
        }
    }

    /// A frame arrived after the handshake began (identifying, resuming
    /// or connected).
    pub open spec fn on_frame_spec(s: Shard, now_ms: u64, f: Frame) -> (Shard, Action) {
        match f {
            Frame::Hello { heartbeat_interval_ms } => Shard::teardown_spec(s, Some(ShardError::Protocol)),
            Frame::Ready { session_id, resume_url, sequence } => {
                if s.phase is Connected {
                    Shard::teardown_spec(s, Some(ShardError::Protocol))
                } else {
                    (
                        Shard {
                            phase: ShardPhase::Connected,
                            session: SessionState {
                                session_id: Some(session_id),
                                sequence: Some(sequence),
                                resume_url: Some(resume_url),
                            },
                            connect_attempts: 0,
                            invalid_session_streak: 0,
                            last_error: None,
                            ..s
                        },
                        Action::Continue,
                    )
                }
            }
            Frame::Resumed => {
                if s.phase is Connected {
                    Shard::teardown_spec(s, Some(ShardError::Protocol))
                } else {
                    (
                        Shard {
                            phase: ShardPhase::Connected,
                            connect_attempts: 0,
                            invalid_session_streak: 0,
                            last_error: None,
                            ..s
                        },
                        Action::Continue,
                    )
                }
            }
            Frame::Dispatch { sequence, payload } => (
                Shard {
                    session: SessionState {
                        session_id: s.session.session_id,
                        sequence: SessionState::next_sequence(s.session.sequence, sequence),
                        resume_url: s.session.resume_url,
                    },
                    ..s
                },
                Action::DispatchPayload { payload: payload },
            ),
            Frame::HeartbeatRequest => (
                Shard { heartbeat: s.heartbeat.after_send_spec(now_ms), ..s },
                Action::SendHeartbeat { sequence: s.session.sequence },
            ),
            Frame::HeartbeatAck => (
                Shard { heartbeat: s.heartbeat.after_ack_spec(), ..s },
                Action::Continue,
            ),
            Frame::Reconnect => Shard::teardown_spec(s, None),
            Frame::InvalidSession { resumable } => Shard::on_invalid_session_spec(s, resumable),
        }
    }

    /// The transport could not be opened: retry with backoff until the
    /// budget is exhausted, then give up.
    pub open spec fn on_dial_failure_spec(s: Shard) -> (Shard, Action) {
        if s.connect_attempts + 1 >= MAX_CONNECT_FAILURES {
            (
                Shard { phase: ShardPhase::Closed, last_error: Some(ShardError::Transport), ..s },
                Action::Fatal { error: ShardError::Transport },
            )
        } else {
            (
                Shard {
                    connect_attempts: (s.connect_attempts + 1) as u64,
                    last_error: Some(ShardError::Transport),
                    ..s
                },
                Action::Connect { delay_ms: backoff_ms(s.connect_attempts) },
            )
        }
    }

    /// The complete transition function of the shard: from a state, the
    /// current instant and an event to the next state and the action the
    /// driver must perform.
    pub open spec fn step_spec(s: Shard, now_ms: u64, e: ShardEvent) -> (Shard, Action) {
        if s.phase is Closed {
            (s, Action::Continue)
        } else if e is Shutdown {
            (Shard { phase: ShardPhase::Closed, ..s }, Action::CloseTransport)
        } else if e is AuthFailed {
            (
                Shard { phase: ShardPhase::Closed, last_error: Some(ShardError::Auth), ..s },
                Action::Fatal { error: ShardError::Auth },
            )
        } else {
            match s.phase {
                ShardPhase::Disconnected => {
                    if e is Start {
                        (
                            Shard { phase: ShardPhase::Connecting, ..s },
                            Action::Connect { delay_ms: 0 },
                        )
                    } else {
                        (s, Action::Continue)
                    }
                }
                ShardPhase::Connecting => match e {
                    ShardEvent::TransportOpened => (
                        Shard { phase: ShardPhase::AwaitingHello, ..s },
                        Action::Continue,
                    ),
                    ShardEvent::TransportFailed => Shard::on_dial_failure_spec(s),
                    _ => (s, Action::Continue),
                },
                ShardPhase::AwaitingHello => match e {
                    ShardEvent::Inbound(f) => match f {
                        Frame::Hello { heartbeat_interval_ms } =>
                            Shard::on_hello_spec(s, now_ms, heartbeat_interval_ms),
                        _ => Shard::teardown_spec(s, Some(ShardError::Protocol)),
                    },
                    ShardEvent::HandshakeTimeout => Shard::teardown_spec(s, Some(ShardError::Timeout)),
                    ShardEvent::TransportFailed => Shard::teardown_spec(s, Some(ShardError::Transport)),
                    _ => (s, Action::Continue),
                },
                ShardPhase::Identifying | ShardPhase::Resuming | ShardPhase::Connected => match e {
                    ShardEvent::Inbound(f) => Shard::on_frame_spec(s, now_ms, f),
                    ShardEvent::TimerFired => Shard::on_timer_spec(s, now_ms),
                    ShardEvent::TransportFailed => Shard::teardown_spec(s, Some(ShardError::Transport)),
                    _ => (s, Action::Continue),
                },
                ShardPhase::Reconnecting => match e {
                    ShardEvent::TransportClosed => (
                        Shard { phase: ShardPhase::Connecting, ..s },
                        Action::Connect { delay_ms: 0 },
                    ),
                    ShardEvent::TransportFailed => (
                        Shard { phase: ShardPhase::Connecting, ..s },
                        Action::Connect { delay_ms: 0 },
                    ),
                    _ => (s, Action::Continue),
                },
                ShardPhase::Closed => (s, Action::Continue),
            }
        }
    }

    /// Construct a shard.  `entropy` seeds the heartbeat jitter of every
    /// connection this shard opens.
    pub fn new(token: String, intents: GatewayIntents, entropy: u64) -> (s: Shard)
        ensures
            s == Shard::initial_spec(token, intents, entropy),
    {
        Shard {
            token: token,
            intents: intents,
            entropy: entropy,
            phase: ShardPhase::Disconnected,
            session: SessionState::new(),
            heartbeat: HeartbeatState::idle(),
            connect_attempts: 0,
            invalid_session_streak: 0,
            last_error: None,
        }
    }

    /// Ask the shard to start connecting.
    pub fn start(&mut self, now_ms: u64) -> (action: Action)
        ensures
            *final(self) == Shard::step_spec(*old(self), now_ms, ShardEvent::Start).0,
            action == Shard::step_spec(*old(self), now_ms, ShardEvent::Start).1,
    {
        self.step(now_ms, ShardEvent::Start)
    }

    /// Drive the state machine by one event.  The driver reports `event`
    /// at instant `now_ms` and must perform the returned action.
    pub fn step(&mut self, now_ms: u64, event: ShardEvent) -> (action: Action)
        ensures
            *final(self) == Shard::step_spec(*old(self), now_ms, event).0,
            action == Shard::step_spec(*old(self), now_ms, event).1,
    {
        if self.phase == ShardPhase::Closed {
            return Action::Continue;
        }
        if matches!(event, ShardEvent::Shutdown) {
            self.phase = ShardPhase::Closed;
            return Action::CloseTransport;
        }
        if matches!(event, ShardEvent::AuthFailed) {
            self.phase = ShardPhase::Closed;
            self.last_error = Some(ShardError::Auth);
            return Action::Fatal { error: ShardError::Auth };
        }
        match self.phase {
            ShardPhase::Disconnected => {
                if matches!(event, ShardEvent::Start) {
                    self.phase = ShardPhase::Connecting;
                    Action::Connect { delay_ms: 0 }
                } else {
                    Action::Continue
                }
            }
            ShardPhase::Connecting => match event {
                ShardEvent::TransportOpened => {
                    self.phase = ShardPhase::AwaitingHello;
                    Action::Continue
                }
                ShardEvent::TransportFailed => self.on_dial_failure(),
                _ => Action::Continue,
            },
            ShardPhase::AwaitingHello => match event {
                ShardEvent::Inbound(f) => match f {
                    Frame::Hello { heartbeat_interval_ms } => self.on_hello(now_ms, heartbeat_interval_ms),
                    _ => self.teardown(Some(ShardError::Protocol)),
                },
                ShardEvent::HandshakeTimeout => self.teardown(Some(ShardError::Timeout)),
                ShardEvent::TransportFailed => self.teardown(Some(ShardError::Transport)),
                _ => Action::Continue,
            },
            ShardPhase::Identifying | ShardPhase::Resuming | ShardPhase::Connected => match event {
                ShardEvent::Inbound(f) => self.on_frame(now_ms, f),
                ShardEvent::TimerFired => self.on_timer(now_ms),
                ShardEvent::TransportFailed => self.teardown(Some(ShardError::Transport)),
                _ => Action::Continue,
            },
            ShardPhase::Reconnecting => match event {
                ShardEvent::TransportClosed => {
                    self.phase = ShardPhase::Connecting;
                    Action::Connect { delay_ms: 0 }
                }
                ShardEvent::TransportFailed => {
                    self.phase = ShardPhase::Connecting;
                    Action::Connect { delay_ms: 0 }
                }
                _ => Action::Continue,
            },
            ShardPhase::Closed => Action::Continue,
        }
    }

    /// Tear the transport down and reconnect, keeping the session.
    fn teardown(&mut self, reason: Option<ShardError>) -> (action: Action)
        ensures
            *final(self) == Shard::teardown_spec(*old(self), reason).0,
            action == Shard::teardown_spec(*old(self), reason).1,
    {
        self.phase = ShardPhase::Reconnecting;
        self.last_error = reason;
        Action::CloseTransport
    }

    /// Handle the server's hello frame.
    fn on_hello(&mut self, now_ms: u64, interval_ms: u64) -> (action: Action)
        ensures
            *final(self) == Shard::on_hello_spec(*old(self), now_ms, interval_ms).0,
            action == Shard::on_hello_spec(*old(self), now_ms, interval_ms).1,
    {
        let jitter: u64 = if interval_ms == 0 {
            0
        } else {
            self.entropy % interval_ms
        };
        self.heartbeat.arm(now_ms, interval_ms, jitter);
        let saved: Option<String> = match &self.session.session_id {
            Some(sid) => Some(sid.clone()),
            None => None,
        };
        match saved {
            Some(sid) => {
                self.phase = ShardPhase::Resuming;
                let sequence: u64 = match self.session.sequence {
                    Some(n) => n,
                    None => 0,
                };
                Action::SendResume { session_id: sid, sequence }
            }
            None => {
                self.phase = ShardPhase::Identifying;
                Action::SendIdentify
            }
        }
    }

    /// Handle a fired heartbeat deadline.
    fn on_timer(&mut self, now_ms: u64) -> (action: Action)
        ensures
            *final(self) == Shard::on_timer_spec(*old(self), now_ms).0,
            action == Shard::on_timer_spec(*old(self), now_ms).1,
    {
        if self.heartbeat.acknowledged {
            self.heartbeat.record_send(now_ms);
            Action::SendHeartbeat { sequence: self.session.sequence }
        } else {
            self.teardown(Some(ShardError::Transport))
        }
    }

    /// Handle a frame in the identifying, resuming or connected phase.
    fn on_frame(&mut self, now_ms: u64, f: Frame) -> (action: Action)
        ensures
            *final(self) == Shard::on_frame_spec(*old(self), now_ms, f).0,
            action == Shard::on_frame_spec(*old(self), now_ms, f).1,
    {
        match f {
            Frame::Hello { heartbeat_interval_ms: _ } => self.teardown(Some(ShardError::Protocol)),
            Frame::Ready { session_id, resume_url, sequence } => {
                if self.phase == ShardPhase::Connected {
                    self.teardown(Some(ShardError::Protocol))
                } else {
                    self.phase = ShardPhase::Connected;
                    self.session.establish(session_id, resume_url, sequence);
                    self.connect_attempts = 0;
                    self.invalid_session_streak = 0;
                    self.last_error = None;
                    Action::Continue
                }
            }
            Frame::Resumed => {
                if self.phase == ShardPhase::Connected {
                    self.teardown(Some(ShardError::Protocol))
                } else {
                    self.phase = ShardPhase::Connected;
                    self.connect_attempts = 0;
                    self.invalid_session_streak = 0;
                    self.last_error = None;
                    Action::Continue
                }
            }
            Frame::Dispatch { sequence, payload } => {
                self.session.note_sequence(sequence);
                Action::DispatchPayload { payload }
            }
            Frame::HeartbeatRequest => {
                self.heartbeat.record_send(now_ms);
                Action::SendHeartbeat { sequence: self.session.sequence }
            }
            Frame::HeartbeatAck => {
                self.heartbeat.record_ack();
                Action::Continue
            }
            Frame::Reconnect => self.teardown(None),
            Frame::InvalidSession { resumable } => self.on_invalid_session(resumable),
        }
    }

    /// Handle an invalid-session notice.
    fn on_invalid_session(&mut self, resumable: bool) -> (action: Action)
        ensures
            *final(self) == Shard::on_invalid_session_spec(*old(self), resumable).0,
            action == Shard::on_invalid_session_spec(*old(self), resumable).1,
    {
        if !resumable {
            self.session.clear();
        }
        if self.invalid_session_streak >= MAX_INVALID_SESSIONS - 1 {
            self.phase = ShardPhase::Closed;
            self.last_error = Some(ShardError::InvalidSession);
            Action::Fatal { error: ShardError::InvalidSession }
        } else {
            self.phase = ShardPhase::Reconnecting;
            self.invalid_session_streak = self.invalid_session_streak + 1;
            self.last_error = Some(ShardError::InvalidSession);
            Action::CloseTransport
        }
    }

    /// Handle a failure to open the transport.
    fn on_dial_failure(&mut self) -> (action: Action)
        ensures
            *final(self) == Shard::on_dial_failure_spec(*old(self)).0,
            action == Shard::on_dial_failure_spec(*old(self)).1,
    {
        if self.connect_attempts >= MAX_CONNECT_FAILURES - 1 {
            self.phase = ShardPhase::Closed;
            self.last_error = Some(ShardError::Transport);
            Action::Fatal { error: ShardError::Transport }
        } else {
            let delay: u64 = backoff_delay(self.connect_attempts);
            self.connect_attempts = self.connect_attempts + 1;
            self.last_error = Some(ShardError::Transport);
            Action::Connect { delay_ms: delay }
        }
    }
}

/// The backoff delay after `failures` consecutive dial failures.
pub fn backoff_delay(failures: u64) -> (r: u64)
    ensures
        r == backoff_ms(failures),
{
    if failures == 0 {
        1000
    } else if failures == 1 {
        2000
    } else if failures == 2 {
        4000
    } else if failures == 3 {
        8000
    } else {
        16000
    }
}

} // verus!
