use vstd::prelude::*;

verus! {

/// The per-connection session record: the identity handed out by the
/// server on a successful handshake, the highest sequence number seen so
/// far, and the URL the server asked us to reconnect to for a resume.
pub struct SessionState {
    pub session_id: Option<String>,
    pub sequence: Option<u64>,
    pub resume_url: Option<String>,
}

impl SessionState {
    /// The session record of a shard that has never completed a handshake.
    pub open spec fn empty_spec() -> SessionState {
        SessionState { session_id: None, sequence: None, resume_url: None }
    }

    /// The sequence counter after a dispatch frame numbered `n` arrives:
    /// the maximum sequence number seen so far.
    pub open spec fn next_sequence(cur: Option<u64>, n: u64) -> Option<u64> {
        match cur {
            Some(m) => if m >= n { Some(m) } else { Some(n) },
            None => Some(n),
        }
    }

    /// Whether the session can be resumed instead of re-identified.
    pub open spec fn is_resumable(self) -> bool {
        self.session_id is Some
    }

    /// The sequence number a resume frame must carry: the last one seen,
    /// or zero if no dispatch frame ever arrived.
    pub open spec fn resume_sequence(self) -> u64 {
        match self.sequence {
            Some(n) => n,
            None => 0,
        }
    }

    /// A fresh, empty session record.
    pub fn new() -> (s: SessionState)
        ensures
            s == SessionState::empty_spec(),
    {
        SessionState { session_id: None, sequence: None, resume_url: None }
    }

    /// Record the sequence number of a dispatch frame, keeping the counter
    /// at the maximum seen.
    pub fn note_sequence(&mut self, n: u64)
        ensures
            final(self).sequence == SessionState::next_sequence(old(self).sequence, n),
            final(self).session_id == old(self).session_id,
            final(self).resume_url == old(self).resume_url,
    {
        match self.sequence {
            Some(m) => {
                if n > m {
                    self.sequence = Some(n);
                }
            }
            None => {
                self.sequence = Some(n);
            }
        }
    }

    /// Repopulate the record from a `ready` frame.
    pub fn establish(&mut self, session_id: String, resume_url: String, sequence: u64)
        ensures
            *final(self) == (SessionState {
                session_id: Some(session_id),
                sequence: Some(sequence),
                resume_url: Some(resume_url),
            }),
    {
        self.session_id = Some(session_id);
        self.sequence = Some(sequence);
        self.resume_url = Some(resume_url);
    }

    /// Forget the session entirely, as demanded by a non-resumable
    /// invalid-session notice.
    pub fn clear(&mut self)
        ensures
            *final(self) == SessionState::empty_spec(),
    {
        self.session_id = None;
        self.sequence = None;
        self.resume_url = None;
    }
}

/// The sequence counter after a whole run of dispatch frames, numbered by
/// `seqs`, has been recorded in order.
pub open spec fn apply_sequences(cur: Option<u64>, seqs: Seq<u64>) -> Option<u64>
    decreases seqs.len(),
{
    if seqs.len() == 0 {
        cur
    } else {
        apply_sequences(SessionState::next_sequence(cur, seqs[0]), seqs.drop_first())
    }
}

/// The largest element of a non-empty sequence of numbers.
pub open spec fn max_sequence(seqs: Seq<u64>) -> u64
    decreases seqs.len(),
{
    if seqs.len() <= 1 {
        seqs[0]
    } else if seqs[0] >= max_sequence(seqs.drop_first()) {
        seqs[0]
    } else {
        max_sequence(seqs.drop_first())
    }
}

/// The sequence counter tracks the maximum sequence number seen: after any
/// run of dispatch frames, the counter equals the largest number among the
/// run and whatever the counter held before.
pub proof fn lemma_sequence_is_max(cur: Option<u64>, seqs: Seq<u64>)
    requires
        seqs.len() > 0,
    ensures
        apply_sequences(cur, seqs) == (Some(match cur {
            Some(m) => if m >= max_sequence(seqs) { m } else { max_sequence(seqs) },
            None => max_sequence(seqs),
        })),
    decreases seqs.len(),
{
    if seqs.len() == 1 {
    } else {
        lemma_sequence_is_max(SessionState::next_sequence(cur, seqs[0]), seqs.drop_first());
    }
}

} // verus!
