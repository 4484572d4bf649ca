use vstd::prelude::*;

verus! {

/// The error taxonomy of the connection core.
///
/// Only `Auth`, an exhausted retry budget (`Transport`) and a session that
/// keeps being invalidated (`InvalidSession`) ever surface to the
/// application; everything else is handled inside the reconnect loop.
#[derive(Clone, Copy, PartialEq, Eq, Structural, Debug)]
pub enum ShardError {
    /// A socket-level failure; retried with bounded backoff.
    Transport,
    /// A handshake deadline was missed; treated like a transport failure.
    Timeout,
    /// A malformed or out-of-order frame arrived.
    Protocol,
    /// The server rejected the credentials; fatal, never retried.
    Auth,
    /// The server declared the session invalid too many times in a row.
    InvalidSession,
}

} // verus!
