use vstd::prelude::*;

use crate::intents::GatewayIntents;
use crate::shard::Shard;

verus! {

/// Callbacks supplied by the application; one per event category the
/// gateway can dispatch.  A handler may block: the connection driver must
/// invoke it decoupled from the protocol loop, so a slow handler can
/// never delay a heartbeat.
pub trait EventHandler {
    /// An application event arrived, with its decoded payload.
    fn on_event(&mut self, payload: &String);
}

/// Builder for a [`Client`]: pure construction, no I/O.
pub struct ClientBuilder {
    pub token: String,
    pub intents: GatewayIntents,
    pub handler: Option<Box<dyn EventHandler>>,
}

impl ClientBuilder {
    pub(crate) fn _new(token: String, intents: GatewayIntents) -> (b: ClientBuilder)
        ensures
            b.token == token,
            b.intents == intents,
            b.handler is None,
    {
        ClientBuilder { token, intents, handler: None }
    }

    /// Begin building a client from a bearer token and an intents bitset.
    pub fn new(token: String, intents: GatewayIntents) -> (b: ClientBuilder)
        ensures
            b.token == token,
            b.intents == intents,
            b.handler is None,
    {
        Self::_new(token, intents)
    }

    /// Register the application's event handler.
    pub fn event_handler<H: EventHandler + 'static>(self, event_handler: H) -> (b: ClientBuilder)
        ensures
            b.token == self.token,
            b.intents == self.intents,
            b.handler is Some,
    {
        ClientBuilder { handler: Some(Box::new(event_handler)), ..self }
    }

    /// Finish building: pure construction, no I/O is performed.
    pub fn build(self) -> (c: Client)
        ensures
            c.token == self.token,
            c.intents == self.intents,
            c.connection is None,
            c.handler == self.handler,
    {
        Client { token: self.token, intents: self.intents, connection: None, handler: self.handler }
    }
}

/// The top-level client: owns the credentials, the intents and the
/// shard(s).  Opening sockets, timing and handler dispatch belong to the
/// unverified driver around this library; the client only constructs the
/// verified state machines the driver runs.
pub struct Client {
    pub token: String,
    pub intents: GatewayIntents,
    pub connection: Option<Shard>,
    pub handler: Option<Box<dyn EventHandler>>,
}

impl Client {
    /// Begin building a client.
    pub fn builder(token: String, intents: GatewayIntents) -> (b: ClientBuilder)
        ensures
            b.token == token,
            b.intents == intents,
            b.handler is None,
    {
        ClientBuilder::new(token, intents)
    }

    /// Construct the shard this client will run.  `entropy` seeds the
    /// heartbeat jitter.
    pub fn make_shard(&self, entropy: u64) -> (s: Shard)
        ensures
            s == Shard::initial_spec(self.token, self.intents, entropy),
    {
        Shard::new(self.token.clone(), self.intents, entropy)
    }

    /// Hand the client its running shard.
    pub fn attach_shard(&mut self, shard: Shard)
        ensures
            final(self).connection == Some(shard),
            final(self).token == old(self).token,
            final(self).intents == old(self).intents,
    {
        self.connection = Some(shard);
    }
}

} // verus!
