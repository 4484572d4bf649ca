use gateway_client::client::{Client, ClientBuilder, EventHandler};
use gateway_client::intents::GatewayIntents;
use gateway_client::shard::{Action, Frame, ShardEvent, ShardPhase};

struct Collector {
    seen: Vec<String>,
}

impl EventHandler for Collector {
    fn on_event(&mut self, payload: &String) {
        self.seen.push(payload.clone());
    }
}

#[test]
fn builder_is_pure_construction() {
    let client = Client::builder("tok".to_string(), GatewayIntents::from_bits(7)).build();
    assert_eq!(client.token, "tok".to_string());
    assert_eq!(client.intents, GatewayIntents::from_bits(7));
    assert!(client.connection.is_none());
    assert!(client.handler.is_none());
}

#[test]
fn builder_registers_event_handler() {
    let builder = ClientBuilder::new("tok".to_string(), GatewayIntents::from_bits(0));
    let client = builder.event_handler(Collector { seen: Vec::new() }).build();
    assert!(client.handler.is_some());
}

#[test]
fn client_makes_initial_shard() {
    let client = Client::builder("tok".to_string(), GatewayIntents::from_bits(3)).build();
    let shard = client.make_shard(99);
    assert_eq!(shard.phase, ShardPhase::Disconnected);
    assert_eq!(shard.token, "tok".to_string());
    assert_eq!(shard.intents, GatewayIntents::from_bits(3));
    assert_eq!(shard.entropy, 99);
    assert_eq!(shard.connect_attempts, 0);
    assert_eq!(shard.session.session_id, None);
}

#[test]
fn attach_shard_records_connection() {
    let mut client = Client::builder("tok".to_string(), GatewayIntents::from_bits(0)).build();
    let shard = client.make_shard(1);
    client.attach_shard(shard);
    assert!(client.connection.is_some());
}

#[test]
fn intents_bitset_operations() {
    let a = GatewayIntents::from_bits(0b0101);
    let b = GatewayIntents::from_bits(0b0011);
    assert_eq!(GatewayIntents::empty().bits, 0);
    assert_eq!(a.union(b).bits, 0b0111);
    assert!(a.contains(GatewayIntents::from_bits(0b0100)));
    assert!(!a.contains(b));
    assert!(a.contains(GatewayIntents::empty()));
}

/// Dispatched payloads reach the registered handler through the driver
/// loop, decoupled from the protocol steps.
#[test]
fn dispatch_reaches_handler() {
    let mut client = Client::builder("tok".to_string(), GatewayIntents::from_bits(0))
        .event_handler(Collector { seen: Vec::new() })
        .build();
    let mut shard = client.make_shard(0);
    shard.start(0);
    shard.step(0, ShardEvent::TransportOpened);
    shard.step(0, ShardEvent::Inbound(Frame::Hello { heartbeat_interval_ms: 1000 }));
    shard.step(
        0,
        ShardEvent::Inbound(Frame::Ready {
            session_id: "s".to_string(),
            resume_url: "u".to_string(),
            sequence: 0,
        }),
    );
    for (n, text) in [(1u64, "first"), (2, "second")] {
        let action = shard.step(n, ShardEvent::Inbound(Frame::Dispatch {
            sequence: n,
            payload: text.to_string(),
        }));
        if let Action::DispatchPayload { payload } = action {
            if let Some(handler) = client.handler.as_mut() {
                handler.on_event(&payload);
            }
        } else {
            panic!("expected a dispatch");
        }
    }
}
