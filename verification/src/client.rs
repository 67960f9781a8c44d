use crate::config::{CLIENT_RECONNECT_DELAY_BASE_MS, CLIENT_RECONNECT_DELAY_VARIANCE_MS};
use crate::random::random_u64;
use vstd::prelude::*;

verus! {

/// The delay before a client that dropped its connection comes back,
/// chosen by a random word.
pub fn reconnect_delay_ms(roll: u64) -> (ms: u64)
    ensures
        ms == CLIENT_RECONNECT_DELAY_BASE_MS + roll % CLIENT_RECONNECT_DELAY_VARIANCE_MS,
        CLIENT_RECONNECT_DELAY_BASE_MS <= ms < CLIENT_RECONNECT_DELAY_BASE_MS + CLIENT_RECONNECT_DELAY_VARIANCE_MS,
{
    CLIENT_RECONNECT_DELAY_BASE_MS + roll % CLIENT_RECONNECT_DELAY_VARIANCE_MS
}

/// What wakes a client up.
#[derive(Debug, Clone, Copy, PartialEq, Eq, Structural)]
pub enum ClientEvent {
    /// A broadcast snapshot arrived; `disconnect` says whether the client
    /// drops its connection for a while after reading it.
    Update { disconnect: bool },
    /// The client fell behind the broadcast by `missed` snapshots.
    Lagged { missed: u64 },
    /// The broadcast is gone.
    Closed,
    /// The gateway is shutting down.
    Shutdown,
}

/// What a client asks its runtime to do next.
#[derive(Debug, Clone, Copy, PartialEq, Eq, Structural)]
pub enum ClientAction {
    /// Wait for the next event.
    Continue,
    /// Stay away this long, then catch up from the latest shared snapshot.
    Reconnect { delay_ms: u64 },
    /// Catch up from the latest shared snapshot now.
    Resync,
    /// Stop the client.
    Stop,
}

/// A client's answer to an event, where `delay_roll` chooses the reconnect
/// delay: it catches up from the shared snapshot after a disconnect or a
/// lag, and stops when the broadcast closes or the gateway shuts down.
pub open spec fn client_next(event: ClientEvent, delay_roll: u64) -> ClientAction {
    match event {
        ClientEvent::Update { disconnect } => {
            if disconnect {
                ClientAction::Reconnect {
                    delay_ms: (CLIENT_RECONNECT_DELAY_BASE_MS + delay_roll % CLIENT_RECONNECT_DELAY_VARIANCE_MS) as u64,
                }
            } else {
                ClientAction::Continue
            }
        },
        ClientEvent::Lagged { .. } => ClientAction::Resync,
        ClientEvent::Closed => ClientAction::Stop,
        ClientEvent::Shutdown => ClientAction::Stop,
    }
}

/// A client's answer to an event, with the reconnect delay chosen by
/// `delay_roll`.
pub fn client_action(event: ClientEvent, delay_roll: u64) -> (action: ClientAction)
    ensures
        action == client_next(event, delay_roll),
{
    match event {
        ClientEvent::Update { disconnect } => {
            if disconnect {
                ClientAction::Reconnect { delay_ms: reconnect_delay_ms(delay_roll) }
            } else {
                ClientAction::Continue
            }
        },
        ClientEvent::Lagged { .. } => ClientAction::Resync,
        ClientEvent::Closed => ClientAction::Stop,
        ClientEvent::Shutdown => ClientAction::Stop,
    }
}

/// A client's answer to an event; a reconnect delay is drawn at random
/// when one is needed.
pub fn client_step(event: ClientEvent) -> (action: ClientAction)
    ensures
        exists|roll: u64| action == client_next(event, roll),
        event matches ClientEvent::Update { disconnect } && disconnect ==> (action matches ClientAction::Reconnect { delay_ms }
            && CLIENT_RECONNECT_DELAY_BASE_MS <= delay_ms < CLIENT_RECONNECT_DELAY_BASE_MS + CLIENT_RECONNECT_DELAY_VARIANCE_MS),
        !(event matches ClientEvent::Update { disconnect } && disconnect) ==> action == client_next(event, 0),
{
    let needs_delay = match event {
        ClientEvent::Update { disconnect } => disconnect,
        _ => false,
    };
    let roll: u64 = if needs_delay { random_u64() } else { 0 };
    client_action(event, roll)
}

} // verus!
