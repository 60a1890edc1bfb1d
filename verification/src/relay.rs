//! Connection relay decisions: the per-peer bridge between one transport and
//! the broadcast hub runs as two loops (receive and send), and every decision
//! those loops take is the pure step function below. The surrounding runtime
//! performs the chosen action and feeds the next event back in.

use vstd::prelude::*;
use vstd::string::*;

verus! {

/// One thing a connection's loops can observe.
pub enum PeerEvent {
    /// The peer's transport delivered a text frame.
    InboundText(String),
    /// The peer's transport closed or failed while reading.
    InboundClosed,
    /// The hub subscription yielded a payload for this peer.
    HubPayload(String),
    /// The hub subscription ended.
    HubClosed,
    /// Writing a payload to the peer's transport failed.
    SendFailed,
}

/// What the runtime must do next for this connection.
pub enum RelayAction {
    /// Publish the payload to the broadcast hub.
    Publish(String),
    /// Write the payload out to the peer's transport.
    Deliver(String),
    /// Tear the connection down: cancel both of its loops.
    Shutdown,
}

/// The tag prepended to every relayed inbound text.
pub open spec fn tagged(t: Seq<char>) -> Seq<char> {
    "[message] "@ + t
}

/// Wraps an inbound text in the fixed relay tag before it is published.
pub fn tag_inbound(text: &str) -> (r: String)
    ensures
        r@ == tagged(text@),
{
    let mut s = String::from_str("[message] ");
    s.append(text);
    s
}

/// The relay's whole decision logic. Inbound text is tagged and published
/// as-is (no proof-of-work gate at this boundary); hub payloads are delivered
/// to the peer in subscription order; and the moment either direction closes
/// or fails, both loops of this connection shut down. A failure is terminal
/// for this connection alone: no event maps to an action on any other
/// connection or on the hub's state.
pub fn relay_step(event: PeerEvent) -> (action: RelayAction)
    ensures
        match event {
            PeerEvent::InboundText(t) => action matches RelayAction::Publish(p) && p@ == tagged(
                t@,
            ),
            PeerEvent::HubPayload(p) => action == RelayAction::Deliver(p),
            PeerEvent::InboundClosed => action == RelayAction::Shutdown,
            PeerEvent::HubClosed => action == RelayAction::Shutdown,
            PeerEvent::SendFailed => action == RelayAction::Shutdown,
        },
{
    match event {
        PeerEvent::InboundText(t) => RelayAction::Publish(tag_inbound(t.as_str())),
        PeerEvent::HubPayload(p) => RelayAction::Deliver(p),
        PeerEvent::InboundClosed => RelayAction::Shutdown,
        PeerEvent::HubClosed => RelayAction::Shutdown,
        PeerEvent::SendFailed => RelayAction::Shutdown,
    }
}

} // verus!
