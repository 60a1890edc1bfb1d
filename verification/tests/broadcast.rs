use pow_chat::hub::BroadcastHub;
use pow_chat::relay::{self, PeerEvent, RelayAction};

#[test]
fn hub_fanout_three_peers() {
    // Three peers subscribe; one payload is published once; every peer —
    // the publisher's own subscription included, since this design echoes
    // to the sender — observes it exactly once.
    let mut hub = BroadcastHub::new(16);
    let a = hub.subscribe();
    let b = hub.subscribe();
    let c = hub.subscribe();
    assert_eq!(hub.subscriber_count(), 3);

    let payload = relay::tag_inbound("hello");
    hub.publish(payload);

    for id in [a, b, c] {
        let got = hub.recv(id).unwrap();
        assert!(got.contains("hello"));
        assert_eq!(got, "[message] hello");
        assert_eq!(hub.recv(id), None);
    }
}

#[test]
fn hub_delivery_matches_publish_order() {
    let mut hub = BroadcastHub::new(8);
    let id = hub.subscribe();
    hub.publish(String::from("one"));
    hub.publish(String::from("two"));
    hub.publish(String::from("three"));
    assert_eq!(hub.recv(id), Some(String::from("one")));
    assert_eq!(hub.recv(id), Some(String::from("two")));
    assert_eq!(hub.recv(id), Some(String::from("three")));
    assert_eq!(hub.recv(id), None);
}

#[test]
fn hub_overflow_drops_oldest() {
    let mut hub = BroadcastHub::new(2);
    let id = hub.subscribe();
    hub.publish(String::from("a"));
    hub.publish(String::from("b"));
    hub.publish(String::from("c"));
    assert_eq!(hub.recv(id), Some(String::from("b")));
    assert_eq!(hub.recv(id), Some(String::from("c")));
    assert_eq!(hub.recv(id), None);
}

#[test]
fn hub_does_not_replay_earlier_payloads() {
    let mut hub = BroadcastHub::new(8);
    let early = hub.subscribe();
    hub.publish(String::from("before"));
    let late = hub.subscribe();
    assert_eq!(hub.recv(late), None);
    assert_eq!(hub.recv(early), Some(String::from("before")));
}

#[test]
fn hub_subscribers_are_isolated() {
    let mut hub = BroadcastHub::new(8);
    let a = hub.subscribe();
    let b = hub.subscribe();
    hub.publish(String::from("x"));
    assert_eq!(hub.recv(a), Some(String::from("x")));
    // Draining one subscriber leaves the other's backlog untouched.
    assert_eq!(hub.recv(b), Some(String::from("x")));
    assert_eq!(hub.recv(a), None);
}

#[test]
fn relay_tags_inbound_text() {
    assert_eq!(relay::tag_inbound("hi"), "[message] hi");
    assert_eq!(relay::tag_inbound(""), "[message] ");
}

#[test]
fn relay_step_publishes_tagged_inbound() {
    match relay::relay_step(PeerEvent::InboundText(String::from("hello"))) {
        RelayAction::Publish(p) => assert_eq!(p, "[message] hello"),
        _ => panic!("inbound text must be published"),
    }
}

#[test]
fn relay_step_delivers_hub_payloads() {
    match relay::relay_step(PeerEvent::HubPayload(String::from("payload"))) {
        RelayAction::Deliver(p) => assert_eq!(p, "payload"),
        _ => panic!("hub payloads must be delivered to the peer"),
    }
}

#[test]
fn relay_step_shuts_down_on_terminal_events() {
    // Whichever loop fails first, the step function orders the whole
    // connection torn down, cancelling the other loop.
    for event in [
        PeerEvent::InboundClosed,
        PeerEvent::HubClosed,
        PeerEvent::SendFailed,
    ] {
        assert!(matches!(relay::relay_step(event), RelayAction::Shutdown));
    }
}
