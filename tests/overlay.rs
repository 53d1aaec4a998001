use vrrb_network::message::{Command, ProtocolMessage};
use vrrb_network::overlay::{handle_event, OverlayAction, OverlayEvent};
use vrrb_network::wire::encode_message;

fn genesis_payload(requested_from: &str) -> Vec<u8> {
    let m = ProtocolMessage::NeedGenesisBlock {
        sender_id: "node-B".to_string(),
        requested_from: requested_from.to_string(),
    };
    hex::encode(encode_message(&m)).into_bytes()
}

#[test]
fn identified_peer_is_routed_then_bootstrapped() {
    let r = handle_event(
        OverlayEvent::PeerIdentified { peer: vec![1, 2], observed_addr: vec![4, 127, 0, 0, 1] },
        &"node-A".to_string(),
    );
    assert_eq!(
        r,
        vec![
            OverlayAction::AddAddress { peer: vec![1, 2], addr: vec![4, 127, 0, 0, 1] },
            OverlayAction::Bootstrap
        ]
    );
}

#[test]
fn bootstrap_asks_for_closest_peers() {
    let r = handle_event(OverlayEvent::BootstrapSucceeded { peer: vec![9] }, &"a".to_string());
    assert_eq!(r, vec![OverlayAction::FindClosestPeers { peer: vec![9] }]);
}

#[test]
fn gossip_addressed_here_is_executed() {
    let r = handle_event(
        OverlayEvent::GossipMessage { source: vec![3], data: genesis_payload("node-A") },
        &"node-A".to_string(),
    );
    assert_eq!(r, vec![OverlayAction::Execute(Command::SendGenesis("node-B".to_string()))]);
}

#[test]
fn gossip_addressed_elsewhere_or_malformed_is_dropped() {
    let id = "node-A".to_string();
    let elsewhere = OverlayEvent::GossipMessage { source: vec![3], data: genesis_payload("node-C") };
    assert_eq!(handle_event(elsewhere, &id), vec![]);
    let noise = OverlayEvent::GossipMessage { source: vec![3], data: b"hello".to_vec() };
    assert_eq!(handle_event(noise, &id), vec![]);
}

#[test]
fn liveness_marks_or_evicts() {
    let id = "a".to_string();
    assert_eq!(
        handle_event(OverlayEvent::PingSucceeded { peer: vec![5] }, &id),
        vec![OverlayAction::MarkAlive { peer: vec![5] }]
    );
    assert_eq!(
        handle_event(OverlayEvent::PingFailed { peer: vec![5] }, &id),
        vec![OverlayAction::EvictPeer { peer: vec![5] }]
    );
    assert_eq!(
        handle_event(OverlayEvent::PeerUnroutable { peer: vec![6] }, &id),
        vec![OverlayAction::EvictPeer { peer: vec![6] }]
    );
}

#[test]
fn informational_events_call_for_nothing() {
    let id = "a".to_string();
    for e in [
        OverlayEvent::IdentitySent { peer: vec![1] },
        OverlayEvent::IdentifyFailed { peer: vec![1] },
        OverlayEvent::TopicSubscribed { peer: vec![1] },
        OverlayEvent::TopicUnsubscribed { peer: vec![1] },
        OverlayEvent::QueryFinished,
        OverlayEvent::RoutingUpdated { peer: vec![1] },
    ] {
        assert_eq!(handle_event(e, &id), vec![]);
    }
}
