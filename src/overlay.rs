//! The decisions of the overlay's event loop. Each event of the four
//! protocol handlers (peer identification, gossip, liveness, peer routing)
//! is turned into the actions that the loop then carries out on the
//! transport, in order. Peers and addresses travel as their byte forms.
use vstd::prelude::*;
use crate::codec::{payload_message, process_message};
use crate::message::{command_for, Command, CommandModel};

verus! {

/// An event raised by one of the overlay's protocol handlers.
#[derive(Clone, Debug, PartialEq, Eq)]
pub enum OverlayEvent {
    /// A peer reported its identity; `observed_addr` is the address at which
    /// the network saw it.
    PeerIdentified { peer: Vec<u8>, observed_addr: Vec<u8> },
    /// This node's identity was sent to a peer.
    IdentitySent { peer: Vec<u8> },
    /// An identity exchange with a peer failed.
    IdentifyFailed { peer: Vec<u8> },
    /// A gossip message arrived from `source` with payload `data`.
    GossipMessage { source: Vec<u8>, data: Vec<u8> },
    /// A peer joined a gossip topic.
    TopicSubscribed { peer: Vec<u8> },
    /// A peer left a gossip topic.
    TopicUnsubscribed { peer: Vec<u8> },
    /// A peer answered a liveness check.
    PingSucceeded { peer: Vec<u8> },
    /// A liveness check of a peer timed out or failed.
    PingFailed { peer: Vec<u8> },
    /// Routing-table bootstrap reached `peer`.
    BootstrapSucceeded { peer: Vec<u8> },
    /// Any other routing query finished, with success or failure.
    QueryFinished,
    /// The routing table added or moved `peer`.
    RoutingUpdated { peer: Vec<u8> },
    /// `peer` cannot be routed to.
    PeerUnroutable { peer: Vec<u8> },
}

/// Work for the event loop.
#[derive(Clone, Debug, PartialEq, Eq)]
pub enum OverlayAction {
    /// Record `addr` for `peer` in the routing table.
    AddAddress { peer: Vec<u8>, addr: Vec<u8> },
    /// Start a routing-table bootstrap.
    Bootstrap,
    /// Query the peers closest to `peer`.
    FindClosestPeers { peer: Vec<u8> },
    /// Hand a command to the rest of the node.
    Execute(Command),
    /// Note that `peer` is alive now.
    MarkAlive { peer: Vec<u8> },
    /// Drop `peer` from the routing table.
    EvictPeer { peer: Vec<u8> },
}

pub enum EventModel {
    PeerIdentified { peer: Seq<u8>, observed_addr: Seq<u8> },
    IdentitySent { peer: Seq<u8> },
    IdentifyFailed { peer: Seq<u8> },
    GossipMessage { source: Seq<u8>, data: Seq<u8> },
    TopicSubscribed { peer: Seq<u8> },
    TopicUnsubscribed { peer: Seq<u8> },
    PingSucceeded { peer: Seq<u8> },
    PingFailed { peer: Seq<u8> },
    BootstrapSucceeded { peer: Seq<u8> },
    QueryFinished,
    RoutingUpdated { peer: Seq<u8> },
    PeerUnroutable { peer: Seq<u8> },
}

pub enum ActionModel {
    AddAddress { peer: Seq<u8>, addr: Seq<u8> },
    Bootstrap,
    FindClosestPeers { peer: Seq<u8> },
    Execute(CommandModel),
    MarkAlive { peer: Seq<u8> },
    EvictPeer { peer: Seq<u8> },
}

impl View for OverlayEvent {
    type V = EventModel;

    open spec fn view(&self) -> EventModel {
        match self {
            OverlayEvent::PeerIdentified { peer, observed_addr } => EventModel::PeerIdentified {
                peer: peer@,
                observed_addr: observed_addr@,
            },
            OverlayEvent::IdentitySent { peer } => EventModel::IdentitySent { peer: peer@ },
            OverlayEvent::IdentifyFailed { peer } => EventModel::IdentifyFailed { peer: peer@ },
            OverlayEvent::GossipMessage { source, data } => EventModel::GossipMessage {
                source: source@,
                data: data@,
            },
            OverlayEvent::TopicSubscribed { peer } => EventModel::TopicSubscribed { peer: peer@ },
            OverlayEvent::TopicUnsubscribed { peer } => EventModel::TopicUnsubscribed {
                peer: peer@,
            },
            OverlayEvent::PingSucceeded { peer } => EventModel::PingSucceeded { peer: peer@ },
            OverlayEvent::PingFailed { peer } => EventModel::PingFailed { peer: peer@ },
            OverlayEvent::BootstrapSucceeded { peer } => EventModel::BootstrapSucceeded {
                peer: peer@,
            },
            OverlayEvent::QueryFinished => EventModel::QueryFinished,
            OverlayEvent::RoutingUpdated { peer } => EventModel::RoutingUpdated { peer: peer@ },
            OverlayEvent::PeerUnroutable { peer } => EventModel::PeerUnroutable { peer: peer@ },
        }
    }
}

impl View for OverlayAction {
    type V = ActionModel;

    open spec fn view(&self) -> ActionModel {
        match self {
            OverlayAction::AddAddress { peer, addr } => ActionModel::AddAddress {
                peer: peer@,
                addr: addr@,
            },
            OverlayAction::Bootstrap => ActionModel::Bootstrap,
            OverlayAction::FindClosestPeers { peer } => ActionModel::FindClosestPeers {
                peer: peer@,
            },
            OverlayAction::Execute(c) => ActionModel::Execute(c@),
            OverlayAction::MarkAlive { peer } => ActionModel::MarkAlive { peer: peer@ },
            OverlayAction::EvictPeer { peer } => ActionModel::EvictPeer { peer: peer@ },
        }
    }
}

/// The models of a list of actions.
pub open spec fn actions_view(a: Seq<OverlayAction>) -> Seq<ActionModel> {
    a.map_values(|x: OverlayAction| x@)
}

/// The actions that event `e` calls for on the node `local_id`. An identified
/// peer is routed by its observed address, then the table is bootstrapped; a
/// finished bootstrap asks for the peers closest to the one it reached; a
/// gossip payload runs through the codec and the dispatcher; a live peer is
/// marked alive; a peer that fails its liveness check or cannot be routed is
/// evicted. Everything else calls for nothing.
pub open spec fn actions_for(e: EventModel, local_id: Seq<char>) -> Seq<ActionModel> {
    match e {
        EventModel::PeerIdentified { peer, observed_addr } => seq![
            ActionModel::AddAddress { peer, addr: observed_addr },
            ActionModel::Bootstrap,
        ],
        EventModel::GossipMessage { data, .. } => match payload_message(data) {
            Some(m) => match command_for(m, local_id) {
                Some(c) => seq![ActionModel::Execute(c)],
                None => Seq::empty(),
            },
            None => Seq::empty(),
        },
        EventModel::PingSucceeded { peer } => seq![ActionModel::MarkAlive { peer }],
        EventModel::PingFailed { peer } => seq![ActionModel::EvictPeer { peer }],
        EventModel::PeerUnroutable { peer } => seq![ActionModel::EvictPeer { peer }],
        EventModel::BootstrapSucceeded { peer } => seq![ActionModel::FindClosestPeers { peer }],
        _ => Seq::empty(),
    }
}

/// The actions that `event` calls for on the node `node_id`, in the order in
/// which they are to be carried out.
pub fn handle_event(event: OverlayEvent, node_id: &String) -> (r: Vec<OverlayAction>)
    ensures
        actions_view(r@) == actions_for(event@, node_id@),
{
    let ghost e = event@;
    let r: Vec<OverlayAction> = match event {
        OverlayEvent::PeerIdentified { peer, observed_addr } => vec![
            OverlayAction::AddAddress { peer, addr: observed_addr },
            OverlayAction::Bootstrap,
        ],
        OverlayEvent::GossipMessage { data, .. } => match process_message(data.as_slice(), node_id) {
            Some(c) => vec![OverlayAction::Execute(c)],
            None => Vec::new(),
        },
        OverlayEvent::PingSucceeded { peer } => vec![OverlayAction::MarkAlive { peer }],
        OverlayEvent::PingFailed { peer } => vec![OverlayAction::EvictPeer { peer }],
        OverlayEvent::PeerUnroutable { peer } => vec![OverlayAction::EvictPeer { peer }],
        OverlayEvent::BootstrapSucceeded { peer } => vec![OverlayAction::FindClosestPeers { peer }],
        _ => Vec::new(),
    };
    assert(actions_view(r@) =~= actions_for(e, node_id@));
    r
}

} // verus!
