use vrrb_network::message::{dispatch, Command, ProtocolMessage, StateBlock, StateComponent};

fn s(x: &str) -> String {
    x.to_string()
}

fn state_request(requested_from: &str, component: StateComponent) -> ProtocolMessage {
    ProtocolMessage::GetNetworkState {
        sender_id: s("node-B"),
        requested_from: s(requested_from),
        component,
    }
}

fn block_chunk(requestor: &str) -> ProtocolMessage {
    ProtocolMessage::BlockChunk {
        sender_id: s("node-B"),
        requestor: s(requestor),
        block_height: 42,
        chunk_number: 3,
        total_chunks: 10,
        data: vec![7, 8, 9],
    }
}

#[test]
fn genesis_request_for_local_node() {
    let m = ProtocolMessage::NeedGenesisBlock { sender_id: s("node-B"), requested_from: s("node-A") };
    assert_eq!(dispatch(m, &s("node-A")), Some(Command::SendGenesis(s("node-B"))));
}

#[test]
fn genesis_request_for_other_node() {
    let m = ProtocolMessage::NeedGenesisBlock { sender_id: s("node-B"), requested_from: s("node-C") };
    assert_eq!(dispatch(m, &s("node-A")), None);
}

#[test]
fn state_request_for_blockchain() {
    assert_eq!(
        dispatch(state_request("node-A", StateComponent::Blockchain), &s("node-A")),
        Some(Command::SendStateComponents(s("node-B"), StateComponent::Blockchain))
    );
}

#[test]
fn state_request_for_each_named_component() {
    for c in [StateComponent::NetworkState, StateComponent::Ledger, StateComponent::All] {
        assert_eq!(
            dispatch(state_request("node-A", c), &s("node-A")),
            Some(Command::SendStateComponents(s("node-B"), c))
        );
    }
}

#[test]
fn state_request_from_height() {
    assert_eq!(
        dispatch(state_request("node-A", StateComponent::PartialFromHeight(1234)), &s("node-A")),
        Some(Command::SendState(s("node-B"), 1234))
    );
}

#[test]
fn state_request_for_other_node() {
    assert_eq!(dispatch(state_request("node-C", StateComponent::Blockchain), &s("node-A")), None);
    assert_eq!(
        dispatch(state_request("node-C", StateComponent::PartialFromHeight(5)), &s("node-A")),
        None
    );
}

#[test]
fn block_chunk_for_local_node() {
    assert_eq!(
        dispatch(block_chunk("node-A"), &s("node-A")),
        Some(Command::StoreStateDbChunk(StateBlock(42), vec![7, 8, 9], 3, 10))
    );
}

#[test]
fn block_chunk_for_other_node() {
    assert_eq!(dispatch(block_chunk("node-C"), &s("node-A")), None);
    let big = ProtocolMessage::BlockChunk {
        sender_id: s("node-B"),
        requestor: s("node-C"),
        block_height: u64::MAX,
        chunk_number: u32::MAX,
        total_chunks: u32::MAX,
        data: vec![0; 1000],
    };
    assert_eq!(dispatch(big, &s("node-A")), None);
}

#[test]
fn state_component_chunk_addressing() {
    let m = |r: &str| ProtocolMessage::StateComponentChunk {
        sender_id: s("node-B"),
        requestor: s(r),
        chunk_number: 0,
        total_chunks: 2,
        data: vec![1],
    };
    assert_eq!(
        dispatch(m("node-A"), &s("node-A")),
        Some(Command::StoreStateComponentChunk(vec![1], 0, 2))
    );
    assert_eq!(dispatch(m("node-C"), &s("node-A")), None);
}

#[test]
fn broadcast_kinds_always_act() {
    let id = s("node-A");
    assert_eq!(
        dispatch(ProtocolMessage::Transaction { txn: vec![1], sender_id: s("x") }, &id),
        Some(Command::ProcessTxn(vec![1]))
    );
    assert_eq!(
        dispatch(ProtocolMessage::Block { block: vec![2], sender_id: s("x") }, &id),
        Some(Command::PendingBlock(vec![2], s("x")))
    );
    assert_eq!(
        dispatch(ProtocolMessage::TransactionValidator { txn_validator: vec![3], sender_id: s("x") }, &id),
        Some(Command::ProcessTxnValidator(vec![3]))
    );
    assert_eq!(
        dispatch(ProtocolMessage::Claim { claim: vec![4], sender_id: s("x") }, &id),
        Some(Command::ProcessClaim(vec![4]))
    );
    assert_eq!(
        dispatch(ProtocolMessage::ClaimAbandoned { claim: vec![5], sender_id: s("x") }, &id),
        Some(Command::ClaimAbandoned(s("x"), vec![5]))
    );
}

#[test]
fn dispatching_twice_repeats_the_command() {
    let m = block_chunk("node-A");
    let first = dispatch(m.clone(), &s("node-A"));
    let second = dispatch(m, &s("node-A"));
    assert_eq!(first, second);
    assert!(first.is_some());
}
