use vrrb_network::codec::{decode_payload, process_message};
use vrrb_network::message::{Command, ProtocolMessage, StateComponent};
use vrrb_network::wire::{decode_message, encode_message};

fn s(x: &str) -> String {
    x.to_string()
}

fn payload(m: &ProtocolMessage) -> Vec<u8> {
    hex::encode(encode_message(m)).into_bytes()
}

fn samples() -> Vec<ProtocolMessage> {
    vec![
        ProtocolMessage::Transaction { txn: vec![1, 2, 3], sender_id: s("node-B") },
        ProtocolMessage::Block { block: vec![], sender_id: s("nœud-β") },
        ProtocolMessage::TransactionValidator { txn_validator: vec![9; 300], sender_id: s("") },
        ProtocolMessage::Claim { claim: vec![0], sender_id: s("c") },
        ProtocolMessage::ClaimAbandoned { claim: vec![255], sender_id: s("d") },
        ProtocolMessage::GetNetworkState {
            sender_id: s("node-B"),
            requested_from: s("node-A"),
            component: StateComponent::PartialFromHeight(u64::MAX),
        },
        ProtocolMessage::GetNetworkState {
            sender_id: s("node-B"),
            requested_from: s("node-A"),
            component: StateComponent::Ledger,
        },
        ProtocolMessage::BlockChunk {
            sender_id: s("node-B"),
            requestor: s("node-A"),
            block_height: 42,
            chunk_number: 3,
            total_chunks: 10,
            data: vec![4, 5],
        },
        ProtocolMessage::StateComponentChunk {
            sender_id: s("node-B"),
            requestor: s("node-A"),
            chunk_number: u32::MAX,
            total_chunks: u32::MAX,
            data: vec![6],
        },
        ProtocolMessage::NeedGenesisBlock { sender_id: s("node-B"), requested_from: s("node-A") },
    ]
}

#[test]
fn non_hex_payload_carries_no_message() {
    assert_eq!(decode_payload(b"zz"), None);
    assert_eq!(decode_payload(b"0g"), None);
    assert_eq!(decode_payload("é0".as_bytes()), None);
    assert_eq!(process_message(b"not hex at all", &s("node-A")), None);
}

#[test]
fn odd_length_payload_carries_no_message() {
    let mut p = payload(&samples()[9]);
    p.pop();
    assert_eq!(decode_payload(&p), None);
}

#[test]
fn empty_payload_carries_no_message() {
    assert_eq!(decode_payload(b""), None);
}

#[test]
fn unknown_tag_carries_no_message() {
    assert_eq!(decode_payload(b"09"), None);
    assert_eq!(decode_payload(b"ff0000"), None);
}

#[test]
fn round_trip_keeps_every_field() {
    for m in samples() {
        assert_eq!(decode_payload(&payload(&m)), Some(m.clone()));
        assert_eq!(decode_message(&encode_message(&m)), Some(m));
    }
}

#[test]
fn upper_case_hex_is_accepted() {
    let m = samples()[7].clone();
    let upper = hex::encode_upper(encode_message(&m)).into_bytes();
    assert_eq!(decode_payload(&upper), Some(m));
}

#[test]
fn truncated_or_padded_bytes_carry_no_message() {
    for m in samples() {
        let bytes = encode_message(&m);
        let mut longer = bytes.clone();
        longer.push(0);
        assert_eq!(decode_message(&longer), None);
        for cut in 0..bytes.len() {
            assert_eq!(decode_message(&bytes[..cut]), None);
        }
    }
}

#[test]
fn invalid_utf8_identifier_carries_no_message() {
    let bytes = vec![8, 1, 0, 0, 0, 0, 0, 0, 0, 0xff, 1, 0, 0, 0, 0, 0, 0, 0, b'A'];
    assert_eq!(decode_message(&bytes), None);
}

#[test]
fn unknown_component_carries_no_message() {
    let mut bytes = encode_message(&samples()[6]);
    *bytes.last_mut().unwrap() = 5;
    assert_eq!(decode_message(&bytes), None);
}

#[test]
fn chunk_counter_above_u32_carries_no_message() {
    let m = ProtocolMessage::StateComponentChunk {
        sender_id: s("b"),
        requestor: s("a"),
        chunk_number: 1,
        total_chunks: 2,
        data: vec![],
    };
    let mut bytes = encode_message(&m);
    // the chunk number starts after the tag and the two one-letter identifiers
    bytes[1 + 9 + 9 + 4] = 1;
    assert_eq!(decode_message(&bytes), None);
}

#[test]
fn wire_bytes_of_a_genesis_request() {
    let m = ProtocolMessage::NeedGenesisBlock { sender_id: s("B"), requested_from: s("A") };
    assert_eq!(
        encode_message(&m),
        vec![8, 1, 0, 0, 0, 0, 0, 0, 0, b'B', 1, 0, 0, 0, 0, 0, 0, 0, b'A']
    );
    assert_eq!(decode_payload(b"08010000000000000042010000000000000041"), Some(m));
}

#[test]
fn wire_bytes_of_a_height_request() {
    let m = ProtocolMessage::GetNetworkState {
        sender_id: s(""),
        requested_from: s(""),
        component: StateComponent::PartialFromHeight(0x0102),
    };
    assert_eq!(
        encode_message(&m),
        vec![5, 0, 0, 0, 0, 0, 0, 0, 0, 0, 0, 0, 0, 0, 0, 0, 0, 4, 2, 1, 0, 0, 0, 0, 0, 0]
    );
}

#[test]
fn genesis_request_end_to_end() {
    let to_a = ProtocolMessage::NeedGenesisBlock { sender_id: s("node-B"), requested_from: s("node-A") };
    let to_c = ProtocolMessage::NeedGenesisBlock { sender_id: s("node-B"), requested_from: s("node-C") };
    assert_eq!(process_message(&payload(&to_a), &s("node-A")), Some(Command::SendGenesis(s("node-B"))));
    assert_eq!(process_message(&payload(&to_c), &s("node-A")), None);
}

#[test]
fn block_chunk_end_to_end() {
    assert_eq!(
        process_message(&payload(&samples()[7]), &s("node-A")),
        Some(Command::StoreStateDbChunk(vrrb_network::message::StateBlock(42), vec![4, 5], 3, 10))
    );
    assert_eq!(process_message(&payload(&samples()[7]), &s("node-Z")), None);
}
