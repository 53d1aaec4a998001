//! From a gossip payload to the command it asks of this node.
use vstd::prelude::*;
use crate::message::{command_for, command_view, dispatch, Command, CommandModel, MessageModel, StateBlock, StateComponent};
use crate::wire::{decode_message, encoding, fits_wire, lemma_decode_encoding, message_view, parse_message};

verus! {

/// The value of an ASCII hex digit, upper or lower case.
pub open spec fn hex_digit(c: u8) -> Option<u8> {
    if 48 <= c <= 57 {
        Some((c - 48) as u8)
    } else if 97 <= c <= 102 {
        Some((c - 87) as u8)
    } else if 65 <= c <= 70 {
        Some((c - 55) as u8)
    } else {
        None
    }
}

/// `s` is an even number of hex digits.
pub open spec fn is_hex(s: Seq<u8>) -> bool {
    &&& s.len() % 2 == 0
    &&& forall|i: int| 0 <= i < s.len() ==> (#[trigger] hex_digit(s[i])) is Some
}

/// The bytes that the hex digits `s` spell, two digits to a byte, high first.
pub open spec fn hex_bytes(s: Seq<u8>) -> Seq<u8> {
    Seq::new(
        s.len() / 2,
        |i: int| (16 * hex_digit(s[2 * i])->0 + hex_digit(s[2 * i + 1])->0) as u8,
    )
}

/// The message that a gossip payload carries: hex digits that spell the wire
/// bytes of a message.
pub open spec fn payload_message(data: Seq<u8>) -> Option<MessageModel> {
    if is_hex(data) {
        parse_message(hex_bytes(data))
    } else {
        None
    }
}

/// Relies on `hex::decode`: it accepts exactly an even number of hex digits
/// of either case and turns each pair into one byte, high digit first.
#[verifier::external_body]
fn hex_decode(data: &[u8]) -> (r: Option<Vec<u8>>)
    ensures
        r is Some <==> is_hex(data@),
        r matches Some(v) ==> v@ == hex_bytes(data@),
{
    hex::decode(data).ok()
}

/// Decodes a gossip payload into a message, or `None` where the payload is
/// not hex or its bytes are not a well-formed message.
pub fn decode_payload(data: &[u8]) -> (r: Option<crate::message::ProtocolMessage>)
    ensures
        message_view(r) == payload_message(data@),
        !is_hex(data@) ==> r is None,
{
    match hex_decode(data) {
        Some(bytes) => decode_message(bytes.as_slice()),
        None => None,
    }
}

/// The command that the payload `data` of a gossip message asks of the node
/// `node_id`: `None` where the payload carries no message or a message that is
/// addressed to another node.
pub fn process_message(data: &[u8], node_id: &String) -> (r: Option<Command>)
    ensures
        command_view(r) == match payload_message(data@) {
            Some(m) => command_for(m, node_id@),
            None => None,
        },
{
    match decode_payload(data) {
        Some(message) => dispatch(message, node_id),
        None => None,
    }
}

/// A hex payload that spells the wire encoding of a message carries exactly
/// that message, every field preserved.
pub proof fn lemma_payload_round_trip(data: Seq<u8>, m: MessageModel)
    requires
        fits_wire(m),
        is_hex(data),
        hex_bytes(data) == encoding(m),
    ensures
        payload_message(data) == Some(m),
{
    lemma_decode_encoding(m);
}

/// A payload that is not hex carries no message.
pub proof fn lemma_non_hex_rejected(data: Seq<u8>)
    requires
        !is_hex(data),
    ensures
        payload_message(data) is None,
{
}

/// Wire bytes that start with a tag no message kind uses carry no message.
pub proof fn lemma_unknown_tag_rejected(b: Seq<u8>)
    requires
        b.len() > 0,
        b[0] > 8,
    ensures
        parse_message(b) is None,
{
}

/// A state request yields a command exactly when it is addressed to the local
/// node: a whole component is sent back for a named component, and the state
/// from height `h` on for a partial request from `h`.
pub proof fn lemma_state_request(
    sender_id: Seq<char>,
    requested_from: Seq<char>,
    component: StateComponent,
    local_id: Seq<char>,
)
    ensures
        ({
            let r = command_for(
                MessageModel::GetNetworkState { sender_id, requested_from, component },
                local_id,
            );
            &&& r is Some <==> requested_from == local_id
            &&& requested_from == local_id && component == StateComponent::Blockchain ==> r
                == Some(CommandModel::SendStateComponents(sender_id, StateComponent::Blockchain))
            &&& forall|h: u64|
                requested_from == local_id && component == StateComponent::PartialFromHeight(h)
                    ==> r == Some(CommandModel::SendState(sender_id, h))
        }),
{
}

/// A block chunk addressed to another node yields no command, whatever it holds.
pub proof fn lemma_foreign_block_chunk(
    sender_id: Seq<char>,
    requestor: Seq<char>,
    block_height: u64,
    chunk_number: u32,
    total_chunks: u32,
    data: Seq<u8>,
    local_id: Seq<char>,
)
    requires
        requestor != local_id,
    ensures
        command_for(
            MessageModel::BlockChunk {
                sender_id,
                requestor,
                block_height,
                chunk_number,
                total_chunks,
                data,
            },
            local_id,
        ) is None,
{
}

/// A block chunk addressed to the local node is stored under its block height
/// with its payload, chunk number and chunk count unchanged.
pub proof fn lemma_own_block_chunk(
    sender_id: Seq<char>,
    requestor: Seq<char>,
    block_height: u64,
    chunk_number: u32,
    total_chunks: u32,
    data: Seq<u8>,
)
    ensures
        command_for(
            MessageModel::BlockChunk {
                sender_id,
                requestor,
                block_height,
                chunk_number,
                total_chunks,
                data,
            },
            requestor,
        ) == Some(
            CommandModel::StoreStateDbChunk(
                StateBlock(block_height),
                data,
                chunk_number,
                total_chunks,
            ),
        ),
{
}

} // verus!
