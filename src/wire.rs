//! The binary wire format of protocol messages.
//!
//! A message is one tag byte followed by its fields in order. An integer is
//! eight bytes, least significant first; a byte string is its length as an
//! integer followed by its bytes; a text field is the byte string of its
//! UTF-8 encoding; a state component is one byte, followed by a height for a
//! partial request. Nothing may follow the last field.
use vstd::prelude::*;
use vstd::utf8::*;
use crate::message::{MessageModel, ProtocolMessage, StateComponent};

verus! {

/// `256` raised to the power `n`.
pub open spec fn byte_bound(n: nat) -> nat
    decreases n,
{
    if n == 0 {
        1
    } else {
        256 * byte_bound((n - 1) as nat)
    }
}

/// The `n` low bytes of `v`, least significant first.
pub open spec fn le_bytes(v: nat, n: nat) -> Seq<u8>
    decreases n,
{
    if n == 0 {
        Seq::empty()
    } else {
        seq![(v % 256) as u8] + le_bytes(v / 256, (n - 1) as nat)
    }
}

/// The number whose bytes, least significant first, are `s`.
pub open spec fn le_value(s: Seq<u8>) -> nat
    decreases s.len(),
{
    if s.len() == 0 {
        0
    } else {
        s[0] as nat + 256 * le_value(s.drop_first())
    }
}

pub open spec fn enc_int(v: nat) -> Seq<u8> {
    le_bytes(v, 8)
}

pub open spec fn enc_bytes(x: Seq<u8>) -> Seq<u8> {
    enc_int(x.len()) + x
}

pub open spec fn enc_str(s: Seq<char>) -> Seq<u8> {
    enc_bytes(encode_utf8(s))
}

pub open spec fn enc_component(c: StateComponent) -> Seq<u8> {
    match c {
        StateComponent::NetworkState => seq![0u8],
        StateComponent::Blockchain => seq![1u8],
        StateComponent::Ledger => seq![2u8],
        StateComponent::All => seq![3u8],
        StateComponent::PartialFromHeight(h) => seq![4u8] + enc_int(h as nat),
    }
}

/// The bytes that stand for message `m` on the wire.
pub open spec fn encoding(m: MessageModel) -> Seq<u8> {
    match m {
        MessageModel::Transaction { txn, sender_id } => seq![0u8] + enc_bytes(txn) + enc_str(
            sender_id,
        ),
        MessageModel::Block { block, sender_id } => seq![1u8] + enc_bytes(block) + enc_str(
            sender_id,
        ),
        MessageModel::TransactionValidator { txn_validator, sender_id } => seq![2u8] + enc_bytes(
            txn_validator,
        ) + enc_str(sender_id),
        MessageModel::Claim { claim, sender_id } => seq![3u8] + enc_bytes(claim) + enc_str(
            sender_id,
        ),
        MessageModel::ClaimAbandoned { claim, sender_id } => seq![4u8] + enc_bytes(claim)
            + enc_str(sender_id),
        MessageModel::GetNetworkState { sender_id, requested_from, component } => seq![5u8]
            + enc_str(sender_id) + enc_str(requested_from) + enc_component(component),
        MessageModel::BlockChunk {
            sender_id,
            requestor,
            block_height,
            chunk_number,
            total_chunks,
            data,
        } => seq![6u8] + enc_str(sender_id) + enc_str(requestor) + enc_int(block_height as nat)
            + enc_int(chunk_number as nat) + enc_int(total_chunks as nat) + enc_bytes(data),
        MessageModel::StateComponentChunk {
            sender_id,
            requestor,
            chunk_number,
            total_chunks,
            data,
        } => seq![7u8] + enc_str(sender_id) + enc_str(requestor) + enc_int(chunk_number as nat)
            + enc_int(total_chunks as nat) + enc_bytes(data),
        MessageModel::NeedGenesisBlock { sender_id, requested_from } => seq![8u8] + enc_str(
            sender_id,
        ) + enc_str(requested_from),
    }
}

/// Every byte string and text field of `m` is short enough for its length
/// to be written as an integer.
pub open spec fn fits_wire(m: MessageModel) -> bool {
    let lim = byte_bound(8);
    match m {
        MessageModel::Transaction { txn, sender_id } => txn.len() < lim && encode_utf8(
            sender_id,
        ).len() < lim,
        MessageModel::Block { block, sender_id } => block.len() < lim && encode_utf8(
            sender_id,
        ).len() < lim,
        MessageModel::TransactionValidator { txn_validator, sender_id } => txn_validator.len()
            < lim && encode_utf8(sender_id).len() < lim,
        MessageModel::Claim { claim, sender_id } => claim.len() < lim && encode_utf8(
            sender_id,
        ).len() < lim,
        MessageModel::ClaimAbandoned { claim, sender_id } => claim.len() < lim && encode_utf8(
            sender_id,
        ).len() < lim,
        MessageModel::GetNetworkState { sender_id, requested_from, .. } => encode_utf8(
            sender_id,
        ).len() < lim && encode_utf8(requested_from).len() < lim,
        MessageModel::BlockChunk { sender_id, requestor, data, .. } => encode_utf8(sender_id).len()
            < lim && encode_utf8(requestor).len() < lim && data.len() < lim,
        MessageModel::StateComponentChunk { sender_id, requestor, data, .. } => encode_utf8(
            sender_id,
        ).len() < lim && encode_utf8(requestor).len() < lim && data.len() < lim,
        MessageModel::NeedGenesisBlock { sender_id, requested_from } => encode_utf8(
            sender_id,
        ).len() < lim && encode_utf8(requested_from).len() < lim,
    }
}

// Readers of the grammar: each takes the bytes not yet read and gives the
// value read with the bytes that follow it, or `None` where the bytes do not
// start with a well-formed field.

pub open spec fn parse_int(b: Seq<u8>) -> Option<(nat, Seq<u8>)> {
    if b.len() >= 8 {
        Some((le_value(b.take(8)), b.skip(8)))
    } else {
        None
    }
}

pub open spec fn parse_u64(b: Seq<u8>) -> Option<(u64, Seq<u8>)> {
    match parse_int(b) {
        Some((v, r)) => if v <= u64::MAX {
            Some((v as u64, r))
        } else {
            None
        },
        None => None,
    }
}

pub open spec fn parse_u32(b: Seq<u8>) -> Option<(u32, Seq<u8>)> {
    match parse_int(b) {
        Some((v, r)) => if v <= u32::MAX {
            Some((v as u32, r))
        } else {
            None
        },
        None => None,
    }
}

pub open spec fn parse_bytes(b: Seq<u8>) -> Option<(Seq<u8>, Seq<u8>)> {
    match parse_int(b) {
        Some((n, r)) => if n <= r.len() {
            Some((r.take(n as int), r.skip(n as int)))
        } else {
            None
        },
        None => None,
    }
}

pub open spec fn parse_str(b: Seq<u8>) -> Option<(Seq<char>, Seq<u8>)> {
    match parse_bytes(b) {
        Some((x, r)) => if valid_utf8(x) {
            Some((decode_utf8(x), r))
        } else {
            None
        },
        None => None,
    }
}

pub open spec fn parse_component(b: Seq<u8>) -> Option<(StateComponent, Seq<u8>)> {
    if b.len() == 0 {
        None
    } else if b[0] == 0 {
        Some((StateComponent::NetworkState, b.drop_first()))
    } else if b[0] == 1 {
        Some((StateComponent::Blockchain, b.drop_first()))
    } else if b[0] == 2 {
        Some((StateComponent::Ledger, b.drop_first()))
    } else if b[0] == 3 {
        Some((StateComponent::All, b.drop_first()))
    } else if b[0] == 4 {
        match parse_u64(b.drop_first()) {
            Some((h, r)) => Some((StateComponent::PartialFromHeight(h), r)),
            None => None,
        }
    } else {
        None
    }
}

/// A byte string then a text field, with nothing after them.
pub open spec fn parse_payload_sender(b: Seq<u8>) -> Option<(Seq<u8>, Seq<char>)> {
    match parse_bytes(b) {
        Some((x, r1)) => match parse_str(r1) {
            Some((s, r2)) => if r2.len() == 0 {
                Some((x, s))
            } else {
                None
            },
            None => None,
        },
        None => None,
    }
}

/// Two text fields, with the bytes after them.
pub open spec fn parse_two_ids(b: Seq<u8>) -> Option<(Seq<char>, Seq<char>, Seq<u8>)> {
    match parse_str(b) {
        Some((s1, r1)) => match parse_str(r1) {
            Some((s2, r2)) => Some((s1, s2, r2)),
            None => None,
        },
        None => None,
    }
}

/// Two chunk counters then a byte string, with nothing after them.
pub open spec fn parse_chunk_tail(b: Seq<u8>) -> Option<(u32, u32, Seq<u8>)> {
    match parse_u32(b) {
        Some((n, r1)) => match parse_u32(r1) {
            Some((t, r2)) => match parse_bytes(r2) {
                Some((d, r3)) => if r3.len() == 0 {
                    Some((n, t, d))
                } else {
                    None
                },
                None => None,
            },
            None => None,
        },
        None => None,
    }
}

/// The message that the bytes `b` stand for, if they stand for one.
pub open spec fn parse_message(b: Seq<u8>) -> Option<MessageModel> {
    if b.len() == 0 {
        None
    } else {
        let tag = b[0];
        let rest = b.drop_first();
        if tag <= 4 {
            match parse_payload_sender(rest) {
                Some((x, s)) => Some(
                    if tag == 0 {
                        MessageModel::Transaction { txn: x, sender_id: s }
                    } else if tag == 1 {
                        MessageModel::Block { block: x, sender_id: s }
                    } else if tag == 2 {
                        MessageModel::TransactionValidator { txn_validator: x, sender_id: s }
                    } else if tag == 3 {
                        MessageModel::Claim { claim: x, sender_id: s }
                    } else {
                        MessageModel::ClaimAbandoned { claim: x, sender_id: s }
                    },
                ),
                None => None,
            }
        } else if tag <= 8 {
            match parse_two_ids(rest) {
                Some((s1, s2, r)) => if tag == 5 {
                    match parse_component(r) {
                        Some((c, r2)) => if r2.len() == 0 {
                            Some(
                                MessageModel::GetNetworkState {
                                    sender_id: s1,
                                    requested_from: s2,
                                    component: c,
                                },
                            )
                        } else {
                            None
                        },
                        None => None,
                    }
                } else if tag == 6 {
                    match parse_u64(r) {
                        Some((h, r2)) => match parse_chunk_tail(r2) {
                            Some((n, t, d)) => Some(
                                MessageModel::BlockChunk {
                                    sender_id: s1,
                                    requestor: s2,
                                    block_height: h,
                                    chunk_number: n,
                                    total_chunks: t,
                                    data: d,
                                },
                            ),
                            None => None,
                        },
                        None => None,
                    }
                } else if tag == 7 {
                    match parse_chunk_tail(r) {
                        Some((n, t, d)) => Some(
                            MessageModel::StateComponentChunk {
                                sender_id: s1,
                                requestor: s2,
                                chunk_number: n,
                                total_chunks: t,
                                data: d,
                            },
                        ),
                        None => None,
                    }
                } else if r.len() == 0 {
                    Some(MessageModel::NeedGenesisBlock { sender_id: s1, requested_from: s2 })
                } else {
                    None
                },
                None => None,
            }
        } else {
            None
        }
    }
}

pub proof fn lemma_byte_bound_eight()
    ensures
        byte_bound(8) == 0x1_0000_0000_0000_0000,
{
    reveal_with_fuel(byte_bound, 9);
}

proof fn lemma_le_round_trip(v: nat, n: nat)
    requires
        v < byte_bound(n),
    ensures
        le_bytes(v, n).len() == n,
        le_value(le_bytes(v, n)) == v,
    decreases n,
{
    if n > 0 {
        let b = byte_bound((n - 1) as nat);
        assert(v / 256 < b) by (nonlinear_arith)
            requires
                v < 256 * b,
        ;
        lemma_le_round_trip(v / 256, (n - 1) as nat);
        let s = le_bytes(v, n);
        assert(s.drop_first() =~= le_bytes(v / 256, (n - 1) as nat));
    }
}

proof fn lemma_parse_int(v: nat, rest: Seq<u8>)
    requires
        v < byte_bound(8),
    ensures
        parse_int(enc_int(v) + rest) == Some((v, rest)),
{
    lemma_le_round_trip(v, 8);
    let b = enc_int(v) + rest;
    assert(b.take(8) =~= enc_int(v));
    assert(b.skip(8) =~= rest);
}

proof fn lemma_parse_bytes(x: Seq<u8>, rest: Seq<u8>)
    requires
        x.len() < byte_bound(8),
    ensures
        parse_bytes(enc_bytes(x) + rest) == Some((x, rest)),
{
    let b = enc_bytes(x) + rest;
    assert(b =~= enc_int(x.len()) + (x + rest));
    lemma_parse_int(x.len(), x + rest);
    assert((x + rest).take(x.len() as int) =~= x);
    assert((x + rest).skip(x.len() as int) =~= rest);
}

proof fn lemma_parse_str(s: Seq<char>, rest: Seq<u8>)
    requires
        encode_utf8(s).len() < byte_bound(8),
    ensures
        parse_str(enc_str(s) + rest) == Some((s, rest)),
{
    lemma_parse_bytes(encode_utf8(s), rest);
    encode_utf8_valid_utf8(s);
    encode_utf8_decode_utf8(s);
}

proof fn lemma_parse_u32(v: u32, rest: Seq<u8>)
    ensures
        parse_u32(enc_int(v as nat) + rest) == Some((v, rest)),
{
    lemma_byte_bound_eight();
    lemma_parse_int(v as nat, rest);
}

proof fn lemma_parse_u64(v: u64, rest: Seq<u8>)
    ensures
        parse_u64(enc_int(v as nat) + rest) == Some((v, rest)),
{
    lemma_byte_bound_eight();
    lemma_parse_int(v as nat, rest);
}

proof fn lemma_parse_component(c: StateComponent, rest: Seq<u8>)
    ensures
        parse_component(enc_component(c) + rest) == Some((c, rest)),
{
    let b = enc_component(c) + rest;
    match c {
        StateComponent::PartialFromHeight(h) => {
            assert(b.drop_first() =~= enc_int(h as nat) + rest);
            lemma_parse_u64(h, rest);
        },
        _ => {
            assert(b.drop_first() =~= rest);
        },
    }
}

proof fn lemma_parse_payload_sender(x: Seq<u8>, s: Seq<char>)
    requires
        x.len() < byte_bound(8),
        encode_utf8(s).len() < byte_bound(8),
    ensures
        parse_payload_sender(enc_bytes(x) + enc_str(s)) == Some((x, s)),
{
    let empty = Seq::<u8>::empty();
    assert(enc_bytes(x) + enc_str(s) =~= enc_bytes(x) + (enc_str(s) + empty));
    assert(enc_str(s) =~= enc_str(s) + empty);
    lemma_parse_bytes(x, enc_str(s) + empty);
    lemma_parse_str(s, empty);
}

proof fn lemma_parse_two_ids(s1: Seq<char>, s2: Seq<char>, rest: Seq<u8>)
    requires
        encode_utf8(s1).len() < byte_bound(8),
        encode_utf8(s2).len() < byte_bound(8),
    ensures
        parse_two_ids(enc_str(s1) + enc_str(s2) + rest) == Some((s1, s2, rest)),
{
    assert(enc_str(s1) + enc_str(s2) + rest =~= enc_str(s1) + (enc_str(s2) + rest));
    lemma_parse_str(s1, enc_str(s2) + rest);
    lemma_parse_str(s2, rest);
}

proof fn lemma_parse_chunk_tail(n: u32, t: u32, d: Seq<u8>)
    requires
        d.len() < byte_bound(8),
    ensures
        parse_chunk_tail(enc_int(n as nat) + enc_int(t as nat) + enc_bytes(d)) == Some((n, t, d)),
{
    let empty = Seq::<u8>::empty();
    let t3 = enc_bytes(d) + empty;
    let t2 = enc_int(t as nat) + t3;
    assert(enc_int(n as nat) + enc_int(t as nat) + enc_bytes(d) =~= enc_int(n as nat) + t2);
    lemma_parse_u32(n, t2);
    lemma_parse_u32(t, t3);
    lemma_parse_bytes(d, empty);
}

/// Decoding the encoding of a message gives the message back, field for
/// field, for every message whose fields fit the wire format.
#[verifier::rlimit(50)]
pub proof fn lemma_decode_encoding(m: MessageModel)
    requires
        fits_wire(m),
    ensures
        parse_message(encoding(m)) == Some(m),
{
    let e = encoding(m);
    let empty = Seq::<u8>::empty();
    match m {
        MessageModel::Transaction { txn: x, sender_id: s }
        | MessageModel::Block { block: x, sender_id: s }
        | MessageModel::TransactionValidator { txn_validator: x, sender_id: s }
        | MessageModel::Claim { claim: x, sender_id: s }
        | MessageModel::ClaimAbandoned { claim: x, sender_id: s } => {
            assert(e.drop_first() =~= enc_bytes(x) + enc_str(s));
            lemma_parse_payload_sender(x, s);
        },
        MessageModel::GetNetworkState { sender_id, requested_from, component } => {
            let tail = enc_component(component);
            assert(e.drop_first() =~= enc_str(sender_id) + enc_str(requested_from) + tail);
            lemma_parse_two_ids(sender_id, requested_from, tail);
            assert(tail =~= tail + empty);
            lemma_parse_component(component, empty);
        },
        MessageModel::BlockChunk {
            sender_id,
            requestor,
            block_height,
            chunk_number,
            total_chunks,
            data,
        } => {
            let t1 = enc_int(chunk_number as nat) + enc_int(total_chunks as nat) + enc_bytes(data);
            let t0 = enc_int(block_height as nat) + t1;
            assert(e.drop_first() =~= enc_str(sender_id) + enc_str(requestor) + t0);
            lemma_parse_two_ids(sender_id, requestor, t0);
            lemma_parse_u64(block_height, t1);
            lemma_parse_chunk_tail(chunk_number, total_chunks, data);
        },
        MessageModel::StateComponentChunk {
            sender_id,
            requestor,
            chunk_number,
            total_chunks,
            data,
        } => {
            let t1 = enc_int(chunk_number as nat) + enc_int(total_chunks as nat) + enc_bytes(data);
            assert(e.drop_first() =~= enc_str(sender_id) + enc_str(requestor) + t1);
            lemma_parse_two_ids(sender_id, requestor, t1);
            lemma_parse_chunk_tail(chunk_number, total_chunks, data);
        },
        MessageModel::NeedGenesisBlock { sender_id, requested_from } => {
            assert(e.drop_first() =~= enc_str(sender_id) + enc_str(requested_from) + empty);
            lemma_parse_two_ids(sender_id, requested_from, empty);
        },
    }
}

fn push_int(out: &mut Vec<u8>, v: u64)
    ensures
        final(out)@ == old(out)@ + enc_int(v as nat),
{
    let ghost start = out@;
    let mut x: u64 = v;
    let mut k: usize = 0;
    while k < 8
        invariant
            k <= 8,
            out@ + le_bytes(x as nat, (8 - k) as nat) == start + le_bytes(v as nat, 8),
        decreases 8 - k,
    {
        let byte = (x % 256) as u8;
        proof {
            let rest = le_bytes(x as nat / 256, (8 - k - 1) as nat);
            assert(le_bytes(x as nat, (8 - k) as nat) == seq![byte] + rest);
            assert(out@.push(byte) + rest =~= out@ + (seq![byte] + rest));
        }
        out.push(byte);
        x = x / 256;
        k = k + 1;
    }
    assert(out@ + le_bytes(x as nat, 0) =~= out@);
}

fn push_bytes(out: &mut Vec<u8>, b: &[u8])
    ensures
        final(out)@ == old(out)@ + enc_bytes(b@),
{
    push_int(out, b.len() as u64);
    let ghost start = out@;
    let mut i: usize = 0;
    while i < b.len()
        invariant
            i <= b@.len(),
            out@ == start + b@.take(i as int),
        decreases b@.len() - i,
    {
        out.push(b[i]);
        i = i + 1;
        assert(out@ =~= start + b@.take(i as int));
    }
    assert(b@.take(b@.len() as int) =~= b@);
}

fn push_str(out: &mut Vec<u8>, s: &String)
    ensures
        final(out)@ == old(out)@ + enc_str(s@),
{
    let bytes = s.as_str().as_bytes();
    push_bytes(out, bytes);
}

fn push_component(out: &mut Vec<u8>, c: StateComponent)
    ensures
        final(out)@ == old(out)@ + enc_component(c),
{
    match c {
        StateComponent::NetworkState => out.push(0),
        StateComponent::Blockchain => out.push(1),
        StateComponent::Ledger => out.push(2),
        StateComponent::All => out.push(3),
        StateComponent::PartialFromHeight(h) => {
            out.push(4);
            push_int(out, h);
        },
    }
    assert(out@ =~= old(out)@ + enc_component(c));
}

/// The wire bytes of a message.
pub fn encode_message(m: &ProtocolMessage) -> (r: Vec<u8>)
    ensures
        r@ == encoding(m@),
{
    let mut out: Vec<u8> = Vec::new();
    match m {
        ProtocolMessage::Transaction { txn: x, sender_id: s } => {
            out.push(0);
            push_bytes(&mut out, x.as_slice());
            push_str(&mut out, s);
        },
        ProtocolMessage::Block { block: x, sender_id: s } => {
            out.push(1);
            push_bytes(&mut out, x.as_slice());
            push_str(&mut out, s);
        },
        ProtocolMessage::TransactionValidator { txn_validator: x, sender_id: s } => {
            out.push(2);
            push_bytes(&mut out, x.as_slice());
            push_str(&mut out, s);
        },
        ProtocolMessage::Claim { claim: x, sender_id: s } => {
            out.push(3);
            push_bytes(&mut out, x.as_slice());
            push_str(&mut out, s);
        },
        ProtocolMessage::ClaimAbandoned { claim: x, sender_id: s } => {
            out.push(4);
            push_bytes(&mut out, x.as_slice());
            push_str(&mut out, s);
        },
        ProtocolMessage::GetNetworkState { sender_id, requested_from, component } => {
            out.push(5);
            push_str(&mut out, sender_id);
            push_str(&mut out, requested_from);
            push_component(&mut out, *component);
        },
        ProtocolMessage::BlockChunk {
            sender_id,
            requestor,
            block_height,
            chunk_number,
            total_chunks,
            data,
        } => {
            out.push(6);
            push_str(&mut out, sender_id);
            push_str(&mut out, requestor);
            push_int(&mut out, *block_height);
            push_int(&mut out, *chunk_number as u64);
            push_int(&mut out, *total_chunks as u64);
            push_bytes(&mut out, data.as_slice());
        },
        ProtocolMessage::StateComponentChunk {
            sender_id,
            requestor,
            chunk_number,
            total_chunks,
            data,
        } => {
            out.push(7);
            push_str(&mut out, sender_id);
            push_str(&mut out, requestor);
            push_int(&mut out, *chunk_number as u64);
            push_int(&mut out, *total_chunks as u64);
            push_bytes(&mut out, data.as_slice());
        },
        ProtocolMessage::NeedGenesisBlock { sender_id, requested_from } => {
            out.push(8);
            push_str(&mut out, sender_id);
            push_str(&mut out, requested_from);
        },
    }
    assert(out@ =~= encoding(m@));
    out
}

proof fn lemma_le_inverse(s: Seq<u8>)
    ensures
        le_bytes(le_value(s), s.len()) == s,
        le_value(s) < byte_bound(s.len()),
    decreases s.len(),
{
    if s.len() > 0 {
        let rest = s.drop_first();
        lemma_le_inverse(rest);
        let l = le_value(rest);
        let b0 = s[0] as nat;
        let bb = byte_bound(rest.len());
        assert((b0 + 256 * l) % 256 == b0 && (b0 + 256 * l) / 256 == l) by (nonlinear_arith)
            requires
                b0 < 256,
        ;
        assert(b0 + 256 * l < 256 * bb) by (nonlinear_arith)
            requires
                b0 < 256,
                l < bb,
        ;
        assert(le_bytes(le_value(s), s.len()) =~= s);
    }
}

proof fn lemma_parse_int_inverse(b: Seq<u8>)
    requires
        parse_int(b) is Some,
    ensures
        ({
            let (v, r) = parse_int(b)->0;
            b == enc_int(v) + r && v < byte_bound(8)
        }),
{
    lemma_le_inverse(b.take(8));
    assert(b =~= b.take(8) + b.skip(8));
}

proof fn lemma_parse_bytes_inverse(b: Seq<u8>)
    requires
        parse_bytes(b) is Some,
    ensures
        ({
            let (x, r) = parse_bytes(b)->0;
            b == enc_bytes(x) + r && x.len() < byte_bound(8)
        }),
{
    lemma_parse_int_inverse(b);
    let (n, r1) = parse_int(b)->0;
    assert(r1 =~= r1.take(n as int) + r1.skip(n as int));
    assert(b =~= enc_bytes(r1.take(n as int)) + r1.skip(n as int));
}

proof fn lemma_parse_str_inverse(b: Seq<u8>)
    requires
        parse_str(b) is Some,
    ensures
        ({
            let (s, r) = parse_str(b)->0;
            b == enc_str(s) + r && encode_utf8(s).len() < byte_bound(8)
        }),
{
    lemma_parse_bytes_inverse(b);
    let (x, r) = parse_bytes(b)->0;
    decode_utf8_encode_utf8(x);
}

proof fn lemma_parse_component_inverse(b: Seq<u8>)
    requires
        parse_component(b) is Some,
    ensures
        ({
            let (c, r) = parse_component(b)->0;
            b == enc_component(c) + r
        }),
{
    let rest = b.drop_first();
    if b[0] == 4 {
        lemma_parse_int_inverse(rest);
    }
    assert(b =~= seq![b[0]] + rest);
}

proof fn lemma_parse_payload_sender_inverse(b: Seq<u8>)
    requires
        parse_payload_sender(b) is Some,
    ensures
        ({
            let (x, s) = parse_payload_sender(b)->0;
            b == enc_bytes(x) + enc_str(s) && x.len() < byte_bound(8) && encode_utf8(s).len()
                < byte_bound(8)
        }),
{
    lemma_parse_bytes_inverse(b);
    let (x, r1) = parse_bytes(b)->0;
    lemma_parse_str_inverse(r1);
    let (s, r2) = parse_str(r1)->0;
    assert(enc_str(s) + r2 =~= enc_str(s));
    assert(b =~= enc_bytes(x) + enc_str(s));
}

proof fn lemma_parse_two_ids_inverse(b: Seq<u8>)
    requires
        parse_two_ids(b) is Some,
    ensures
        ({
            let (s1, s2, r) = parse_two_ids(b)->0;
            b == enc_str(s1) + enc_str(s2) + r && encode_utf8(s1).len() < byte_bound(8)
                && encode_utf8(s2).len() < byte_bound(8)
        }),
{
    lemma_parse_str_inverse(b);
    let (s1, r1) = parse_str(b)->0;
    lemma_parse_str_inverse(r1);
    let (s2, r2) = parse_str(r1)->0;
    assert(b =~= enc_str(s1) + enc_str(s2) + r2);
}

proof fn lemma_parse_chunk_tail_inverse(b: Seq<u8>)
    requires
        parse_chunk_tail(b) is Some,
    ensures
        ({
            let (n, t, d) = parse_chunk_tail(b)->0;
            b == enc_int(n as nat) + enc_int(t as nat) + enc_bytes(d) && d.len() < byte_bound(8)
        }),
{
    lemma_parse_int_inverse(b);
    let (n, r1) = parse_u32(b)->0;
    lemma_parse_int_inverse(r1);
    let (t, r2) = parse_u32(r1)->0;
    lemma_parse_bytes_inverse(r2);
    let (d, r3) = parse_bytes(r2)->0;
    assert(enc_bytes(d) + r3 =~= enc_bytes(d));
    assert(b =~= enc_int(n as nat) + enc_int(t as nat) + enc_bytes(d));
}

proof fn lemma_canonical_payload_kinds(b: Seq<u8>)
    requires
        parse_message(b) is Some,
        b[0] <= 4,
    ensures
        encoding(parse_message(b)->0) == b,
        fits_wire(parse_message(b)->0),
{
    let tag = b[0];
    let rest = b.drop_first();
    assert(b =~= seq![tag] + rest);
    lemma_parse_payload_sender_inverse(rest);
    let (x, s) = parse_payload_sender(rest)->0;
    assert(seq![tag] + rest =~= seq![tag] + enc_bytes(x) + enc_str(s));
}

proof fn lemma_canonical_state_request(b: Seq<u8>)
    requires
        parse_message(b) is Some,
        b[0] == 5,
    ensures
        encoding(parse_message(b)->0) == b,
        fits_wire(parse_message(b)->0),
{
    let rest = b.drop_first();
    assert(b =~= seq![5u8] + rest);
    lemma_parse_two_ids_inverse(rest);
    let (s1, s2, r) = parse_two_ids(rest)->0;
    lemma_parse_component_inverse(r);
    let (c, r2) = parse_component(r)->0;
    assert(seq![5u8] + rest =~= seq![5u8] + enc_str(s1) + enc_str(s2) + enc_component(c));
}

#[verifier::rlimit(50)]
proof fn lemma_canonical_block_chunk(b: Seq<u8>)
    requires
        parse_message(b) is Some,
        b[0] == 6,
    ensures
        encoding(parse_message(b)->0) == b,
        fits_wire(parse_message(b)->0),
{
    let rest = b.drop_first();
    assert(b =~= seq![6u8] + rest);
    lemma_parse_two_ids_inverse(rest);
    let (s1, s2, r) = parse_two_ids(rest)->0;
    lemma_parse_int_inverse(r);
    let (h, r2) = parse_u64(r)->0;
    lemma_parse_chunk_tail_inverse(r2);
    let (n, t, d) = parse_chunk_tail(r2)->0;
    let m = MessageModel::BlockChunk {
        sender_id: s1,
        requestor: s2,
        block_height: h,
        chunk_number: n,
        total_chunks: t,
        data: d,
    };
    assert(parse_message(b) == Some(m));
    let tail = enc_int(n as nat) + enc_int(t as nat) + enc_bytes(d);
    assert(r2 == tail);
    assert(r == enc_int(h as nat) + tail);
    assert(encoding(m) =~= seq![6u8] + (enc_str(s1) + enc_str(s2) + (enc_int(h as nat) + tail)));
}

#[verifier::rlimit(50)]
proof fn lemma_canonical_component_chunk(b: Seq<u8>)
    requires
        parse_message(b) is Some,
        b[0] == 7,
    ensures
        encoding(parse_message(b)->0) == b,
        fits_wire(parse_message(b)->0),
{
    let rest = b.drop_first();
    assert(b =~= seq![7u8] + rest);
    lemma_parse_two_ids_inverse(rest);
    let (s1, s2, r) = parse_two_ids(rest)->0;
    lemma_parse_chunk_tail_inverse(r);
    let (n, t, d) = parse_chunk_tail(r)->0;
    let m = MessageModel::StateComponentChunk {
        sender_id: s1,
        requestor: s2,
        chunk_number: n,
        total_chunks: t,
        data: d,
    };
    assert(parse_message(b) == Some(m));
    let tail = enc_int(n as nat) + enc_int(t as nat) + enc_bytes(d);
    assert(r == tail);
    assert(encoding(m) =~= seq![7u8] + (enc_str(s1) + enc_str(s2) + tail));
}

proof fn lemma_canonical_genesis_request(b: Seq<u8>)
    requires
        parse_message(b) is Some,
        b[0] == 8,
    ensures
        encoding(parse_message(b)->0) == b,
        fits_wire(parse_message(b)->0),
{
    let rest = b.drop_first();
    assert(b =~= seq![8u8] + rest);
    lemma_parse_two_ids_inverse(rest);
    let (s1, s2, r) = parse_two_ids(rest)->0;
    assert(seq![8u8] + rest =~= seq![8u8] + enc_str(s1) + enc_str(s2));
}

/// The bytes that decode to a message are exactly its encoding: every
/// message has one wire form, and no other bytes are read as it.
pub proof fn lemma_decoded_bytes_are_encoding(b: Seq<u8>)
    requires
        parse_message(b) is Some,
    ensures
        encoding(parse_message(b)->0) == b,
        fits_wire(parse_message(b)->0),
{
    let tag = b[0];
    if tag <= 4 {
        lemma_canonical_payload_kinds(b);
    } else if tag == 5 {
        lemma_canonical_state_request(b);
    } else if tag == 6 {
        lemma_canonical_block_chunk(b);
    } else if tag == 7 {
        lemma_canonical_component_chunk(b);
    } else {
        lemma_canonical_genesis_request(b);
    }
}

/// The model of an optional message.
pub open spec fn message_view(m: Option<ProtocolMessage>) -> Option<MessageModel> {
    match m {
        Some(m) => Some(m@),
        None => None,
    }
}

/// Relies on std's `String::from_utf8`: it accepts exactly the well-formed
/// UTF-8 byte strings and keeps the characters that they encode.
#[verifier::external_body]
fn string_from_utf8(bytes: Vec<u8>) -> (r: Option<String>)
    ensures
        r is Some <==> valid_utf8(bytes@),
        r matches Some(s) ==> s@ == decode_utf8(bytes@),
{
    String::from_utf8(bytes).ok()
}

fn read_int(b: &[u8], pos: usize) -> (r: Option<(u64, usize)>)
    requires
        pos <= b@.len(),
    ensures
        match r {
            Some((v, p)) => pos <= p <= b@.len() && parse_int(b@.skip(pos as int)) == Some(
                (v as nat, b@.skip(p as int)),
            ),
            None => parse_int(b@.skip(pos as int)) is None,
        },
{
    if b.len() - pos < 8 {
        return None;
    }
    let mut acc: u64 = 0;
    let mut k: usize = 8;
    assert(b@.subrange(pos + 8, pos + 8) =~= Seq::<u8>::empty());
    while k > 0
        invariant
            k <= 8,
            pos + 8 <= b.len(),
            acc as nat == le_value(b@.subrange(pos + k, pos + 8)),
            (acc as nat) < byte_bound((8 - k) as nat),
        decreases k,
    {
        k = k - 1;
        let byte = b[pos + k];
        proof {
            let s = b@.subrange(pos + k, pos + 8);
            assert(s.drop_first() =~= b@.subrange(pos + k + 1, pos + 8));
            let bb = byte_bound((8 - k - 1) as nat);
            assert(byte_bound((8 - k) as nat) == 256 * bb);
            reveal_with_fuel(byte_bound, 9);
            assert(256 * bb <= 0x1_0000_0000_0000_0000);
            assert(byte as nat + 256 * acc < 256 * bb) by (nonlinear_arith)
                requires
                    acc < bb,
                    byte < 256,
            ;
        }
        acc = byte as u64 + 256 * acc;
    }
    assert(b@.skip(pos as int).take(8) =~= b@.subrange(pos as int, pos + 8));
    assert(b@.skip(pos as int).skip(8) =~= b@.skip(pos + 8));
    Some((acc, pos + 8))
}

fn read_u32(b: &[u8], pos: usize) -> (r: Option<(u32, usize)>)
    requires
        pos <= b@.len(),
    ensures
        match r {
            Some((v, p)) => pos <= p <= b@.len() && parse_u32(b@.skip(pos as int)) == Some(
                (v, b@.skip(p as int)),
            ),
            None => parse_u32(b@.skip(pos as int)) is None,
        },
{
    match read_int(b, pos) {
        Some((v, p)) => if v <= 0xffff_ffff {
            Some((v as u32, p))
        } else {
            None
        },
        None => None,
    }
}

fn read_u64(b: &[u8], pos: usize) -> (r: Option<(u64, usize)>)
    requires
        pos <= b@.len(),
    ensures
        match r {
            Some((v, p)) => pos <= p <= b@.len() && parse_u64(b@.skip(pos as int)) == Some(
                (v, b@.skip(p as int)),
            ),
            None => parse_u64(b@.skip(pos as int)) is None,
        },
{
    read_int(b, pos)
}

fn read_bytes(b: &[u8], pos: usize) -> (r: Option<(Vec<u8>, usize)>)
    requires
        pos <= b@.len(),
    ensures
        match r {
            Some((x, p)) => pos <= p <= b@.len() && parse_bytes(b@.skip(pos as int)) == Some(
                (x@, b@.skip(p as int)),
            ),
            None => parse_bytes(b@.skip(pos as int)) is None,
        },
{
    match read_int(b, pos) {
        Some((n, p)) => {
            if n > (b.len() - p) as u64 {
                return None;
            }
            let end = p + n as usize;
            let mut out: Vec<u8> = Vec::new();
            let mut i: usize = p;
            while i < end
                invariant
                    p <= i <= end <= b@.len(),
                    out@ == b@.subrange(p as int, i as int),
                decreases end - i,
            {
                out.push(b[i]);
                i = i + 1;
                assert(out@ =~= b@.subrange(p as int, i as int));
            }
            assert(b@.skip(p as int).take(n as int) =~= out@);
            assert(b@.skip(p as int).skip(n as int) =~= b@.skip(end as int));
            Some((out, end))
        },
        None => None,
    }
}

fn read_str(b: &[u8], pos: usize) -> (r: Option<(String, usize)>)
    requires
        pos <= b@.len(),
    ensures
        match r {
            Some((s, p)) => pos <= p <= b@.len() && parse_str(b@.skip(pos as int)) == Some(
                (s@, b@.skip(p as int)),
            ),
            None => parse_str(b@.skip(pos as int)) is None,
        },
{
    match read_bytes(b, pos) {
        Some((x, p)) => match string_from_utf8(x) {
            Some(s) => Some((s, p)),
            None => None,
        },
        None => None,
    }
}

fn read_component(b: &[u8], pos: usize) -> (r: Option<(StateComponent, usize)>)
    requires
        pos <= b@.len(),
    ensures
        match r {
            Some((c, p)) => pos <= p <= b@.len() && parse_component(b@.skip(pos as int)) == Some(
                (c, b@.skip(p as int)),
            ),
            None => parse_component(b@.skip(pos as int)) is None,
        },
{
    if pos == b.len() {
        return None;
    }
    let tag = b[pos];
    assert(b@.skip(pos as int).drop_first() =~= b@.skip(pos + 1));
    if tag == 0 {
        Some((StateComponent::NetworkState, pos + 1))
    } else if tag == 1 {
        Some((StateComponent::Blockchain, pos + 1))
    } else if tag == 2 {
        Some((StateComponent::Ledger, pos + 1))
    } else if tag == 3 {
        Some((StateComponent::All, pos + 1))
    } else if tag == 4 {
        match read_u64(b, pos + 1) {
            Some((h, p)) => Some((StateComponent::PartialFromHeight(h), p)),
            None => None,
        }
    } else {
        None
    }
}

fn read_payload_sender(b: &[u8], pos: usize) -> (r: Option<(Vec<u8>, String)>)
    requires
        pos <= b@.len(),
    ensures
        match r {
            Some((x, s)) => parse_payload_sender(b@.skip(pos as int)) == Some((x@, s@)),
            None => parse_payload_sender(b@.skip(pos as int)) is None,
        },
{
    match read_bytes(b, pos) {
        Some((x, p1)) => match read_str(b, p1) {
            Some((s, p2)) => if p2 == b.len() {
                Some((x, s))
            } else {
                None
            },
            None => None,
        },
        None => None,
    }
}

fn read_two_ids(b: &[u8], pos: usize) -> (r: Option<(String, String, usize)>)
    requires
        pos <= b@.len(),
    ensures
        match r {
            Some((s1, s2, p)) => pos <= p <= b@.len() && parse_two_ids(b@.skip(pos as int))
                == Some((s1@, s2@, b@.skip(p as int))),
            None => parse_two_ids(b@.skip(pos as int)) is None,
        },
{
    match read_str(b, pos) {
        Some((s1, p1)) => match read_str(b, p1) {
            Some((s2, p2)) => Some((s1, s2, p2)),
            None => None,
        },
        None => None,
    }
}

fn read_chunk_tail(b: &[u8], pos: usize) -> (r: Option<(u32, u32, Vec<u8>)>)
    requires
        pos <= b@.len(),
    ensures
        match r {
            Some((n, t, d)) => parse_chunk_tail(b@.skip(pos as int)) == Some((n, t, d@)),
            None => parse_chunk_tail(b@.skip(pos as int)) is None,
        },
{
    match read_u32(b, pos) {
        Some((n, p1)) => match read_u32(b, p1) {
            Some((t, p2)) => match read_bytes(b, p2) {
                Some((d, p3)) => if p3 == b.len() {
                    Some((n, t, d))
                } else {
                    None
                },
                None => None,
            },
            None => None,
        },
        None => None,
    }
}

/// The message that the wire bytes `b` stand for, or `None` where they are
/// truncated, carry an unknown tag, a malformed field or trailing bytes.
pub fn decode_message(b: &[u8]) -> (r: Option<ProtocolMessage>)
    ensures
        message_view(r) == parse_message(b@),
{
    if b.len() == 0 {
        return None;
    }
    let tag = b[0];
    assert(b@.drop_first() =~= b@.skip(1));
    if tag <= 4 {
        match read_payload_sender(b, 1) {
            Some((x, s)) => Some(
                if tag == 0 {
                    ProtocolMessage::Transaction { txn: x, sender_id: s }
                } else if tag == 1 {
                    ProtocolMessage::Block { block: x, sender_id: s }
                } else if tag == 2 {
                    ProtocolMessage::TransactionValidator { txn_validator: x, sender_id: s }
                } else if tag == 3 {
                    ProtocolMessage::Claim { claim: x, sender_id: s }
                } else {
                    ProtocolMessage::ClaimAbandoned { claim: x, sender_id: s }
                },
            ),
            None => None,
        }
    } else if tag <= 8 {
        match read_two_ids(b, 1) {
            Some((s1, s2, p)) => {
                if tag == 5 {
                    match read_component(b, p) {
                        Some((c, p2)) => if p2 == b.len() {
                            Some(
                                ProtocolMessage::GetNetworkState {
                                    sender_id: s1,
                                    requested_from: s2,
                                    component: c,
                                },
                            )
                        } else {
                            None
                        },
                        None => None,
                    }
                } else if tag == 6 {
                    match read_u64(b, p) {
                        Some((h, p2)) => match read_chunk_tail(b, p2) {
                            Some((n, t, d)) => Some(
                                ProtocolMessage::BlockChunk {
                                    sender_id: s1,
                                    requestor: s2,
                                    block_height: h,
                                    chunk_number: n,
                                    total_chunks: t,
                                    data: d,
                                },
                            ),
                            None => None,
                        },
                        None => None,
                    }
                } else if tag == 7 {
                    match read_chunk_tail(b, p) {
                        Some((n, t, d)) => Some(
                            ProtocolMessage::StateComponentChunk {
                                sender_id: s1,
                                requestor: s2,
                                chunk_number: n,
                                total_chunks: t,
                                data: d,
                            },
                        ),
                        None => None,
                    }
                } else if p == b.len() {
                    Some(ProtocolMessage::NeedGenesisBlock { sender_id: s1, requested_from: s2 })
                } else {
                    None
                }
            },
            None => None,
        }
    } else {
        None
    }
}

} // verus!
