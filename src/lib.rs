//! Peer-to-peer networking core of a blockchain node: the wire format of
//! gossip messages, the dispatch of decoded messages into node commands, and
//! the per-block reward schedule.

pub mod codec;
pub mod message;
pub mod overlay;
pub mod reward;
pub mod wire;
