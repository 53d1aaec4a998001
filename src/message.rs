//! Protocol messages exchanged over gossip and the commands they turn into.
use vstd::prelude::*;

verus! {

/// Which part of the replicated node state a peer asks for.
#[derive(Clone, Copy, Debug, PartialEq, Eq, Structural)]
pub enum StateComponent {
    NetworkState,
    Blockchain,
    Ledger,
    All,
    /// Everything from the given block height on.
    PartialFromHeight(u64),
}

/// A block height that names the subject of a state-database chunk.
#[derive(Clone, Copy, Debug, PartialEq, Eq, Structural)]
pub struct StateBlock(pub u64);

/// A decoded gossip message. Payloads that other parts of the node own
/// (transactions, blocks, claims, votes, state) travel as opaque bytes.
#[derive(Clone, Debug, PartialEq, Eq)]
pub enum ProtocolMessage {
    Transaction { txn: Vec<u8>, sender_id: String },
    Block { block: Vec<u8>, sender_id: String },
    TransactionValidator { txn_validator: Vec<u8>, sender_id: String },
    Claim { claim: Vec<u8>, sender_id: String },
    ClaimAbandoned { claim: Vec<u8>, sender_id: String },
    GetNetworkState { sender_id: String, requested_from: String, component: StateComponent },
    BlockChunk {
        sender_id: String,
        requestor: String,
        block_height: u64,
        chunk_number: u32,
        total_chunks: u32,
        data: Vec<u8>,
    },
    StateComponentChunk {
        sender_id: String,
        requestor: String,
        chunk_number: u32,
        total_chunks: u32,
        data: Vec<u8>,
    },
    NeedGenesisBlock { sender_id: String, requested_from: String },
}

/// An instruction for the rest of the node, produced from one message.
#[derive(Clone, Debug, PartialEq, Eq)]
pub enum Command {
    ProcessTxn(Vec<u8>),
    PendingBlock(Vec<u8>, String),
    ProcessTxnValidator(Vec<u8>),
    ProcessClaim(Vec<u8>),
    ClaimAbandoned(String, Vec<u8>),
    SendStateComponents(String, StateComponent),
    SendState(String, u64),
    StoreStateDbChunk(StateBlock, Vec<u8>, u32, u32),
    StoreStateComponentChunk(Vec<u8>, u32, u32),
    SendGenesis(String),
}

/// The mathematical value of a `ProtocolMessage`.
pub enum MessageModel {
    Transaction { txn: Seq<u8>, sender_id: Seq<char> },
    Block { block: Seq<u8>, sender_id: Seq<char> },
    TransactionValidator { txn_validator: Seq<u8>, sender_id: Seq<char> },
    Claim { claim: Seq<u8>, sender_id: Seq<char> },
    ClaimAbandoned { claim: Seq<u8>, sender_id: Seq<char> },
    GetNetworkState { sender_id: Seq<char>, requested_from: Seq<char>, component: StateComponent },
    BlockChunk {
        sender_id: Seq<char>,
        requestor: Seq<char>,
        block_height: u64,
        chunk_number: u32,
        total_chunks: u32,
        data: Seq<u8>,
    },
    StateComponentChunk {
        sender_id: Seq<char>,
        requestor: Seq<char>,
        chunk_number: u32,
        total_chunks: u32,
        data: Seq<u8>,
    },
    NeedGenesisBlock { sender_id: Seq<char>, requested_from: Seq<char> },
}

/// The mathematical value of a `Command`.
pub enum CommandModel {
    ProcessTxn(Seq<u8>),
    PendingBlock(Seq<u8>, Seq<char>),
    ProcessTxnValidator(Seq<u8>),
    ProcessClaim(Seq<u8>),
    ClaimAbandoned(Seq<char>, Seq<u8>),
    SendStateComponents(Seq<char>, StateComponent),
    SendState(Seq<char>, u64),
    StoreStateDbChunk(StateBlock, Seq<u8>, u32, u32),
    StoreStateComponentChunk(Seq<u8>, u32, u32),
    SendGenesis(Seq<char>),
}

impl View for ProtocolMessage {
    type V = MessageModel;

    open spec fn view(&self) -> MessageModel {
        match self {
            ProtocolMessage::Transaction { txn, sender_id } => MessageModel::Transaction {
                txn: txn@,
                sender_id: sender_id@,
            },
            ProtocolMessage::Block { block, sender_id } => MessageModel::Block {
                block: block@,
                sender_id: sender_id@,
            },
            ProtocolMessage::TransactionValidator { txn_validator, sender_id } => {
                MessageModel::TransactionValidator {
                    txn_validator: txn_validator@,
                    sender_id: sender_id@,
                }
            },
            ProtocolMessage::Claim { claim, sender_id } => MessageModel::Claim {
                claim: claim@,
                sender_id: sender_id@,
            },
            ProtocolMessage::ClaimAbandoned { claim, sender_id } => MessageModel::ClaimAbandoned {
                claim: claim@,
                sender_id: sender_id@,
            },
            ProtocolMessage::GetNetworkState { sender_id, requested_from, component } => {
                MessageModel::GetNetworkState {
                    sender_id: sender_id@,
                    requested_from: requested_from@,
                    component: *component,
                }
            },
            ProtocolMessage::BlockChunk {
                sender_id,
                requestor,
                block_height,
                chunk_number,
                total_chunks,
                data,
            } => MessageModel::BlockChunk {
                sender_id: sender_id@,
                requestor: requestor@,
                block_height: *block_height,
                chunk_number: *chunk_number,
                total_chunks: *total_chunks,
                data: data@,
            },
            ProtocolMessage::StateComponentChunk {
                sender_id,
                requestor,
                chunk_number,
                total_chunks,
                data,
            } => MessageModel::StateComponentChunk {
                sender_id: sender_id@,
                requestor: requestor@,
                chunk_number: *chunk_number,
                total_chunks: *total_chunks,
                data: data@,
            },
            ProtocolMessage::NeedGenesisBlock { sender_id, requested_from } => {
                MessageModel::NeedGenesisBlock {
                    sender_id: sender_id@,
                    requested_from: requested_from@,
                }
            },
        }
    }
}

impl View for Command {
    type V = CommandModel;

    open spec fn view(&self) -> CommandModel {
        match self {
            Command::ProcessTxn(t) => CommandModel::ProcessTxn(t@),
            Command::PendingBlock(b, s) => CommandModel::PendingBlock(b@, s@),
            Command::ProcessTxnValidator(v) => CommandModel::ProcessTxnValidator(v@),
            Command::ProcessClaim(c) => CommandModel::ProcessClaim(c@),
            Command::ClaimAbandoned(s, c) => CommandModel::ClaimAbandoned(s@, c@),
            Command::SendStateComponents(s, c) => CommandModel::SendStateComponents(s@, *c),
            Command::SendState(s, h) => CommandModel::SendState(s@, *h),
            Command::StoreStateDbChunk(b, d, n, t) => CommandModel::StoreStateDbChunk(
                *b,
                d@,
                *n,
                *t,
            ),
            Command::StoreStateComponentChunk(d, n, t) => CommandModel::StoreStateComponentChunk(
                d@,
                *n,
                *t,
            ),
            Command::SendGenesis(s) => CommandModel::SendGenesis(s@),
        }
    }
}

/// The model of an optional command.
pub open spec fn command_view(c: Option<Command>) -> Option<CommandModel> {
    match c {
        Some(c) => Some(c@),
        None => None,
    }
}

/// The command a node with identifier `local_id` draws from message `m`.
/// Broadcast kinds always act; request and response kinds act only on the
/// node they are addressed to.
pub open spec fn command_for(m: MessageModel, local_id: Seq<char>) -> Option<CommandModel> {
    match m {
        MessageModel::Transaction { txn, .. } => Some(CommandModel::ProcessTxn(txn)),
        MessageModel::Block { block, sender_id } => Some(
            CommandModel::PendingBlock(block, sender_id),
        ),
        MessageModel::TransactionValidator { txn_validator, .. } => Some(
            CommandModel::ProcessTxnValidator(txn_validator),
        ),
        MessageModel::Claim { claim, .. } => Some(CommandModel::ProcessClaim(claim)),
        MessageModel::ClaimAbandoned { claim, sender_id } => Some(
            CommandModel::ClaimAbandoned(sender_id, claim),
        ),
        MessageModel::GetNetworkState { sender_id, requested_from, component } => {
            if requested_from != local_id {
                None
            } else {
                match component {
                    StateComponent::PartialFromHeight(h) => Some(
                        CommandModel::SendState(sender_id, h),
                    ),
                    _ => Some(CommandModel::SendStateComponents(sender_id, component)),
                }
            }
        },
        MessageModel::BlockChunk {
            requestor,
            block_height,
            chunk_number,
            total_chunks,
            data,
            ..
        } => if requestor == local_id {
            Some(
                CommandModel::StoreStateDbChunk(
                    StateBlock(block_height),
                    data,
                    chunk_number,
                    total_chunks,
                ),
            )
        } else {
            None
        },
        MessageModel::StateComponentChunk { requestor, chunk_number, total_chunks, data, .. } => {
            if requestor == local_id {
                Some(CommandModel::StoreStateComponentChunk(data, chunk_number, total_chunks))
            } else {
                None
            }
        },
        MessageModel::NeedGenesisBlock { sender_id, requested_from } => if requested_from
            == local_id {
            Some(CommandModel::SendGenesis(sender_id))
        } else {
            None
        },
    }
}

/// Turns a decoded message into the command it asks of the node `node_id`,
/// or `None` where the message is addressed to another node.
pub fn dispatch(message: ProtocolMessage, node_id: &String) -> (r: Option<Command>)
    ensures
        command_view(r) == command_for(message@, node_id@),
{
    match message {
        ProtocolMessage::Transaction { txn, .. } => Some(Command::ProcessTxn(txn)),
        ProtocolMessage::Block { block, sender_id } => Some(Command::PendingBlock(block, sender_id)),
        ProtocolMessage::TransactionValidator { txn_validator, .. } => Some(
            Command::ProcessTxnValidator(txn_validator),
        ),
        ProtocolMessage::Claim { claim, .. } => Some(Command::ProcessClaim(claim)),
        ProtocolMessage::ClaimAbandoned { claim, sender_id } => Some(
            Command::ClaimAbandoned(sender_id, claim),
        ),
        ProtocolMessage::GetNetworkState { sender_id, requested_from, component } => {
            if requested_from == *node_id {
                match component {
                    StateComponent::PartialFromHeight(h) => Some(Command::SendState(sender_id, h)),
                    _ => Some(Command::SendStateComponents(sender_id, component)),
                }
            } else {
                None
            }
        },
        ProtocolMessage::BlockChunk {
            requestor,
            block_height,
            chunk_number,
            total_chunks,
            data,
            ..
        } => {
            if requestor == *node_id {
                Some(
                    Command::StoreStateDbChunk(
                        StateBlock(block_height),
                        data,
                        chunk_number,
                        total_chunks,
                    ),
                )
            } else {
                None
            }
        },
        ProtocolMessage::StateComponentChunk { requestor, chunk_number, total_chunks, data, .. } => {
            if requestor == *node_id {
                Some(Command::StoreStateComponentChunk(data, chunk_number, total_chunks))
            } else {
                None
            }
        },
        ProtocolMessage::NeedGenesisBlock { sender_id, requested_from } => {
            if requested_from == *node_id {
                Some(Command::SendGenesis(sender_id))
            } else {
                None
            }
        },
    }
}

/// Dispatch depends on the message and the local identifier alone: two
/// messages with the same content, seen by nodes with the same identifier,
/// yield the same command, so dispatching one message twice repeats the result.
pub proof fn lemma_dispatch_repeatable(
    a: ProtocolMessage,
    b: ProtocolMessage,
    id_a: String,
    id_b: String,
)
    requires
        a@ == b@,
        id_a@ == id_b@,
    ensures
        command_for(a@, id_a@) == command_for(b@, id_b@),
{
}

} // verus!
