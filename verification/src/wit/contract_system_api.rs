//! The records of the contract system interface, as the host receives them.

use vstd::prelude::*;

verus! {

/// A cryptographic hash, as four 64-bit words.
#[derive(Clone, Copy, Debug, PartialEq, Eq, Structural)]
pub struct CryptoHash {
    pub part1: u64,
    pub part2: u64,
    pub part3: u64,
    pub part4: u64,
}

/// The owner of a chain or of an account.
#[derive(Clone, Copy, Debug, PartialEq, Eq, Structural)]
pub struct Owner {
    pub inner0: CryptoHash,
}

/// The identifier of a blob.
#[derive(Clone, Copy, Debug, PartialEq, Eq, Structural)]
pub struct BlobId {
    pub inner0: CryptoHash,
}

/// An amount of tokens, as its (low, high) 64-bit halves.
#[derive(Clone, Copy, Debug, PartialEq, Eq)]
pub struct Amount {
    pub inner0: (u64, u64),
}

/// The identifier of a chain.
#[derive(Clone, Copy, Debug, PartialEq, Eq, Structural)]
pub struct ChainId {
    pub inner0: CryptoHash,
}

/// An account: a chain, and optionally an owner on that chain.
#[derive(Clone, Copy, Debug, PartialEq, Eq, Structural)]
pub struct Account {
    pub chain_id: ChainId,
    pub owner: Option<Owner>,
}

/// The height of a block.
#[derive(Clone, Copy, Debug, PartialEq, Eq, Structural)]
pub struct BlockHeight {
    pub inner0: u64,
}

/// The identifier of a message.
#[derive(Clone, Copy, Debug, PartialEq, Eq, Structural)]
pub struct MessageId {
    pub chain_id: ChainId,
    pub height: BlockHeight,
    pub index: u32,
}

/// The identifier of published bytecode.
#[derive(Clone, Copy, Debug, PartialEq, Eq, Structural)]
pub struct BytecodeId {
    pub message_id: MessageId,
}

/// The identifier of an application.
#[derive(Clone, Copy, Debug, PartialEq, Eq, Structural)]
pub struct ApplicationId {
    pub bytecode_id: BytecodeId,
    pub creation: MessageId,
}

/// A point in time, in microseconds.
#[derive(Clone, Copy, Debug, PartialEq, Eq, Structural)]
pub struct Timestamp {
    pub inner0: u64,
}

/// The name of a channel.
#[derive(Clone, Debug, PartialEq, Eq)]
pub struct ChannelName {
    pub inner0: Vec<u8>,
}

/// The name of an event stream.
#[derive(Clone, Debug, PartialEq, Eq)]
pub struct StreamName {
    pub inner0: Vec<u8>,
}

/// The destination of a message.
#[derive(Clone, Debug, PartialEq, Eq)]
pub enum Destination {
    Recipient(ChainId),
    Subscribers(ChannelName),
}

/// A grant or a consumption of resources.
#[derive(Clone, Copy, Debug, PartialEq, Eq, Structural)]
pub struct Resources {
    pub fuel: u64,
    pub read_operations: u32,
    pub write_operations: u32,
    pub bytes_to_read: u32,
    pub bytes_to_write: u32,
    pub messages: u32,
    pub message_size: u32,
    pub storage_size_delta: u32,
}

/// A request to send a message.
#[derive(Clone, Debug, PartialEq, Eq)]
pub struct SendMessageRequest {
    pub destination: Destination,
    pub authenticated: bool,
    pub is_tracked: bool,
    pub grant: Resources,
    pub message: Vec<u8>,
}

/// The level of a log record.
#[derive(Clone, Copy, Debug, PartialEq, Eq, Structural)]
pub enum LogLevel {
    Trace,
    Debug,
    Info,
    Warn,
    Error,
}

} // verus!
