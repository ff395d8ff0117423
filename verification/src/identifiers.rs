//! Identifiers of chains, owners, blobs, messages, bytecodes, applications and channels.

use vstd::prelude::*;

use crate::crypto::CryptoHash;
use crate::data_types::BlockHeight;

verus! {

/// The identifier of a chain: the hash of its description.
#[derive(Clone, Copy, Debug, PartialEq, Eq)]
pub struct ChainId(pub CryptoHash);

/// The owner of a chain or of an account: the hash of a public key.
#[derive(Clone, Copy, Debug, PartialEq, Eq)]
pub struct Owner(pub CryptoHash);

/// The identifier of a blob: the hash of its content.
#[derive(Clone, Copy, Debug, PartialEq, Eq)]
pub struct BlobId(pub CryptoHash);

/// An account: a chain, and optionally an owner on that chain.
#[derive(Clone, Copy, Debug, PartialEq, Eq)]
pub struct Account {
    /// The chain of the account.
    pub chain_id: ChainId,
    /// The owner of the account, or `None` for the chain's own balance.
    pub owner: Option<Owner>,
}

/// The identifier of a message: where it was created and its place there.
#[derive(Clone, Copy, Debug, PartialEq, Eq)]
pub struct MessageId {
    /// The chain on which the message was created.
    pub chain_id: ChainId,
    /// The height of the block that created the message.
    pub height: BlockHeight,
    /// The index of the message in that block.
    pub index: u32,
}

/// The identifier of published bytecode: the message that published it.
#[derive(Clone, Copy, Debug, PartialEq, Eq)]
pub struct BytecodeId {
    /// The message that published the bytecode.
    pub message_id: MessageId,
}

/// The identifier of an application: its bytecode and the message that created it.
#[derive(Clone, Copy, Debug, PartialEq, Eq)]
pub struct ApplicationId {
    /// The bytecode of the application.
    pub bytecode_id: BytecodeId,
    /// The message that created the application.
    pub creation: MessageId,
}

/// The name of a channel that chains subscribe to.
#[derive(Clone, Debug, PartialEq, Eq)]
pub struct ChannelName(pub Vec<u8>);

impl ChannelName {
    /// The bytes of the name.
    pub fn into_bytes(self) -> (bytes: Vec<u8>)
        ensures
            bytes == self.0,
    {
        self.0
    }
}

/// The name of an event stream.
#[derive(Clone, Debug, PartialEq, Eq)]
pub struct StreamName(pub Vec<u8>);

impl StreamName {
    /// The bytes of the name.
    pub fn into_bytes(self) -> (bytes: Vec<u8>)
        ensures
            bytes == self.0,
    {
        self.0
    }
}

/// The destination of a message.
#[derive(Clone, Debug, PartialEq, Eq)]
pub enum Destination {
    /// A single chain.
    Recipient(ChainId),
    /// Every chain subscribed to a channel.
    Subscribers(ChannelName),
}

} // verus!
