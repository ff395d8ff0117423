//! Conversions from the contract's data types to the records of the contract
//! system interface.
//!
//! Each conversion is stated by a spec function `wit_*` below, and the `From`
//! impl that performs it is proved to return exactly that record.

use vstd::prelude::*;

use crate::crypto::CryptoHash;
use crate::data_types::{two_pow_64, Amount, BlockHeight, Resources, SendMessageRequest, Timestamp};
use crate::identifiers::{
    Account, ApplicationId, BlobId, BytecodeId, ChainId, ChannelName, Destination, MessageId, Owner,
    StreamName,
};
use crate::log_level::Level;
use crate::wit::contract_system_api as wit_system_api;

verus! {

/// The record of a hash: its four little-endian 64-bit words, in order.
pub open spec fn wit_crypto_hash(crypto_hash: CryptoHash) -> wit_system_api::CryptoHash {
    wit_system_api::CryptoHash {
        part1: crypto_hash.word(0),
        part2: crypto_hash.word(1),
        part3: crypto_hash.word(2),
        part4: crypto_hash.word(3),
    }
}

/// The record of an owner: the record of its hash.
pub open spec fn wit_owner(owner: Owner) -> wit_system_api::Owner {
    wit_system_api::Owner { inner0: wit_crypto_hash(owner.0) }
}

/// The record of a blob identifier: the record of its hash.
pub open spec fn wit_blob_id(blob_id: BlobId) -> wit_system_api::BlobId {
    wit_system_api::BlobId { inner0: wit_crypto_hash(blob_id.0) }
}

/// The record of an amount: the low 64 bits of its attos, then the high 64 bits.
pub open spec fn wit_amount(amount: Amount) -> wit_system_api::Amount {
    wit_system_api::Amount {
        inner0: ((amount.0 as int % two_pow_64()) as u64, (amount.0 as int / two_pow_64()) as u64),
    }
}

/// The record of a chain identifier: the record of its hash.
pub open spec fn wit_chain_id(chain_id: ChainId) -> wit_system_api::ChainId {
    wit_system_api::ChainId { inner0: wit_crypto_hash(chain_id.0) }
}

/// The record of an account: the record of its chain and that of its owner, if any.
pub open spec fn wit_account(account: Account) -> wit_system_api::Account {
    wit_system_api::Account {
        chain_id: wit_chain_id(account.chain_id),
        owner: match account.owner {
            Some(owner) => Some(wit_owner(owner)),
            None => None,
        },
    }
}

/// The record of a block height: the height itself.
pub open spec fn wit_block_height(block_height: BlockHeight) -> wit_system_api::BlockHeight {
    wit_system_api::BlockHeight { inner0: block_height.0 }
}

/// The record of a message identifier: those of its chain and height, and its index.
pub open spec fn wit_message_id(message_id: MessageId) -> wit_system_api::MessageId {
    wit_system_api::MessageId {
        chain_id: wit_chain_id(message_id.chain_id),
        height: wit_block_height(message_id.height),
        index: message_id.index,
    }
}

/// The record of a bytecode identifier: that of the message that published it.
pub open spec fn wit_bytecode_id(bytecode_id: BytecodeId) -> wit_system_api::BytecodeId {
    wit_system_api::BytecodeId { message_id: wit_message_id(bytecode_id.message_id) }
}

/// The record of an application identifier: those of its bytecode and of its creation.
pub open spec fn wit_application_id(application_id: ApplicationId) -> wit_system_api::ApplicationId {
    wit_system_api::ApplicationId {
        bytecode_id: wit_bytecode_id(application_id.bytecode_id),
        creation: wit_message_id(application_id.creation),
    }
}

/// The record of a timestamp: its microseconds.
pub open spec fn wit_timestamp(timestamp: Timestamp) -> wit_system_api::Timestamp {
    wit_system_api::Timestamp { inner0: timestamp.0 }
}

/// The record of a channel name: its bytes.
pub open spec fn wit_channel_name(name: ChannelName) -> wit_system_api::ChannelName {
    wit_system_api::ChannelName { inner0: name.0 }
}

/// The record of a stream name: its bytes.
pub open spec fn wit_stream_name(name: StreamName) -> wit_system_api::StreamName {
    wit_system_api::StreamName { inner0: name.0 }
}

/// The record of a destination: the same variant, over the record of its content.
pub open spec fn wit_destination(destination: Destination) -> wit_system_api::Destination {
    match destination {
        Destination::Recipient(chain_id) => wit_system_api::Destination::Recipient(
            wit_chain_id(chain_id),
        ),
        Destination::Subscribers(subscription) => wit_system_api::Destination::Subscribers(
            wit_channel_name(subscription),
        ),
    }
}

/// The record of resources: every field kept as it is.
pub open spec fn wit_resources(resources: Resources) -> wit_system_api::Resources {
    wit_system_api::Resources {
        fuel: resources.fuel,
        read_operations: resources.read_operations,
        write_operations: resources.write_operations,
        bytes_to_read: resources.bytes_to_read,
        bytes_to_write: resources.bytes_to_write,
        messages: resources.messages,
        message_size: resources.message_size,
        storage_size_delta: resources.storage_size_delta,
    }
}

/// The record of a request to send a message: the record of its destination and
/// of its grant, its two flags and its bytes as they are.
pub open spec fn wit_send_message_request(
    message: SendMessageRequest<Vec<u8>>,
) -> wit_system_api::SendMessageRequest {
    wit_system_api::SendMessageRequest {
        destination: wit_destination(message.destination),
        authenticated: message.authenticated,
        is_tracked: message.is_tracked,
        grant: wit_resources(message.grant),
        message: message.message,
    }
}

/// The record of a log level: the level of the same name.
pub open spec fn wit_log_level(level: Level) -> wit_system_api::LogLevel {
    match level {
        Level::Trace => wit_system_api::LogLevel::Trace,
        Level::Debug => wit_system_api::LogLevel::Debug,
        Level::Info => wit_system_api::LogLevel::Info,
        Level::Warn => wit_system_api::LogLevel::Warn,
        Level::Error => wit_system_api::LogLevel::Error,
    }
}

impl From<CryptoHash> for wit_system_api::CryptoHash {
    fn from(crypto_hash: CryptoHash) -> Self {
        let parts = <[u64; 4]>::from(crypto_hash);

        wit_system_api::CryptoHash {
            part1: parts[0],
            part2: parts[1],
            part3: parts[2],
            part4: parts[3],
        }
    }
}

impl vstd::std_specs::convert::FromSpecImpl<CryptoHash> for wit_system_api::CryptoHash {
    open spec fn obeys_from_spec() -> bool {
        true
    }

    open spec fn from_spec(crypto_hash: CryptoHash) -> Self {
        wit_crypto_hash(crypto_hash)
    }
}

impl From<ChainId> for wit_system_api::CryptoHash {
    fn from(chain_id: ChainId) -> Self {
        chain_id.0.into()
    }
}

impl vstd::std_specs::convert::FromSpecImpl<ChainId> for wit_system_api::CryptoHash {
    open spec fn obeys_from_spec() -> bool {
        true
    }

    open spec fn from_spec(chain_id: ChainId) -> Self {
        wit_crypto_hash(chain_id.0)
    }
}

impl From<Owner> for wit_system_api::Owner {
    fn from(owner: Owner) -> Self {
        wit_system_api::Owner { inner0: owner.0.into() }
    }
}

impl vstd::std_specs::convert::FromSpecImpl<Owner> for wit_system_api::Owner {
    open spec fn obeys_from_spec() -> bool {
        true
    }

    open spec fn from_spec(owner: Owner) -> Self {
        wit_owner(owner)
    }
}

impl From<BlobId> for wit_system_api::BlobId {
    fn from(blob_id: BlobId) -> Self {
        wit_system_api::BlobId { inner0: blob_id.0.into() }
    }
}

impl vstd::std_specs::convert::FromSpecImpl<BlobId> for wit_system_api::BlobId {
    open spec fn obeys_from_spec() -> bool {
        true
    }

    open spec fn from_spec(blob_id: BlobId) -> Self {
        wit_blob_id(blob_id)
    }
}

impl From<Amount> for wit_system_api::Amount {
    fn from(host: Amount) -> Self {
        wit_system_api::Amount { inner0: (host.lower_half(), host.upper_half()) }
    }
}

impl vstd::std_specs::convert::FromSpecImpl<Amount> for wit_system_api::Amount {
    open spec fn obeys_from_spec() -> bool {
        true
    }

    open spec fn from_spec(host: Amount) -> Self {
        wit_amount(host)
    }
}

impl From<Account> for wit_system_api::Account {
    fn from(account: Account) -> Self {
        wit_system_api::Account {
            chain_id: account.chain_id.into(),
            owner: match account.owner {
                Some(owner) => Some(owner.into()),
                None => None,
            },
        }
    }
}

impl vstd::std_specs::convert::FromSpecImpl<Account> for wit_system_api::Account {
    open spec fn obeys_from_spec() -> bool {
        true
    }

    open spec fn from_spec(account: Account) -> Self {
        wit_account(account)
    }
}

impl From<BlockHeight> for wit_system_api::BlockHeight {
    fn from(block_height: BlockHeight) -> Self {
        wit_system_api::BlockHeight { inner0: block_height.0 }
    }
}

impl vstd::std_specs::convert::FromSpecImpl<BlockHeight> for wit_system_api::BlockHeight {
    open spec fn obeys_from_spec() -> bool {
        true
    }

    open spec fn from_spec(block_height: BlockHeight) -> Self {
        wit_block_height(block_height)
    }
}

impl From<ChainId> for wit_system_api::ChainId {
    fn from(chain_id: ChainId) -> Self {
        wit_system_api::ChainId { inner0: chain_id.0.into() }
    }
}

impl vstd::std_specs::convert::FromSpecImpl<ChainId> for wit_system_api::ChainId {
    open spec fn obeys_from_spec() -> bool {
        true
    }

    open spec fn from_spec(chain_id: ChainId) -> Self {
        wit_chain_id(chain_id)
    }
}

impl From<ApplicationId> for wit_system_api::ApplicationId {
    fn from(application_id: ApplicationId) -> Self {
        wit_system_api::ApplicationId {
            bytecode_id: application_id.bytecode_id.into(),
            creation: application_id.creation.into(),
        }
    }
}

impl vstd::std_specs::convert::FromSpecImpl<ApplicationId> for wit_system_api::ApplicationId {
    open spec fn obeys_from_spec() -> bool {
        true
    }

    open spec fn from_spec(application_id: ApplicationId) -> Self {
        wit_application_id(application_id)
    }
}

impl From<BytecodeId> for wit_system_api::BytecodeId {
    fn from(bytecode_id: BytecodeId) -> Self {
        wit_system_api::BytecodeId { message_id: bytecode_id.message_id.into() }
    }
}

impl vstd::std_specs::convert::FromSpecImpl<BytecodeId> for wit_system_api::BytecodeId {
    open spec fn obeys_from_spec() -> bool {
        true
    }

    open spec fn from_spec(bytecode_id: BytecodeId) -> Self {
        wit_bytecode_id(bytecode_id)
    }
}

impl From<MessageId> for wit_system_api::MessageId {
    fn from(message_id: MessageId) -> Self {
        wit_system_api::MessageId {
            chain_id: message_id.chain_id.into(),
            height: message_id.height.into(),
            index: message_id.index,
        }
    }
}

impl vstd::std_specs::convert::FromSpecImpl<MessageId> for wit_system_api::MessageId {
    open spec fn obeys_from_spec() -> bool {
        true
    }

    open spec fn from_spec(message_id: MessageId) -> Self {
        wit_message_id(message_id)
    }
}

impl From<Timestamp> for wit_system_api::Timestamp {
    fn from(timestamp: Timestamp) -> Self {
        Self { inner0: timestamp.micros() }
    }
}

impl vstd::std_specs::convert::FromSpecImpl<Timestamp> for wit_system_api::Timestamp {
    open spec fn obeys_from_spec() -> bool {
        true
    }

    open spec fn from_spec(timestamp: Timestamp) -> Self {
        wit_timestamp(timestamp)
    }
}

impl From<SendMessageRequest<Vec<u8>>> for wit_system_api::SendMessageRequest {
    fn from(message: SendMessageRequest<Vec<u8>>) -> Self {
        Self {
            destination: message.destination.into(),
            authenticated: message.authenticated,
            is_tracked: message.is_tracked,
            grant: message.grant.into(),
            message: message.message,
        }
    }
}

impl vstd::std_specs::convert::FromSpecImpl<SendMessageRequest<Vec<u8>>> for
    wit_system_api::SendMessageRequest {
    open spec fn obeys_from_spec() -> bool {
        true
    }

    open spec fn from_spec(message: SendMessageRequest<Vec<u8>>) -> Self {
        wit_send_message_request(message)
    }
}

impl From<Destination> for wit_system_api::Destination {
    fn from(destination: Destination) -> Self {
        match destination {
            Destination::Recipient(chain_id) => {
                wit_system_api::Destination::Recipient(chain_id.into())
            },
            Destination::Subscribers(subscription) => {
                wit_system_api::Destination::Subscribers(subscription.into())
            },
        }
    }
}

impl vstd::std_specs::convert::FromSpecImpl<Destination> for wit_system_api::Destination {
    open spec fn obeys_from_spec() -> bool {
        true
    }

    open spec fn from_spec(destination: Destination) -> Self {
        wit_destination(destination)
    }
}

impl From<ChannelName> for wit_system_api::ChannelName {
    fn from(name: ChannelName) -> Self {
        wit_system_api::ChannelName { inner0: name.into_bytes() }
    }
}

impl vstd::std_specs::convert::FromSpecImpl<ChannelName> for wit_system_api::ChannelName {
    open spec fn obeys_from_spec() -> bool {
        true
    }

    open spec fn from_spec(name: ChannelName) -> Self {
        wit_channel_name(name)
    }
}

impl From<StreamName> for wit_system_api::StreamName {
    fn from(name: StreamName) -> Self {
        wit_system_api::StreamName { inner0: name.into_bytes() }
    }
}

impl vstd::std_specs::convert::FromSpecImpl<StreamName> for wit_system_api::StreamName {
    open spec fn obeys_from_spec() -> bool {
        true
    }

    open spec fn from_spec(name: StreamName) -> Self {
        wit_stream_name(name)
    }
}

impl From<Resources> for wit_system_api::Resources {
    fn from(resources: Resources) -> Self {
        wit_system_api::Resources {
            fuel: resources.fuel,
            read_operations: resources.read_operations,
            write_operations: resources.write_operations,
            bytes_to_read: resources.bytes_to_read,
            bytes_to_write: resources.bytes_to_write,
            messages: resources.messages,
            message_size: resources.message_size,
            storage_size_delta: resources.storage_size_delta,
        }
    }
}

impl vstd::std_specs::convert::FromSpecImpl<Resources> for wit_system_api::Resources {
    open spec fn obeys_from_spec() -> bool {
        true
    }

    open spec fn from_spec(resources: Resources) -> Self {
        wit_resources(resources)
    }
}

impl From<Level> for wit_system_api::LogLevel {
    fn from(level: Level) -> Self {
        match level {
            Level::Trace => wit_system_api::LogLevel::Trace,
            Level::Debug => wit_system_api::LogLevel::Debug,
            Level::Info => wit_system_api::LogLevel::Info,
            Level::Warn => wit_system_api::LogLevel::Warn,
            Level::Error => wit_system_api::LogLevel::Error,
        }
    }
}

impl vstd::std_specs::convert::FromSpecImpl<Level> for wit_system_api::LogLevel {
    open spec fn obeys_from_spec() -> bool {
        true
    }

    open spec fn from_spec(level: Level) -> Self {
        wit_log_level(level)
    }
}

} // verus!
