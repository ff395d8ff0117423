//! What each interface record holds, stated field by field in terms of the
//! value it was converted from.

use vstd::prelude::*;
use vstd::std_specs::convert::FromSpec;

use crate::conversions_to_wit::{
    wit_account, wit_application_id, wit_blob_id, wit_block_height, wit_bytecode_id, wit_chain_id,
    wit_channel_name, wit_crypto_hash, wit_destination, wit_log_level, wit_message_id, wit_owner,
    wit_resources, wit_send_message_request, wit_stream_name, wit_timestamp,
};
use crate::crypto::{lemma_le_u64_bound, le_u64, CryptoHash};
use crate::data_types::{BlockHeight, Resources, SendMessageRequest, Timestamp};
use crate::identifiers::{
    Account, ApplicationId, BlobId, BytecodeId, ChainId, ChannelName, Destination, MessageId, Owner,
    StreamName,
};
use crate::log_level::Level;
use crate::wit::contract_system_api as wit_system_api;

verus! {

/// The four parts of a hash record, read straight off the bytes of the hash:
/// part `k` is the little-endian integer of bytes `8 * (k - 1) .. 8 * k`.
pub open spec fn hash_record_matches_bytes(
    record: wit_system_api::CryptoHash,
    crypto_hash: CryptoHash,
) -> bool {
    &&& record.part1 as int == le_u64(crypto_hash.0@, 0)
    &&& record.part2 as int == le_u64(crypto_hash.0@, 8)
    &&& record.part3 as int == le_u64(crypto_hash.0@, 16)
    &&& record.part4 as int == le_u64(crypto_hash.0@, 24)
}

/// The record of a hash holds its four little-endian words, first bytes first.
pub proof fn lemma_crypto_hash_record_parts(crypto_hash: CryptoHash)
    ensures
        hash_record_matches_bytes(wit_crypto_hash(crypto_hash), crypto_hash),
{
    lemma_le_u64_bound(crypto_hash.0@, 0);
    lemma_le_u64_bound(crypto_hash.0@, 8);
    lemma_le_u64_bound(crypto_hash.0@, 16);
    lemma_le_u64_bound(crypto_hash.0@, 24);
}

/// Splitting a hash into four 64-bit words reads them little-endian, first bytes first.
pub proof fn lemma_crypto_hash_words(crypto_hash: CryptoHash)
    ensures
        ({
            let words = <[u64; 4] as FromSpec<CryptoHash>>::from_spec(crypto_hash);
            &&& words[0] as int == le_u64(crypto_hash.0@, 0)
            &&& words[1] as int == le_u64(crypto_hash.0@, 8)
            &&& words[2] as int == le_u64(crypto_hash.0@, 16)
            &&& words[3] as int == le_u64(crypto_hash.0@, 24)
        }),
{
    lemma_le_u64_bound(crypto_hash.0@, 0);
    lemma_le_u64_bound(crypto_hash.0@, 8);
    lemma_le_u64_bound(crypto_hash.0@, 16);
    lemma_le_u64_bound(crypto_hash.0@, 24);
}

/// The records of a chain identifier, an owner and a blob identifier hold the
/// words of their hash, first bytes first.
pub proof fn lemma_hash_identifier_records_parts(chain_id: ChainId, owner: Owner, blob_id: BlobId)
    ensures
        hash_record_matches_bytes(wit_chain_id(chain_id).inner0, chain_id.0),
        hash_record_matches_bytes(wit_owner(owner).inner0, owner.0),
        hash_record_matches_bytes(wit_blob_id(blob_id).inner0, blob_id.0),
{
    lemma_crypto_hash_record_parts(chain_id.0);
    lemma_crypto_hash_record_parts(owner.0);
    lemma_crypto_hash_record_parts(blob_id.0);
}

/// The record of an account holds the words of its chain's hash, and an owner
/// exactly when the account has one, with the words of that owner's hash.
pub proof fn lemma_account_record_fields(account: Account)
    ensures
        hash_record_matches_bytes(wit_account(account).chain_id.inner0, account.chain_id.0),
        wit_account(account).owner.is_some() == account.owner.is_some(),
        account.owner.is_some() ==> hash_record_matches_bytes(
            wit_account(account).owner.unwrap().inner0,
            account.owner.unwrap().0,
        ),
{
    lemma_crypto_hash_record_parts(account.chain_id.0);
    if let Some(owner) = account.owner {
        lemma_crypto_hash_record_parts(owner.0);
    }
}

/// The record of a block height holds the height itself.
pub proof fn lemma_block_height_record_value(block_height: BlockHeight)
    ensures
        wit_block_height(block_height).inner0 == block_height.0,
{
}

/// The record of a timestamp holds its microseconds since the epoch, unchanged.
pub proof fn lemma_timestamp_record_value(timestamp: Timestamp)
    ensures
        wit_timestamp(timestamp).inner0 == timestamp.0,
{
}

/// The record of a message identifier holds its chain's hash words, its height
/// and its index, unchanged.
pub proof fn lemma_message_id_record_fields(message_id: MessageId)
    ensures
        hash_record_matches_bytes(wit_message_id(message_id).chain_id.inner0, message_id.chain_id.0),
        wit_message_id(message_id).height.inner0 == message_id.height.0,
        wit_message_id(message_id).index == message_id.index,
{
    lemma_crypto_hash_record_parts(message_id.chain_id.0);
}

/// The record of a bytecode identifier holds the chain's hash words, the height
/// and the index of the message that published it.
pub proof fn lemma_bytecode_id_record_fields(bytecode_id: BytecodeId)
    ensures
        hash_record_matches_bytes(
            wit_bytecode_id(bytecode_id).message_id.chain_id.inner0,
            bytecode_id.message_id.chain_id.0,
        ),
        wit_bytecode_id(bytecode_id).message_id.height.inner0 == bytecode_id.message_id.height.0,
        wit_bytecode_id(bytecode_id).message_id.index == bytecode_id.message_id.index,
{
    lemma_message_id_record_fields(bytecode_id.message_id);
}

/// The record of an application identifier holds, unchanged, the height and
/// index of the messages that published its bytecode and that created it, and
/// the words of their chains' hashes.
pub proof fn lemma_application_id_record_fields(application_id: ApplicationId)
    ensures
        ({
            let record = wit_application_id(application_id);
            let published = application_id.bytecode_id.message_id;
            let creation = application_id.creation;
            &&& hash_record_matches_bytes(
                record.bytecode_id.message_id.chain_id.inner0,
                published.chain_id.0,
            )
            &&& record.bytecode_id.message_id.height.inner0 == published.height.0
            &&& record.bytecode_id.message_id.index == published.index
            &&& hash_record_matches_bytes(record.creation.chain_id.inner0, creation.chain_id.0)
            &&& record.creation.height.inner0 == creation.height.0
            &&& record.creation.index == creation.index
        }),
{
    lemma_message_id_record_fields(application_id.bytecode_id.message_id);
    lemma_message_id_record_fields(application_id.creation);
}

/// The records of channel and stream names hold their bytes, unchanged.
pub proof fn lemma_name_records_bytes(channel: ChannelName, stream: StreamName)
    ensures
        wit_channel_name(channel).inner0@ == channel.0@,
        wit_stream_name(stream).inner0@ == stream.0@,
{
}

/// The record of a destination has the same variant: a recipient keeps its
/// chain's hash words, subscribers keep the bytes of their channel's name.
pub proof fn lemma_destination_record_fields(destination: Destination)
    ensures
        (wit_destination(destination) is Recipient) == (destination is Recipient),
        destination is Recipient ==> hash_record_matches_bytes(
            wit_destination(destination)->Recipient_0.inner0,
            destination->Recipient_0.0,
        ),
        destination is Subscribers ==> wit_destination(destination)->Subscribers_0.inner0@
            == destination->Subscribers_0.0@,
{
    if let Destination::Recipient(chain_id) = destination {
        lemma_crypto_hash_record_parts(chain_id.0);
    }
}

/// Every field of a resources record equals the field of the same name of the resources.
pub open spec fn resources_record_matches(
    record: wit_system_api::Resources,
    resources: Resources,
) -> bool {
    &&& record.fuel == resources.fuel
    &&& record.read_operations == resources.read_operations
    &&& record.write_operations == resources.write_operations
    &&& record.bytes_to_read == resources.bytes_to_read
    &&& record.bytes_to_write == resources.bytes_to_write
    &&& record.messages == resources.messages
    &&& record.message_size == resources.message_size
    &&& record.storage_size_delta == resources.storage_size_delta
}

/// The record of resources keeps every field, each under its own name.
pub proof fn lemma_resources_record_fields(resources: Resources)
    ensures
        resources_record_matches(wit_resources(resources), resources),
{
}

/// The record of a request to send a message keeps both flags, each under its
/// own name, every field of the grant, and the bytes of the message; its
/// destination is the record of the request's destination.
pub proof fn lemma_send_message_request_record_fields(message: SendMessageRequest<Vec<u8>>)
    ensures
        wit_send_message_request(message).authenticated == message.authenticated,
        wit_send_message_request(message).is_tracked == message.is_tracked,
        resources_record_matches(wit_send_message_request(message).grant, message.grant),
        wit_send_message_request(message).message@ == message.message@,
        wit_send_message_request(message).destination == wit_destination(message.destination),
{
}

/// The rank of a level by severity: `Trace` lowest, `Error` highest.
pub open spec fn level_severity(level: Level) -> int {
    match level {
        Level::Trace => 0,
        Level::Debug => 1,
        Level::Info => 2,
        Level::Warn => 3,
        Level::Error => 4,
    }
}

/// The rank of an interface level by severity: `Trace` lowest, `Error` highest.
pub open spec fn log_level_severity(level: wit_system_api::LogLevel) -> int {
    match level {
        wit_system_api::LogLevel::Trace => 0,
        wit_system_api::LogLevel::Debug => 1,
        wit_system_api::LogLevel::Info => 2,
        wit_system_api::LogLevel::Warn => 3,
        wit_system_api::LogLevel::Error => 4,
    }
}

/// A level and its record are equally severe, so the conversion keeps the
/// order of severity.
pub proof fn lemma_log_level_record_severity(level: Level)
    ensures
        log_level_severity(wit_log_level(level)) == level_severity(level),
{
}

} // verus!
