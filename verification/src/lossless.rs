//! Converting a value to its interface record loses nothing: the record
//! determines the value.

use vstd::prelude::*;

use crate::conversions_to_wit::{
    wit_account, wit_amount, wit_application_id, wit_blob_id, wit_block_height, wit_bytecode_id,
    wit_chain_id, wit_channel_name, wit_crypto_hash, wit_destination, wit_log_level,
    wit_message_id, wit_owner, wit_resources, wit_send_message_request, wit_stream_name,
    wit_timestamp,
};
use crate::crypto::{lemma_le_u64_bound, lemma_le_u64_injective, CryptoHash};
use crate::data_types::{two_pow_64, Amount, BlockHeight, Resources, SendMessageRequest, Timestamp};
use crate::identifiers::{
    Account, ApplicationId, BlobId, BytecodeId, ChainId, ChannelName, Destination, MessageId, Owner,
    StreamName,
};
use crate::log_level::Level;
use crate::wit::contract_system_api as wit_system_api;

verus! {

/// Equal words of two hashes come from equal bytes.
proof fn lemma_equal_words_equal_bytes(a: CryptoHash, b: CryptoHash, i: int)
    requires
        0 <= i < 4,
        a.word(i) == b.word(i),
    ensures
        a.0@.subrange(8 * i, 8 * i + 8) == b.0@.subrange(8 * i, 8 * i + 8),
{
    lemma_le_u64_bound(a.0@, 8 * i);
    lemma_le_u64_bound(b.0@, 8 * i);
    lemma_le_u64_injective(a.0@, 8 * i, b.0@, 8 * i);
}

/// Two hashes with the same record are the same hash.
pub proof fn lemma_crypto_hash_record_determines_hash(a: CryptoHash, b: CryptoHash)
    requires
        wit_crypto_hash(a) == wit_crypto_hash(b),
    ensures
        a == b,
{
    broadcast use vstd::array::group_array_axioms;

    let sa = a.0@;
    let sb = b.0@;
    lemma_equal_words_equal_bytes(a, b, 0);
    lemma_equal_words_equal_bytes(a, b, 1);
    lemma_equal_words_equal_bytes(a, b, 2);
    lemma_equal_words_equal_bytes(a, b, 3);
    assert forall|j: int| 0 <= j < 32 implies sa[j] == sb[j] by {
        let i = j / 8;
        assert(sa.subrange(8 * i, 8 * i + 8)[j - 8 * i] == sb.subrange(8 * i, 8 * i + 8)[j - 8
            * i]);
    }
    assert(a.0 =~= b.0);
}

/// The record of an amount gives back its attos: high half times `2^64` plus low half.
pub proof fn lemma_amount_record_gives_attos(amount: Amount)
    ensures
        wit_amount(amount).inner0.1 * two_pow_64() + wit_amount(amount).inner0.0 == amount.0,
{
}

/// Two amounts with the same record are the same amount.
pub proof fn lemma_amount_record_determines_amount(a: Amount, b: Amount)
    requires
        wit_amount(a) == wit_amount(b),
    ensures
        a == b,
{
    lemma_amount_record_gives_attos(a);
    lemma_amount_record_gives_attos(b);
}

/// Two chain identifiers with the same record are the same chain.
pub proof fn lemma_chain_id_record_determines_chain_id(a: ChainId, b: ChainId)
    requires
        wit_chain_id(a) == wit_chain_id(b),
    ensures
        a == b,
{
    lemma_crypto_hash_record_determines_hash(a.0, b.0);
}

/// Two owners with the same record are the same owner.
pub proof fn lemma_owner_record_determines_owner(a: Owner, b: Owner)
    requires
        wit_owner(a) == wit_owner(b),
    ensures
        a == b,
{
    lemma_crypto_hash_record_determines_hash(a.0, b.0);
}

/// Two blob identifiers with the same record are the same blob identifier.
pub proof fn lemma_blob_id_record_determines_blob_id(a: BlobId, b: BlobId)
    requires
        wit_blob_id(a) == wit_blob_id(b),
    ensures
        a == b,
{
    lemma_crypto_hash_record_determines_hash(a.0, b.0);
}

/// Two accounts with the same record are the same account.
pub proof fn lemma_account_record_determines_account(a: Account, b: Account)
    requires
        wit_account(a) == wit_account(b),
    ensures
        a == b,
{
    lemma_chain_id_record_determines_chain_id(a.chain_id, b.chain_id);
    if let (Some(oa), Some(ob)) = (a.owner, b.owner) {
        lemma_owner_record_determines_owner(oa, ob);
    }
}

/// Two block heights with the same record are the same height.
pub proof fn lemma_block_height_record_determines_height(a: BlockHeight, b: BlockHeight)
    requires
        wit_block_height(a) == wit_block_height(b),
    ensures
        a == b,
{
}

/// Two message identifiers with the same record are the same message identifier.
pub proof fn lemma_message_id_record_determines_message_id(a: MessageId, b: MessageId)
    requires
        wit_message_id(a) == wit_message_id(b),
    ensures
        a == b,
{
    lemma_chain_id_record_determines_chain_id(a.chain_id, b.chain_id);
}

/// Two bytecode identifiers with the same record are the same bytecode identifier.
pub proof fn lemma_bytecode_id_record_determines_bytecode_id(a: BytecodeId, b: BytecodeId)
    requires
        wit_bytecode_id(a) == wit_bytecode_id(b),
    ensures
        a == b,
{
    lemma_message_id_record_determines_message_id(a.message_id, b.message_id);
}

/// Two application identifiers with the same record are the same application identifier.
pub proof fn lemma_application_id_record_determines_application_id(
    a: ApplicationId,
    b: ApplicationId,
)
    requires
        wit_application_id(a) == wit_application_id(b),
    ensures
        a == b,
{
    lemma_bytecode_id_record_determines_bytecode_id(a.bytecode_id, b.bytecode_id);
    lemma_message_id_record_determines_message_id(a.creation, b.creation);
}

/// Two timestamps with the same record are the same timestamp.
pub proof fn lemma_timestamp_record_determines_timestamp(a: Timestamp, b: Timestamp)
    requires
        wit_timestamp(a) == wit_timestamp(b),
    ensures
        a == b,
{
}

/// Two channel names with the same record are the same name.
pub proof fn lemma_channel_name_record_determines_name(a: ChannelName, b: ChannelName)
    requires
        wit_channel_name(a) == wit_channel_name(b),
    ensures
        a == b,
{
}

/// Two stream names with the same record are the same name.
pub proof fn lemma_stream_name_record_determines_name(a: StreamName, b: StreamName)
    requires
        wit_stream_name(a) == wit_stream_name(b),
    ensures
        a == b,
{
}

/// Two destinations with the same record are the same destination.
pub proof fn lemma_destination_record_determines_destination(a: Destination, b: Destination)
    requires
        wit_destination(a) == wit_destination(b),
    ensures
        a == b,
{
    match (a, b) {
        (Destination::Recipient(ca), Destination::Recipient(cb)) => {
            lemma_chain_id_record_determines_chain_id(ca, cb);
        },
        _ => {},
    }
}

/// Two grants of resources with the same record are the same grant.
pub proof fn lemma_resources_record_determines_resources(a: Resources, b: Resources)
    requires
        wit_resources(a) == wit_resources(b),
    ensures
        a == b,
{
}

/// Two requests to send a message with the same record are the same request.
pub proof fn lemma_send_message_request_record_determines_request(
    a: SendMessageRequest<Vec<u8>>,
    b: SendMessageRequest<Vec<u8>>,
)
    requires
        wit_send_message_request(a) == wit_send_message_request(b),
    ensures
        a == b,
{
    lemma_destination_record_determines_destination(a.destination, b.destination);
}

/// Two log levels with the same record are the same level.
pub proof fn lemma_log_level_record_determines_level(a: Level, b: Level)
    requires
        wit_log_level(a) == wit_log_level(b),
    ensures
        a == b,
{
}

/// Every log level of the interface is the record of some level.
pub proof fn lemma_log_level_records_cover_interface(record: wit_system_api::LogLevel)
    ensures
        exists|level: Level| wit_log_level(level) == record,
{
    match record {
        wit_system_api::LogLevel::Trace => assert(wit_log_level(Level::Trace) == record),
        wit_system_api::LogLevel::Debug => assert(wit_log_level(Level::Debug) == record),
        wit_system_api::LogLevel::Info => assert(wit_log_level(Level::Info) == record),
        wit_system_api::LogLevel::Warn => assert(wit_log_level(Level::Warn) == record),
        wit_system_api::LogLevel::Error => assert(wit_log_level(Level::Error) == record),
    }
}

/// A chain identifier turns into the same hash record whether it is converted
/// to a hash or to a chain-identifier record.
pub proof fn lemma_chain_id_hash_record_agrees(chain_id: ChainId)
    ensures
        wit_crypto_hash(chain_id.0) == wit_chain_id(chain_id).inner0,
{
}

} // verus!
