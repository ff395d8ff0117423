use linera_sdk::crypto::CryptoHash;
use linera_sdk::data_types::{Amount, BlockHeight, Resources, SendMessageRequest, Timestamp};
use linera_sdk::identifiers::{
    Account, ApplicationId, BlobId, BytecodeId, ChainId, ChannelName, Destination, MessageId, Owner,
    StreamName,
};
use linera_sdk::log_level::Level;
use linera_sdk::wit::contract_system_api as wit_system_api;

fn counting_hash(first: u8) -> CryptoHash {
    let mut bytes = [0u8; 32];
    for (i, byte) in bytes.iter_mut().enumerate() {
        *byte = first.wrapping_add(i as u8);
    }
    CryptoHash(bytes)
}

fn counting_hash_record(first: u8) -> wit_system_api::CryptoHash {
    let word = |start: usize| {
        let mut chunk = [0u8; 8];
        for (i, byte) in chunk.iter_mut().enumerate() {
            *byte = first.wrapping_add((start + i) as u8);
        }
        u64::from_le_bytes(chunk)
    };
    wit_system_api::CryptoHash {
        part1: word(0),
        part2: word(8),
        part3: word(16),
        part4: word(24),
    }
}

#[test]
fn hash_words_are_little_endian() {
    let hash = counting_hash(0);
    let parts = <[u64; 4]>::from(hash);
    assert_eq!(
        parts,
        [0x0706_0504_0302_0100, 0x0f0e_0d0c_0b0a_0908, 0x1716_1514_1312_1110, 0x1f1e_1d1c_1b1a_1918]
    );
}

#[test]
fn hash_record_holds_the_words_in_order() {
    let record = wit_system_api::CryptoHash::from(counting_hash(0));
    assert_eq!(record.part1, 0x0706_0504_0302_0100);
    assert_eq!(record.part2, 0x0f0e_0d0c_0b0a_0908);
    assert_eq!(record.part3, 0x1716_1514_1312_1110);
    assert_eq!(record.part4, 0x1f1e_1d1c_1b1a_1918);
}

#[test]
fn hash_record_of_extreme_bytes() {
    assert_eq!(
        wit_system_api::CryptoHash::from(CryptoHash([0xff; 32])),
        wit_system_api::CryptoHash { part1: u64::MAX, part2: u64::MAX, part3: u64::MAX, part4: u64::MAX }
    );
    assert_eq!(
        wit_system_api::CryptoHash::from(CryptoHash([0; 32])),
        wit_system_api::CryptoHash { part1: 0, part2: 0, part3: 0, part4: 0 }
    );
    let mut bytes = [0u8; 32];
    bytes[31] = 0x80;
    bytes[8] = 1;
    let record = wit_system_api::CryptoHash::from(CryptoHash(bytes));
    assert_eq!(record.part2, 1);
    assert_eq!(record.part4, 0x8000_0000_0000_0000);
}

#[test]
fn different_hashes_give_different_records() {
    let mut bytes = [7u8; 32];
    let a = wit_system_api::CryptoHash::from(CryptoHash(bytes));
    bytes[13] = 8;
    let b = wit_system_api::CryptoHash::from(CryptoHash(bytes));
    assert_ne!(a, b);
}

#[test]
fn chain_id_to_hash_record() {
    let chain_id = ChainId(counting_hash(3));
    assert_eq!(wit_system_api::CryptoHash::from(chain_id), counting_hash_record(3));
}

#[test]
fn chain_id_hash_record_agrees_with_chain_id_record() {
    let chain_id = ChainId(counting_hash(40));
    let as_hash = wit_system_api::CryptoHash::from(chain_id);
    let as_chain = wit_system_api::ChainId::from(chain_id);
    assert_eq!(as_hash, as_chain.inner0);
    assert_eq!(as_chain, wit_system_api::ChainId { inner0: counting_hash_record(40) });
}

#[test]
fn owner_and_blob_id_records() {
    assert_eq!(
        wit_system_api::Owner::from(Owner(counting_hash(1))),
        wit_system_api::Owner { inner0: counting_hash_record(1) }
    );
    assert_eq!(
        wit_system_api::BlobId::from(BlobId(counting_hash(2))),
        wit_system_api::BlobId { inner0: counting_hash_record(2) }
    );
}

#[test]
fn amount_record_splits_attos_in_halves() {
    let amount = Amount(0x0123_4567_89ab_cdef_fedc_ba98_7654_3210);
    assert_eq!(amount.lower_half(), 0xfedc_ba98_7654_3210);
    assert_eq!(amount.upper_half(), 0x0123_4567_89ab_cdef);
    assert_eq!(
        wit_system_api::Amount::from(amount),
        wit_system_api::Amount { inner0: (0xfedc_ba98_7654_3210, 0x0123_4567_89ab_cdef) }
    );
}

#[test]
fn amount_record_gives_back_attos() {
    for attos in [0u128, 1, u64::MAX as u128, u64::MAX as u128 + 1, u128::MAX, 10u128.pow(18) * 42] {
        let record = wit_system_api::Amount::from(Amount(attos));
        let (low, high) = record.inner0;
        assert_eq!(((high as u128) << 64) | low as u128, attos);
    }
}

#[test]
fn account_with_and_without_owner() {
    let chain_id = ChainId(counting_hash(5));
    let owner = Owner(counting_hash(6));
    assert_eq!(
        wit_system_api::Account::from(Account { chain_id, owner: Some(owner) }),
        wit_system_api::Account {
            chain_id: wit_system_api::ChainId { inner0: counting_hash_record(5) },
            owner: Some(wit_system_api::Owner { inner0: counting_hash_record(6) }),
        }
    );
    assert_eq!(
        wit_system_api::Account::from(Account { chain_id, owner: None }),
        wit_system_api::Account {
            chain_id: wit_system_api::ChainId { inner0: counting_hash_record(5) },
            owner: None,
        }
    );
}

#[test]
fn block_height_and_timestamp_records() {
    assert_eq!(
        wit_system_api::BlockHeight::from(BlockHeight(17)),
        wit_system_api::BlockHeight { inner0: 17 }
    );
    let timestamp = Timestamp(1_700_000_000_000_000);
    assert_eq!(timestamp.micros(), 1_700_000_000_000_000);
    assert_eq!(
        wit_system_api::Timestamp::from(timestamp),
        wit_system_api::Timestamp { inner0: 1_700_000_000_000_000 }
    );
}

fn message_id(first: u8, height: u64, index: u32) -> MessageId {
    MessageId { chain_id: ChainId(counting_hash(first)), height: BlockHeight(height), index }
}

fn message_id_record(first: u8, height: u64, index: u32) -> wit_system_api::MessageId {
    wit_system_api::MessageId {
        chain_id: wit_system_api::ChainId { inner0: counting_hash_record(first) },
        height: wit_system_api::BlockHeight { inner0: height },
        index,
    }
}

#[test]
fn message_bytecode_and_application_ids() {
    assert_eq!(wit_system_api::MessageId::from(message_id(9, 3, 2)), message_id_record(9, 3, 2));
    assert_eq!(
        wit_system_api::BytecodeId::from(BytecodeId { message_id: message_id(10, 4, 0) }),
        wit_system_api::BytecodeId { message_id: message_id_record(10, 4, 0) }
    );
    let application_id = ApplicationId {
        bytecode_id: BytecodeId { message_id: message_id(11, 5, 1) },
        creation: message_id(12, 6, u32::MAX),
    };
    assert_eq!(
        wit_system_api::ApplicationId::from(application_id),
        wit_system_api::ApplicationId {
            bytecode_id: wit_system_api::BytecodeId { message_id: message_id_record(11, 5, 1) },
            creation: message_id_record(12, 6, u32::MAX),
        }
    );
}

#[test]
fn channel_and_stream_names_keep_their_bytes() {
    let channel = ChannelName(b"transfers".to_vec());
    assert_eq!(channel.clone().into_bytes(), b"transfers".to_vec());
    assert_eq!(
        wit_system_api::ChannelName::from(channel),
        wit_system_api::ChannelName { inner0: b"transfers".to_vec() }
    );
    assert_eq!(
        wit_system_api::StreamName::from(StreamName(vec![])),
        wit_system_api::StreamName { inner0: vec![] }
    );
    assert_eq!(
        wit_system_api::StreamName::from(StreamName(vec![0, 255, 1])),
        wit_system_api::StreamName { inner0: vec![0, 255, 1] }
    );
}

#[test]
fn destinations_keep_their_variant() {
    assert_eq!(
        wit_system_api::Destination::from(Destination::Recipient(ChainId(counting_hash(20)))),
        wit_system_api::Destination::Recipient(wit_system_api::ChainId {
            inner0: counting_hash_record(20)
        })
    );
    assert_eq!(
        wit_system_api::Destination::from(Destination::Subscribers(ChannelName(vec![1, 2]))),
        wit_system_api::Destination::Subscribers(wit_system_api::ChannelName { inner0: vec![1, 2] })
    );
}

fn resources() -> Resources {
    Resources {
        fuel: 1_000_000,
        read_operations: 1,
        write_operations: 2,
        bytes_to_read: 3,
        bytes_to_write: 4,
        messages: 5,
        message_size: 6,
        storage_size_delta: 7,
    }
}

fn resources_record() -> wit_system_api::Resources {
    wit_system_api::Resources {
        fuel: 1_000_000,
        read_operations: 1,
        write_operations: 2,
        bytes_to_read: 3,
        bytes_to_write: 4,
        messages: 5,
        message_size: 6,
        storage_size_delta: 7,
    }
}

#[test]
fn resources_keep_every_field() {
    assert_eq!(wit_system_api::Resources::from(resources()), resources_record());
}

#[test]
fn send_message_request_record() {
    let request = SendMessageRequest {
        destination: Destination::Subscribers(ChannelName(b"news".to_vec())),
        authenticated: true,
        is_tracked: false,
        grant: resources(),
        message: vec![42, 43],
    };
    assert_eq!(
        wit_system_api::SendMessageRequest::from(request),
        wit_system_api::SendMessageRequest {
            destination: wit_system_api::Destination::Subscribers(wit_system_api::ChannelName {
                inner0: b"news".to_vec()
            }),
            authenticated: true,
            is_tracked: false,
            grant: resources_record(),
            message: vec![42, 43],
        }
    );
    let bounced = SendMessageRequest {
        destination: Destination::Recipient(ChainId(counting_hash(0))),
        authenticated: false,
        is_tracked: true,
        grant: resources(),
        message: vec![],
    };
    let record = wit_system_api::SendMessageRequest::from(bounced);
    assert!(!record.authenticated);
    assert!(record.is_tracked);
    assert_eq!(
        record.destination,
        wit_system_api::Destination::Recipient(wit_system_api::ChainId {
            inner0: counting_hash_record(0)
        })
    );
}

#[test]
fn log_levels_map_by_name() {
    assert_eq!(wit_system_api::LogLevel::from(Level::Trace), wit_system_api::LogLevel::Trace);
    assert_eq!(wit_system_api::LogLevel::from(Level::Debug), wit_system_api::LogLevel::Debug);
    assert_eq!(wit_system_api::LogLevel::from(Level::Info), wit_system_api::LogLevel::Info);
    assert_eq!(wit_system_api::LogLevel::from(Level::Warn), wit_system_api::LogLevel::Warn);
    assert_eq!(wit_system_api::LogLevel::from(Level::Error), wit_system_api::LogLevel::Error);
}

#[test]
fn distinct_log_levels_give_distinct_records() {
    let levels = [Level::Error, Level::Warn, Level::Info, Level::Debug, Level::Trace];
    for a in levels {
        for b in levels {
            assert_eq!(
                wit_system_api::LogLevel::from(a) == wit_system_api::LogLevel::from(b),
                a == b
            );
        }
    }
}
