//! The versioned header protocol: canonical hashing across shapes and the
//! protocol-version compatibility table.

use sharding::hash::{ChunkHash, CryptoHash};
use sharding::header::{
    BANDWIDTH_SCHEDULER_VERSION, CONGESTION_CONTROL_VERSION, ShardChunkHeader, ShardChunkHeaderV1,
    ShardChunkHeaderV2, ShardChunkHeaderV3,
};
use sharding::inner::{ShardChunkHeaderInner, ShardChunkHeaderInnerV1};
use sharding::types::{BandwidthRequests, CongestionInfo, Signature, ValidatorStake};

const CC: u32 = CONGESTION_CONTROL_VERSION;
const BS: u32 = BANDWIDTH_SCHEDULER_VERSION;

fn sample_inner_v1() -> ShardChunkHeaderInnerV1 {
    ShardChunkHeaderInnerV1 {
        prev_block_hash: CryptoHash([1u8; 32]),
        prev_state_root: CryptoHash([2u8; 32]),
        prev_outcome_root: CryptoHash([3u8; 32]),
        encoded_merkle_root: CryptoHash([4u8; 32]),
        encoded_length: 123,
        height_created: 7,
        shard_id: 2,
        prev_gas_used: 10,
        gas_limit: 20,
        prev_balance_burnt: 30,
        prev_outgoing_receipts_root: CryptoHash([5u8; 32]),
        tx_root: CryptoHash([6u8; 32]),
        prev_validator_proposals: vec![ValidatorStake {
            account_id: b"validator0".to_vec(),
            public_key: vec![9u8; 32],
            stake: 1000,
        }],
    }
}

fn header_v3_with_inner(
    congestion: Option<CongestionInfo>,
    bandwidth: Option<BandwidthRequests>,
    version: u32,
) -> ShardChunkHeader {
    let i = sample_inner_v1();
    ShardChunkHeader::V3(ShardChunkHeaderV3::new(
        version,
        i.prev_block_hash,
        i.prev_state_root,
        i.prev_outcome_root,
        i.encoded_merkle_root,
        i.encoded_length,
        i.height_created,
        i.shard_id,
        i.prev_gas_used,
        i.gas_limit,
        i.prev_balance_burnt,
        i.prev_outgoing_receipts_root,
        i.tx_root,
        i.prev_validator_proposals,
        congestion,
        bandwidth,
        Signature::empty(),
    ))
}

fn header_v3_inner_v1() -> ShardChunkHeader {
    ShardChunkHeader::V3(ShardChunkHeaderV3::from_inner(
        ShardChunkHeaderInner::V1(sample_inner_v1()),
        Signature::empty(),
    ))
}

#[test]
fn header_hash_is_deterministic() {
    let header = header_v3_with_inner(Some(CongestionInfo::default()), None, CC);
    let first = header.compute_hash();
    let second = header.compute_hash();
    assert_eq!(first, second);
    assert_eq!(first, header.chunk_hash());
}

#[test]
fn header_hash_changes_with_any_field() {
    let base = ShardChunkHeaderV1::compute_hash(&sample_inner_v1());
    let mut changed = sample_inner_v1();
    changed.encoded_length = 124;
    assert_ne!(base, ShardChunkHeaderV1::compute_hash(&changed));
    let mut changed = sample_inner_v1();
    changed.shard_id = 3;
    assert_ne!(base, ShardChunkHeaderV1::compute_hash(&changed));
    let mut changed = sample_inner_v1();
    changed.prev_validator_proposals[0].stake = 1001;
    assert_ne!(base, ShardChunkHeaderV1::compute_hash(&changed));
}

#[test]
fn oldest_shape_hashes_without_body_root() {
    // The historical asymmetry: the first shape hashes the bare inner,
    // the second combines it with the body's Merkle root.
    let inner = sample_inner_v1();
    let h1 = ShardChunkHeaderV1::compute_hash(&inner);
    let h2 = ShardChunkHeaderV2::compute_hash(&inner);
    assert_ne!(h1, h2);
    let direct = sharding::hash::hash_bytes(&{
        let mut out = Vec::new();
        sharding::inner::write_inner_v1(&mut out, &inner);
        out
    });
    assert_eq!(h1, ChunkHash(direct));
}

#[test]
fn version_table_inner_shape_one() {
    let header = header_v3_inner_v1();
    assert!(header.validate_version(CC - 1).is_ok());
    assert!(header.validate_version(CC).is_err());
    assert!(header.validate_version(CC + 1).is_err());
    let err = header.validate_version(CC).unwrap_err();
    assert_eq!(err.protocol_version, CC);
    assert_eq!(err.header_version, 3);
    assert_eq!(err.header_inner_version, 1);
}

#[test]
fn version_table_inner_shape_two() {
    // The compatibility carve-out: legal below, at, and above both
    // thresholds.
    let header = header_v3_with_inner(None, None, CC - 1);
    assert!(header.validate_version(CC - 1).is_ok());
    assert!(header.validate_version(CC).is_ok());
    assert!(header.validate_version(BS).is_ok());
    assert!(header.validate_version(BS + 5).is_ok());
}

#[test]
fn version_table_inner_shape_three() {
    let header = header_v3_with_inner(Some(CongestionInfo::default()), None, CC);
    assert!(header.validate_version(CC - 1).is_err());
    assert!(header.validate_version(CC).is_ok());
    assert!(header.validate_version(BS).is_ok());
    let err = header.validate_version(CC - 1).unwrap_err();
    assert_eq!(err.header_inner_version, 3);
}

#[test]
fn version_table_inner_shape_four() {
    let header = header_v3_with_inner(
        Some(CongestionInfo::default()),
        Some(BandwidthRequests::default()),
        BS,
    );
    assert!(header.validate_version(BS - 1).is_err());
    assert!(header.validate_version(BS).is_ok());
    assert!(header.validate_version(BS + 1).is_ok());
    let err = header.validate_version(BS - 1).unwrap_err();
    assert_eq!(err.header_inner_version, 4);
}

#[test]
fn old_header_shapes_are_never_valid() {
    let v1 = ShardChunkHeader::V1(ShardChunkHeaderV1::new(
        CryptoHash([1u8; 32]),
        CryptoHash([2u8; 32]),
        CryptoHash([3u8; 32]),
        CryptoHash([4u8; 32]),
        5,
        6,
        7,
        8,
        9,
        10,
        CryptoHash([5u8; 32]),
        CryptoHash([6u8; 32]),
        Vec::new(),
        Signature::empty(),
    ));
    assert!(v1.validate_version(CC - 1).is_err());
    let err = v1.validate_version(CC - 1).unwrap_err();
    assert_eq!(err.header_version, 1);
    assert_eq!(err.header_inner_version, 1);

    let v2 = ShardChunkHeader::V2(ShardChunkHeaderV2::new(
        CryptoHash([1u8; 32]),
        CryptoHash([2u8; 32]),
        CryptoHash([3u8; 32]),
        CryptoHash([4u8; 32]),
        5,
        6,
        7,
        8,
        9,
        10,
        CryptoHash([5u8; 32]),
        CryptoHash([6u8; 32]),
        Vec::new(),
        Signature::empty(),
    ));
    assert!(v2.validate_version(BS).is_err());
    assert_eq!(v2.validate_version(BS).unwrap_err().header_version, 2);
}

#[test]
fn new_dummy_is_deterministic_and_new_at_its_height() {
    let a = ShardChunkHeader::new_dummy(11, 4, CryptoHash([9u8; 32]));
    let b = ShardChunkHeader::new_dummy(11, 4, CryptoHash([9u8; 32]));
    assert_eq!(a.chunk_hash(), b.chunk_hash());
    assert_eq!(a.height_created(), 11);
    assert_eq!(a.shard_id(), 4);
    assert_eq!(*a.prev_block_hash(), CryptoHash([9u8; 32]));
    assert_eq!(a.height_included(), 0);
    assert!(a.is_new_chunk(0));
    assert!(!a.is_new_chunk(11));
    assert!(!a.is_genesis());
    assert!(ShardChunkHeader::new_dummy(0, 0, CryptoHash([0u8; 32])).is_genesis());
}

#[test]
fn height_included_is_patched_once() {
    let mut header = header_v3_with_inner(Some(CongestionInfo::default()), None, CC);
    assert_eq!(header.height_included(), 0);
    *header.height_included_mut() = 55;
    assert_eq!(header.height_included(), 55);
    assert!(header.is_new_chunk(55));
    // The committed hash is untouched by inclusion bookkeeping.
    assert_eq!(header.compute_hash(), header.chunk_hash());
}

#[test]
fn init_restores_the_cached_hash() {
    let mut header = ShardChunkHeaderV1::new(
        CryptoHash([1u8; 32]),
        CryptoHash([2u8; 32]),
        CryptoHash([3u8; 32]),
        CryptoHash([4u8; 32]),
        5,
        6,
        7,
        8,
        9,
        10,
        CryptoHash([5u8; 32]),
        CryptoHash([6u8; 32]),
        Vec::new(),
        Signature::empty(),
    );
    let expected = ShardChunkHeaderV1::compute_hash(&header.inner);
    header.hash = ChunkHash::default();
    header.init();
    assert_eq!(header.hash, expected);
}

#[test]
fn take_inner_and_accessors_agree() {
    let header = header_v3_with_inner(
        Some(CongestionInfo { data: vec![1, 2] }),
        Some(BandwidthRequests { data: vec![3] }),
        BS,
    );
    assert_eq!(header.encoded_length(), 123);
    assert_eq!(header.prev_gas_used(), 10);
    assert_eq!(header.gas_limit(), 20);
    assert_eq!(header.prev_balance_burnt(), 30);
    assert_eq!(header.tx_root(), CryptoHash([6u8; 32]));
    assert_eq!(header.prev_outcome_root(), CryptoHash([3u8; 32]));
    assert_eq!(header.prev_outgoing_receipts_root(), CryptoHash([5u8; 32]));
    assert_eq!(header.prev_state_root(), CryptoHash([2u8; 32]));
    assert_eq!(header.encoded_merkle_root(), CryptoHash([4u8; 32]));
    assert_eq!(header.congestion_info().unwrap().data, vec![1, 2]);
    assert_eq!(header.bandwidth_requests().unwrap().data, vec![3]);
    assert_eq!(header.prev_validator_proposals().len(), 1);
    assert_eq!(header.signature().data, Vec::<u8>::new());
    let inner = header.take_inner();
    assert_eq!(inner.version_number(), 4);
    assert_eq!(inner.encoded_length(), 123);
}
