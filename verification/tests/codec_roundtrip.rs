//! End-to-end exercises of the erasure-coded body codec: encode a payload
//! into fragments, lose some, reconstruct, and decode the payload back.

use sharding::chunk::{ChunkDecodeError, EncodedShardChunk};
use sharding::erasure::ErasureCodec;
use sharding::hash::CryptoHash;
use sharding::payload::{Receipt, SignedTransaction};
use sharding::types::{BandwidthRequests, CongestionInfo, Signature};

fn sample_transactions() -> Vec<SignedTransaction> {
    vec![
        SignedTransaction { data: vec![1, 2, 3, 4] },
        SignedTransaction { data: vec![5] },
        SignedTransaction { data: vec![6, 7, 8, 9, 10, 11, 12] },
    ]
}

fn sample_receipts() -> Vec<Receipt> {
    vec![Receipt { data: vec![100, 101] }, Receipt { data: vec![] }]
}

fn encode_sample(codec: &ErasureCodec) -> (EncodedShardChunk, Vec<sharding::merkle::MerklePath>) {
    let transactions = sample_transactions();
    let receipts = sample_receipts();
    EncodedShardChunk::new(
        CryptoHash([7u8; 32]),
        CryptoHash([1u8; 32]),
        CryptoHash([2u8; 32]),
        42,
        3,
        codec,
        1000,
        2000,
        5u128,
        CryptoHash([3u8; 32]),
        Vec::new(),
        &transactions,
        &receipts,
        CryptoHash([4u8; 32]),
        Some(CongestionInfo { data: vec![9, 9] }),
        Some(BandwidthRequests { data: vec![8] }),
        Signature::empty(),
        86,
    )
}

fn drop_and_decode(drop: &[usize]) {
    let codec = ErasureCodec::new(6, 3).unwrap();
    let (chunk, _paths) = encode_sample(&codec);
    let header_hash_at_encode = chunk.chunk_hash();

    let header = chunk.cloned_header();
    let mut damaged = chunk;
    {
        let content = damaged.content_mut();
        for &i in drop {
            content.parts[i] = None;
        }
        assert_eq!(content.num_fetched_parts(), 9 - drop.len());
        content.reconstruct(&codec).unwrap();
        assert_eq!(content.num_fetched_parts(), 9);
    }
    let decoded = damaged.decode_chunk(6).unwrap();
    let txs = decoded.to_transactions();
    assert_eq!(txs.len(), 3);
    assert_eq!(txs[0].data, vec![1, 2, 3, 4]);
    assert_eq!(txs[1].data, vec![5]);
    assert_eq!(txs[2].data, vec![6, 7, 8, 9, 10, 11, 12]);
    let receipts = decoded.prev_outgoing_receipts();
    assert_eq!(receipts.len(), 2);
    assert_eq!(receipts[0].data, vec![100, 101]);
    assert_eq!(receipts[1].data, Vec::<u8>::new());
    // The header rode through untouched: the hash recomputed after decode
    // matches the one produced at encode time.
    assert_eq!(decoded.header_hash(), header_hash_at_encode);
    assert_eq!(decoded.compute_header_hash(), header.compute_hash());
}

#[test]
fn roundtrip_all_fragments_present() {
    drop_and_decode(&[]);
}

#[test]
fn roundtrip_after_dropping_three_data_fragments() {
    drop_and_decode(&[0, 2, 4]);
}

#[test]
fn roundtrip_after_dropping_all_parity_fragments() {
    drop_and_decode(&[6, 7, 8]);
}

#[test]
fn roundtrip_after_dropping_mixed_fragments() {
    drop_and_decode(&[1, 5, 7]);
}

#[test]
fn reconstruction_is_identical_for_every_sufficient_subset() {
    // Drop every possible set of three fragments out of nine: decoding
    // succeeds from each remaining subset and restores the same bytes.
    let codec = ErasureCodec::new(6, 3).unwrap();
    let (chunk, _paths) = encode_sample(&codec);
    let reference: Vec<Vec<u8>> = chunk
        .content()
        .parts
        .iter()
        .map(|p| p.clone().unwrap())
        .collect();
    for a in 0..9usize {
        for b in (a + 1)..9 {
            for c in (b + 1)..9 {
                let mut body = chunk.content().clone();
                body.parts[a] = None;
                body.parts[b] = None;
                body.parts[c] = None;
                body.reconstruct(&codec).unwrap();
                let rebuilt: Vec<Vec<u8>> =
                    body.parts.iter().map(|p| p.clone().unwrap()).collect();
                assert_eq!(rebuilt, reference);
            }
        }
    }
}

#[test]
fn too_few_fragments_is_a_typed_failure() {
    let codec = ErasureCodec::new(6, 3).unwrap();
    let (chunk, _paths) = encode_sample(&codec);
    let mut damaged = chunk;
    let content = damaged.content_mut();
    for i in 0..4 {
        content.parts[i] = None;
    }
    assert_eq!(
        content.reconstruct(&codec),
        Err(ChunkDecodeError::InsufficientFragments)
    );
    // Nothing was touched: the same fragments are still missing.
    assert_eq!(content.num_fetched_parts(), 5);
}

#[test]
fn decode_without_needed_fragments_is_a_typed_failure() {
    let codec = ErasureCodec::new(6, 3).unwrap();
    let (chunk, _paths) = encode_sample(&codec);
    let mut damaged = chunk;
    damaged.content_mut().parts[2] = None;
    assert_eq!(
        damaged.decode_chunk(6).unwrap_err(),
        ChunkDecodeError::InsufficientFragments
    );
}

#[test]
fn corrupt_fragments_fail_to_decode() {
    let codec = ErasureCodec::new(6, 3).unwrap();
    let (chunk, _paths) = encode_sample(&codec);
    let mut damaged = chunk;
    {
        let content = damaged.content_mut();
        // Replace every fragment with garbage of the same length.
        let len = content.parts[0].as_ref().unwrap().len();
        for i in 0..9 {
            content.parts[i] = Some(vec![0xAB; len]);
        }
    }
    assert_eq!(
        damaged.decode_chunk(6).unwrap_err(),
        ChunkDecodeError::DecodeFailure
    );
}

#[test]
fn empty_payload_round_trips() {
    let codec = ErasureCodec::new(2, 2).unwrap();
    let transactions: Vec<SignedTransaction> = Vec::new();
    let receipts: Vec<Receipt> = Vec::new();
    let (chunk, _paths) = EncodedShardChunk::new(
        CryptoHash([7u8; 32]),
        CryptoHash([1u8; 32]),
        CryptoHash([2u8; 32]),
        1,
        0,
        &codec,
        0,
        0,
        0u128,
        CryptoHash([3u8; 32]),
        Vec::new(),
        &transactions,
        &receipts,
        CryptoHash([4u8; 32]),
        None,
        None,
        Signature::empty(),
        60,
    );
    assert_eq!(chunk.encoded_length(), 8);
    let mut damaged = chunk;
    damaged.content_mut().parts[1] = None;
    damaged.content_mut().parts[2] = None;
    damaged.content_mut().reconstruct(&codec).unwrap();
    let decoded = damaged.decode_chunk(2).unwrap();
    assert!(decoded.to_transactions().is_empty());
    assert!(decoded.prev_outgoing_receipts().is_empty());
}

#[test]
fn erasure_codec_rejects_bad_counts() {
    assert!(ErasureCodec::new(0, 3).is_err());
    assert!(ErasureCodec::new(3, 0).is_err());
    assert!(ErasureCodec::new(200, 100).is_err());
    assert!(ErasureCodec::new(200, 56).is_ok());
}

#[test]
fn from_header_starts_empty() {
    let codec = ErasureCodec::new(2, 1).unwrap();
    let (chunk, _paths) = encode_sample(&codec);
    let header = chunk.cloned_header();
    let empty = EncodedShardChunk::from_header(header, 3);
    assert_eq!(empty.content().parts.len(), 3);
    assert_eq!(empty.content().num_fetched_parts(), 0);
    assert_eq!(empty.chunk_hash(), chunk.chunk_hash());
}
