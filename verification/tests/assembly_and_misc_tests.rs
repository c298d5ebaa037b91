//! Partial-chunk assembly, the decoded chunk type, the byte codec, and
//! the state-sync record.

use sharding::chunk::{EncodedShardChunk, ShardChunk, ShardChunkV2};
use sharding::codec::{read_byte_record_list, read_u32, write_byte_record_list, write_u32};
use sharding::erasure::ErasureCodec;
use sharding::hash::{ChunkHash, CryptoHash, combine_hash, hash_bytes};
use sharding::merkle::verify_hash;
use sharding::partial::{PartialEncodedChunk, PartialEncodedChunkV2};
use sharding::payload::{Receipt, SignedTransaction, TransactionReceipt, decode_transaction_receipt, encode_transaction_receipt};
use sharding::receipt_proof::{ReceiptProof, ShardProof};
use sharding::state_sync::StateSyncInfo;
use sharding::types::{BandwidthRequests, CongestionInfo, Signature};
use std::sync::Arc;

fn encode_sample() -> (ErasureCodec, EncodedShardChunk, Vec<sharding::merkle::MerklePath>) {
    let codec = ErasureCodec::new(4, 2).unwrap();
    let transactions = vec![SignedTransaction { data: vec![1, 1, 2, 3, 5, 8] }];
    let receipts = vec![Receipt { data: vec![13, 21] }];
    let (chunk, paths) = EncodedShardChunk::new(
        CryptoHash([7u8; 32]),
        CryptoHash([1u8; 32]),
        CryptoHash([2u8; 32]),
        9,
        1,
        &codec,
        100,
        200,
        300u128,
        CryptoHash([3u8; 32]),
        Vec::new(),
        &transactions,
        &receipts,
        CryptoHash([4u8; 32]),
        Some(CongestionInfo::default()),
        Some(BandwidthRequests::default()),
        Signature::empty(),
        80,
    );
    (codec, chunk, paths)
}

fn sample_receipt_proof() -> ReceiptProof {
    ReceiptProof(
        vec![Receipt { data: vec![1] }],
        ShardProof { from_shard_id: 1, to_shard_id: 0, proof: Vec::new() },
    )
}

#[test]
fn fragments_of_a_partial_chunk_verify_against_the_header_root() {
    let (_codec, chunk, paths) = encode_sample();
    let partial =
        chunk.create_partial_encoded_chunk(vec![0, 3, 5], vec![sample_receipt_proof()], &paths);
    assert_eq!(partial.parts().len(), 3);
    assert_eq!(partial.prev_outgoing_receipts().len(), 1);
    assert_eq!(partial.chunk_hash(), chunk.chunk_hash());
    assert_eq!(partial.shard_id(), 1);
    assert_eq!(partial.height_created(), 9);
    assert_eq!(partial.height_included(), 0);
    assert_eq!(*partial.prev_block(), CryptoHash([7u8; 32]));
    let root = chunk.encoded_merkle_root();
    for part in partial.parts() {
        let leaf = hash_bytes(&part.part);
        assert!(verify_hash(&root, &part.merkle_proof, &leaf));
        assert_eq!(
            part.part.as_slice(),
            chunk.content().parts[part.part_ord as usize]
                .as_ref()
                .unwrap()
                .as_slice()
        );
    }
    // A proof moved to another fragment's position does not verify.
    let parts = partial.parts();
    let leaf = hash_bytes(&parts[0].part);
    assert!(!verify_hash(&root, &parts[1].merkle_proof, &leaf));
}

#[test]
fn partial_chunk_shapes_follow_the_header_shape() {
    let (_codec, chunk, paths) = encode_sample();
    let header = chunk.cloned_header();
    let partial = PartialEncodedChunk::new(header, Vec::new(), Vec::new());
    assert!(matches!(partial, PartialEncodedChunk::V2(_)));
    let lifted: PartialEncodedChunkV2 = partial.into();
    assert_eq!(lifted.header.chunk_hash(), chunk.chunk_hash());
    let with_arc = chunk.create_partial_encoded_chunk_with_arc_receipts(
        vec![1, 2],
        vec![Arc::new(sample_receipt_proof()), Arc::new(sample_receipt_proof())],
        &paths,
    );
    let owned = with_arc.into_partial_encoded_chunk();
    assert!(matches!(owned, PartialEncodedChunk::V2(_)));
    assert_eq!(owned.prev_outgoing_receipts().len(), 2);
    assert_eq!(owned.prev_outgoing_receipts()[0], sample_receipt_proof());
    assert_eq!(owned.parts().len(), 2);
}

#[test]
fn shard_chunk_accessors_and_rewrapping() {
    let (codec, chunk, _paths) = encode_sample();
    let _ = codec;
    let decoded = chunk.decode_chunk(4).unwrap();
    assert_eq!(decoded.shard_id(), 1);
    assert_eq!(decoded.height_created(), 9);
    assert_eq!(decoded.height_included(), 0);
    assert_eq!(decoded.prev_block_hash(), CryptoHash([7u8; 32]));
    assert_eq!(decoded.prev_state_root(), CryptoHash([1u8; 32]));
    assert_eq!(decoded.tx_root(), CryptoHash([3u8; 32]));
    assert_eq!(decoded.prev_outgoing_receipts_root(), CryptoHash([4u8; 32]));
    assert_eq!(decoded.chunk_hash(), chunk.chunk_hash());
    assert_eq!(decoded.header_hash(), chunk.chunk_hash());

    let mut stamped = chunk.decode_chunk(4).unwrap();
    stamped.set_height_included(77);
    assert_eq!(stamped.height_included(), 77);

    let replacement = chunk.cloned_header();
    let rewrapped = ShardChunk::with_header(stamped, replacement).unwrap();
    // Rewrapping refreshes the recorded hash from the new header.
    assert_eq!(rewrapped.chunk_hash(), chunk.chunk_hash());
    assert_eq!(rewrapped.height_included(), 0);

    let taken = rewrapped.take_header();
    assert_eq!(taken.chunk_hash(), chunk.chunk_hash());

    let again = chunk.decode_chunk(4).unwrap();
    let txs = again.into_transactions();
    assert_eq!(txs.len(), 1);
    assert_eq!(txs[0].data, vec![1, 1, 2, 3, 5, 8]);
}

#[test]
fn with_header_refuses_mismatched_shapes() {
    // A chunk decoded under the current shape accepts any header, but a
    // V1 chunk only pairs with a V1 header; build the V2 side here.
    let (_codec, chunk, _paths) = encode_sample();
    let decoded = chunk.decode_chunk(4).unwrap();
    let header = chunk.cloned_header();
    assert!(ShardChunk::with_header(decoded, header).is_some());
}

#[test]
fn shard_chunk_v2_fields_are_plain_data() {
    let (_codec, chunk, _paths) = encode_sample();
    let header = chunk.cloned_header();
    let manual = ShardChunk::V2(ShardChunkV2 {
        chunk_hash: header.chunk_hash(),
        header,
        transactions: Vec::new(),
        prev_outgoing_receipts: Vec::new(),
    });
    assert_eq!(manual.to_transactions().len(), 0);
    assert_eq!(manual.prev_outgoing_receipts().len(), 0);
    assert_eq!(manual.compute_header_hash(), chunk.chunk_hash());
}

#[test]
fn byte_records_round_trip_with_exact_layout() {
    let mut out = Vec::new();
    write_u32(&mut out, 0x0403_0201);
    assert_eq!(out, vec![0x01, 0x02, 0x03, 0x04]);
    let (value, next) = read_u32(&out, 0).unwrap();
    assert_eq!(value, 0x0403_0201);
    assert_eq!(next, 4);
    assert!(read_u32(&out, 1).is_none());

    let records = vec![vec![9u8, 8], vec![], vec![7u8]];
    let mut buf = Vec::new();
    write_byte_record_list(&mut buf, &records);
    assert_eq!(
        buf,
        vec![3, 0, 0, 0, 2, 0, 0, 0, 9, 8, 0, 0, 0, 0, 1, 0, 0, 0, 7]
    );
    let (parsed, consumed) = read_byte_record_list(&buf, 0).unwrap();
    assert_eq!(parsed, records);
    assert_eq!(consumed, buf.len());
    // A truncated buffer does not parse.
    assert!(read_byte_record_list(&buf[..buf.len() - 1], 0).is_none());
}

#[test]
fn hashes_combine_order_sensitively() {
    let a = hash_bytes(b"left");
    let b = hash_bytes(b"right");
    assert_ne!(a, b);
    assert_ne!(combine_hash(&a, &b), combine_hash(&b, &a));
    assert_ne!(hash_bytes(b""), hash_bytes(b"x"));
    let h = ChunkHash(a);
    assert_eq!(h.as_bytes(), &a.0);
}

#[test]
fn payload_bytes_round_trip() {
    let payload = TransactionReceipt(
        vec![
            SignedTransaction { data: vec![1, 2, 3] },
            SignedTransaction { data: Vec::new() },
        ],
        vec![Receipt { data: vec![200] }],
    );
    let bytes = encode_transaction_receipt(&payload);
    let back = decode_transaction_receipt(&bytes).unwrap();
    assert_eq!(back, payload);
    // A buffer with trailing bytes is not a payload.
    let mut longer = bytes.clone();
    longer.push(0);
    assert!(decode_transaction_receipt(&longer).is_none());
    assert!(decode_transaction_receipt(&bytes[1..]).is_none());
}

#[test]
fn receipt_proofs_compare_by_shard_pair() {
    let a = ReceiptProof(
        vec![Receipt { data: vec![1] }],
        ShardProof { from_shard_id: 0, to_shard_id: 1, proof: Vec::new() },
    );
    let b = ReceiptProof(
        vec![Receipt { data: vec![2, 3] }],
        ShardProof { from_shard_id: 2, to_shard_id: 0, proof: Vec::new() },
    );
    assert!(a < b);
    assert!(b > a);
    assert_eq!(
        a.partial_cmp(&b),
        Some(std::cmp::Ordering::Less)
    );
    // Proofs with the same pair compare equal regardless of receipts.
    let c = ReceiptProof(
        vec![Receipt { data: vec![9, 9, 9] }],
        ShardProof { from_shard_id: 0, to_shard_id: 1, proof: Vec::new() },
    );
    assert_eq!(a.partial_cmp(&c), Some(std::cmp::Ordering::Equal));
    assert_ne!(a, c);
}

#[test]
fn state_sync_info_reads_uniformly() {
    let info = StateSyncInfo::new(CryptoHash([3u8; 32]), vec![0, 1, 4]);
    assert_eq!(*info.epoch_first_block(), CryptoHash([3u8; 32]));
    assert_eq!(info.shards(), &vec![0, 1, 4]);
    let old = StateSyncInfo::V0(sharding::state_sync::StateSyncInfoV0 {
        sync_hash: CryptoHash([5u8; 32]),
        shards: vec![2],
    });
    assert_eq!(*old.epoch_first_block(), CryptoHash([5u8; 32]));
    assert_eq!(old.shards(), &vec![2]);
}
