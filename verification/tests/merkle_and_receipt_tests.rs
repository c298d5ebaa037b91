//! The Merkle engine and the cross-shard receipt proofs built on it.

use sharding::hash::CryptoHash;
use sharding::merkle::{compute_root_from_path, merklize, verify_path};
use sharding::payload::{Receipt, ReceiptList, encode_receipt_list};
use sharding::receipt_proof::{
    ReceiptProof, ShardProof, sort_receipt_proofs,
};

#[test]
fn merklize_proofs_verify_for_every_leaf() {
    for n in 1usize..=9 {
        let leaves: Vec<Vec<u8>> = (0..n).map(|i| vec![i as u8; i + 1]).collect();
        let (root, paths) = merklize(&leaves);
        assert_eq!(paths.len(), n);
        for i in 0..n {
            assert!(verify_path(&root, &paths[i], &leaves[i]));
        }
    }
}

#[test]
fn merklize_detects_a_wrong_leaf() {
    let leaves: Vec<Vec<u8>> = vec![vec![1], vec![2], vec![3], vec![4], vec![5]];
    let (root, paths) = merklize(&leaves);
    assert!(!verify_path(&root, &paths[2], &[9]));
    assert!(!verify_path(&root, &paths[2], &leaves[3]));
}

#[test]
fn merklize_empty_and_single() {
    let empty: Vec<Vec<u8>> = Vec::new();
    let (root, paths) = merklize(&empty);
    assert_eq!(root, CryptoHash([0u8; 32]));
    assert!(paths.is_empty());

    let single = vec![vec![42u8]];
    let (root, paths) = merklize(&single);
    assert_eq!(paths.len(), 1);
    assert!(paths[0].is_empty());
    assert_eq!(compute_root_from_path(&paths[0], &sharding::hash::hash_bytes(&[42])), root);
    assert!(verify_path(&root, &paths[0], &[42]));
}

fn receipts_for(shard: u64) -> Vec<Receipt> {
    vec![
        Receipt { data: vec![shard as u8, 1] },
        Receipt { data: vec![shard as u8, 2, 3] },
    ]
}

/// Build the outgoing-receipts root of a shard: one leaf per destination,
/// each the serialized (destination, receipts) list.
fn build_receipt_root(
    from_shard: u64,
    destinations: &[u64],
) -> (CryptoHash, Vec<ReceiptProof>) {
    let leaves: Vec<Vec<u8>> = destinations
        .iter()
        .map(|&to| encode_receipt_list(&ReceiptList(to, receipts_for(to))))
        .collect();
    let (root, paths) = merklize(&leaves);
    let proofs = destinations
        .iter()
        .zip(paths.into_iter())
        .map(|(&to, path)| {
            ReceiptProof(
                receipts_for(to),
                ShardProof { from_shard_id: from_shard, to_shard_id: to, proof: path },
            )
        })
        .collect();
    (root, proofs)
}

#[test]
fn receipt_proof_verifies_against_its_root() {
    let (root, proofs) = build_receipt_root(1, &[0, 2, 3]);
    for proof in &proofs {
        assert!(proof.verify_against_receipt_root(root));
    }
}

#[test]
fn mutated_receipt_proof_fails_verification() {
    let (root, proofs) = build_receipt_root(1, &[0, 2, 3]);

    // A mutated receipt byte.
    let mut bad = proofs[0].clone();
    bad.0[0].data[0] ^= 0xFF;
    assert!(!bad.verify_against_receipt_root(root));

    // A mutated destination shard id.
    let mut bad = proofs[0].clone();
    bad.1.to_shard_id += 1;
    assert!(!bad.verify_against_receipt_root(root));

    // A wrong root altogether.
    assert!(!proofs[1].verify_against_receipt_root(CryptoHash([13u8; 32])));
}

fn proof_with_key(from: u64, to: u64) -> ReceiptProof {
    ReceiptProof(
        receipts_for(to),
        ShardProof { from_shard_id: from, to_shard_id: to, proof: Vec::new() },
    )
}

#[test]
fn receipt_proofs_sort_identically_from_any_insertion_order() {
    let a = vec![proof_with_key(2, 0), proof_with_key(0, 1)];
    let b = vec![proof_with_key(0, 1), proof_with_key(2, 0)];
    let sorted_a = sort_receipt_proofs(a);
    let sorted_b = sort_receipt_proofs(b);
    assert_eq!(sorted_a, sorted_b);
    assert_eq!(sorted_a[0].1.from_shard_id, 0);
    assert_eq!(sorted_a[0].1.to_shard_id, 1);
    assert_eq!(sorted_a[1].1.from_shard_id, 2);
    assert_eq!(sorted_a[1].1.to_shard_id, 0);
}

#[test]
fn sorting_keeps_proofs_with_equal_pairs() {
    let mut first = proof_with_key(1, 1);
    first.0.push(Receipt { data: vec![42] });
    let twin = proof_with_key(1, 1);
    let sorted = sort_receipt_proofs(vec![first.clone(), proof_with_key(0, 0), twin.clone()]);
    assert_eq!(sorted.len(), 3);
    assert_eq!(sorted[0], proof_with_key(0, 0));
    // Both proofs with the equal pair survive, in some order.
    assert!(
        (sorted[1] == first && sorted[2] == twin) || (sorted[1] == twin && sorted[2] == first)
    );
}

#[test]
fn receipt_proofs_sort_lexicographically() {
    let unsorted = vec![
        proof_with_key(1, 2),
        proof_with_key(0, 5),
        proof_with_key(1, 0),
        proof_with_key(0, 0),
    ];
    let sorted = sort_receipt_proofs(unsorted);
    let keys: Vec<(u64, u64)> = sorted
        .iter()
        .map(|p| (p.1.from_shard_id, p.1.to_shard_id))
        .collect();
    assert_eq!(keys, vec![(0, 0), (0, 5), (1, 0), (1, 2)]);
}
