//! Cross-shard receipt proofs: the commitment that a set of receipts was
//! part of an origin shard's outgoing-receipt root destined for a target
//! shard, and the canonical ordering of proof collections that every
//! honest node must apply before hashing them.

use crate::codec::copy_bytes;
use crate::codec::records_valid;
use crate::hash::CryptoHash;
use crate::hash::sha256_of;
use crate::merkle::MerklePath;
use crate::merkle::MerklePathItem;
use crate::merkle::fold_path;
use crate::merkle::verify_hash;
use crate::payload::ReceiptList;
use crate::payload::Receipt;
use crate::payload::encode_receipt_list;
use crate::payload::receipt_views;
use crate::payload::ser_receipt_list;
use crate::types::ShardId;
use vstd::multiset::Multiset;
use vstd::prelude::*;

verus! {

/// The inclusion side of a receipt proof: where the receipts come from,
/// where they go, and the Merkle path to the outgoing-receipts root.
#[derive(Debug, PartialEq, Eq)]
pub struct ShardProof {
    pub from_shard_id: ShardId,
    pub to_shard_id: ShardId,
    pub proof: MerklePath,
}

impl Clone for ShardProof {
    fn clone(&self) -> (r: Self)
        ensures
            shard_proof_congruent(r, *self),
    {
        ShardProof {
            from_shard_id: self.from_shard_id,
            to_shard_id: self.to_shard_id,
            proof: copy_path(&self.proof),
        }
    }
}

/// Two shard proofs that hold the same values.
pub open spec fn shard_proof_congruent(a: ShardProof, b: ShardProof) -> bool {
    &&& a.from_shard_id == b.from_shard_id
    &&& a.to_shard_id == b.to_shard_id
    &&& a.proof@ == b.proof@
}

/// Copy an inclusion proof, keeping every step.
pub fn copy_path(path: &MerklePath) -> (r: MerklePath)
    ensures
        r@ == path@,
{
    let mut out: Vec<MerklePathItem> = Vec::new();
    let mut i: usize = 0;
    while i < path.len()
        invariant
            i <= path@.len(),
            out@ =~= path@.take(i as int),
        decreases path@.len() - i,
    {
        out.push(path[i]);
        i = i + 1;
    }
    proof {
        assert(out@ =~= path@);
    }
    out
}

/// A subset of receipts together with the proof that they were committed
/// for delivery from one shard to another.
#[derive(Debug, PartialEq, Eq)]
pub struct ReceiptProof(pub Vec<Receipt>, pub ShardProof);

impl Clone for ReceiptProof {
    fn clone(&self) -> (r: Self)
        ensures
            receipt_proof_congruent(r, *self),
    {
        let mut receipts: Vec<Receipt> = Vec::new();
        let mut i: usize = 0;
        while i < self.0.len()
            invariant
                i <= self.0@.len(),
                receipts@.len() == i as int,
                forall|k: int| 0 <= k < i ==> (#[trigger] receipts@[k]).data@
                    == self.0@[k].data@,
            decreases self.0@.len() - i,
        {
            receipts.push(Receipt { data: copy_bytes(self.0[i].data.as_slice()) });
            i = i + 1;
        }
        proof {
            assert(receipt_views(receipts@) =~= receipt_views(self.0@));
        }
        ReceiptProof(receipts, self.1.clone())
    }
}

/// Two receipt proofs that hold the same values.
pub open spec fn receipt_proof_congruent(a: ReceiptProof, b: ReceiptProof) -> bool {
    &&& receipt_views(a.0@) == receipt_views(b.0@)
    &&& shard_proof_congruent(a.1, b.1)
}

impl ReceiptProof {
    /// Recompute the commitment leaf as the hash of (destination shard,
    /// receipt sequence) and check it against the candidate root along the
    /// proof's path. A failed proof is an expected, non-fatal outcome: the
    /// answer is a boolean, never a panic.
    pub fn verify_against_receipt_root(&self, receipt_root: CryptoHash) -> (r: bool)
        requires
            records_valid(receipt_views(self.0@)),
        ensures
            r == (fold_path(
                self.1.proof@,
                sha256_of(ser_receipt_list(self.1.to_shard_id, receipt_views(self.0@))),
            ) == receipt_root@),
    {
        let list = ReceiptList(self.1.to_shard_id, copy_receipts(&self.0));
        let bytes = encode_receipt_list(&list);
        let receipt_hash = crate::hash::hash_bytes(bytes.as_slice());
        verify_hash(&receipt_root, &self.1.proof, &receipt_hash)
    }

    /// The pair that orders receipt proofs: origin shard, then
    /// destination shard.
    pub open spec fn spec_order_key(&self) -> (ShardId, ShardId) {
        (self.1.from_shard_id, self.1.to_shard_id)
    }
}

/// Copy a receipt sequence, keeping every value.
pub fn copy_receipts(receipts: &Vec<Receipt>) -> (r: Vec<Receipt>)
    ensures
        receipt_views(r@) == receipt_views(receipts@),
{
    let mut out: Vec<Receipt> = Vec::new();
    let mut i: usize = 0;
    while i < receipts.len()
        invariant
            i <= receipts@.len(),
            out@.len() == i as int,
            forall|k: int| 0 <= k < i ==> (#[trigger] out@[k]).data@ == receipts@[k].data@,
        decreases receipts@.len() - i,
    {
        out.push(Receipt { data: copy_bytes(receipts[i].data.as_slice()) });
        i = i + 1;
    }
    proof {
        assert(receipt_views(out@) =~= receipt_views(receipts@));
    }
    out
}

impl PartialOrd for ReceiptProof {
    /// Receipt proofs order by (origin, destination) alone, so that
    /// messages carrying proof collections serialize deterministically;
    /// two proofs with the same pair compare equal here even when their
    /// receipts differ.
    fn partial_cmp(&self, other: &Self) -> (r: Option<core::cmp::Ordering>) {
        if self.1.from_shard_id < other.1.from_shard_id {
            Some(core::cmp::Ordering::Less)
        } else if self.1.from_shard_id > other.1.from_shard_id {
            Some(core::cmp::Ordering::Greater)
        } else if self.1.to_shard_id < other.1.to_shard_id {
            Some(core::cmp::Ordering::Less)
        } else if self.1.to_shard_id > other.1.to_shard_id {
            Some(core::cmp::Ordering::Greater)
        } else {
            Some(core::cmp::Ordering::Equal)
        }
    }
}

impl vstd::std_specs::cmp::PartialOrdSpecImpl for ReceiptProof {
    open spec fn obeys_partial_cmp_spec() -> bool {
        true
    }

    open spec fn partial_cmp_spec(&self, other: &Self) -> Option<core::cmp::Ordering> {
        if self.1.from_shard_id < other.1.from_shard_id {
            Some(core::cmp::Ordering::Less)
        } else if self.1.from_shard_id > other.1.from_shard_id {
            Some(core::cmp::Ordering::Greater)
        } else if self.1.to_shard_id < other.1.to_shard_id {
            Some(core::cmp::Ordering::Less)
        } else if self.1.to_shard_id > other.1.to_shard_id {
            Some(core::cmp::Ordering::Greater)
        } else {
            Some(core::cmp::Ordering::Equal)
        }
    }
}

/// The canonical order of receipt proofs: lexicographic on (origin shard,
/// destination shard).
pub open spec fn proof_key_le(a: ReceiptProof, b: ReceiptProof) -> bool {
    a.1.from_shard_id < b.1.from_shard_id || (a.1.from_shard_id == b.1.from_shard_id
        && a.1.to_shard_id <= b.1.to_shard_id)
}

/// A collection already in canonical order.
pub open spec fn proofs_sorted(s: Seq<ReceiptProof>) -> bool {
    forall|i: int, j: int| 0 <= i < j < s.len() ==> proof_key_le(#[trigger] s[i], #[trigger] s[j])
}

/// No two proofs of the collection share an (origin, destination) pair.
pub open spec fn proofs_distinct_keys(s: Seq<ReceiptProof>) -> bool {
    forall|i: int, j: int|
        0 <= i < j < s.len() ==> (#[trigger] s[i]).spec_order_key() != (
        #[trigger] s[j]).spec_order_key()
}

/// Compare two proofs by (origin, destination).
fn key_le(a: &ReceiptProof, b: &ReceiptProof) -> (r: bool)
    ensures
        r == proof_key_le(*a, *b),
{
    a.1.from_shard_id < b.1.from_shard_id || (a.1.from_shard_id == b.1.from_shard_id
        && a.1.to_shard_id <= b.1.to_shard_id)
}

/// Sort a collection of receipt proofs into the canonical order. The
/// result holds exactly the given proofs, ordered by (origin,
/// destination); proofs with equal pairs keep no particular order among
/// themselves.
pub fn sort_receipt_proofs(proofs: Vec<ReceiptProof>) -> (r: Vec<ReceiptProof>)
    ensures
        r@.to_multiset() == proofs@.to_multiset(),
        proofs_sorted(r@),
{
    broadcast use vstd::seq_lib::group_to_multiset_ensures;
    broadcast use vstd::multiset::group_multiset_axioms;

    let mut src = proofs;
    let ghost orig = src@;
    let mut out: Vec<ReceiptProof> = Vec::new();
    proof {
        assert(out@.to_multiset().add(src@.to_multiset()) =~= orig.to_multiset());
    }
    while src.len() > 0
        invariant
            out@.to_multiset().add(src@.to_multiset()) == orig.to_multiset(),
            proofs_sorted(out@),
        decreases src@.len(),
    {
        let ghost src_before = src@;
        let x = src.remove(0);
        proof {
            vstd::seq_lib::to_multiset_remove(src_before, 0);
            vstd::seq_lib::to_multiset_contains(src_before, x);
            assert(src_before.contains(x));
            assert(src_before.to_multiset().count(x) > 0);
        }
        let mut pos: usize = 0;
        while pos < out.len() && key_le(&out[pos], &x)
            invariant
                pos <= out@.len(),
                forall|k: int| 0 <= k < pos ==> proof_key_le(#[trigger] out@[k], x),
            decreases out@.len() - pos,
        {
            pos = pos + 1;
        }
        let ghost out_before = out@;
        proof {
            vstd::seq_lib::to_multiset_insert(out_before, pos as int, x);
        }
        out.insert(pos, x);
        proof {
            assert(out@.to_multiset() == out_before.to_multiset().insert(x));
            assert(out@.to_multiset().add(src@.to_multiset()) =~= orig.to_multiset()) by {
                broadcast use vstd::multiset::group_multiset_axioms;
            }
            assert forall|i: int, j: int|
                0 <= i < j < out@.len() implies proof_key_le(
                #[trigger] out@[i],
                #[trigger] out@[j],
            ) by {
                if j < pos {
                } else if i < pos && j == pos {
                } else if i < pos && j > pos {
                    assert(out@[j] == out_before[j - 1]);
                } else if i == pos {
                    assert(out@[j] == out_before[j - 1]);
                    assert(!proof_key_le(out_before[j - 1], x));
                } else {
                    assert(out@[i] == out_before[i - 1]);
                    assert(out@[j] == out_before[j - 1]);
                }
            }
        }
    }
    proof {
        assert(src@.to_multiset() =~= Multiset::empty());
        assert(out@.to_multiset() =~= orig.to_multiset());
    }
    out
}

/// TESTED LAW — receipt-proof ordering. Two collections that hold the
/// same receipt proofs, each sorted in the canonical order and with no
/// two proofs sharing an (origin, destination) pair, are the same
/// sequence: canonical ordering erases any difference in collection
/// order before cross-node hashing.
pub proof fn lemma_sorted_proofs_unique(a: Seq<ReceiptProof>, b: Seq<ReceiptProof>)
    requires
        a.to_multiset() == b.to_multiset(),
        proofs_sorted(a),
        proofs_sorted(b),
        proofs_distinct_keys(a),
        proofs_distinct_keys(b),
    ensures
        a == b,
    decreases a.len(),
{
    broadcast use vstd::seq_lib::group_to_multiset_ensures;
    broadcast use vstd::multiset::group_multiset_axioms;

    if a.len() == 0 {
        assert(a.to_multiset().len() == 0);
        assert(b.to_multiset().len() == 0);
        assert(b.len() == 0);
        assert(a =~= b);
    } else {
        assert(a.to_multiset().contains(a[0]));
        assert(b.to_multiset().contains(a[0]));
        assert(b.contains(a[0]));
        let k = choose|k: int| 0 <= k < b.len() && b[k] == a[0];
        assert(a.to_multiset().contains(b[0]));
        assert(a.contains(b[0]));
        let m = choose|m: int| 0 <= m < a.len() && a[m] == b[0];
        if k != 0 {
            assert(proof_key_le(b[0], b[k]));
        }
        if m != 0 {
            assert(proof_key_le(a[0], a[m]));
        }
        assert(a[0] == b[0]) by {
            if k != 0 {
                if m != 0 {
                    assert(proof_key_le(b[0], a[0]));
                    assert(proof_key_le(a[0], b[0]));
                    assert(a[0].spec_order_key() == b[0].spec_order_key());
                    assert(b[k].spec_order_key() != b[0].spec_order_key());
                    assert(false);
                } else {
                    assert(a[0] == b[0]);
                }
            }
        }
        assert(a.drop_first() =~= a.remove(0));
        assert(b.drop_first() =~= b.remove(0));
        assert((a.remove(0)).to_multiset() == a.to_multiset().remove(a[0]));
        assert((b.remove(0)).to_multiset() == b.to_multiset().remove(b[0]));
        assert(a.drop_first().to_multiset() =~= a.to_multiset().remove(a[0]));
        assert(b.drop_first().to_multiset() =~= b.to_multiset().remove(b[0]));
        assert forall|i: int, j: int|
            0 <= i < j < a.drop_first().len() implies proof_key_le(
            #[trigger] a.drop_first()[i],
            #[trigger] a.drop_first()[j],
        ) && a.drop_first()[i].spec_order_key() != a.drop_first()[j].spec_order_key() by {
            assert(a.drop_first()[i] == a[i + 1]);
            assert(a.drop_first()[j] == a[j + 1]);
        }
        assert forall|i: int, j: int|
            0 <= i < j < b.drop_first().len() implies proof_key_le(
            #[trigger] b.drop_first()[i],
            #[trigger] b.drop_first()[j],
        ) && b.drop_first()[i].spec_order_key() != b.drop_first()[j].spec_order_key() by {
            assert(b.drop_first()[i] == b[i + 1]);
            assert(b.drop_first()[j] == b[j + 1]);
        }
        lemma_sorted_proofs_unique(a.drop_first(), b.drop_first());
        assert(a =~= b) by {
            assert(a.drop_first() =~= b.drop_first());
            assert forall|i: int| 0 <= i < a.len() implies a[i] == b[i] by {
                if i > 0 {
                    assert(a.drop_first()[i - 1] == b.drop_first()[i - 1]);
                }
            }
        }
    }
}


/// TESTED LAW — proof soundness. A receipt proof whose inclusion path was
/// produced by committing this proof's receipt list among the leaves of
/// the outgoing-receipts root verifies successfully against that root.
pub proof fn lemma_receipt_proof_soundness(
    rp: ReceiptProof,
    root: CryptoHash,
    leaves: Seq<Seq<u8>>,
    k: int,
)
    requires
        0 <= k < leaves.len(),
        root@ == crate::merkle::merkle_root_of(leaves),
        leaves[k] == ser_receipt_list(rp.1.to_shard_id, receipt_views(rp.0@)),
        fold_path(rp.1.proof@, sha256_of(leaves[k])) == crate::merkle::merkle_root_of(leaves),
    ensures
        fold_path(
            rp.1.proof@,
            sha256_of(ser_receipt_list(rp.1.to_shard_id, receipt_views(rp.0@))),
        ) == root@,
{
}

} // verus!
