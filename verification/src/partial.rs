//! The partial-chunk assembler: package a chosen subset of fragments with
//! their inclusion proofs and the shard's outgoing receipt proofs into a
//! transmittable unit. A partial chunk is a read-only projection of the
//! encoded chunk; it never claims completeness.

use crate::chunk::EncodedShardChunk;
use crate::codec::copy_bytes;
use crate::hash::ChunkHash;
use crate::hash::CryptoHash;
use crate::header::ShardChunkHeader;
use crate::header::ShardChunkHeaderV1;
use crate::header::header_congruent;
use crate::merkle::MerklePath;
use crate::receipt_proof::ReceiptProof;
use crate::receipt_proof::copy_path;
use crate::receipt_proof::receipt_proof_congruent;
use crate::types::BlockHeight;
use crate::types::ShardId;
use std::sync::Arc;
use vstd::prelude::*;

verus! {

/// One fragment as sent to a peer: its ordinal, its bytes, and the proof
/// that it belongs to the header's body commitment.
#[derive(Debug, PartialEq, Eq)]
pub struct PartialEncodedChunkPart {
    pub part_ord: u64,
    pub part: Vec<u8>,
    pub merkle_proof: MerklePath,
}

/// Two fragment messages that hold the same values.
pub open spec fn part_congruent(a: PartialEncodedChunkPart, b: PartialEncodedChunkPart) -> bool {
    &&& a.part_ord == b.part_ord
    &&& a.part@ == b.part@
    &&& a.merkle_proof@ == b.merkle_proof@
}

impl Clone for PartialEncodedChunkPart {
    fn clone(&self) -> (r: Self)
        ensures
            part_congruent(r, *self),
    {
        PartialEncodedChunkPart {
            part_ord: self.part_ord,
            part: copy_bytes(self.part.as_slice()),
            merkle_proof: copy_path(&self.merkle_proof),
        }
    }
}

/// A partial chunk under the oldest header shape.
#[derive(Debug, PartialEq, Eq)]
pub struct PartialEncodedChunkV1 {
    pub header: ShardChunkHeaderV1,
    pub parts: Vec<PartialEncodedChunkPart>,
    pub prev_outgoing_receipts: Vec<ReceiptProof>,
}

/// A partial chunk under any current header shape.
#[derive(Debug, PartialEq, Eq)]
pub struct PartialEncodedChunkV2 {
    pub header: ShardChunkHeader,
    pub parts: Vec<PartialEncodedChunkPart>,
    pub prev_outgoing_receipts: Vec<ReceiptProof>,
}

/// What one peer sends another: a header, a subset of fragments with
/// proofs, and the outgoing receipt proofs.
#[derive(Debug, PartialEq, Eq)]
pub enum PartialEncodedChunk {
    V1(PartialEncodedChunkV1),
    V2(PartialEncodedChunkV2),
}

/// A partial chunk whose receipt proofs are shared by reference: many
/// outbound messages carry the same proofs without copying them.
#[derive(Debug)]
pub struct PartialEncodedChunkWithArcReceipts {
    pub header: ShardChunkHeader,
    pub parts: Vec<PartialEncodedChunkPart>,
    pub prev_outgoing_receipts: Vec<Arc<ReceiptProof>>,
}

impl PartialEncodedChunk {
    /// This partial chunk's header, seen uniformly.
    pub open spec fn spec_header(&self) -> ShardChunkHeader {
        match self {
            PartialEncodedChunk::V1(c) => ShardChunkHeader::V1(c.header),
            PartialEncodedChunk::V2(c) => c.header,
        }
    }

    pub open spec fn spec_parts(&self) -> Seq<PartialEncodedChunkPart> {
        match self {
            PartialEncodedChunk::V1(c) => c.parts@,
            PartialEncodedChunk::V2(c) => c.parts@,
        }
    }

    pub open spec fn spec_prev_outgoing_receipts(&self) -> Seq<ReceiptProof> {
        match self {
            PartialEncodedChunk::V1(c) => c.prev_outgoing_receipts@,
            PartialEncodedChunk::V2(c) => c.prev_outgoing_receipts@,
        }
    }

    /// Wrap a header with chosen fragments and receipt proofs: the oldest
    /// header shape pairs with the matching partial shape, every later
    /// shape with the generic one.
    pub fn new(
        header: ShardChunkHeader,
        parts: Vec<PartialEncodedChunkPart>,
        prev_outgoing_receipts: Vec<ReceiptProof>,
    ) -> (r: Self)
        ensures
            (r is V1) == (header is V1),
            r.spec_header() == header,
            r.spec_parts() == parts@,
            r.spec_prev_outgoing_receipts() == prev_outgoing_receipts@,
    {
        match header {
            ShardChunkHeader::V1(header) => PartialEncodedChunk::V1(
                PartialEncodedChunkV1 { header, parts, prev_outgoing_receipts },
            ),
            header => PartialEncodedChunk::V2(
                PartialEncodedChunkV2 { header, parts, prev_outgoing_receipts },
            ),
        }
    }

    /// A copy of this partial chunk's header, holding the same values.
    pub fn cloned_header(&self) -> (r: ShardChunkHeader)
        ensures
            header_congruent(r, self.spec_header()),
    {
        match self {
            PartialEncodedChunk::V1(chunk) => ShardChunkHeader::V1(chunk.header.clone()),
            PartialEncodedChunk::V2(chunk) => chunk.header.clone(),
        }
    }

    pub fn chunk_hash(&self) -> (r: ChunkHash)
        ensures
            r == self.spec_header().spec_chunk_hash(),
    {
        match self {
            PartialEncodedChunk::V1(chunk) => chunk.header.hash.clone(),
            PartialEncodedChunk::V2(chunk) => chunk.header.chunk_hash(),
        }
    }

    pub fn height_included(&self) -> (r: BlockHeight)
        ensures
            r == self.spec_header().spec_height_included(),
    {
        match self {
            PartialEncodedChunk::V1(chunk) => chunk.header.height_included,
            PartialEncodedChunk::V2(chunk) => chunk.header.height_included(),
        }
    }

    pub fn parts(&self) -> (r: &Vec<PartialEncodedChunkPart>)
        ensures
            r@ == self.spec_parts(),
    {
        match self {
            PartialEncodedChunk::V1(chunk) => &chunk.parts,
            PartialEncodedChunk::V2(chunk) => &chunk.parts,
        }
    }

    pub fn prev_outgoing_receipts(&self) -> (r: &Vec<ReceiptProof>)
        ensures
            r@ == self.spec_prev_outgoing_receipts(),
    {
        match self {
            PartialEncodedChunk::V1(chunk) => &chunk.prev_outgoing_receipts,
            PartialEncodedChunk::V2(chunk) => &chunk.prev_outgoing_receipts,
        }
    }

    pub fn prev_block(&self) -> (r: &CryptoHash)
        ensures
            *r == self.spec_header().spec_prev_block_hash(),
    {
        match &self {
            PartialEncodedChunk::V1(chunk) => &chunk.header.inner.prev_block_hash,
            PartialEncodedChunk::V2(chunk) => chunk.header.prev_block_hash(),
        }
    }

    pub fn height_created(&self) -> (r: BlockHeight)
        ensures
            r == self.spec_header().spec_height_created(),
    {
        match self {
            PartialEncodedChunk::V1(chunk) => chunk.header.inner.height_created,
            PartialEncodedChunk::V2(chunk) => chunk.header.height_created(),
        }
    }

    pub fn shard_id(&self) -> (r: ShardId)
        ensures
            r == self.spec_header().spec_shard_id(),
    {
        match self {
            PartialEncodedChunk::V1(chunk) => chunk.header.inner.shard_id,
            PartialEncodedChunk::V2(chunk) => chunk.header.shard_id(),
        }
    }
}

impl From<PartialEncodedChunk> for PartialEncodedChunkV2 {
    /// Lift any partial shape to the generic one; the oldest shape's
    /// header is rewrapped, everything else carried as it is.
    fn from(pec: PartialEncodedChunk) -> (r: Self) {
        match pec {
            PartialEncodedChunk::V1(chunk) => PartialEncodedChunkV2 {
                header: ShardChunkHeader::V1(chunk.header),
                parts: chunk.parts,
                prev_outgoing_receipts: chunk.prev_outgoing_receipts,
            },
            PartialEncodedChunk::V2(chunk) => chunk,
        }
    }
}

impl vstd::std_specs::convert::FromSpecImpl<PartialEncodedChunk> for PartialEncodedChunkV2 {
    open spec fn obeys_from_spec() -> bool {
        true
    }

    open spec fn from_spec(pec: PartialEncodedChunk) -> Self {
        match pec {
            PartialEncodedChunk::V1(chunk) => PartialEncodedChunkV2 {
                header: ShardChunkHeader::V1(chunk.header),
                parts: chunk.parts,
                prev_outgoing_receipts: chunk.prev_outgoing_receipts,
            },
            PartialEncodedChunk::V2(chunk) => chunk,
        }
    }
}

impl PartialEncodedChunkWithArcReceipts {
    /// Turn the shared receipt proofs into owned copies, producing a
    /// partial chunk of the generic shape.
    pub fn into_partial_encoded_chunk(self) -> (r: PartialEncodedChunk)
        ensures
            r is V2,
            r.spec_header() == self.header,
            r.spec_parts() == self.parts@,
            r.spec_prev_outgoing_receipts().len() == self.prev_outgoing_receipts@.len(),
            forall|i: int|
                0 <= i < self.prev_outgoing_receipts@.len() ==> receipt_proof_congruent(
                    #[trigger] r.spec_prev_outgoing_receipts()[i],
                    *self.prev_outgoing_receipts@[i],
                ),
    {
        let mut receipts: Vec<ReceiptProof> = Vec::new();
        let mut i: usize = 0;
        while i < self.prev_outgoing_receipts.len()
            invariant
                i <= self.prev_outgoing_receipts@.len(),
                receipts@.len() == i as int,
                forall|k: int|
                    0 <= k < i ==> receipt_proof_congruent(
                        #[trigger] receipts@[k],
                        *self.prev_outgoing_receipts@[k],
                    ),
            decreases self.prev_outgoing_receipts@.len() - i,
        {
            let proof_ref: &ReceiptProof = &self.prev_outgoing_receipts[i];
            receipts.push(proof_ref.clone());
            i = i + 1;
        }
        PartialEncodedChunk::V2(
            PartialEncodedChunkV2 {
                header: self.header,
                parts: self.parts,
                prev_outgoing_receipts: receipts,
            },
        )
    }
}

impl EncodedShardChunk {
    /// Slice the chosen fragment ordinals out of this chunk, each paired
    /// with its inclusion proof computed at encoding time. A read-only
    /// projection: proofs are never re-derived here.
    fn part_ords_to_parts(&self, part_ords: &Vec<u64>, merkle_paths: &Vec<MerklePath>) -> (r: Vec<
        PartialEncodedChunkPart,
    >)
        requires
            forall|k: int|
                0 <= k < part_ords@.len() ==> (#[trigger] part_ords@[k])
                    < self.spec_content().parts@.len() && self.spec_content().parts@[part_ords@[k] as int] is Some
                    && part_ords@[k] < merkle_paths@.len(),
        ensures
            r@.len() == part_ords@.len(),
            forall|k: int|
                0 <= k < r@.len() ==> {
                    let ord = part_ords@[k] as int;
                    &&& (#[trigger] r@[k]).part_ord == part_ords@[k]
                    &&& r@[k].part@ == self.spec_content().parts@[ord].unwrap()@
                    &&& r@[k].merkle_proof@ == merkle_paths@[ord]@
                },
    {
        let content = self.content();
        let n = content.parts.len();
        let mut out: Vec<PartialEncodedChunkPart> = Vec::new();
        let mut k: usize = 0;
        while k < part_ords.len()
            invariant
                k <= part_ords@.len(),
                out@.len() == k as int,
                *content == self.spec_content(),
                n == self.spec_content().parts@.len(),
                forall|j: int|
                    0 <= j < part_ords@.len() ==> (#[trigger] part_ords@[j])
                        < self.spec_content().parts@.len()
                        && self.spec_content().parts@[part_ords@[j] as int] is Some
                        && part_ords@[j] < merkle_paths@.len(),
                forall|j: int|
                    0 <= j < k ==> {
                        let ord = part_ords@[j] as int;
                        &&& (#[trigger] out@[j]).part_ord == part_ords@[j]
                        &&& out@[j].part@ == self.spec_content().parts@[ord].unwrap()@
                        &&& out@[j].merkle_proof@ == merkle_paths@[ord]@
                    },
            decreases part_ords@.len() - k,
        {
            let part_ord = part_ords[k];
            proof {
                assert((#[trigger] part_ords@[k as int]) < self.spec_content().parts@.len()
                    && self.spec_content().parts@[part_ords@[k as int] as int] is Some
                    && part_ords@[k as int] < merkle_paths@.len());
                assert((part_ord as int) < (n as int));
            }
            let ord = part_ord as usize;
            match &content.parts[ord] {
                Some(bytes) => {
                    out.push(
                        PartialEncodedChunkPart {
                            part_ord,
                            part: copy_bytes(bytes.as_slice()),
                            merkle_proof: copy_path(&merkle_paths[ord]),
                        },
                    );
                },
                None => {
                    proof {
                        assert(false);
                    }
                },
            }
            k = k + 1;
        }
        out
    }

    /// Package the chosen fragments and receipt proofs for one peer.
    pub fn create_partial_encoded_chunk(
        &self,
        part_ords: Vec<u64>,
        prev_outgoing_receipts: Vec<ReceiptProof>,
        merkle_paths: &Vec<MerklePath>,
    ) -> (r: PartialEncodedChunk)
        requires
            forall|k: int|
                0 <= k < part_ords@.len() ==> (#[trigger] part_ords@[k])
                    < self.spec_content().parts@.len() && self.spec_content().parts@[part_ords@[k] as int] is Some
                    && part_ords@[k] < merkle_paths@.len(),
        ensures
            (r is V1) == (self is V1),
            header_congruent(r.spec_header(), self.spec_header()),
            r.spec_prev_outgoing_receipts() == prev_outgoing_receipts@,
            r.spec_parts().len() == part_ords@.len(),
            forall|k: int|
                0 <= k < r.spec_parts().len() ==> {
                    let ord = part_ords@[k] as int;
                    &&& (#[trigger] r.spec_parts()[k]).part_ord == part_ords@[k]
                    &&& r.spec_parts()[k].part@ == self.spec_content().parts@[ord].unwrap()@
                    &&& r.spec_parts()[k].merkle_proof@ == merkle_paths@[ord]@
                },
    {
        let parts = self.part_ords_to_parts(&part_ords, merkle_paths);
        match self {
            EncodedShardChunk::V1(chunk) => PartialEncodedChunk::V1(
                PartialEncodedChunkV1 {
                    header: chunk.header.clone(),
                    parts,
                    prev_outgoing_receipts,
                },
            ),
            EncodedShardChunk::V2(chunk) => PartialEncodedChunk::V2(
                PartialEncodedChunkV2 {
                    header: chunk.header.clone(),
                    parts,
                    prev_outgoing_receipts,
                },
            ),
        }
    }

    /// Package the chosen fragments with receipt proofs shared by
    /// reference, avoiding copies across many outbound messages.
    pub fn create_partial_encoded_chunk_with_arc_receipts(
        &self,
        part_ords: Vec<u64>,
        prev_outgoing_receipts: Vec<Arc<ReceiptProof>>,
        merkle_paths: &Vec<MerklePath>,
    ) -> (r: PartialEncodedChunkWithArcReceipts)
        requires
            forall|k: int|
                0 <= k < part_ords@.len() ==> (#[trigger] part_ords@[k])
                    < self.spec_content().parts@.len() && self.spec_content().parts@[part_ords@[k] as int] is Some
                    && part_ords@[k] < merkle_paths@.len(),
        ensures
            header_congruent(r.header, self.spec_header()),
            r.prev_outgoing_receipts@ == prev_outgoing_receipts@,
            r.parts@.len() == part_ords@.len(),
            forall|k: int|
                0 <= k < r.parts@.len() ==> {
                    let ord = part_ords@[k] as int;
                    &&& (#[trigger] r.parts@[k]).part_ord == part_ords@[k]
                    &&& r.parts@[k].part@ == self.spec_content().parts@[ord].unwrap()@
                    &&& r.parts@[k].merkle_proof@ == merkle_paths@[ord]@
                },
    {
        let parts = self.part_ords_to_parts(&part_ords, merkle_paths);
        let header = self.cloned_header();
        PartialEncodedChunkWithArcReceipts { header, parts, prev_outgoing_receipts }
    }
}

} // verus!
