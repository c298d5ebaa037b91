//! The erasure-coded body codec and the chunk types around it: splitting a
//! serialized payload into recoverable fragments, committing to them, and
//! reversing the process from any sufficient subset of fragments.

use crate::codec::copy_bytes;
use crate::codec::lemma_bytes_deep_view;
use crate::erasure::ErasureCodec;
use crate::erasure::count_present;
use crate::erasure::rs_codeword;
use crate::erasure::rs_encode;
use crate::erasure::rs_reconstruct;
use crate::hash::ChunkHash;
use crate::hash::CryptoHash;
use crate::hash::MerkleHash;
use crate::hash::StateRoot;
use crate::codec::record_valid;
use crate::header::ShardChunkHeader;
use crate::header::ShardChunkHeaderV1;
use crate::header::ShardChunkHeaderV3;
use crate::header::bandwidth_scheduler_enabled;
use crate::header::congestion_control_enabled;
use crate::header::header_congruent;
use crate::payload::TransactionReceipt;
use crate::payload::decode_transaction_receipt;
use crate::payload::encode_payload;
use crate::payload::parse_payload;
use crate::payload::payload_valid;
use crate::payload::receipt_views;
use crate::payload::ser_payload;
use crate::payload::tx_views;
use crate::types::Balance;
use crate::types::BandwidthRequests;
use crate::types::CongestionInfo;
use crate::types::Gas;
use crate::types::ProtocolVersion;
use crate::types::Signature;
use crate::types::ValidatorStake;
use crate::types::validator_stakes_valid;
use crate::payload::Receipt;
use crate::payload::SignedTransaction;
use crate::types::BlockHeight;
use crate::types::ShardId;
use crate::hash::sha256_of;
use crate::merkle::MerklePath;
use crate::merkle::fold_path;
use crate::merkle::merkle_paths_of;
use crate::merkle::merkle_root_of;
use crate::merkle::merklize;
use crate::merkle::path_view;
use vstd::prelude::*;

verus! {

/// Why a chunk body could not be decoded.
#[derive(Clone, Copy, Debug, PartialEq, Eq, Structural)]
pub enum ChunkDecodeError {
    /// Fewer filled fragment slots than the reconstruction threshold.
    InsufficientFragments,
    /// The fragments do not carry a well-formed payload: a malformed
    /// fragment array, a claimed length beyond the fragment bytes, or
    /// bytes that do not parse back into transactions and receipts.
    DecodeFailure,
}

/// The byte views of a fragment array whose slots are all filled.
pub open spec fn part_views(parts: Seq<Option<Vec<u8>>>) -> Seq<Seq<u8>> {
    parts.map_values(|p: Option<Vec<u8>>| p.unwrap()@)
}

/// Every filled slot holds the same nonzero number of bytes.
pub open spec fn present_uniform(parts: Seq<Option<Vec<u8>>>) -> bool {
    &&& forall|i: int|
        0 <= i < parts.len() && parts[i] is Some ==> (#[trigger] parts[i]).unwrap()@.len() >= 1
    &&& forall|i: int, j: int|
        0 <= i < parts.len() && 0 <= j < parts.len() && parts[i] is Some && parts[j] is Some ==> (
        #[trigger] parts[i]).unwrap()@.len() == (#[trigger] parts[j]).unwrap()@.len()
}

/// An ordered sequence of fragment slots, each either filled with an owned
/// byte buffer or empty (not yet received). The slot count is fixed at
/// creation.
#[derive(Debug, PartialEq, Eq)]
pub struct EncodedShardChunkBody {
    pub parts: Vec<Option<Vec<u8>>>,
}

impl Clone for EncodedShardChunkBody {
    fn clone(&self) -> (r: Self)
        ensures
            body_congruent(r, *self),
    {
        let mut parts: Vec<Option<Vec<u8>>> = Vec::new();
        let mut i: usize = 0;
        while i < self.parts.len()
            invariant
                i <= self.parts@.len(),
                parts@.len() == i as int,
                forall|k: int|
                    0 <= k < i ==> ((#[trigger] parts@[k]) is Some == self.parts@[k] is Some
                        && (parts@[k] is Some ==> parts@[k].unwrap()@
                        == self.parts@[k].unwrap()@)),
            decreases self.parts@.len() - i,
        {
            match &self.parts[i] {
                Some(b) => {
                    parts.push(Some(copy_bytes(b.as_slice())));
                },
                None => {
                    parts.push(None);
                },
            }
            i = i + 1;
        }
        EncodedShardChunkBody { parts }
    }
}

/// Two bodies with the same slots filled by the same bytes.
pub open spec fn body_congruent(a: EncodedShardChunkBody, b: EncodedShardChunkBody) -> bool {
    &&& a.parts@.len() == b.parts@.len()
    &&& forall|i: int|
        0 <= i < a.parts@.len() ==> ((#[trigger] a.parts@[i]) is Some == (
        #[trigger] b.parts@[i]) is Some && (a.parts@[i] is Some ==> a.parts@[i].unwrap()@
            == b.parts@[i].unwrap()@))
}

impl EncodedShardChunkBody {
    /// How many fragment slots are filled.
    pub fn num_fetched_parts(&self) -> (r: usize)
        ensures
            r == count_present(self.parts@),
    {
        let mut fetched_parts: usize = 0;
        let mut i: usize = 0;
        while i < self.parts.len()
            invariant
                i <= self.parts@.len(),
                fetched_parts == count_present(self.parts@.take(i as int)),
                fetched_parts <= i,
            decreases self.parts@.len() - i,
        {
            proof {
                assert(self.parts@.take(i as int + 1).drop_last() =~= self.parts@.take(i as int));
                assert(self.parts@.take(i as int + 1).last() == self.parts@[i as int]);
            }
            if self.parts[i].is_some() {
                fetched_parts = fetched_parts + 1;
            }
            i = i + 1;
        }
        proof {
            assert(self.parts@.take(self.parts@.len() as int) =~= self.parts@);
        }
        fetched_parts
    }

    /// Whether every filled slot holds the same nonzero number of bytes.
    pub fn check_present_uniform(&self) -> (r: bool)
        ensures
            r == present_uniform(self.parts@),
    {
        let mut expected: usize = 0;
        let ghost mut widx: int = 0;
        let mut have_expected = false;
        let mut i: usize = 0;
        while i < self.parts.len()
            invariant
                i <= self.parts@.len(),
                !have_expected ==> forall|k: int| 0 <= k < i ==> (#[trigger] self.parts@[k]) is None,
                have_expected ==> {
                    &&& 0 <= widx < i
                    &&& self.parts@[widx] is Some
                    &&& self.parts@[widx].unwrap()@.len() == expected
                    &&& expected >= 1
                    &&& forall|k: int|
                        0 <= k < i && (#[trigger] self.parts@[k]) is Some
                            ==> self.parts@[k].unwrap()@.len() == expected
                },
            decreases self.parts@.len() - i,
        {
            match &self.parts[i] {
                Some(b) => {
                    if b.len() == 0 {
                        return false;
                    }
                    if have_expected {
                        if b.len() != expected {
                            return false;
                        }
                    } else {
                        expected = b.len();
                        have_expected = true;
                        proof {
                            widx = i as int;
                        }
                    }
                },
                None => {},
            }
            i = i + 1;
        }
        true
    }

    /// Build the Merkle commitment over the fragment buffers: the root that
    /// becomes `encoded_merkle_root` in the header, and one inclusion proof
    /// per fragment position. Every slot must be filled, as it is right
    /// after encoding.
    pub fn get_merkle_hash_and_paths(&self) -> (r: (MerkleHash, Vec<MerklePath>))
        requires
            forall|i: int| 0 <= i < self.parts@.len() ==> (#[trigger] self.parts@[i]) is Some,
            self.parts@.len() < 0x4000_0000,
        ensures
            r.0@ == merkle_root_of(part_views(self.parts@)),
            r.1@.len() == self.parts@.len(),
            forall|k: int|
                0 <= k < self.parts@.len() ==> fold_path(
                    (#[trigger] r.1@[k])@,
                    sha256_of(part_views(self.parts@)[k]),
                ) == r.0@,
            forall|k: int|
                0 <= k < self.parts@.len() ==> path_view((#[trigger] r.1@[k])@)
                    == merkle_paths_of(part_views(self.parts@))[k],
    {
        let mut leaves: Vec<Vec<u8>> = Vec::new();
        let mut i: usize = 0;
        while i < self.parts.len()
            invariant
                i <= self.parts@.len(),
                leaves@.len() == i as int,
                forall|k: int| 0 <= k < self.parts@.len() ==> (#[trigger] self.parts@[k]) is Some,
                forall|k: int| 0 <= k < i ==> (#[trigger] leaves@[k])@
                    == self.parts@[k].unwrap()@,
            decreases self.parts@.len() - i,
        {
            match &self.parts[i] {
                Some(b) => {
                    leaves.push(copy_bytes(b.as_slice()));
                },
                None => {
                    proof {
                        assert(false);
                    }
                },
            }
            i = i + 1;
        }
        proof {
            assert forall|k: int|
                0 <= k < leaves@.len() implies leaves.deep_view()[k] == part_views(self.parts@)[k]
                by {
                lemma_bytes_deep_view(leaves@[k]);
            }
            assert(leaves.deep_view() =~= part_views(self.parts@));
        }
        merklize(&leaves)
    }

    /// Fill every empty slot from the filled ones. Succeeds exactly when
    /// the array has one slot per codeword position, at least the
    /// reconstruction threshold of them filled, and every filled fragment
    /// of one equal nonzero length; on failure nothing is touched. When
    /// the filled fragments agree with the codeword of some data shards,
    /// reconstruction restores exactly that codeword.
    pub fn reconstruct(&mut self, codec: &ErasureCodec) -> (r: Result<(), ChunkDecodeError>)
        ensures
            (r is Ok) == (old(self).parts@.len() == codec.spec_total_parts() && count_present(
                old(self).parts@,
            ) >= codec.spec_data_parts() && present_uniform(old(self).parts@)),
            r is Err ==> *final(self) == *old(self),
            r is Err ==> r.unwrap_err() == (if old(self).parts@.len() == codec.spec_total_parts()
                && count_present(old(self).parts@) < codec.spec_data_parts() {
                ChunkDecodeError::InsufficientFragments
            } else {
                ChunkDecodeError::DecodeFailure
            }),
            r is Ok ==> {
                &&& final(self).parts@.len() == old(self).parts@.len()
                &&& forall|i: int|
                    0 <= i < old(self).parts@.len() && old(self).parts@[i] is Some
                        ==> final(self).parts@[i] == old(self).parts@[i]
                &&& forall|i: int|
                    0 <= i < final(self).parts@.len() ==> (#[trigger] final(self).parts@[i]) is Some
                &&& forall|d: Seq<Seq<u8>>|
                    {
                        (d.len() == codec.spec_data_parts() && (forall|j: int|
                            0 <= j < d.len() ==> (#[trigger] d[j]).len() == d[0].len())
                            && d[0].len() >= 1 && (forall|i: int|
                            0 <= i < old(self).parts@.len() && old(self).parts@[i] is Some
                                ==> old(self).parts@[i].unwrap()@ == #[trigger] rs_codeword(
                                d,
                                codec.spec_parity_parts() as nat,
                            )[i])) ==> (forall|i: int|
                            0 <= i < final(self).parts@.len()
                                ==> final(self).parts@[i].unwrap()@ == rs_codeword(
                                d,
                                codec.spec_parity_parts() as nat,
                            )[i])
                    }
            },
    {
        if self.parts.len() != codec.total_parts() {
            return Err(ChunkDecodeError::DecodeFailure);
        }
        let fetched = self.num_fetched_parts();
        if fetched < codec.data_parts() {
            return Err(ChunkDecodeError::InsufficientFragments);
        }
        if !self.check_present_uniform() {
            return Err(ChunkDecodeError::DecodeFailure);
        }
        rs_reconstruct(codec, &mut self.parts);
        Ok(())
    }
}


// ---------------------------------------------------------------------------
// Splitting a payload into fragments and reassembling it
// ---------------------------------------------------------------------------

/// The fragments' bytes laid end to end, in slot order.
pub open spec fn concat_parts(parts: Seq<Seq<u8>>) -> Seq<u8>
    decreases parts.len(),
{
    if parts.len() == 0 {
        Seq::empty()
    } else {
        parts[0] + concat_parts(parts.drop_first())
    }
}

/// Concatenating one more fragment appends its bytes at the end.
pub proof fn lemma_concat_parts_push(parts: Seq<Seq<u8>>, b: Seq<u8>)
    ensures
        concat_parts(parts.push(b)) == concat_parts(parts) + b,
    decreases parts.len(),
{
    if parts.len() == 0 {
        assert(parts.push(b)[0] == b);
        assert(parts.push(b).drop_first() =~= Seq::<Seq<u8>>::empty());
        assert(concat_parts(parts.push(b)) == b + concat_parts(Seq::<Seq<u8>>::empty()));
        assert(concat_parts(Seq::<Seq<u8>>::empty()) =~= Seq::<u8>::empty());
        assert(concat_parts(parts.push(b)) =~= concat_parts(parts) + b);
    } else {
        assert(parts.push(b)[0] == parts[0]);
        assert(parts.push(b).drop_first() =~= parts.drop_first().push(b));
        lemma_concat_parts_push(parts.drop_first(), b);
        assert(concat_parts(parts.push(b)) =~= concat_parts(parts) + b);
    }
}

/// The concatenation of uniform fragments: its length, and which fragment
/// byte sits at which position.
pub proof fn lemma_concat_uniform(parts: Seq<Seq<u8>>, len: nat)
    requires
        forall|i: int| 0 <= i < parts.len() ==> (#[trigger] parts[i]).len() == len,
    ensures
        concat_parts(parts).len() == parts.len() * len,
        forall|i: int, j: int|
            0 <= i < parts.len() && 0 <= j < len ==> concat_parts(parts)[i * len + j]
                == #[trigger] parts[i][j],
    decreases parts.len(),
{
    if parts.len() == 0 {
        assert(concat_parts(parts).len() == parts.len() * len) by (nonlinear_arith)
            requires concat_parts(parts).len() == 0 && parts.len() == 0;
    } else {
        let rest = parts.drop_first();
        assert forall|i: int| 0 <= i < rest.len() implies (#[trigger] rest[i]).len() == len by {
            assert(rest[i] == parts[i + 1]);
        }
        lemma_concat_uniform(rest, len);
        assert(concat_parts(parts).len() == len + rest.len() * len);
        assert(len + rest.len() * len == parts.len() * len) by (nonlinear_arith)
            requires rest.len() + 1 == parts.len();
        assert forall|i: int, j: int|
            0 <= i < parts.len() && 0 <= j < len implies concat_parts(parts)[i * len + j]
            == #[trigger] parts[i][j] by {
            if i == 0 {
                assert(concat_parts(parts)[j] == parts[0][j]);
            } else {
                assert((i - 1) * len + j < rest.len() * len) by (nonlinear_arith)
                    requires 0 <= i - 1 < rest.len() && 0 <= j < len;
                assert(i * len + j == len + ((i - 1) * len + j)) by (nonlinear_arith);
                assert(0 <= (i - 1) * len + j) by (nonlinear_arith)
                    requires 0 <= i - 1 && 0 <= j && 0 <= len;
                assert(concat_parts(parts)[i * len + j] == concat_parts(rest)[(i - 1) * len + j]);
                assert(concat_parts(rest)[(i - 1) * len + j] == rest[i - 1][j]);
                assert(rest[i - 1] == parts[i]);
            }
        }
    }
}

/// One data fragment of a payload: the fragment's bytes, zero-padded past
/// the payload's end.
pub open spec fn shard_of(bytes: Seq<u8>, part_len: nat, i: int) -> Seq<u8> {
    Seq::new(
        part_len,
        |j: int|
            if i * part_len + j < bytes.len() {
                bytes[i * part_len + j]
            } else {
                0u8
            },
    )
}

/// The data fragments of a payload, in order.
pub open spec fn data_shards_of(bytes: Seq<u8>, data_parts: nat, part_len: nat) -> Seq<Seq<u8>> {
    Seq::new(data_parts, |i: int| shard_of(bytes, part_len, i))
}

/// The fragment length for a payload: the payload length divided by the
/// data-fragment count, rounded up (and at least one byte).
pub open spec fn part_length(encoded_length: nat, data_parts: nat) -> nat
    recommends
        data_parts >= 1,
{
    if encoded_length == 0 {
        1
    } else {
        ((encoded_length + data_parts - 1) / (data_parts as int)) as nat
    }
}

/// The data fragments cover the payload: rounding up makes them long
/// enough, and never a whole fragment too long.
pub proof fn lemma_part_length_covers(encoded_length: nat, data_parts: nat)
    requires
        data_parts >= 1,
    ensures
        part_length(encoded_length, data_parts) >= 1,
        encoded_length <= data_parts * part_length(encoded_length, data_parts),
        data_parts * part_length(encoded_length, data_parts) <= encoded_length + data_parts,
{
    let l = part_length(encoded_length, data_parts);
    if encoded_length == 0 {
        assert(data_parts * 1 >= 0) by (nonlinear_arith)
            requires data_parts >= 1;
        assert(data_parts * part_length(encoded_length, data_parts) == data_parts)
            by (nonlinear_arith)
            requires part_length(encoded_length, data_parts) == 1;
    } else {
        let n = encoded_length as int;
        let d = data_parts as int;
        assert((n + d - 1) / d >= 1) by (nonlinear_arith)
            requires n >= 1 && d >= 1;
        assert(n <= d * ((n + d - 1) / d)) by (nonlinear_arith)
            requires n >= 1 && d >= 1;
        assert(d * ((n + d - 1) / d) <= n + d) by (nonlinear_arith)
            requires n >= 1 && d >= 1;
    }
}

/// Laying the data fragments end to end and cutting at the payload length
/// gives back exactly the payload.
pub proof fn lemma_shards_reassemble(bytes: Seq<u8>, data_parts: nat, part_len: nat)
    requires
        data_parts >= 1,
        part_len >= 1,
        bytes.len() <= data_parts * part_len,
    ensures
        concat_parts(data_shards_of(bytes, data_parts, part_len)).take(bytes.len() as int)
            == bytes,
{
    let shards = data_shards_of(bytes, data_parts, part_len);
    assert forall|i: int| 0 <= i < shards.len() implies (#[trigger] shards[i]).len() == part_len
        by {}
    lemma_concat_uniform(shards, part_len);
    let cat = concat_parts(shards);
    assert forall|k: int| 0 <= k < bytes.len() implies cat[k] == bytes[k] by {
        let i = k / part_len as int;
        let j = k % part_len as int;
        assert(k == i * part_len + j && 0 <= j < part_len && 0 <= i) by (nonlinear_arith)
            requires k >= 0 && part_len >= 1 && i == k / part_len as int && j == k
                % part_len as int;
        assert(i < data_parts) by (nonlinear_arith)
            requires k < data_parts * part_len && k == i * part_len + j && 0 <= j < part_len
                && part_len >= 1 && 0 <= i;
        assert(cat[i * part_len + j] == shards[i][j]);
        assert(shards[i] == shard_of(bytes, part_len, i));
        assert(shards[i][j] == bytes[k]);
    }
    assert(cat.take(bytes.len() as int) =~= bytes);
}


// ---------------------------------------------------------------------------
// Decoded chunks
// ---------------------------------------------------------------------------

/// A decoded chunk under the oldest header shape.
#[derive(Debug, PartialEq, Eq)]
pub struct ShardChunkV1 {
    pub chunk_hash: ChunkHash,
    pub header: ShardChunkHeaderV1,
    pub transactions: Vec<SignedTransaction>,
    pub prev_outgoing_receipts: Vec<Receipt>,
}

/// A decoded chunk under any current header shape.
#[derive(Debug, PartialEq, Eq)]
pub struct ShardChunkV2 {
    pub chunk_hash: ChunkHash,
    pub header: ShardChunkHeader,
    pub transactions: Vec<SignedTransaction>,
    pub prev_outgoing_receipts: Vec<Receipt>,
}

/// The decoded, shard-scoped unit of work: a header, the ordered
/// transactions, and the ordered outgoing receipts.
#[derive(Debug, PartialEq, Eq)]
pub enum ShardChunk {
    V1(ShardChunkV1),
    V2(ShardChunkV2),
}

impl ShardChunk {
    /// This chunk's header, seen uniformly.
    pub open spec fn spec_header(&self) -> ShardChunkHeader {
        match self {
            ShardChunk::V1(c) => ShardChunkHeader::V1(c.header),
            ShardChunk::V2(c) => c.header,
        }
    }

    pub open spec fn spec_transactions(&self) -> Seq<SignedTransaction> {
        match self {
            ShardChunk::V1(c) => c.transactions@,
            ShardChunk::V2(c) => c.transactions@,
        }
    }

    pub open spec fn spec_prev_outgoing_receipts(&self) -> Seq<Receipt> {
        match self {
            ShardChunk::V1(c) => c.prev_outgoing_receipts@,
            ShardChunk::V2(c) => c.prev_outgoing_receipts@,
        }
    }

    pub open spec fn spec_chunk_hash(&self) -> ChunkHash {
        match self {
            ShardChunk::V1(c) => c.chunk_hash,
            ShardChunk::V2(c) => c.chunk_hash,
        }
    }

    /// Rewrap a chunk's contents under another header. The oldest chunk
    /// shape only pairs with the oldest header shape; any other pairing
    /// is refused.
    pub fn with_header(chunk: ShardChunk, header: ShardChunkHeader) -> (r: Option<ShardChunk>)
        ensures
            match chunk {
                ShardChunk::V1(_) => (r is Some) == (header is V1),
                ShardChunk::V2(_) => r is Some,
            },
            r is Some ==> ((r.unwrap() is V1) == (chunk is V1)),
            r is Some ==> {
                &&& r.unwrap().spec_header() == header
                &&& r.unwrap().spec_chunk_hash() == header.spec_chunk_hash()
                &&& r.unwrap().spec_transactions() == chunk.spec_transactions()
                &&& r.unwrap().spec_prev_outgoing_receipts()
                    == chunk.spec_prev_outgoing_receipts()
            },
    {
        match chunk {
            ShardChunk::V1(chunk) => match header {
                ShardChunkHeader::V1(header) => Some(
                    ShardChunk::V1(
                        ShardChunkV1 {
                            chunk_hash: header.chunk_hash(),
                            header,
                            transactions: chunk.transactions,
                            prev_outgoing_receipts: chunk.prev_outgoing_receipts,
                        },
                    ),
                ),
                ShardChunkHeader::V2(_) => None,
                ShardChunkHeader::V3(_) => None,
            },
            ShardChunk::V2(chunk) => {
                let chunk_hash = header.chunk_hash();
                Some(
                    ShardChunk::V2(
                        ShardChunkV2 {
                            chunk_hash,
                            header,
                            transactions: chunk.transactions,
                            prev_outgoing_receipts: chunk.prev_outgoing_receipts,
                        },
                    ),
                )
            },
        }
    }

    /// This chunk after its header's inclusion height is set.
    pub open spec fn spec_with_height_included(&self, height: BlockHeight) -> ShardChunk {
        match self {
            ShardChunk::V1(c) => ShardChunk::V1(
                ShardChunkV1 {
                    header: ShardChunkHeaderV1 { height_included: height, ..c.header },
                    ..*c
                },
            ),
            ShardChunk::V2(c) => ShardChunk::V2(
                ShardChunkV2 { header: c.header.spec_with_height_included(height), ..*c },
            ),
        }
    }

    /// Record the height at which the chunk was included in a block; set
    /// once by the block-production pipeline.
    pub fn set_height_included(&mut self, height: BlockHeight)
        ensures
            *final(self) == old(self).spec_with_height_included(height),
    {
        match self {
            ShardChunk::V1(chunk) => {
                chunk.header.height_included = height;
            },
            ShardChunk::V2(chunk) => {
                let h = chunk.header.height_included_mut();
                *h = height;
            },
        }
    }

    pub fn height_included(&self) -> (r: BlockHeight)
        ensures
            r == self.spec_header().spec_height_included(),
    {
        match self {
            ShardChunk::V1(chunk) => chunk.header.height_included,
            ShardChunk::V2(chunk) => chunk.header.height_included(),
        }
    }

    pub fn height_created(&self) -> (r: BlockHeight)
        ensures
            r == self.spec_header().spec_height_created(),
    {
        match self {
            ShardChunk::V1(chunk) => chunk.header.inner.height_created,
            ShardChunk::V2(chunk) => chunk.header.height_created(),
        }
    }

    pub fn prev_block(&self) -> (r: &CryptoHash)
        ensures
            *r == self.spec_header().spec_prev_block_hash(),
    {
        match &self {
            ShardChunk::V1(chunk) => &chunk.header.inner.prev_block_hash,
            ShardChunk::V2(chunk) => chunk.header.prev_block_hash(),
        }
    }

    pub fn prev_block_hash(&self) -> (r: CryptoHash)
        ensures
            r == self.spec_header().spec_prev_block_hash(),
    {
        match self {
            ShardChunk::V1(chunk) => chunk.header.inner.prev_block_hash,
            ShardChunk::V2(chunk) => *chunk.header.prev_block_hash(),
        }
    }

    pub fn prev_state_root(&self) -> (r: StateRoot)
        ensures
            r == self.spec_header().spec_prev_state_root(),
    {
        match self {
            ShardChunk::V1(chunk) => chunk.header.inner.prev_state_root,
            ShardChunk::V2(chunk) => chunk.header.prev_state_root(),
        }
    }

    pub fn tx_root(&self) -> (r: CryptoHash)
        ensures
            r == self.spec_header().spec_tx_root(),
    {
        match self {
            ShardChunk::V1(chunk) => chunk.header.inner.tx_root,
            ShardChunk::V2(chunk) => chunk.header.tx_root(),
        }
    }

    pub fn prev_outgoing_receipts_root(&self) -> (r: CryptoHash)
        ensures
            r == self.spec_header().spec_prev_outgoing_receipts_root(),
    {
        match self {
            ShardChunk::V1(chunk) => chunk.header.inner.prev_outgoing_receipts_root,
            ShardChunk::V2(chunk) => chunk.header.prev_outgoing_receipts_root(),
        }
    }

    pub fn shard_id(&self) -> (r: ShardId)
        ensures
            r == self.spec_header().spec_shard_id(),
    {
        match self {
            ShardChunk::V1(chunk) => chunk.header.inner.shard_id,
            ShardChunk::V2(chunk) => chunk.header.shard_id(),
        }
    }

    /// The chunk hash recorded when the chunk was decoded.
    pub fn chunk_hash(&self) -> (r: ChunkHash)
        ensures
            r == self.spec_chunk_hash(),
    {
        match self {
            ShardChunk::V1(chunk) => chunk.chunk_hash.clone(),
            ShardChunk::V2(chunk) => chunk.chunk_hash.clone(),
        }
    }

    pub fn prev_outgoing_receipts(&self) -> (r: &Vec<Receipt>)
        ensures
            r@ == self.spec_prev_outgoing_receipts(),
    {
        match self {
            ShardChunk::V1(chunk) => &chunk.prev_outgoing_receipts,
            ShardChunk::V2(chunk) => &chunk.prev_outgoing_receipts,
        }
    }

    pub fn to_transactions(&self) -> (r: &Vec<SignedTransaction>)
        ensures
            r@ == self.spec_transactions(),
    {
        match self {
            ShardChunk::V1(chunk) => &chunk.transactions,
            ShardChunk::V2(chunk) => &chunk.transactions,
        }
    }

    pub fn into_transactions(self) -> (r: Vec<SignedTransaction>)
        ensures
            r@ == self.spec_transactions(),
    {
        match self {
            ShardChunk::V1(chunk) => chunk.transactions,
            ShardChunk::V2(chunk) => chunk.transactions,
        }
    }

    /// The cached hash of this chunk's header.
    pub fn header_hash(&self) -> (r: ChunkHash)
        ensures
            r == self.spec_header().spec_chunk_hash(),
    {
        match self {
            ShardChunk::V1(chunk) => chunk.header.chunk_hash(),
            ShardChunk::V2(chunk) => chunk.header.chunk_hash(),
        }
    }

    /// Unwrap this chunk's header.
    pub fn take_header(self) -> (r: ShardChunkHeader)
        ensures
            r == self.spec_header(),
    {
        match self {
            ShardChunk::V1(chunk) => ShardChunkHeader::V1(chunk.header),
            ShardChunk::V2(chunk) => chunk.header,
        }
    }

    /// A copy of this chunk's header, holding the same values.
    pub fn cloned_header(&self) -> (r: ShardChunkHeader)
        ensures
            header_congruent(r, self.spec_header()),
    {
        match self {
            ShardChunk::V1(chunk) => ShardChunkHeader::V1(chunk.header.clone()),
            ShardChunk::V2(chunk) => chunk.header.clone(),
        }
    }

    /// Recompute the canonical hash of this chunk's header from its
    /// committed contents.
    pub fn compute_header_hash(&self) -> (r: ChunkHash)
        requires
            self.spec_header().spec_valid(),
        ensures
            r@ == self.spec_header().spec_header_hash(),
    {
        match self {
            ShardChunk::V1(chunk) => crate::header::ShardChunkHeaderV1::compute_hash(
                &chunk.header.inner,
            ),
            ShardChunk::V2(chunk) => chunk.header.compute_hash(),
        }
    }
}

// ---------------------------------------------------------------------------
// Encoded chunks
// ---------------------------------------------------------------------------

/// An erasure-coded chunk under the oldest header shape.
#[derive(Debug, PartialEq, Eq)]
pub struct EncodedShardChunkV1 {
    pub header: ShardChunkHeaderV1,
    pub content: EncodedShardChunkBody,
}

/// An erasure-coded chunk under any current header shape.
#[derive(Debug, PartialEq, Eq)]
pub struct EncodedShardChunkV2 {
    pub header: ShardChunkHeader,
    pub content: EncodedShardChunkBody,
}

/// A chunk in its erasure-coded form: the signed header and the fragment
/// slots.
#[derive(Debug, PartialEq, Eq)]
pub enum EncodedShardChunk {
    V1(EncodedShardChunkV1),
    V2(EncodedShardChunkV2),
}

impl EncodedShardChunk {
    /// This chunk's header, seen uniformly.
    pub open spec fn spec_header(&self) -> ShardChunkHeader {
        match self {
            EncodedShardChunk::V1(c) => ShardChunkHeader::V1(c.header),
            EncodedShardChunk::V2(c) => c.header,
        }
    }

    pub open spec fn spec_content(&self) -> EncodedShardChunkBody {
        match self {
            EncodedShardChunk::V1(c) => c.content,
            EncodedShardChunk::V2(c) => c.content,
        }
    }

    /// This chunk with its body replaced.
    pub open spec fn spec_with_content(&self, content: EncodedShardChunkBody) -> EncodedShardChunk {
        match self {
            EncodedShardChunk::V1(c) => EncodedShardChunk::V1(
                EncodedShardChunkV1 { content, ..*c },
            ),
            EncodedShardChunk::V2(c) => EncodedShardChunk::V2(
                EncodedShardChunkV2 { content, ..*c },
            ),
        }
    }

    /// A copy of this chunk's header, holding the same values.
    pub fn cloned_header(&self) -> (r: ShardChunkHeader)
        ensures
            header_congruent(r, self.spec_header()),
    {
        match self {
            EncodedShardChunk::V1(chunk) => ShardChunkHeader::V1(chunk.header.clone()),
            EncodedShardChunk::V2(chunk) => chunk.header.clone(),
        }
    }

    pub fn content(&self) -> (r: &EncodedShardChunkBody)
        ensures
            *r == self.spec_content(),
    {
        match self {
            EncodedShardChunk::V1(chunk) => &chunk.content,
            EncodedShardChunk::V2(chunk) => &chunk.content,
        }
    }

    /// The fragment slots, writable: the network layer fills them as
    /// fragments arrive, and reconstruction completes them.
    pub fn content_mut(&mut self) -> (r: &mut EncodedShardChunkBody)
        ensures
            *r == old(self).spec_content(),
            *final(self) == old(self).spec_with_content(*final(r)),
    {
        match self {
            EncodedShardChunk::V1(chunk) => &mut chunk.content,
            EncodedShardChunk::V2(chunk) => &mut chunk.content,
        }
    }

    pub fn shard_id(&self) -> (r: ShardId)
        ensures
            r == self.spec_header().spec_shard_id(),
    {
        match self {
            EncodedShardChunk::V1(chunk) => chunk.header.inner.shard_id,
            EncodedShardChunk::V2(chunk) => chunk.header.shard_id(),
        }
    }

    pub fn encoded_merkle_root(&self) -> (r: CryptoHash)
        ensures
            r == self.spec_header().spec_encoded_merkle_root(),
    {
        match self {
            EncodedShardChunk::V1(chunk) => chunk.header.inner.encoded_merkle_root,
            EncodedShardChunk::V2(chunk) => chunk.header.encoded_merkle_root(),
        }
    }

    pub fn encoded_length(&self) -> (r: u64)
        ensures
            r == self.spec_header().spec_encoded_length(),
    {
        match self {
            EncodedShardChunk::V1(chunk) => chunk.header.inner.encoded_length,
            EncodedShardChunk::V2(chunk) => chunk.header.encoded_length(),
        }
    }

    pub fn chunk_hash(&self) -> (r: ChunkHash)
        ensures
            r == self.spec_header().spec_chunk_hash(),
    {
        match self {
            EncodedShardChunk::V1(chunk) => chunk.header.chunk_hash(),
            EncodedShardChunk::V2(chunk) => chunk.header.chunk_hash(),
        }
    }

    /// An encoded chunk whose body is still empty: one slot per fragment,
    /// none filled yet, ready to collect fragments from the network.
    pub fn from_header(header: ShardChunkHeader, total_parts: usize) -> (r: Self)
        ensures
            r is V2,
            r.spec_header() == header,
            r.spec_content().parts@.len() == total_parts,
            forall|i: int| 0 <= i < total_parts ==> (#[trigger] r.spec_content().parts@[i]) is None,
    {
        let mut parts: Vec<Option<Vec<u8>>> = Vec::new();
        let mut i: usize = 0;
        while i < total_parts
            invariant
                i <= total_parts,
                parts@.len() == i as int,
                forall|k: int| 0 <= k < i ==> (#[trigger] parts@[k]) is None,
            decreases total_parts - i,
        {
            parts.push(None);
            i = i + 1;
        }
        let chunk = EncodedShardChunkV2 { header, content: EncodedShardChunkBody { parts } };
        EncodedShardChunk::V2(chunk)
    }
}


/// The serialized payload of a chunk's transactions and receipts.
pub open spec fn spec_encoded_payload(txs: Seq<SignedTransaction>, receipts: Seq<Receipt>) -> Seq<
    u8,
> {
    ser_payload(tx_views(txs), receipt_views(receipts))
}

/// The full codeword a chunk's payload is encoded into: its data
/// fragments, then their parity fragments.
pub open spec fn spec_chunk_codeword(
    txs: Seq<SignedTransaction>,
    receipts: Seq<Receipt>,
    data_parts: nat,
    parity_parts: nat,
) -> Seq<Seq<u8>> {
    let bytes = spec_encoded_payload(txs, receipts);
    rs_codeword(
        data_shards_of(bytes, data_parts, part_length(bytes.len(), data_parts)),
        parity_parts,
    )
}

impl EncodedShardChunk {
    /// Encode a chunk: serialize the transactions and receipts, split the
    /// buffer into data fragments, extend them with parity fragments,
    /// commit to the fragments, and wrap the commitment into a signed
    /// header of the current shape. Returns the encoded chunk and one
    /// inclusion proof per fragment. Fragments, root and proofs are
    /// functions of the payload and the fragment counts alone. (The
    /// payload bound keeps fragment index arithmetic inside `usize` on
    /// any machine.)
    pub fn new(
        prev_block_hash: CryptoHash,
        prev_state_root: StateRoot,
        prev_outcome_root: CryptoHash,
        height: BlockHeight,
        shard_id: ShardId,
        codec: &ErasureCodec,
        prev_gas_used: Gas,
        gas_limit: Gas,
        prev_balance_burnt: Balance,
        tx_root: CryptoHash,
        prev_validator_proposals: Vec<ValidatorStake>,
        transactions: &Vec<SignedTransaction>,
        prev_outgoing_receipts: &Vec<Receipt>,
        prev_outgoing_receipts_root: CryptoHash,
        congestion_info: Option<CongestionInfo>,
        bandwidth_requests: Option<BandwidthRequests>,
        signature: Signature,
        protocol_version: ProtocolVersion,
    ) -> (r: (Self, Vec<MerklePath>))
        requires
            validator_stakes_valid(prev_validator_proposals@),
            payload_valid(tx_views(transactions@), receipt_views(prev_outgoing_receipts@)),
            spec_encoded_payload(transactions@, prev_outgoing_receipts@).len() < 0x4000_0000,
            1 <= codec.spec_data_parts(),
            1 <= codec.spec_parity_parts(),
            codec.spec_total_parts() == codec.spec_data_parts() + codec.spec_parity_parts(),
            codec.spec_total_parts() <= 256,
            bandwidth_requests is Some ==> bandwidth_scheduler_enabled(protocol_version)
                && congestion_control_enabled(protocol_version) && congestion_info is Some,
            congestion_info is Some && bandwidth_requests is None ==> congestion_control_enabled(
                protocol_version,
            ),
            congestion_info is Some ==> record_valid(congestion_info.unwrap().data@),
            bandwidth_requests is Some ==> record_valid(bandwidth_requests.unwrap().data@),
        ensures
            ({
                let bytes = spec_encoded_payload(transactions@, prev_outgoing_receipts@);
                let cw = spec_chunk_codeword(
                    transactions@,
                    prev_outgoing_receipts@,
                    codec.spec_data_parts() as nat,
                    codec.spec_parity_parts() as nat,
                );
                &&& r.0 is V2
                &&& r.0.spec_header() is V3
                &&& r.0.spec_header().wf()
                &&& r.0.spec_header().spec_encoded_length() == bytes.len()
                &&& r.0.spec_header().spec_encoded_merkle_root()@ == merkle_root_of(cw)
                &&& r.0.spec_header().spec_height_created() == height
                &&& r.0.spec_header().spec_height_included() == 0
                &&& r.0.spec_header().spec_shard_id() == shard_id
                &&& r.0.spec_header().spec_prev_block_hash() == prev_block_hash
                &&& r.0.spec_header().spec_prev_state_root() == prev_state_root
                &&& r.0.spec_header().spec_prev_outcome_root() == prev_outcome_root
                &&& r.0.spec_header().spec_prev_gas_used() == prev_gas_used
                &&& r.0.spec_header().spec_gas_limit() == gas_limit
                &&& r.0.spec_header().spec_prev_balance_burnt() == prev_balance_burnt
                &&& r.0.spec_header().spec_prev_outgoing_receipts_root()
                    == prev_outgoing_receipts_root
                &&& r.0.spec_header().spec_tx_root() == tx_root
                &&& r.0.spec_header().spec_prev_validator_proposals()
                    == prev_validator_proposals@
                &&& r.0.spec_header().spec_congestion_info() == congestion_info
                &&& r.0.spec_header().spec_bandwidth_requests() == bandwidth_requests
                &&& r.0.spec_header().spec_signature() == signature
                &&& r.0.spec_content().parts@.len() == codec.spec_total_parts()
                &&& forall|i: int|
                    0 <= i < r.0.spec_content().parts@.len() ==> (
                    #[trigger] r.0.spec_content().parts@[i]) is Some
                &&& part_views(r.0.spec_content().parts@) == cw
                &&& r.1@.len() == codec.spec_total_parts()
                &&& forall|k: int|
                    0 <= k < r.1@.len() ==> fold_path((#[trigger] r.1@[k])@, sha256_of(cw[k]))
                        == merkle_root_of(cw)
                &&& forall|k: int|
                    0 <= k < r.1@.len() ==> path_view((#[trigger] r.1@[k])@) == merkle_paths_of(
                        cw,
                    )[k]
            }),
    {
        let encoded = encode_payload(transactions, prev_outgoing_receipts);
        let ghost bytes = encoded@;
        let n = encoded.len();
        let data_parts = codec.data_parts();
        let parity_parts = codec.parity_parts();
        let total_parts = codec.total_parts();
        let part_len: usize = if n == 0 {
            1
        } else {
            (n + data_parts - 1) / data_parts
        };
        proof {
            lemma_part_length_covers(bytes.len(), data_parts as nat);
            assert(part_len == part_length(bytes.len(), data_parts as nat));
        }
        let mut shards: Vec<Vec<u8>> = Vec::new();
        let mut i: usize = 0;
        while i < data_parts
            invariant
                i <= data_parts,
                1 <= data_parts,
                1 <= part_len,
                bytes == encoded@,
                bytes.len() < 0x4000_0000,
                data_parts * part_len <= bytes.len() + data_parts,
                data_parts <= 256,
                shards@.len() == i as int,
                forall|k: int| 0 <= k < i ==> (#[trigger] shards@[k])@ == shard_of(
                    bytes,
                    part_len as nat,
                    k,
                ),
            decreases data_parts - i,
        {
            let mut shard: Vec<u8> = Vec::new();
            let mut j: usize = 0;
            proof {
                assert(i * part_len + part_len <= data_parts * part_len) by (nonlinear_arith)
                    requires i + 1 <= data_parts && 0 <= part_len && 0 <= i;
                assert(0 <= i * part_len) by (nonlinear_arith)
                    requires 0 <= i && 0 <= part_len;
            }
            while j < part_len
                invariant
                    j <= part_len,
                    bytes == encoded@,
                    0 <= i * part_len,
                    i * part_len + part_len <= bytes.len() + 256,
                    bytes.len() < 0x4000_0000,
                    shard@.len() == j as int,
                    forall|jj: int| 0 <= jj < j ==> shard@[jj] == shard_of(
                        bytes,
                        part_len as nat,
                        i as int,
                    )[jj],
                decreases part_len - j,
            {
                let idx = i * part_len + j;
                if idx < encoded.len() {
                    shard.push(encoded[idx]);
                } else {
                    shard.push(0u8);
                }
                j = j + 1;
            }
            proof {
                assert(shard@ =~= shard_of(bytes, part_len as nat, i as int));
            }
            shards.push(shard);
            i = i + 1;
        }
        let mut p: usize = 0;
        while p < parity_parts
            invariant
                p <= parity_parts,
                bytes == encoded@,
                shards@.len() == data_parts + p,
                1 <= part_len,
                forall|k: int| 0 <= k < data_parts ==> (#[trigger] shards@[k])@ == shard_of(
                    bytes,
                    part_len as nat,
                    k,
                ),
                forall|k: int| data_parts <= k < shards@.len() ==> (#[trigger] shards@[k])@.len()
                    == part_len,
            decreases parity_parts - p,
        {
            let mut zero: Vec<u8> = Vec::new();
            let mut j: usize = 0;
            while j < part_len
                invariant
                    j <= part_len,
                    zero@.len() == j as int,
                decreases part_len - j,
            {
                zero.push(0u8);
                j = j + 1;
            }
            shards.push(zero);
            p = p + 1;
        }
        let ghost data_shards = data_shards_of(bytes, data_parts as nat, part_len as nat);
        proof {
            assert forall|k: int|
                0 <= k < shards@.len() implies (#[trigger] shards@[k])@.len() == part_len by {
                if k < data_parts {
                    assert(shards@[k]@ == shard_of(bytes, part_len as nat, k));
                }
            }
            assert(shards.deep_view().take(data_parts as int) =~~= data_shards) by {
                assert forall|k: int|
                    0 <= k < data_parts implies shards.deep_view()[k] =~= data_shards[k] by {
                    lemma_bytes_deep_view(shards@[k]);
                }
            }
        }
        rs_encode(codec, &mut shards);
        proof {
            assert(shards.deep_view() == rs_codeword(
                data_shards,
                codec.spec_parity_parts() as nat,
            ));
        }
        let ghost cw = shards.deep_view();
        let mut parts: Vec<Option<Vec<u8>>> = Vec::new();
        let mut q: usize = 0;
        while q < shards.len()
            invariant
                q <= shards@.len(),
                parts@.len() == q as int,
                forall|k: int| 0 <= k < q ==> (#[trigger] parts@[k]) is Some,
                forall|k: int|
                    0 <= k < q ==> (#[trigger] parts@[k]).unwrap()@ == shards.deep_view()[k],
            decreases shards@.len() - q,
        {
            proof {
                lemma_bytes_deep_view(shards@[q as int]);
            }
            parts.push(Some(copy_bytes(shards[q].as_slice())));
            q = q + 1;
        }
        let content = EncodedShardChunkBody { parts };
        proof {
            assert(part_views(content.parts@) =~~= cw);
        }
        let (encoded_merkle_root, merkle_paths) = content.get_merkle_hash_and_paths();
        let header = ShardChunkHeaderV3::new(
            protocol_version,
            prev_block_hash,
            prev_state_root,
            prev_outcome_root,
            encoded_merkle_root,
            n as u64,
            height,
            shard_id,
            prev_gas_used,
            gas_limit,
            prev_balance_burnt,
            prev_outgoing_receipts_root,
            tx_root,
            prev_validator_proposals,
            congestion_info,
            bandwidth_requests,
            signature,
        );
        let chunk = EncodedShardChunkV2 { header: ShardChunkHeader::V3(header), content };
        (EncodedShardChunk::V2(chunk), merkle_paths)
    }
}


/// At most the first `n` bytes of `s`: all of `s` when it is shorter.
pub open spec fn take_upto(s: Seq<u8>, n: int) -> Seq<u8> {
    if n <= s.len() {
        s.take(n)
    } else {
        s
    }
}

/// Whether a fragment array decodes: the first `data_parts` slots exist
/// and are filled, the claimed length is covered by their bytes (and by
/// the machine), and the cut buffer parses back into a payload.
pub open spec fn spec_decode_ok(
    parts: Seq<Option<Vec<u8>>>,
    encoded_length: u64,
    data_parts: nat,
) -> bool {
    &&& data_parts <= parts.len()
    &&& forall|i: int| 0 <= i < data_parts ==> (#[trigger] parts[i]) is Some
    &&& encoded_length <= usize::MAX
    &&& encoded_length <= concat_parts(part_views(parts.take(data_parts as int))).len()
    &&& parse_payload(
        concat_parts(part_views(parts.take(data_parts as int))).take(encoded_length as int),
    ) is Some
}

/// The payload bytes a fragment array claims: the first `data_parts`
/// fragments laid end to end, cut at the recorded length.
pub open spec fn spec_decoded_bytes(
    parts: Seq<Option<Vec<u8>>>,
    encoded_length: u64,
    data_parts: nat,
) -> Seq<u8> {
    concat_parts(part_views(parts.take(data_parts as int))).take(encoded_length as int)
}

/// Reassemble the payload buffer from the first `data_parts` fragments,
/// cut it at `encoded_length`, and parse it back into transactions and
/// receipts. Missing fragments are a typed failure, never a crash: chunk
/// fragments arrive over an adversarial network.
pub fn decode_transaction_receipts(
    parts: &Vec<Option<Vec<u8>>>,
    encoded_length: u64,
    data_parts: usize,
) -> (r: Result<TransactionReceipt, ChunkDecodeError>)
    ensures
        (r is Ok) == spec_decode_ok(parts@, encoded_length, data_parts as nat),
        r is Ok ==> parse_payload(spec_decoded_bytes(parts@, encoded_length, data_parts as nat))
            == Some(
            (tx_views(r.unwrap().0@), receipt_views(r.unwrap().1@)),
        ),
        r is Err ==> r.unwrap_err() == (if data_parts <= parts@.len() && (forall|i: int|
            0 <= i < data_parts ==> (#[trigger] parts@[i]) is Some) {
            ChunkDecodeError::DecodeFailure
        } else {
            ChunkDecodeError::InsufficientFragments
        }),
{
    if data_parts > parts.len() {
        return Err(ChunkDecodeError::InsufficientFragments);
    }
    let mut i: usize = 0;
    while i < data_parts
        invariant
            i <= data_parts,
            data_parts <= parts@.len(),
            forall|k: int| 0 <= k < i ==> (#[trigger] parts@[k]) is Some,
        decreases data_parts - i,
    {
        if parts[i].is_none() {
            return Err(ChunkDecodeError::InsufficientFragments);
        }
        i = i + 1;
    }
    if encoded_length > usize::MAX as u64 {
        return Err(ChunkDecodeError::DecodeFailure);
    }
    let need: usize = encoded_length as usize;
    let mut buffer: Vec<u8> = Vec::new();
    let mut p: usize = 0;
    proof {
        assert(part_views(parts@.take(0)) =~= Seq::<Seq<u8>>::empty());
        assert(buffer@ =~= take_upto(concat_parts(part_views(parts@.take(0))), need as int));
    }
    while p < data_parts
        invariant
            p <= data_parts,
            data_parts <= parts@.len(),
            forall|k: int| 0 <= k < data_parts ==> (#[trigger] parts@[k]) is Some,
            buffer@ == take_upto(concat_parts(part_views(parts@.take(p as int))), need as int),
            buffer@.len() <= need,
        decreases data_parts - p,
    {
        let ghost cat = concat_parts(part_views(parts@.take(p as int)));
        match &parts[p] {
            Some(frag) => {
                let mut j: usize = 0;
                proof {
                    assert(frag@.take(0) =~= Seq::<u8>::empty());
                    assert(cat + frag@.take(0) =~= cat);
                }
                while j < frag.len() && buffer.len() < need
                    invariant
                        j <= frag@.len(),
                        buffer@ == take_upto(cat + frag@.take(j as int), need as int),
                        buffer@.len() <= need,
                    decreases frag@.len() - j,
                {
                    proof {
                        assert((cat + frag@.take(j as int)).len() == buffer@.len());
                        assert(cat + frag@.take(j as int + 1) =~= (cat + frag@.take(j as int)).push(
                            frag@[j as int],
                        ));
                    }
                    buffer.push(frag[j]);
                    j = j + 1;
                }
                proof {
                    assert(part_views(parts@.take(p as int + 1)) =~= part_views(
                        parts@.take(p as int),
                    ).push(frag@));
                    lemma_concat_parts_push(part_views(parts@.take(p as int)), frag@);
                    if j == frag@.len() {
                        assert(frag@.take(j as int) =~= frag@);
                    } else {
                        assert(buffer@.len() == need);
                        assert((cat + frag@.take(j as int)).len() >= need);
                        assert(buffer@ =~= (cat + frag@.take(j as int)).take(need as int));
                        assert((cat + frag@).take(need as int) =~= (cat + frag@.take(
                            j as int,
                        )).take(need as int));
                    }
                    assert(buffer@ == take_upto(
                        concat_parts(part_views(parts@.take(p as int + 1))),
                        need as int,
                    ));
                }
            },
            None => {
                proof {
                    assert(false);
                }
            },
        }
        p = p + 1;
    }
    let ghost cat_full = concat_parts(part_views(parts@.take(data_parts as int)));
    if buffer.len() < need {
        proof {
            assert(cat_full.len() < need);
        }
        return Err(ChunkDecodeError::DecodeFailure);
    }
    proof {
        assert(cat_full.len() >= need);
        assert(buffer@ == cat_full.take(need as int));
    }
    match decode_transaction_receipt(buffer.as_slice()) {
        Some(tr) => Ok(tr),
        None => Err(ChunkDecodeError::DecodeFailure),
    }
}

impl EncodedShardChunk {
    /// Decode the chunk: reassemble the payload from the first
    /// `data_parts` fragments, parse it, and pair it with this chunk's
    /// header. The caller is responsible for reconstructing enough
    /// fragments first.
    pub fn decode_chunk(&self, data_parts: usize) -> (r: Result<ShardChunk, ChunkDecodeError>)
        ensures
            (r is Ok) == spec_decode_ok(
                self.spec_content().parts@,
                self.spec_header().spec_encoded_length(),
                data_parts as nat,
            ),
            r is Ok ==> ((r.unwrap() is V1) == (self is V1)),
            r is Ok ==> {
                let chunk = r.unwrap();
                &&& header_congruent(chunk.spec_header(), self.spec_header())
                &&& chunk.spec_chunk_hash() == self.spec_header().spec_chunk_hash()
                &&& parse_payload(
                    spec_decoded_bytes(
                        self.spec_content().parts@,
                        self.spec_header().spec_encoded_length(),
                        data_parts as nat,
                    ),
                ) == Some(
                    (tx_views(chunk.spec_transactions()), receipt_views(
                        chunk.spec_prev_outgoing_receipts(),
                    )),
                )
            },
            r is Err ==> r.unwrap_err() == (if data_parts <= self.spec_content().parts@.len() && (
            forall|i: int|
                0 <= i < data_parts ==> (#[trigger] self.spec_content().parts@[i]) is Some) {
                ChunkDecodeError::DecodeFailure
            } else {
                ChunkDecodeError::InsufficientFragments
            }),
    {
        let transaction_receipts = match self {
            EncodedShardChunk::V1(chunk) => decode_transaction_receipts(
                &chunk.content.parts,
                chunk.header.inner.encoded_length,
                data_parts,
            ),
            EncodedShardChunk::V2(chunk) => decode_transaction_receipts(
                &chunk.content.parts,
                chunk.header.encoded_length(),
                data_parts,
            ),
        };
        let transaction_receipts = match transaction_receipts {
            Ok(tr) => tr,
            Err(e) => {
                return Err(e);
            },
        };
        match self {
            EncodedShardChunk::V1(chunk) => Ok(
                ShardChunk::V1(
                    ShardChunkV1 {
                        chunk_hash: chunk.header.chunk_hash(),
                        header: chunk.header.clone(),
                        transactions: transaction_receipts.0,
                        prev_outgoing_receipts: transaction_receipts.1,
                    },
                ),
            ),
            EncodedShardChunk::V2(chunk) => Ok(
                ShardChunk::V2(
                    ShardChunkV2 {
                        chunk_hash: chunk.header.chunk_hash(),
                        header: chunk.header.clone(),
                        transactions: transaction_receipts.0,
                        prev_outgoing_receipts: transaction_receipts.1,
                    },
                ),
            ),
        }
    }
}


/// TESTED LAW — round trip and partial-reconstruction tolerance. Any full
/// fragment array that holds the codeword of a chunk's payload decodes
/// back to exactly the serialized transactions and receipts, whichever
/// sufficient subset of fragments it was reconstructed from: decoding is
/// the inverse of encoding for every payload and every fragment split.
pub proof fn lemma_encode_decode_round_trip(
    txs: Seq<SignedTransaction>,
    receipts: Seq<Receipt>,
    parts: Seq<Option<Vec<u8>>>,
    data_parts: nat,
    parity_parts: nat,
)
    requires
        payload_valid(tx_views(txs), receipt_views(receipts)),
        spec_encoded_payload(txs, receipts).len() <= usize::MAX,
        1 <= data_parts,
        parts.len() == data_parts + parity_parts,
        forall|i: int| 0 <= i < parts.len() ==> (#[trigger] parts[i]) is Some,
        part_views(parts) == spec_chunk_codeword(txs, receipts, data_parts, parity_parts),
    ensures
        spec_decode_ok(parts, spec_encoded_payload(txs, receipts).len() as u64, data_parts),
        parse_payload(
            spec_decoded_bytes(
                parts,
                spec_encoded_payload(txs, receipts).len() as u64,
                data_parts,
            ),
        ) == Some((tx_views(txs), receipt_views(receipts))),
{
    let bytes = spec_encoded_payload(txs, receipts);
    let part_len = part_length(bytes.len(), data_parts);
    let shards = data_shards_of(bytes, data_parts, part_len);
    let cw = spec_chunk_codeword(txs, receipts, data_parts, parity_parts);
    lemma_part_length_covers(bytes.len(), data_parts);
    assert(part_views(parts.take(data_parts as int)) =~= cw.take(data_parts as int));
    assert(cw.take(data_parts as int) =~= shards);
    let cat = concat_parts(part_views(parts.take(data_parts as int)));
    assert forall|i: int| 0 <= i < shards.len() implies (#[trigger] shards[i]).len() == part_len
        by {}
    lemma_concat_uniform(shards, part_len);
    assert(bytes.len() <= data_parts * part_len);
    lemma_shards_reassemble(bytes, data_parts, part_len);
    assert(cat.take(bytes.len() as int) == bytes);
    crate::payload::lemma_parse_payload_roundtrip(tx_views(txs), receipt_views(receipts));
}

} // verus!
