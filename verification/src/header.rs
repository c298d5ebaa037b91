//! The versioned header protocol: the evolving, signed metadata record
//! that commits to a chunk's contents, the canonical header hash, and the
//! compatibility table that says which inner shape is legal under which
//! protocol version.

use crate::hash::ChunkHash;
use crate::hash::CryptoHash;
use crate::hash::StateRoot;
use crate::hash::combine_hash;
use crate::hash::combine_hash_of;
use crate::hash::hash_bytes;
use crate::hash::sha256_of;
use crate::hash::zero_hash_bytes;
use crate::inner::ShardChunkHeaderInner;
use crate::inner::inner_congruent;
use crate::inner::inner_v1_congruent;
use crate::inner::lemma_ser_inner_congruent;
use crate::types::lemma_ser_stakes_congruent;
use crate::inner::ShardChunkHeaderInnerV1;
use crate::inner::ShardChunkHeaderInnerV2;
use crate::inner::ShardChunkHeaderInnerV3;
use crate::inner::ShardChunkHeaderInnerV4;
use crate::inner::encode_inner;
use crate::inner::inner_v1_valid;
use crate::inner::inner_valid;
use crate::inner::ser_inner;
use crate::inner::ser_inner_v1;
use crate::inner::write_inner_v1;
use crate::types::Balance;
use crate::types::BandwidthRequests;
use crate::types::BlockHeight;
use crate::types::CongestionInfo;
use crate::types::Gas;
use crate::types::ProtocolVersion;
use crate::types::ShardId;
use crate::types::Signature;
use crate::types::ValidatorStake;
use crate::types::validator_stakes_valid;
use vstd::prelude::*;

verus! {

/// The protocol version at and after which congestion control is active:
/// every new chunk must carry a congestion summary.
pub const CONGESTION_CONTROL_VERSION: ProtocolVersion = 68;

/// The protocol version at and after which the bandwidth scheduler is
/// active: every new chunk must carry a bandwidth-request payload.
pub const BANDWIDTH_SCHEDULER_VERSION: ProtocolVersion = 74;

/// The protocol version this library itself runs under.
pub const PROTOCOL_VERSION: ProtocolVersion = 86;

/// Whether congestion control is active at `version`.
pub open spec fn congestion_control_enabled(version: ProtocolVersion) -> bool {
    version >= CONGESTION_CONTROL_VERSION
}

/// Whether the bandwidth scheduler is active at `version`.
pub open spec fn bandwidth_scheduler_enabled(version: ProtocolVersion) -> bool {
    version >= BANDWIDTH_SCHEDULER_VERSION
}

// ---------------------------------------------------------------------------
// Header hashes
// ---------------------------------------------------------------------------

/// The hash of the oldest header shape: the digest of the serialized inner
/// alone. This historical asymmetry (no body-root combination) is
/// load-bearing for chunks produced before the body-commitment scheme.
pub open spec fn spec_header_hash_v1(inner: ShardChunkHeaderInnerV1) -> Seq<u8> {
    sha256_of(ser_inner_v1(inner))
}

/// The hash of the second header shape: the inner digest combined, in
/// order, with the body's Merkle root.
pub open spec fn spec_header_hash_v2(inner: ShardChunkHeaderInnerV1) -> Seq<u8> {
    combine_hash_of(sha256_of(ser_inner_v1(inner)), inner.encoded_merkle_root@)
}

/// The hash of the third header shape: the versioned inner's digest
/// combined, in order, with the body's Merkle root.
pub open spec fn spec_header_hash_v3(inner: ShardChunkHeaderInner) -> Seq<u8> {
    combine_hash_of(sha256_of(ser_inner(inner)), inner.spec_encoded_merkle_root()@)
}

// ---------------------------------------------------------------------------
// The three header shapes
// ---------------------------------------------------------------------------

/// The oldest header shape, wrapping the original inner.
#[derive(Debug, PartialEq, Eq)]
pub struct ShardChunkHeaderV1 {
    pub inner: ShardChunkHeaderInnerV1,
    pub height_included: BlockHeight,
    /// Signature of the chunk producer.
    pub signature: Signature,
    /// Cached hash of `inner`; true by construction.
    pub hash: ChunkHash,
}

/// The second header shape: the same inner, hashed together with the
/// body's Merkle root.
#[derive(Debug, PartialEq, Eq)]
pub struct ShardChunkHeaderV2 {
    pub inner: ShardChunkHeaderInnerV1,
    pub height_included: BlockHeight,
    /// Signature of the chunk producer.
    pub signature: Signature,
    /// Cached hash of `inner` and the body root; true by construction.
    pub hash: ChunkHash,
}

/// The current header shape, wrapping any versioned inner.
#[derive(Debug, PartialEq, Eq)]
pub struct ShardChunkHeaderV3 {
    pub inner: ShardChunkHeaderInner,
    pub height_included: BlockHeight,
    /// Signature of the chunk producer.
    pub signature: Signature,
    /// Cached hash of `inner` and the body root; true by construction.
    pub hash: ChunkHash,
}

impl ShardChunkHeaderV1 {
    /// The cached hash is the true hash of the inner.
    pub open spec fn wf(&self) -> bool {
        &&& inner_v1_valid(self.inner)
        &&& self.hash@ == spec_header_hash_v1(self.inner)
    }

    /// Recompute the cached hash from the inner, after the inner was
    /// replaced wholesale.
    pub fn init(&mut self)
        requires
            inner_v1_valid(old(self).inner),
        ensures
            final(self).inner == old(self).inner,
            final(self).height_included == old(self).height_included,
            final(self).signature == old(self).signature,
            final(self).wf(),
    {
        self.hash = Self::compute_hash(&self.inner);
    }

    pub fn chunk_hash(&self) -> (r: ChunkHash)
        ensures
            r == self.hash,
    {
        self.hash.clone()
    }

    /// The canonical hash of the oldest shape: the digest of the
    /// serialized inner, with no body-root combination.
    pub fn compute_hash(inner: &ShardChunkHeaderInnerV1) -> (r: ChunkHash)
        requires
            inner_v1_valid(*inner),
        ensures
            r@ == spec_header_hash_v1(*inner),
    {
        let mut bytes: Vec<u8> = Vec::new();
        write_inner_v1(&mut bytes, inner);
        ChunkHash(hash_bytes(bytes.as_slice()))
    }

    pub fn new(
        prev_block_hash: CryptoHash,
        prev_state_root: StateRoot,
        prev_outcome_root: CryptoHash,
        encoded_merkle_root: CryptoHash,
        encoded_length: u64,
        height: BlockHeight,
        shard_id: ShardId,
        prev_gas_used: Gas,
        gas_limit: Gas,
        prev_balance_burnt: Balance,
        prev_outgoing_receipts_root: CryptoHash,
        tx_root: CryptoHash,
        prev_validator_proposals: Vec<ValidatorStake>,
        signature: Signature,
    ) -> (r: Self)
        requires
            validator_stakes_valid(prev_validator_proposals@),
        ensures
            r.inner == (ShardChunkHeaderInnerV1 {
                prev_block_hash,
                prev_state_root,
                prev_outcome_root,
                encoded_merkle_root,
                encoded_length,
                height_created: height,
                shard_id,
                prev_gas_used,
                gas_limit,
                prev_balance_burnt,
                prev_outgoing_receipts_root,
                tx_root,
                prev_validator_proposals,
            }),
            r.height_included == 0,
            r.signature == signature,
            r.wf(),
    {
        let inner = ShardChunkHeaderInnerV1 {
            prev_block_hash,
            prev_state_root,
            prev_outcome_root,
            encoded_merkle_root,
            encoded_length,
            height_created: height,
            shard_id,
            prev_gas_used,
            gas_limit,
            prev_balance_burnt,
            prev_outgoing_receipts_root,
            tx_root,
            prev_validator_proposals,
        };
        let hash = Self::compute_hash(&inner);
        ShardChunkHeaderV1 { inner, height_included: 0, signature, hash }
    }
}

impl ShardChunkHeaderV2 {
    /// The cached hash is the true hash of the inner and the body root.
    pub open spec fn wf(&self) -> bool {
        &&& inner_v1_valid(self.inner)
        &&& self.hash@ == spec_header_hash_v2(self.inner)
    }

    /// Recompute the cached hash from the inner, after the inner was
    /// replaced wholesale.
    pub fn init(&mut self)
        requires
            inner_v1_valid(old(self).inner),
        ensures
            final(self).inner == old(self).inner,
            final(self).height_included == old(self).height_included,
            final(self).signature == old(self).signature,
            final(self).wf(),
    {
        self.hash = Self::compute_hash(&self.inner);
    }

    /// The canonical hash of the second shape: the inner digest combined
    /// with the body's Merkle root.
    pub fn compute_hash(inner: &ShardChunkHeaderInnerV1) -> (r: ChunkHash)
        requires
            inner_v1_valid(*inner),
        ensures
            r@ == spec_header_hash_v2(*inner),
    {
        let mut bytes: Vec<u8> = Vec::new();
        write_inner_v1(&mut bytes, inner);
        let inner_hash = hash_bytes(bytes.as_slice());
        ChunkHash(combine_hash(&inner_hash, &inner.encoded_merkle_root))
    }

    pub fn new(
        prev_block_hash: CryptoHash,
        prev_state_root: StateRoot,
        prev_outcome_root: CryptoHash,
        encoded_merkle_root: CryptoHash,
        encoded_length: u64,
        height: BlockHeight,
        shard_id: ShardId,
        prev_gas_used: Gas,
        gas_limit: Gas,
        prev_balance_burnt: Balance,
        prev_outgoing_receipts_root: CryptoHash,
        tx_root: CryptoHash,
        prev_validator_proposals: Vec<ValidatorStake>,
        signature: Signature,
    ) -> (r: Self)
        requires
            validator_stakes_valid(prev_validator_proposals@),
        ensures
            r.inner == (ShardChunkHeaderInnerV1 {
                prev_block_hash,
                prev_state_root,
                prev_outcome_root,
                encoded_merkle_root,
                encoded_length,
                height_created: height,
                shard_id,
                prev_gas_used,
                gas_limit,
                prev_balance_burnt,
                prev_outgoing_receipts_root,
                tx_root,
                prev_validator_proposals,
            }),
            r.height_included == 0,
            r.signature == signature,
            r.wf(),
    {
        let inner = ShardChunkHeaderInnerV1 {
            prev_block_hash,
            prev_state_root,
            prev_outcome_root,
            encoded_merkle_root,
            encoded_length,
            height_created: height,
            shard_id,
            prev_gas_used,
            gas_limit,
            prev_balance_burnt,
            prev_outgoing_receipts_root,
            tx_root,
            prev_validator_proposals,
        };
        let hash = Self::compute_hash(&inner);
        ShardChunkHeaderV2 { inner, height_included: 0, signature, hash }
    }
}

impl ShardChunkHeaderV3 {
    /// The cached hash is the true hash of the inner and the body root.
    pub open spec fn wf(&self) -> bool {
        &&& inner_valid(self.inner)
        &&& self.hash@ == spec_header_hash_v3(self.inner)
    }

    /// Recompute the cached hash from the inner, after the inner was
    /// replaced wholesale.
    pub fn init(&mut self)
        requires
            inner_valid(old(self).inner),
        ensures
            final(self).inner == old(self).inner,
            final(self).height_included == old(self).height_included,
            final(self).signature == old(self).signature,
            final(self).wf(),
    {
        self.hash = Self::compute_hash(&self.inner);
    }

    /// The canonical hash of the current shape: the versioned inner's
    /// digest combined with the body's Merkle root.
    pub fn compute_hash(inner: &ShardChunkHeaderInner) -> (r: ChunkHash)
        requires
            inner_valid(*inner),
        ensures
            r@ == spec_header_hash_v3(*inner),
    {
        let bytes = encode_inner(inner);
        let inner_hash = hash_bytes(bytes.as_slice());
        ChunkHash(combine_hash(&inner_hash, inner.encoded_merkle_root()))
    }

    /// Wrap an already-built inner: compute and cache its hash.
    pub fn from_inner(inner: ShardChunkHeaderInner, signature: Signature) -> (r: Self)
        requires
            inner_valid(inner),
        ensures
            r.inner == inner,
            r.height_included == 0,
            r.signature == signature,
            r.wf(),
    {
        let hash = Self::compute_hash(&inner);
        ShardChunkHeaderV3 { inner, height_included: 0, signature, hash }
    }

    /// Build the inner shape the protocol version calls for. A
    /// bandwidth-request payload may be attached only when congestion
    /// control is active too and a congestion summary is present;
    /// violating that is a programmer error, not a runtime condition, so
    /// it is ruled out up front.
    pub fn new(
        protocol_version: ProtocolVersion,
        prev_block_hash: CryptoHash,
        prev_state_root: StateRoot,
        prev_outcome_root: CryptoHash,
        encoded_merkle_root: CryptoHash,
        encoded_length: u64,
        height: BlockHeight,
        shard_id: ShardId,
        prev_gas_used: Gas,
        gas_limit: Gas,
        prev_balance_burnt: Balance,
        prev_outgoing_receipts_root: CryptoHash,
        tx_root: CryptoHash,
        prev_validator_proposals: Vec<ValidatorStake>,
        congestion_info: Option<CongestionInfo>,
        bandwidth_requests: Option<BandwidthRequests>,
        signature: Signature,
    ) -> (r: Self)
        requires
            validator_stakes_valid(prev_validator_proposals@),
            bandwidth_requests is Some ==> bandwidth_scheduler_enabled(protocol_version)
                && congestion_control_enabled(protocol_version) && congestion_info is Some,
            congestion_info is Some && bandwidth_requests is None ==> congestion_control_enabled(
                protocol_version,
            ),
            congestion_info is Some ==> crate::codec::record_valid(
                congestion_info.unwrap().data@,
            ),
            bandwidth_requests is Some ==> crate::codec::record_valid(
                bandwidth_requests.unwrap().data@,
            ),
        ensures
            r.height_included == 0,
            r.signature == signature,
            r.wf(),
            bandwidth_requests is Some ==> r.inner == ShardChunkHeaderInner::V4(
                ShardChunkHeaderInnerV4 {
                    prev_block_hash,
                    prev_state_root,
                    prev_outcome_root,
                    encoded_merkle_root,
                    encoded_length,
                    height_created: height,
                    shard_id,
                    prev_gas_used,
                    gas_limit,
                    prev_balance_burnt,
                    prev_outgoing_receipts_root,
                    tx_root,
                    prev_validator_proposals,
                    congestion_info: congestion_info.unwrap(),
                    bandwidth_requests: bandwidth_requests.unwrap(),
                },
            ),
            bandwidth_requests is None && congestion_info is Some ==> r.inner
                == ShardChunkHeaderInner::V3(
                ShardChunkHeaderInnerV3 {
                    prev_block_hash,
                    prev_state_root,
                    prev_outcome_root,
                    encoded_merkle_root,
                    encoded_length,
                    height_created: height,
                    shard_id,
                    prev_gas_used,
                    gas_limit,
                    prev_balance_burnt,
                    prev_outgoing_receipts_root,
                    tx_root,
                    prev_validator_proposals,
                    congestion_info: congestion_info.unwrap(),
                },
            ),
            bandwidth_requests is None && congestion_info is None ==> r.inner
                == ShardChunkHeaderInner::V2(
                ShardChunkHeaderInnerV2 {
                    prev_block_hash,
                    prev_state_root,
                    prev_outcome_root,
                    encoded_merkle_root,
                    encoded_length,
                    height_created: height,
                    shard_id,
                    prev_gas_used,
                    gas_limit,
                    prev_balance_burnt,
                    prev_outgoing_receipts_root,
                    tx_root,
                    prev_validator_proposals,
                },
            ),
    {
        let inner = match bandwidth_requests {
            Some(bandwidth_requests) => {
                let congestion_info = match congestion_info {
                    Some(c) => c,
                    None => {
                        // ruled out by the precondition
                        proof {
                            assert(false);
                        }
                        CongestionInfo::default()
                    },
                };
                ShardChunkHeaderInner::V4(
                    ShardChunkHeaderInnerV4 {
                        prev_block_hash,
                        prev_state_root,
                        prev_outcome_root,
                        encoded_merkle_root,
                        encoded_length,
                        height_created: height,
                        shard_id,
                        prev_gas_used,
                        gas_limit,
                        prev_balance_burnt,
                        prev_outgoing_receipts_root,
                        tx_root,
                        prev_validator_proposals,
                        congestion_info,
                        bandwidth_requests,
                    },
                )
            },
            None => match congestion_info {
                Some(congestion_info) => ShardChunkHeaderInner::V3(
                    ShardChunkHeaderInnerV3 {
                        prev_block_hash,
                        prev_state_root,
                        prev_outcome_root,
                        encoded_merkle_root,
                        encoded_length,
                        height_created: height,
                        shard_id,
                        prev_gas_used,
                        gas_limit,
                        prev_balance_burnt,
                        prev_outgoing_receipts_root,
                        tx_root,
                        prev_validator_proposals,
                        congestion_info,
                    },
                ),
                None => ShardChunkHeaderInner::V2(
                    ShardChunkHeaderInnerV2 {
                        prev_block_hash,
                        prev_state_root,
                        prev_outcome_root,
                        encoded_merkle_root,
                        encoded_length,
                        height_created: height,
                        shard_id,
                        prev_gas_used,
                        gas_limit,
                        prev_balance_burnt,
                        prev_outgoing_receipts_root,
                        tx_root,
                        prev_validator_proposals,
                    },
                ),
            },
        };
        Self::from_inner(inner, signature)
    }
}


/// One chunk header of any historical shape.
#[derive(Debug, PartialEq, Eq)]
pub enum ShardChunkHeader {
    V1(ShardChunkHeaderV1),
    V2(ShardChunkHeaderV2),
    V3(ShardChunkHeaderV3),
}

/// A header's inner shape is not legal for the given protocol version.
/// Carries the three diagnostic numbers; used for diagnostics only, never
/// for control flow.
#[derive(Clone, Copy, Debug, PartialEq, Eq, Structural)]
pub struct BadHeaderForProtocolVersionError {
    pub protocol_version: ProtocolVersion,
    pub header_version: u64,
    pub header_inner_version: u64,
}

/// A chunk hash paired with the height the chunk was created at.
#[derive(Clone, Debug, PartialEq, Eq, Hash)]
pub struct ChunkHashHeight(pub ChunkHash, pub BlockHeight);

impl Default for ChunkHashHeight {
    fn default() -> (r: Self)
        ensures
            r.0@ == zero_hash_bytes(),
            r.1 == 0,
    {
        ChunkHashHeight(ChunkHash::default(), 0)
    }
}

/// The compatibility table of the header protocol: which (header shape,
/// inner shape) pair is legal at which protocol version.
///
/// The oldest two header shapes are never legal for new chunks. Under the
/// current shape: the first inner only strictly below the
/// congestion-control threshold; the second inner at any version (the
/// first chunk at the congestion-control boundary has not yet computed
/// congestion info, and historical upgrade paths skip directly to the
/// newest version); the third inner at and after the congestion-control
/// threshold; the fourth at and after the bandwidth-scheduler threshold.
pub open spec fn spec_header_valid_for(header: ShardChunkHeader, version: ProtocolVersion) -> bool {
    match header {
        ShardChunkHeader::V1(_) => false,
        ShardChunkHeader::V2(_) => false,
        ShardChunkHeader::V3(h) => match h.inner {
            ShardChunkHeaderInner::V1(_) => version < CONGESTION_CONTROL_VERSION,
            ShardChunkHeaderInner::V2(_) => true,
            ShardChunkHeaderInner::V3(_) => version >= CONGESTION_CONTROL_VERSION,
            ShardChunkHeaderInner::V4(_) => version >= BANDWIDTH_SCHEDULER_VERSION,
        },
    }
}

impl ShardChunkHeader {
    /// The cached hash of every shape is the true hash of its inner.
    pub open spec fn wf(&self) -> bool {
        match self {
            ShardChunkHeader::V1(h) => h.wf(),
            ShardChunkHeader::V2(h) => h.wf(),
            ShardChunkHeader::V3(h) => h.wf(),
        }
    }

    /// The canonical hash of this header's committed contents.
    pub open spec fn spec_header_hash(&self) -> Seq<u8> {
        match self {
            ShardChunkHeader::V1(h) => spec_header_hash_v1(h.inner),
            ShardChunkHeader::V2(h) => spec_header_hash_v2(h.inner),
            ShardChunkHeader::V3(h) => spec_header_hash_v3(h.inner),
        }
    }

    /// Whether this header's inner can be framed by the codec.
    pub open spec fn spec_valid(&self) -> bool {
        match self {
            ShardChunkHeader::V1(h) => inner_v1_valid(h.inner),
            ShardChunkHeader::V2(h) => inner_v1_valid(h.inner),
            ShardChunkHeader::V3(h) => inner_valid(h.inner),
        }
    }

    /// A deterministic placeholder header for genesis and bootstrapping,
    /// carrying the no-op signer's empty signature and default values
    /// under the library's own protocol version. Every committed field is
    /// pinned, so two calls with equal arguments commit to the same hash.
    pub fn new_dummy(height: BlockHeight, shard_id: ShardId, prev_block_hash: CryptoHash) -> (r:
        Self)
        ensures
            r.spec_height_created() == height,
            r.spec_shard_id() == shard_id,
            r.spec_prev_block_hash() == prev_block_hash,
            r.spec_height_included() == 0,
            r.wf(),
            r is V3,
            r.spec_inner() is V4,
            r.spec_prev_state_root()@ == zero_hash_bytes(),
            r.spec_prev_outcome_root()@ == zero_hash_bytes(),
            r.spec_encoded_merkle_root()@ == zero_hash_bytes(),
            r.spec_encoded_length() == 0,
            r.spec_prev_gas_used() == 0,
            r.spec_gas_limit() == 0,
            r.spec_prev_balance_burnt() == 0,
            r.spec_prev_outgoing_receipts_root()@ == zero_hash_bytes(),
            r.spec_tx_root()@ == zero_hash_bytes(),
            r.spec_prev_validator_proposals() == Seq::<ValidatorStake>::empty(),
            r.spec_congestion_info().unwrap().data@ == Seq::<u8>::empty(),
            r.spec_bandwidth_requests().unwrap().data@ == Seq::<u8>::empty(),
            r.spec_signature().data@ == Seq::<u8>::empty(),
    {
        let congestion_info = Some(CongestionInfo::default());
        let bandwidth_requests = Some(BandwidthRequests::default());
        let header = ShardChunkHeaderV3::new(
            PROTOCOL_VERSION,
            prev_block_hash,
            CryptoHash::default(),
            CryptoHash::default(),
            CryptoHash::default(),
            0,
            height,
            shard_id,
            0,
            0,
            0,
            CryptoHash::default(),
            CryptoHash::default(),
            Vec::new(),
            congestion_info,
            bandwidth_requests,
            Signature::empty(),
        );
        ShardChunkHeader::V3(header)
    }

    /// Unwrap the versioned inner, discarding signature and bookkeeping.
    pub fn take_inner(self) -> (r: ShardChunkHeaderInner)
        ensures
            r == self.spec_inner(),
    {
        match self {
            ShardChunkHeader::V1(header) => ShardChunkHeaderInner::V1(header.inner),
            ShardChunkHeader::V2(header) => ShardChunkHeaderInner::V1(header.inner),
            ShardChunkHeader::V3(header) => header.inner,
        }
    }

    /// The versioned view of this header's inner. The oldest two header
    /// shapes both carry the original inner shape.
    pub open spec fn spec_inner(&self) -> ShardChunkHeaderInner {
        match self {
            ShardChunkHeader::V1(h) => ShardChunkHeaderInner::V1(h.inner),
            ShardChunkHeader::V2(h) => ShardChunkHeaderInner::V1(h.inner),
            ShardChunkHeader::V3(h) => h.inner,
        }
    }

    /// The digest of the serialized inner alone, without the body-root
    /// combination that the full header hash applies.
    pub fn inner_header_hash(&self) -> (r: CryptoHash)
        requires
            self.spec_valid(),
        ensures
            r@ == (match self {
                ShardChunkHeader::V1(h) => sha256_of(ser_inner_v1(h.inner)),
                ShardChunkHeader::V2(h) => sha256_of(ser_inner_v1(h.inner)),
                ShardChunkHeader::V3(h) => sha256_of(ser_inner(h.inner)),
            }),
    {
        let bytes = match self {
            ShardChunkHeader::V1(header) => {
                let mut out: Vec<u8> = Vec::new();
                write_inner_v1(&mut out, &header.inner);
                out
            },
            ShardChunkHeader::V2(header) => {
                let mut out: Vec<u8> = Vec::new();
                write_inner_v1(&mut out, &header.inner);
                out
            },
            ShardChunkHeader::V3(header) => encode_inner(&header.inner),
        };
        hash_bytes(bytes.as_slice())
    }

    /// Height at which the chunk was created.
    pub open spec fn spec_height_created(&self) -> BlockHeight {
        match self {
            ShardChunkHeader::V1(h) => h.inner.height_created,
            ShardChunkHeader::V2(h) => h.inner.height_created,
            ShardChunkHeader::V3(h) => h.inner.spec_height_created(),
        }
    }

    pub fn height_created(&self) -> (r: BlockHeight)
        ensures
            r == self.spec_height_created(),
    {
        match self {
            ShardChunkHeader::V1(header) => header.inner.height_created,
            ShardChunkHeader::V2(header) => header.inner.height_created,
            ShardChunkHeader::V3(header) => header.inner.height_created(),
        }
    }

    pub open spec fn spec_signature(&self) -> Signature {
        match self {
            ShardChunkHeader::V1(h) => h.signature,
            ShardChunkHeader::V2(h) => h.signature,
            ShardChunkHeader::V3(h) => h.signature,
        }
    }

    pub fn signature(&self) -> (r: &Signature)
        ensures
            *r == self.spec_signature(),
    {
        match self {
            ShardChunkHeader::V1(header) => &header.signature,
            ShardChunkHeader::V2(header) => &header.signature,
            ShardChunkHeader::V3(header) => &header.signature,
        }
    }

    pub open spec fn spec_height_included(&self) -> BlockHeight {
        match self {
            ShardChunkHeader::V1(h) => h.height_included,
            ShardChunkHeader::V2(h) => h.height_included,
            ShardChunkHeader::V3(h) => h.height_included,
        }
    }

    pub fn height_included(&self) -> (r: BlockHeight)
        ensures
            r == self.spec_height_included(),
    {
        match self {
            ShardChunkHeader::V1(header) => header.height_included,
            ShardChunkHeader::V2(header) => header.height_included,
            ShardChunkHeader::V3(header) => header.height_included,
        }
    }

    /// This header after its inclusion height is set: everything else
    /// unchanged.
    pub open spec fn spec_with_height_included(&self, height: BlockHeight) -> ShardChunkHeader {
        match self {
            ShardChunkHeader::V1(h) => ShardChunkHeader::V1(
                ShardChunkHeaderV1 { height_included: height, ..*h },
            ),
            ShardChunkHeader::V2(h) => ShardChunkHeader::V2(
                ShardChunkHeaderV2 { height_included: height, ..*h },
            ),
            ShardChunkHeader::V3(h) => ShardChunkHeader::V3(
                ShardChunkHeaderV3 { height_included: height, ..*h },
            ),
        }
    }

    /// The one mutable field of the whole model: the height at which the
    /// chunk was included in a block, set once by the block-production
    /// pipeline.
    pub fn height_included_mut(&mut self) -> (r: &mut BlockHeight)
        ensures
            *r == old(self).spec_height_included(),
            *final(self) == old(self).spec_with_height_included(*final(r)),
    {
        match self {
            ShardChunkHeader::V1(header) => &mut header.height_included,
            ShardChunkHeader::V2(header) => &mut header.height_included,
            ShardChunkHeader::V3(header) => &mut header.height_included,
        }
    }

    /// A header whose inclusion height equals the height of the block it
    /// sits in is new for that block, as opposed to carried over.
    pub fn is_new_chunk(&self, block_height: BlockHeight) -> (r: bool)
        ensures
            r == (self.spec_height_included() == block_height),
    {
        self.height_included() == block_height
    }

    pub open spec fn spec_prev_validator_proposals(&self) -> Seq<ValidatorStake> {
        match self {
            ShardChunkHeader::V1(h) => h.inner.prev_validator_proposals@,
            ShardChunkHeader::V2(h) => h.inner.prev_validator_proposals@,
            ShardChunkHeader::V3(h) => h.inner.spec_prev_validator_proposals(),
        }
    }

    pub fn prev_validator_proposals(&self) -> (r: &Vec<ValidatorStake>)
        ensures
            r@ == self.spec_prev_validator_proposals(),
    {
        match self {
            ShardChunkHeader::V1(header) => &header.inner.prev_validator_proposals,
            ShardChunkHeader::V2(header) => &header.inner.prev_validator_proposals,
            ShardChunkHeader::V3(header) => header.inner.prev_validator_proposals(),
        }
    }

    pub open spec fn spec_prev_state_root(&self) -> StateRoot {
        match self {
            ShardChunkHeader::V1(h) => h.inner.prev_state_root,
            ShardChunkHeader::V2(h) => h.inner.prev_state_root,
            ShardChunkHeader::V3(h) => h.inner.spec_prev_state_root(),
        }
    }

    pub fn prev_state_root(&self) -> (r: StateRoot)
        ensures
            r == self.spec_prev_state_root(),
    {
        match self {
            ShardChunkHeader::V1(header) => header.inner.prev_state_root,
            ShardChunkHeader::V2(header) => header.inner.prev_state_root,
            ShardChunkHeader::V3(header) => *header.inner.prev_state_root(),
        }
    }

    pub open spec fn spec_prev_block_hash(&self) -> CryptoHash {
        match self {
            ShardChunkHeader::V1(h) => h.inner.prev_block_hash,
            ShardChunkHeader::V2(h) => h.inner.prev_block_hash,
            ShardChunkHeader::V3(h) => h.inner.spec_prev_block_hash(),
        }
    }

    pub fn prev_block_hash(&self) -> (r: &CryptoHash)
        ensures
            *r == self.spec_prev_block_hash(),
    {
        match self {
            ShardChunkHeader::V1(header) => &header.inner.prev_block_hash,
            ShardChunkHeader::V2(header) => &header.inner.prev_block_hash,
            ShardChunkHeader::V3(header) => header.inner.prev_block_hash(),
        }
    }

    /// Whether this chunk follows the all-zero genesis block hash.
    pub fn is_genesis(&self) -> (r: bool)
        ensures
            r == (self.spec_prev_block_hash()@ == zero_hash_bytes()),
    {
        let zero = CryptoHash::default();
        *self.prev_block_hash() == zero
    }

    pub open spec fn spec_encoded_merkle_root(&self) -> CryptoHash {
        match self {
            ShardChunkHeader::V1(h) => h.inner.encoded_merkle_root,
            ShardChunkHeader::V2(h) => h.inner.encoded_merkle_root,
            ShardChunkHeader::V3(h) => h.inner.spec_encoded_merkle_root(),
        }
    }

    pub fn encoded_merkle_root(&self) -> (r: CryptoHash)
        ensures
            r == self.spec_encoded_merkle_root(),
    {
        match self {
            ShardChunkHeader::V1(header) => header.inner.encoded_merkle_root,
            ShardChunkHeader::V2(header) => header.inner.encoded_merkle_root,
            ShardChunkHeader::V3(header) => *header.inner.encoded_merkle_root(),
        }
    }

    pub open spec fn spec_shard_id(&self) -> ShardId {
        match self {
            ShardChunkHeader::V1(h) => h.inner.shard_id,
            ShardChunkHeader::V2(h) => h.inner.shard_id,
            ShardChunkHeader::V3(h) => h.inner.spec_shard_id(),
        }
    }

    pub fn shard_id(&self) -> (r: ShardId)
        ensures
            r == self.spec_shard_id(),
    {
        match self {
            ShardChunkHeader::V1(header) => header.inner.shard_id,
            ShardChunkHeader::V2(header) => header.inner.shard_id,
            ShardChunkHeader::V3(header) => header.inner.shard_id(),
        }
    }

    pub open spec fn spec_encoded_length(&self) -> u64 {
        match self {
            ShardChunkHeader::V1(h) => h.inner.encoded_length,
            ShardChunkHeader::V2(h) => h.inner.encoded_length,
            ShardChunkHeader::V3(h) => h.inner.spec_encoded_length(),
        }
    }

    pub fn encoded_length(&self) -> (r: u64)
        ensures
            r == self.spec_encoded_length(),
    {
        match self {
            ShardChunkHeader::V1(header) => header.inner.encoded_length,
            ShardChunkHeader::V2(header) => header.inner.encoded_length,
            ShardChunkHeader::V3(header) => header.inner.encoded_length(),
        }
    }

    pub open spec fn spec_prev_gas_used(&self) -> Gas {
        match self {
            ShardChunkHeader::V1(h) => h.inner.prev_gas_used,
            ShardChunkHeader::V2(h) => h.inner.prev_gas_used,
            ShardChunkHeader::V3(h) => h.inner.spec_prev_gas_used(),
        }
    }

    pub fn prev_gas_used(&self) -> (r: Gas)
        ensures
            r == self.spec_prev_gas_used(),
    {
        match &self {
            ShardChunkHeader::V1(header) => header.inner.prev_gas_used,
            ShardChunkHeader::V2(header) => header.inner.prev_gas_used,
            ShardChunkHeader::V3(header) => header.inner.prev_gas_used(),
        }
    }

    pub open spec fn spec_gas_limit(&self) -> Gas {
        match self {
            ShardChunkHeader::V1(h) => h.inner.gas_limit,
            ShardChunkHeader::V2(h) => h.inner.gas_limit,
            ShardChunkHeader::V3(h) => h.inner.spec_gas_limit(),
        }
    }

    pub fn gas_limit(&self) -> (r: Gas)
        ensures
            r == self.spec_gas_limit(),
    {
        match &self {
            ShardChunkHeader::V1(header) => header.inner.gas_limit,
            ShardChunkHeader::V2(header) => header.inner.gas_limit,
            ShardChunkHeader::V3(header) => header.inner.gas_limit(),
        }
    }

    pub open spec fn spec_prev_balance_burnt(&self) -> Balance {
        match self {
            ShardChunkHeader::V1(h) => h.inner.prev_balance_burnt,
            ShardChunkHeader::V2(h) => h.inner.prev_balance_burnt,
            ShardChunkHeader::V3(h) => h.inner.spec_prev_balance_burnt(),
        }
    }

    pub fn prev_balance_burnt(&self) -> (r: Balance)
        ensures
            r == self.spec_prev_balance_burnt(),
    {
        match &self {
            ShardChunkHeader::V1(header) => header.inner.prev_balance_burnt,
            ShardChunkHeader::V2(header) => header.inner.prev_balance_burnt,
            ShardChunkHeader::V3(header) => header.inner.prev_balance_burnt(),
        }
    }

    pub open spec fn spec_prev_outgoing_receipts_root(&self) -> CryptoHash {
        match self {
            ShardChunkHeader::V1(h) => h.inner.prev_outgoing_receipts_root,
            ShardChunkHeader::V2(h) => h.inner.prev_outgoing_receipts_root,
            ShardChunkHeader::V3(h) => h.inner.spec_prev_outgoing_receipts_root(),
        }
    }

    pub fn prev_outgoing_receipts_root(&self) -> (r: CryptoHash)
        ensures
            r == self.spec_prev_outgoing_receipts_root(),
    {
        match &self {
            ShardChunkHeader::V1(header) => header.inner.prev_outgoing_receipts_root,
            ShardChunkHeader::V2(header) => header.inner.prev_outgoing_receipts_root,
            ShardChunkHeader::V3(header) => *header.inner.prev_outgoing_receipts_root(),
        }
    }

    pub open spec fn spec_prev_outcome_root(&self) -> CryptoHash {
        match self {
            ShardChunkHeader::V1(h) => h.inner.prev_outcome_root,
            ShardChunkHeader::V2(h) => h.inner.prev_outcome_root,
            ShardChunkHeader::V3(h) => h.inner.spec_prev_outcome_root(),
        }
    }

    pub fn prev_outcome_root(&self) -> (r: CryptoHash)
        ensures
            r == self.spec_prev_outcome_root(),
    {
        match &self {
            ShardChunkHeader::V1(header) => header.inner.prev_outcome_root,
            ShardChunkHeader::V2(header) => header.inner.prev_outcome_root,
            ShardChunkHeader::V3(header) => *header.inner.prev_outcome_root(),
        }
    }

    pub open spec fn spec_tx_root(&self) -> CryptoHash {
        match self {
            ShardChunkHeader::V1(h) => h.inner.tx_root,
            ShardChunkHeader::V2(h) => h.inner.tx_root,
            ShardChunkHeader::V3(h) => h.inner.spec_tx_root(),
        }
    }

    pub fn tx_root(&self) -> (r: CryptoHash)
        ensures
            r == self.spec_tx_root(),
    {
        match &self {
            ShardChunkHeader::V1(header) => header.inner.tx_root,
            ShardChunkHeader::V2(header) => header.inner.tx_root,
            ShardChunkHeader::V3(header) => *header.inner.tx_root(),
        }
    }

    /// The cached chunk hash.
    pub open spec fn spec_chunk_hash(&self) -> ChunkHash {
        match self {
            ShardChunkHeader::V1(h) => h.hash,
            ShardChunkHeader::V2(h) => h.hash,
            ShardChunkHeader::V3(h) => h.hash,
        }
    }

    pub fn chunk_hash(&self) -> (r: ChunkHash)
        ensures
            r == self.spec_chunk_hash(),
    {
        match &self {
            ShardChunkHeader::V1(header) => header.hash.clone(),
            ShardChunkHeader::V2(header) => header.hash.clone(),
            ShardChunkHeader::V3(header) => header.hash.clone(),
        }
    }

    /// Congestion info, if the feature is enabled on the chunk.
    pub open spec fn spec_congestion_info(&self) -> Option<CongestionInfo> {
        match self {
            ShardChunkHeader::V1(_) => None,
            ShardChunkHeader::V2(_) => None,
            ShardChunkHeader::V3(h) => h.inner.spec_congestion_info(),
        }
    }

    pub fn congestion_info(&self) -> (r: Option<&CongestionInfo>)
        ensures
            match r {
                Some(c) => self.spec_congestion_info() == Some(*c),
                None => self.spec_congestion_info() is None,
            },
    {
        match self {
            ShardChunkHeader::V1(_) => None,
            ShardChunkHeader::V2(_) => None,
            ShardChunkHeader::V3(header) => header.inner.congestion_info(),
        }
    }

    /// The bandwidth-request payload, if the feature is enabled on the
    /// chunk.
    pub open spec fn spec_bandwidth_requests(&self) -> Option<BandwidthRequests> {
        match self {
            ShardChunkHeader::V1(_) => None,
            ShardChunkHeader::V2(_) => None,
            ShardChunkHeader::V3(h) => h.inner.spec_bandwidth_requests(),
        }
    }

    pub fn bandwidth_requests(&self) -> (r: Option<&BandwidthRequests>)
        ensures
            match r {
                Some(b) => self.spec_bandwidth_requests() == Some(*b),
                None => self.spec_bandwidth_requests() is None,
            },
    {
        match self {
            ShardChunkHeader::V1(_) => None,
            ShardChunkHeader::V2(_) => None,
            ShardChunkHeader::V3(header) => header.inner.bandwidth_requests(),
        }
    }

    /// The shape number of this header, for diagnostics.
    pub open spec fn spec_header_version_number(&self) -> u64 {
        match self {
            ShardChunkHeader::V1(_) => 1,
            ShardChunkHeader::V2(_) => 2,
            ShardChunkHeader::V3(_) => 3,
        }
    }

    pub(crate) fn header_version_number(&self) -> (r: u64)
        ensures
            r == self.spec_header_version_number(),
    {
        match self {
            ShardChunkHeader::V1(_) => 1,
            ShardChunkHeader::V2(_) => 2,
            ShardChunkHeader::V3(_) => 3,
        }
    }

    /// The shape number of this header's inner, for diagnostics. The
    /// oldest two header shapes both carry the original inner shape.
    pub open spec fn spec_inner_version_number(&self) -> u64 {
        match self {
            ShardChunkHeader::V1(_) => 1,
            ShardChunkHeader::V2(_) => 1,
            ShardChunkHeader::V3(h) => h.inner.spec_version_number(),
        }
    }

    pub(crate) fn inner_version_number(&self) -> (r: u64)
        ensures
            r == self.spec_inner_version_number(),
    {
        match self {
            ShardChunkHeader::V1(_) => 1,
            ShardChunkHeader::V2(_) => 1,
            ShardChunkHeader::V3(v3) => v3.inner.version_number(),
        }
    }

    /// Whether the header is valid for the given protocol version:
    /// success exactly on the pairs the compatibility table allows, and
    /// otherwise the three diagnostic numbers.
    pub fn validate_version(&self, version: ProtocolVersion) -> (r: Result<
        (),
        BadHeaderForProtocolVersionError,
    >)
        ensures
            (r is Ok) == spec_header_valid_for(*self, version),
            r is Err ==> r.unwrap_err() == (BadHeaderForProtocolVersionError {
                protocol_version: version,
                header_version: self.spec_header_version_number(),
                header_inner_version: self.spec_inner_version_number(),
            }),
    {
        let is_valid = match &self {
            ShardChunkHeader::V1(_) => false,
            ShardChunkHeader::V2(_) => false,
            ShardChunkHeader::V3(header) => match &header.inner {
                ShardChunkHeaderInner::V1(_) => version < CONGESTION_CONTROL_VERSION,
                ShardChunkHeaderInner::V2(_) => true,
                ShardChunkHeaderInner::V3(_) => version >= CONGESTION_CONTROL_VERSION,
                ShardChunkHeaderInner::V4(_) => version >= BANDWIDTH_SCHEDULER_VERSION,
            },
        };
        if is_valid {
            Ok(())
        } else {
            Err(
                BadHeaderForProtocolVersionError {
                    protocol_version: version,
                    header_version: self.header_version_number(),
                    header_inner_version: self.inner_version_number(),
                },
            )
        }
    }

    /// Recompute the canonical hash from the committed contents.
    pub fn compute_hash(&self) -> (r: ChunkHash)
        requires
            self.spec_valid(),
        ensures
            r@ == self.spec_header_hash(),
    {
        match self {
            ShardChunkHeader::V1(header) => ShardChunkHeaderV1::compute_hash(&header.inner),
            ShardChunkHeader::V2(header) => ShardChunkHeaderV2::compute_hash(&header.inner),
            ShardChunkHeader::V3(header) => ShardChunkHeaderV3::compute_hash(&header.inner),
        }
    }
}


// ---------------------------------------------------------------------------
// Congruence and cloning
// ---------------------------------------------------------------------------

/// Two headers of the first shape that hold the same values.
pub open spec fn header_v1_congruent(a: ShardChunkHeaderV1, b: ShardChunkHeaderV1) -> bool {
    &&& inner_v1_congruent(a.inner, b.inner)
    &&& a.height_included == b.height_included
    &&& a.signature.data@ == b.signature.data@
    &&& a.hash@ == b.hash@
}

/// Two headers of the second shape that hold the same values.
pub open spec fn header_v2_congruent(a: ShardChunkHeaderV2, b: ShardChunkHeaderV2) -> bool {
    &&& inner_v1_congruent(a.inner, b.inner)
    &&& a.height_included == b.height_included
    &&& a.signature.data@ == b.signature.data@
    &&& a.hash@ == b.hash@
}

/// Two headers of the current shape that hold the same values.
pub open spec fn header_v3_congruent(a: ShardChunkHeaderV3, b: ShardChunkHeaderV3) -> bool {
    &&& inner_congruent(a.inner, b.inner)
    &&& a.height_included == b.height_included
    &&& a.signature.data@ == b.signature.data@
    &&& a.hash@ == b.hash@
}

/// Two headers of the same shape that hold the same values.
pub open spec fn header_congruent(a: ShardChunkHeader, b: ShardChunkHeader) -> bool {
    match a {
        ShardChunkHeader::V1(x) => b is V1 && header_v1_congruent(x, b->V1_0),
        ShardChunkHeader::V2(x) => b is V2 && header_v2_congruent(x, b->V2_0),
        ShardChunkHeader::V3(x) => b is V3 && header_v3_congruent(x, b->V3_0),
    }
}

impl Clone for ShardChunkHeaderV1 {
    fn clone(&self) -> (r: Self)
        ensures
            header_v1_congruent(r, *self),
    {
        ShardChunkHeaderV1 {
            inner: self.inner.clone(),
            height_included: self.height_included,
            signature: self.signature.clone(),
            hash: self.hash,
        }
    }
}

impl Clone for ShardChunkHeaderV2 {
    fn clone(&self) -> (r: Self)
        ensures
            header_v2_congruent(r, *self),
    {
        ShardChunkHeaderV2 {
            inner: self.inner.clone(),
            height_included: self.height_included,
            signature: self.signature.clone(),
            hash: self.hash,
        }
    }
}

impl Clone for ShardChunkHeaderV3 {
    fn clone(&self) -> (r: Self)
        ensures
            header_v3_congruent(r, *self),
    {
        ShardChunkHeaderV3 {
            inner: self.inner.clone(),
            height_included: self.height_included,
            signature: self.signature.clone(),
            hash: self.hash,
        }
    }
}

impl Clone for ShardChunkHeader {
    fn clone(&self) -> (r: Self)
        ensures
            header_congruent(r, *self),
    {
        match self {
            ShardChunkHeader::V1(h) => ShardChunkHeader::V1(h.clone()),
            ShardChunkHeader::V2(h) => ShardChunkHeader::V2(h.clone()),
            ShardChunkHeader::V3(h) => ShardChunkHeader::V3(h.clone()),
        }
    }
}

/// TESTED LAW — hash determinism. The canonical header hash is a pure
/// function of the committed contents: two headers of the same shape that
/// hold the same values — a header and any copy of it — commit to the
/// same hash, are well-formed together, and agree on every uniform
/// accessor. Recomputing the hash of an unchanged header can never give a
/// different answer.
pub proof fn lemma_header_congruent(a: ShardChunkHeader, b: ShardChunkHeader)
    requires
        header_congruent(a, b),
    ensures
        a.spec_header_hash() == b.spec_header_hash(),
        a.wf() <==> b.wf(),
        a.spec_valid() <==> b.spec_valid(),
        a.spec_chunk_hash()@ == b.spec_chunk_hash()@,
        a.spec_height_included() == b.spec_height_included(),
        a.spec_height_created() == b.spec_height_created(),
        a.spec_shard_id() == b.spec_shard_id(),
        a.spec_encoded_length() == b.spec_encoded_length(),
        a.spec_encoded_merkle_root()@ == b.spec_encoded_merkle_root()@,
        a.spec_prev_block_hash()@ == b.spec_prev_block_hash()@,
{
    match a {
        ShardChunkHeader::V1(x) => {
            lemma_ser_stakes_congruent(
                x.inner.prev_validator_proposals@,
                b->V1_0.inner.prev_validator_proposals@,
            );
            assert(ser_inner_v1(x.inner) == ser_inner_v1(b->V1_0.inner));
        },
        ShardChunkHeader::V2(x) => {
            lemma_ser_stakes_congruent(
                x.inner.prev_validator_proposals@,
                b->V2_0.inner.prev_validator_proposals@,
            );
            assert(ser_inner_v1(x.inner) == ser_inner_v1(b->V2_0.inner));
        },
        ShardChunkHeader::V3(x) => {
            lemma_ser_inner_congruent(x.inner, b->V3_0.inner);
        },
    }
}

} // verus!
