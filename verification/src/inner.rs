//! The versioned, content-committing core of a chunk header. Fields are
//! monotonically added across versions and never removed; every field of
//! every version feeds the serialized bytes that the header hash commits
//! to. Once constructed an inner is immutable: it is only replaced by
//! constructing a new header.

use crate::codec::record_valid;
use crate::codec::ser_byte_record;
use crate::codec::ser_u128;
use crate::codec::ser_u32;
use crate::codec::ser_u64;
use crate::codec::write_byte_record;
use crate::codec::write_u128;
use crate::codec::write_u32;
use crate::codec::write_u64;
use crate::hash::CryptoHash;
use crate::hash::StateRoot;
use crate::hash::write_hash;
use crate::types::Balance;
use crate::types::BandwidthRequests;
use crate::types::BlockHeight;
use crate::types::CongestionInfo;
use crate::types::Gas;
use crate::types::ShardId;
use crate::types::ValidatorStake;
use crate::types::clone_stakes;
use crate::types::lemma_ser_stakes_congruent;
use crate::types::ser_validator_stakes;
use crate::types::stakes_congruent;
use crate::types::validator_stakes_valid;
use crate::types::write_validator_stakes;
use vstd::prelude::*;

verus! {

/// The original inner shape: the fields every later shape still carries.
#[derive(Debug, PartialEq, Eq)]
pub struct ShardChunkHeaderInnerV1 {
    pub prev_block_hash: CryptoHash,
    pub prev_state_root: StateRoot,
    pub prev_outcome_root: CryptoHash,
    pub encoded_merkle_root: CryptoHash,
    pub encoded_length: u64,
    pub height_created: BlockHeight,
    pub shard_id: ShardId,
    pub prev_gas_used: Gas,
    pub gas_limit: Gas,
    pub prev_balance_burnt: Balance,
    pub prev_outgoing_receipts_root: CryptoHash,
    pub tx_root: CryptoHash,
    pub prev_validator_proposals: Vec<ValidatorStake>,
}

/// The second inner shape: the same fields under a new wire tag.
#[derive(Debug, PartialEq, Eq)]
pub struct ShardChunkHeaderInnerV2 {
    pub prev_block_hash: CryptoHash,
    pub prev_state_root: StateRoot,
    pub prev_outcome_root: CryptoHash,
    pub encoded_merkle_root: CryptoHash,
    pub encoded_length: u64,
    pub height_created: BlockHeight,
    pub shard_id: ShardId,
    pub prev_gas_used: Gas,
    pub gas_limit: Gas,
    pub prev_balance_burnt: Balance,
    pub prev_outgoing_receipts_root: CryptoHash,
    pub tx_root: CryptoHash,
    pub prev_validator_proposals: Vec<ValidatorStake>,
}

/// The third inner shape: adds the opaque congestion summary.
#[derive(Debug, PartialEq, Eq)]
pub struct ShardChunkHeaderInnerV3 {
    pub prev_block_hash: CryptoHash,
    pub prev_state_root: StateRoot,
    pub prev_outcome_root: CryptoHash,
    pub encoded_merkle_root: CryptoHash,
    pub encoded_length: u64,
    pub height_created: BlockHeight,
    pub shard_id: ShardId,
    pub prev_gas_used: Gas,
    pub gas_limit: Gas,
    pub prev_balance_burnt: Balance,
    pub prev_outgoing_receipts_root: CryptoHash,
    pub tx_root: CryptoHash,
    pub prev_validator_proposals: Vec<ValidatorStake>,
    pub congestion_info: CongestionInfo,
}

/// The fourth inner shape: adds the opaque bandwidth-request payload.
#[derive(Debug, PartialEq, Eq)]
pub struct ShardChunkHeaderInnerV4 {
    pub prev_block_hash: CryptoHash,
    pub prev_state_root: StateRoot,
    pub prev_outcome_root: CryptoHash,
    pub encoded_merkle_root: CryptoHash,
    pub encoded_length: u64,
    pub height_created: BlockHeight,
    pub shard_id: ShardId,
    pub prev_gas_used: Gas,
    pub gas_limit: Gas,
    pub prev_balance_burnt: Balance,
    pub prev_outgoing_receipts_root: CryptoHash,
    pub tx_root: CryptoHash,
    pub prev_validator_proposals: Vec<ValidatorStake>,
    pub congestion_info: CongestionInfo,
    pub bandwidth_requests: BandwidthRequests,
}

/// One inner of any historical shape.
#[derive(Debug, PartialEq, Eq)]
pub enum ShardChunkHeaderInner {
    V1(ShardChunkHeaderInnerV1),
    V2(ShardChunkHeaderInnerV2),
    V3(ShardChunkHeaderInnerV3),
    V4(ShardChunkHeaderInnerV4),
}

// ---------------------------------------------------------------------------
// Serialization
// ---------------------------------------------------------------------------

/// The committed bytes of the original shape (no wire tag: the oldest
/// headers hash the bare record).
pub open spec fn ser_inner_v1(inner: ShardChunkHeaderInnerV1) -> Seq<u8> {
    inner.prev_block_hash@ + inner.prev_state_root@ + inner.prev_outcome_root@
        + inner.encoded_merkle_root@ + ser_u64(inner.encoded_length) + ser_u64(
        inner.height_created,
    ) + ser_u64(inner.shard_id) + ser_u64(inner.prev_gas_used) + ser_u64(inner.gas_limit)
        + ser_u128(inner.prev_balance_burnt) + inner.prev_outgoing_receipts_root@ + inner.tx_root@
        + ser_u32(inner.prev_validator_proposals@.len() as u32) + ser_validator_stakes(
        inner.prev_validator_proposals@,
    )
}

pub open spec fn ser_inner_v2(inner: ShardChunkHeaderInnerV2) -> Seq<u8> {
    inner.prev_block_hash@ + inner.prev_state_root@ + inner.prev_outcome_root@
        + inner.encoded_merkle_root@ + ser_u64(inner.encoded_length) + ser_u64(
        inner.height_created,
    ) + ser_u64(inner.shard_id) + ser_u64(inner.prev_gas_used) + ser_u64(inner.gas_limit)
        + ser_u128(inner.prev_balance_burnt) + inner.prev_outgoing_receipts_root@ + inner.tx_root@
        + ser_u32(inner.prev_validator_proposals@.len() as u32) + ser_validator_stakes(
        inner.prev_validator_proposals@,
    )
}

pub open spec fn ser_inner_v3(inner: ShardChunkHeaderInnerV3) -> Seq<u8> {
    inner.prev_block_hash@ + inner.prev_state_root@ + inner.prev_outcome_root@
        + inner.encoded_merkle_root@ + ser_u64(inner.encoded_length) + ser_u64(
        inner.height_created,
    ) + ser_u64(inner.shard_id) + ser_u64(inner.prev_gas_used) + ser_u64(inner.gas_limit)
        + ser_u128(inner.prev_balance_burnt) + inner.prev_outgoing_receipts_root@ + inner.tx_root@
        + ser_u32(inner.prev_validator_proposals@.len() as u32) + ser_validator_stakes(
        inner.prev_validator_proposals@,
    ) + ser_byte_record(inner.congestion_info.data@)
}

pub open spec fn ser_inner_v4(inner: ShardChunkHeaderInnerV4) -> Seq<u8> {
    inner.prev_block_hash@ + inner.prev_state_root@ + inner.prev_outcome_root@
        + inner.encoded_merkle_root@ + ser_u64(inner.encoded_length) + ser_u64(
        inner.height_created,
    ) + ser_u64(inner.shard_id) + ser_u64(inner.prev_gas_used) + ser_u64(inner.gas_limit)
        + ser_u128(inner.prev_balance_burnt) + inner.prev_outgoing_receipts_root@ + inner.tx_root@
        + ser_u32(inner.prev_validator_proposals@.len() as u32) + ser_validator_stakes(
        inner.prev_validator_proposals@,
    ) + ser_byte_record(inner.congestion_info.data@) + ser_byte_record(
        inner.bandwidth_requests.data@,
    )
}

/// The committed bytes of a versioned inner: a one-byte wire tag, then the
/// shape's fields. New fields enter only inside new variants, never inside
/// existing ones, so historical bytes stay stable.
pub open spec fn ser_inner(inner: ShardChunkHeaderInner) -> Seq<u8> {
    match inner {
        ShardChunkHeaderInner::V1(i) => seq![0u8] + ser_inner_v1(i),
        ShardChunkHeaderInner::V2(i) => seq![1u8] + ser_inner_v2(i),
        ShardChunkHeaderInner::V3(i) => seq![2u8] + ser_inner_v3(i),
        ShardChunkHeaderInner::V4(i) => seq![3u8] + ser_inner_v4(i),
    }
}

/// A V1 inner the codec can frame.
pub open spec fn inner_v1_valid(inner: ShardChunkHeaderInnerV1) -> bool {
    validator_stakes_valid(inner.prev_validator_proposals@)
}

pub open spec fn inner_v2_valid(inner: ShardChunkHeaderInnerV2) -> bool {
    validator_stakes_valid(inner.prev_validator_proposals@)
}

pub open spec fn inner_v3_valid(inner: ShardChunkHeaderInnerV3) -> bool {
    &&& validator_stakes_valid(inner.prev_validator_proposals@)
    &&& record_valid(inner.congestion_info.data@)
}

pub open spec fn inner_v4_valid(inner: ShardChunkHeaderInnerV4) -> bool {
    &&& validator_stakes_valid(inner.prev_validator_proposals@)
    &&& record_valid(inner.congestion_info.data@)
    &&& record_valid(inner.bandwidth_requests.data@)
}

/// An inner the codec can frame.
pub open spec fn inner_valid(inner: ShardChunkHeaderInner) -> bool {
    match inner {
        ShardChunkHeaderInner::V1(i) => inner_v1_valid(i),
        ShardChunkHeaderInner::V2(i) => inner_v2_valid(i),
        ShardChunkHeaderInner::V3(i) => inner_v3_valid(i),
        ShardChunkHeaderInner::V4(i) => inner_v4_valid(i),
    }
}

/// Append the committed bytes of a V1 inner.
pub fn write_inner_v1(out: &mut Vec<u8>, inner: &ShardChunkHeaderInnerV1)
    requires
        inner_v1_valid(*inner),
    ensures
        final(out)@ == old(out)@ + ser_inner_v1(*inner),
{
    write_hash(out, &inner.prev_block_hash);
    write_hash(out, &inner.prev_state_root);
    write_hash(out, &inner.prev_outcome_root);
    write_hash(out, &inner.encoded_merkle_root);
    write_u64(out, inner.encoded_length);
    write_u64(out, inner.height_created);
    write_u64(out, inner.shard_id);
    write_u64(out, inner.prev_gas_used);
    write_u64(out, inner.gas_limit);
    write_u128(out, inner.prev_balance_burnt);
    write_hash(out, &inner.prev_outgoing_receipts_root);
    write_hash(out, &inner.tx_root);
    write_u32(out, inner.prev_validator_proposals.len() as u32);
    write_validator_stakes(out, &inner.prev_validator_proposals);
    proof {
        assert(out@ =~= old(out)@ + ser_inner_v1(*inner));
    }
}

/// Append the committed bytes of a V2 inner.
pub fn write_inner_v2(out: &mut Vec<u8>, inner: &ShardChunkHeaderInnerV2)
    requires
        inner_v2_valid(*inner),
    ensures
        final(out)@ == old(out)@ + ser_inner_v2(*inner),
{
    write_hash(out, &inner.prev_block_hash);
    write_hash(out, &inner.prev_state_root);
    write_hash(out, &inner.prev_outcome_root);
    write_hash(out, &inner.encoded_merkle_root);
    write_u64(out, inner.encoded_length);
    write_u64(out, inner.height_created);
    write_u64(out, inner.shard_id);
    write_u64(out, inner.prev_gas_used);
    write_u64(out, inner.gas_limit);
    write_u128(out, inner.prev_balance_burnt);
    write_hash(out, &inner.prev_outgoing_receipts_root);
    write_hash(out, &inner.tx_root);
    write_u32(out, inner.prev_validator_proposals.len() as u32);
    write_validator_stakes(out, &inner.prev_validator_proposals);
    proof {
        assert(out@ =~= old(out)@ + ser_inner_v2(*inner));
    }
}

/// Append the committed bytes of a V3 inner.
pub fn write_inner_v3(out: &mut Vec<u8>, inner: &ShardChunkHeaderInnerV3)
    requires
        inner_v3_valid(*inner),
    ensures
        final(out)@ == old(out)@ + ser_inner_v3(*inner),
{
    write_hash(out, &inner.prev_block_hash);
    write_hash(out, &inner.prev_state_root);
    write_hash(out, &inner.prev_outcome_root);
    write_hash(out, &inner.encoded_merkle_root);
    write_u64(out, inner.encoded_length);
    write_u64(out, inner.height_created);
    write_u64(out, inner.shard_id);
    write_u64(out, inner.prev_gas_used);
    write_u64(out, inner.gas_limit);
    write_u128(out, inner.prev_balance_burnt);
    write_hash(out, &inner.prev_outgoing_receipts_root);
    write_hash(out, &inner.tx_root);
    write_u32(out, inner.prev_validator_proposals.len() as u32);
    write_validator_stakes(out, &inner.prev_validator_proposals);
    write_byte_record(out, inner.congestion_info.data.as_slice());
    proof {
        assert(out@ =~= old(out)@ + ser_inner_v3(*inner));
    }
}

/// Append the committed bytes of a V4 inner.
pub fn write_inner_v4(out: &mut Vec<u8>, inner: &ShardChunkHeaderInnerV4)
    requires
        inner_v4_valid(*inner),
    ensures
        final(out)@ == old(out)@ + ser_inner_v4(*inner),
{
    write_hash(out, &inner.prev_block_hash);
    write_hash(out, &inner.prev_state_root);
    write_hash(out, &inner.prev_outcome_root);
    write_hash(out, &inner.encoded_merkle_root);
    write_u64(out, inner.encoded_length);
    write_u64(out, inner.height_created);
    write_u64(out, inner.shard_id);
    write_u64(out, inner.prev_gas_used);
    write_u64(out, inner.gas_limit);
    write_u128(out, inner.prev_balance_burnt);
    write_hash(out, &inner.prev_outgoing_receipts_root);
    write_hash(out, &inner.tx_root);
    write_u32(out, inner.prev_validator_proposals.len() as u32);
    write_validator_stakes(out, &inner.prev_validator_proposals);
    write_byte_record(out, inner.congestion_info.data.as_slice());
    write_byte_record(out, inner.bandwidth_requests.data.as_slice());
    proof {
        assert(out@ =~= old(out)@ + ser_inner_v4(*inner));
    }
}

/// Serialize a versioned inner deterministically: the wire tag, then the
/// shape's fields.
pub fn encode_inner(inner: &ShardChunkHeaderInner) -> (r: Vec<u8>)
    requires
        inner_valid(*inner),
    ensures
        r@ == ser_inner(*inner),
{
    let mut out: Vec<u8> = Vec::new();
    match inner {
        ShardChunkHeaderInner::V1(i) => {
            out.push(0u8);
            write_inner_v1(&mut out, i);
        },
        ShardChunkHeaderInner::V2(i) => {
            out.push(1u8);
            write_inner_v2(&mut out, i);
        },
        ShardChunkHeaderInner::V3(i) => {
            out.push(2u8);
            write_inner_v3(&mut out, i);
        },
        ShardChunkHeaderInner::V4(i) => {
            out.push(3u8);
            write_inner_v4(&mut out, i);
        },
    }
    proof {
        assert(out@ =~= ser_inner(*inner));
    }
    out
}


// ---------------------------------------------------------------------------
// Congruence and cloning
// ---------------------------------------------------------------------------

/// Two V1 inners that hold the same values.
pub open spec fn inner_v1_congruent(a: ShardChunkHeaderInnerV1, b: ShardChunkHeaderInnerV1) -> bool {
    &&& a.prev_block_hash@ == b.prev_block_hash@
    &&& a.prev_state_root@ == b.prev_state_root@
    &&& a.prev_outcome_root@ == b.prev_outcome_root@
    &&& a.encoded_merkle_root@ == b.encoded_merkle_root@
    &&& a.encoded_length == b.encoded_length
    &&& a.height_created == b.height_created
    &&& a.shard_id == b.shard_id
    &&& a.prev_gas_used == b.prev_gas_used
    &&& a.gas_limit == b.gas_limit
    &&& a.prev_balance_burnt == b.prev_balance_burnt
    &&& a.prev_outgoing_receipts_root@ == b.prev_outgoing_receipts_root@
    &&& a.tx_root@ == b.tx_root@
    &&& stakes_congruent(a.prev_validator_proposals@, b.prev_validator_proposals@)
}

/// Two V2 inners that hold the same values.
pub open spec fn inner_v2_congruent(a: ShardChunkHeaderInnerV2, b: ShardChunkHeaderInnerV2) -> bool {
    &&& a.prev_block_hash@ == b.prev_block_hash@
    &&& a.prev_state_root@ == b.prev_state_root@
    &&& a.prev_outcome_root@ == b.prev_outcome_root@
    &&& a.encoded_merkle_root@ == b.encoded_merkle_root@
    &&& a.encoded_length == b.encoded_length
    &&& a.height_created == b.height_created
    &&& a.shard_id == b.shard_id
    &&& a.prev_gas_used == b.prev_gas_used
    &&& a.gas_limit == b.gas_limit
    &&& a.prev_balance_burnt == b.prev_balance_burnt
    &&& a.prev_outgoing_receipts_root@ == b.prev_outgoing_receipts_root@
    &&& a.tx_root@ == b.tx_root@
    &&& stakes_congruent(a.prev_validator_proposals@, b.prev_validator_proposals@)
}

/// Two V3 inners that hold the same values.
pub open spec fn inner_v3_congruent(a: ShardChunkHeaderInnerV3, b: ShardChunkHeaderInnerV3) -> bool {
    &&& a.prev_block_hash@ == b.prev_block_hash@
    &&& a.prev_state_root@ == b.prev_state_root@
    &&& a.prev_outcome_root@ == b.prev_outcome_root@
    &&& a.encoded_merkle_root@ == b.encoded_merkle_root@
    &&& a.encoded_length == b.encoded_length
    &&& a.height_created == b.height_created
    &&& a.shard_id == b.shard_id
    &&& a.prev_gas_used == b.prev_gas_used
    &&& a.gas_limit == b.gas_limit
    &&& a.prev_balance_burnt == b.prev_balance_burnt
    &&& a.prev_outgoing_receipts_root@ == b.prev_outgoing_receipts_root@
    &&& a.tx_root@ == b.tx_root@
    &&& stakes_congruent(a.prev_validator_proposals@, b.prev_validator_proposals@)
    &&& a.congestion_info.data@ == b.congestion_info.data@
}

/// Two V4 inners that hold the same values.
pub open spec fn inner_v4_congruent(a: ShardChunkHeaderInnerV4, b: ShardChunkHeaderInnerV4) -> bool {
    &&& a.prev_block_hash@ == b.prev_block_hash@
    &&& a.prev_state_root@ == b.prev_state_root@
    &&& a.prev_outcome_root@ == b.prev_outcome_root@
    &&& a.encoded_merkle_root@ == b.encoded_merkle_root@
    &&& a.encoded_length == b.encoded_length
    &&& a.height_created == b.height_created
    &&& a.shard_id == b.shard_id
    &&& a.prev_gas_used == b.prev_gas_used
    &&& a.gas_limit == b.gas_limit
    &&& a.prev_balance_burnt == b.prev_balance_burnt
    &&& a.prev_outgoing_receipts_root@ == b.prev_outgoing_receipts_root@
    &&& a.tx_root@ == b.tx_root@
    &&& stakes_congruent(a.prev_validator_proposals@, b.prev_validator_proposals@)
    &&& a.congestion_info.data@ == b.congestion_info.data@
    &&& a.bandwidth_requests.data@ == b.bandwidth_requests.data@
}

/// Two versioned inners of the same shape that hold the same values.
pub open spec fn inner_congruent(a: ShardChunkHeaderInner, b: ShardChunkHeaderInner) -> bool {
    match a {
        ShardChunkHeaderInner::V1(x) => b is V1 && inner_v1_congruent(x, b->V1_0),
        ShardChunkHeaderInner::V2(x) => b is V2 && inner_v2_congruent(x, b->V2_0),
        ShardChunkHeaderInner::V3(x) => b is V3 && inner_v3_congruent(x, b->V3_0),
        ShardChunkHeaderInner::V4(x) => b is V4 && inner_v4_congruent(x, b->V4_0),
    }
}

impl Clone for ShardChunkHeaderInnerV1 {
    fn clone(&self) -> (r: Self)
        ensures
            inner_v1_congruent(r, *self),
    {
        ShardChunkHeaderInnerV1 {
            prev_block_hash: self.prev_block_hash,
            prev_state_root: self.prev_state_root,
            prev_outcome_root: self.prev_outcome_root,
            encoded_merkle_root: self.encoded_merkle_root,
            encoded_length: self.encoded_length,
            height_created: self.height_created,
            shard_id: self.shard_id,
            prev_gas_used: self.prev_gas_used,
            gas_limit: self.gas_limit,
            prev_balance_burnt: self.prev_balance_burnt,
            prev_outgoing_receipts_root: self.prev_outgoing_receipts_root,
            tx_root: self.tx_root,
            prev_validator_proposals: clone_stakes(&self.prev_validator_proposals),
        }
    }
}

impl Clone for ShardChunkHeaderInnerV2 {
    fn clone(&self) -> (r: Self)
        ensures
            inner_v2_congruent(r, *self),
    {
        ShardChunkHeaderInnerV2 {
            prev_block_hash: self.prev_block_hash,
            prev_state_root: self.prev_state_root,
            prev_outcome_root: self.prev_outcome_root,
            encoded_merkle_root: self.encoded_merkle_root,
            encoded_length: self.encoded_length,
            height_created: self.height_created,
            shard_id: self.shard_id,
            prev_gas_used: self.prev_gas_used,
            gas_limit: self.gas_limit,
            prev_balance_burnt: self.prev_balance_burnt,
            prev_outgoing_receipts_root: self.prev_outgoing_receipts_root,
            tx_root: self.tx_root,
            prev_validator_proposals: clone_stakes(&self.prev_validator_proposals),
        }
    }
}

impl Clone for ShardChunkHeaderInnerV3 {
    fn clone(&self) -> (r: Self)
        ensures
            inner_v3_congruent(r, *self),
    {
        ShardChunkHeaderInnerV3 {
            prev_block_hash: self.prev_block_hash,
            prev_state_root: self.prev_state_root,
            prev_outcome_root: self.prev_outcome_root,
            encoded_merkle_root: self.encoded_merkle_root,
            encoded_length: self.encoded_length,
            height_created: self.height_created,
            shard_id: self.shard_id,
            prev_gas_used: self.prev_gas_used,
            gas_limit: self.gas_limit,
            prev_balance_burnt: self.prev_balance_burnt,
            prev_outgoing_receipts_root: self.prev_outgoing_receipts_root,
            tx_root: self.tx_root,
            prev_validator_proposals: clone_stakes(&self.prev_validator_proposals),
            congestion_info: self.congestion_info.clone(),
        }
    }
}

impl Clone for ShardChunkHeaderInnerV4 {
    fn clone(&self) -> (r: Self)
        ensures
            inner_v4_congruent(r, *self),
    {
        ShardChunkHeaderInnerV4 {
            prev_block_hash: self.prev_block_hash,
            prev_state_root: self.prev_state_root,
            prev_outcome_root: self.prev_outcome_root,
            encoded_merkle_root: self.encoded_merkle_root,
            encoded_length: self.encoded_length,
            height_created: self.height_created,
            shard_id: self.shard_id,
            prev_gas_used: self.prev_gas_used,
            gas_limit: self.gas_limit,
            prev_balance_burnt: self.prev_balance_burnt,
            prev_outgoing_receipts_root: self.prev_outgoing_receipts_root,
            tx_root: self.tx_root,
            prev_validator_proposals: clone_stakes(&self.prev_validator_proposals),
            congestion_info: self.congestion_info.clone(),
            bandwidth_requests: self.bandwidth_requests.clone(),
        }
    }
}

impl Clone for ShardChunkHeaderInner {
    fn clone(&self) -> (r: Self)
        ensures
            inner_congruent(r, *self),
    {
        match self {
            ShardChunkHeaderInner::V1(i) => ShardChunkHeaderInner::V1(i.clone()),
            ShardChunkHeaderInner::V2(i) => ShardChunkHeaderInner::V2(i.clone()),
            ShardChunkHeaderInner::V3(i) => ShardChunkHeaderInner::V3(i.clone()),
            ShardChunkHeaderInner::V4(i) => ShardChunkHeaderInner::V4(i.clone()),
        }
    }
}

/// Congruent inners serialize to the same bytes, are framable together,
/// and agree on every uniform accessor.
pub proof fn lemma_ser_inner_congruent(a: ShardChunkHeaderInner, b: ShardChunkHeaderInner)
    requires
        inner_congruent(a, b),
    ensures
        ser_inner(a) == ser_inner(b),
        inner_valid(a) <==> inner_valid(b),
        a.spec_encoded_merkle_root()@ == b.spec_encoded_merkle_root()@,
        a.spec_version_number() == b.spec_version_number(),
{
    match a {
        ShardChunkHeaderInner::V1(x) => {
            lemma_ser_stakes_congruent(
                x.prev_validator_proposals@,
                b->V1_0.prev_validator_proposals@,
            );
        },
        ShardChunkHeaderInner::V2(x) => {
            lemma_ser_stakes_congruent(
                x.prev_validator_proposals@,
                b->V2_0.prev_validator_proposals@,
            );
        },
        ShardChunkHeaderInner::V3(x) => {
            lemma_ser_stakes_congruent(
                x.prev_validator_proposals@,
                b->V3_0.prev_validator_proposals@,
            );
        },
        ShardChunkHeaderInner::V4(x) => {
            lemma_ser_stakes_congruent(
                x.prev_validator_proposals@,
                b->V4_0.prev_validator_proposals@,
            );
        },
    }
}

// ---------------------------------------------------------------------------
// Uniform read access across shapes
// ---------------------------------------------------------------------------

impl ShardChunkHeaderInner {
    /// The wire tag number of this shape, for diagnostics.
    pub fn version_number(&self) -> (r: u64)
        ensures
            r == self.spec_version_number(),
    {
        match self {
            ShardChunkHeaderInner::V1(_) => 1,
            ShardChunkHeaderInner::V2(_) => 2,
            ShardChunkHeaderInner::V3(_) => 3,
            ShardChunkHeaderInner::V4(_) => 4,
        }
    }

    pub open spec fn spec_version_number(&self) -> u64 {
        match self {
            ShardChunkHeaderInner::V1(_) => 1,
            ShardChunkHeaderInner::V2(_) => 2,
            ShardChunkHeaderInner::V3(_) => 3,
            ShardChunkHeaderInner::V4(_) => 4,
        }
    }

    pub open spec fn spec_prev_block_hash(&self) -> CryptoHash {
        match self {
            ShardChunkHeaderInner::V1(i) => i.prev_block_hash,
            ShardChunkHeaderInner::V2(i) => i.prev_block_hash,
            ShardChunkHeaderInner::V3(i) => i.prev_block_hash,
            ShardChunkHeaderInner::V4(i) => i.prev_block_hash,
        }
    }

    pub fn prev_block_hash(&self) -> (r: &CryptoHash)
        ensures
            *r == self.spec_prev_block_hash(),
    {
        match self {
            ShardChunkHeaderInner::V1(i) => &i.prev_block_hash,
            ShardChunkHeaderInner::V2(i) => &i.prev_block_hash,
            ShardChunkHeaderInner::V3(i) => &i.prev_block_hash,
            ShardChunkHeaderInner::V4(i) => &i.prev_block_hash,
        }
    }

    pub open spec fn spec_prev_state_root(&self) -> StateRoot {
        match self {
            ShardChunkHeaderInner::V1(i) => i.prev_state_root,
            ShardChunkHeaderInner::V2(i) => i.prev_state_root,
            ShardChunkHeaderInner::V3(i) => i.prev_state_root,
            ShardChunkHeaderInner::V4(i) => i.prev_state_root,
        }
    }

    pub fn prev_state_root(&self) -> (r: &StateRoot)
        ensures
            *r == self.spec_prev_state_root(),
    {
        match self {
            ShardChunkHeaderInner::V1(i) => &i.prev_state_root,
            ShardChunkHeaderInner::V2(i) => &i.prev_state_root,
            ShardChunkHeaderInner::V3(i) => &i.prev_state_root,
            ShardChunkHeaderInner::V4(i) => &i.prev_state_root,
        }
    }

    pub open spec fn spec_prev_outcome_root(&self) -> CryptoHash {
        match self {
            ShardChunkHeaderInner::V1(i) => i.prev_outcome_root,
            ShardChunkHeaderInner::V2(i) => i.prev_outcome_root,
            ShardChunkHeaderInner::V3(i) => i.prev_outcome_root,
            ShardChunkHeaderInner::V4(i) => i.prev_outcome_root,
        }
    }

    pub fn prev_outcome_root(&self) -> (r: &CryptoHash)
        ensures
            *r == self.spec_prev_outcome_root(),
    {
        match self {
            ShardChunkHeaderInner::V1(i) => &i.prev_outcome_root,
            ShardChunkHeaderInner::V2(i) => &i.prev_outcome_root,
            ShardChunkHeaderInner::V3(i) => &i.prev_outcome_root,
            ShardChunkHeaderInner::V4(i) => &i.prev_outcome_root,
        }
    }

    pub open spec fn spec_encoded_merkle_root(&self) -> CryptoHash {
        match self {
            ShardChunkHeaderInner::V1(i) => i.encoded_merkle_root,
            ShardChunkHeaderInner::V2(i) => i.encoded_merkle_root,
            ShardChunkHeaderInner::V3(i) => i.encoded_merkle_root,
            ShardChunkHeaderInner::V4(i) => i.encoded_merkle_root,
        }
    }

    pub fn encoded_merkle_root(&self) -> (r: &CryptoHash)
        ensures
            *r == self.spec_encoded_merkle_root(),
    {
        match self {
            ShardChunkHeaderInner::V1(i) => &i.encoded_merkle_root,
            ShardChunkHeaderInner::V2(i) => &i.encoded_merkle_root,
            ShardChunkHeaderInner::V3(i) => &i.encoded_merkle_root,
            ShardChunkHeaderInner::V4(i) => &i.encoded_merkle_root,
        }
    }

    pub open spec fn spec_encoded_length(&self) -> u64 {
        match self {
            ShardChunkHeaderInner::V1(i) => i.encoded_length,
            ShardChunkHeaderInner::V2(i) => i.encoded_length,
            ShardChunkHeaderInner::V3(i) => i.encoded_length,
            ShardChunkHeaderInner::V4(i) => i.encoded_length,
        }
    }

    pub fn encoded_length(&self) -> (r: u64)
        ensures
            r == self.spec_encoded_length(),
    {
        match self {
            ShardChunkHeaderInner::V1(i) => i.encoded_length,
            ShardChunkHeaderInner::V2(i) => i.encoded_length,
            ShardChunkHeaderInner::V3(i) => i.encoded_length,
            ShardChunkHeaderInner::V4(i) => i.encoded_length,
        }
    }

    pub open spec fn spec_height_created(&self) -> BlockHeight {
        match self {
            ShardChunkHeaderInner::V1(i) => i.height_created,
            ShardChunkHeaderInner::V2(i) => i.height_created,
            ShardChunkHeaderInner::V3(i) => i.height_created,
            ShardChunkHeaderInner::V4(i) => i.height_created,
        }
    }

    pub fn height_created(&self) -> (r: BlockHeight)
        ensures
            r == self.spec_height_created(),
    {
        match self {
            ShardChunkHeaderInner::V1(i) => i.height_created,
            ShardChunkHeaderInner::V2(i) => i.height_created,
            ShardChunkHeaderInner::V3(i) => i.height_created,
            ShardChunkHeaderInner::V4(i) => i.height_created,
        }
    }

    pub open spec fn spec_shard_id(&self) -> ShardId {
        match self {
            ShardChunkHeaderInner::V1(i) => i.shard_id,
            ShardChunkHeaderInner::V2(i) => i.shard_id,
            ShardChunkHeaderInner::V3(i) => i.shard_id,
            ShardChunkHeaderInner::V4(i) => i.shard_id,
        }
    }

    pub fn shard_id(&self) -> (r: ShardId)
        ensures
            r == self.spec_shard_id(),
    {
        match self {
            ShardChunkHeaderInner::V1(i) => i.shard_id,
            ShardChunkHeaderInner::V2(i) => i.shard_id,
            ShardChunkHeaderInner::V3(i) => i.shard_id,
            ShardChunkHeaderInner::V4(i) => i.shard_id,
        }
    }

    pub open spec fn spec_prev_gas_used(&self) -> Gas {
        match self {
            ShardChunkHeaderInner::V1(i) => i.prev_gas_used,
            ShardChunkHeaderInner::V2(i) => i.prev_gas_used,
            ShardChunkHeaderInner::V3(i) => i.prev_gas_used,
            ShardChunkHeaderInner::V4(i) => i.prev_gas_used,
        }
    }

    pub fn prev_gas_used(&self) -> (r: Gas)
        ensures
            r == self.spec_prev_gas_used(),
    {
        match self {
            ShardChunkHeaderInner::V1(i) => i.prev_gas_used,
            ShardChunkHeaderInner::V2(i) => i.prev_gas_used,
            ShardChunkHeaderInner::V3(i) => i.prev_gas_used,
            ShardChunkHeaderInner::V4(i) => i.prev_gas_used,
        }
    }

    pub open spec fn spec_gas_limit(&self) -> Gas {
        match self {
            ShardChunkHeaderInner::V1(i) => i.gas_limit,
            ShardChunkHeaderInner::V2(i) => i.gas_limit,
            ShardChunkHeaderInner::V3(i) => i.gas_limit,
            ShardChunkHeaderInner::V4(i) => i.gas_limit,
        }
    }

    pub fn gas_limit(&self) -> (r: Gas)
        ensures
            r == self.spec_gas_limit(),
    {
        match self {
            ShardChunkHeaderInner::V1(i) => i.gas_limit,
            ShardChunkHeaderInner::V2(i) => i.gas_limit,
            ShardChunkHeaderInner::V3(i) => i.gas_limit,
            ShardChunkHeaderInner::V4(i) => i.gas_limit,
        }
    }

    pub open spec fn spec_prev_balance_burnt(&self) -> Balance {
        match self {
            ShardChunkHeaderInner::V1(i) => i.prev_balance_burnt,
            ShardChunkHeaderInner::V2(i) => i.prev_balance_burnt,
            ShardChunkHeaderInner::V3(i) => i.prev_balance_burnt,
            ShardChunkHeaderInner::V4(i) => i.prev_balance_burnt,
        }
    }

    pub fn prev_balance_burnt(&self) -> (r: Balance)
        ensures
            r == self.spec_prev_balance_burnt(),
    {
        match self {
            ShardChunkHeaderInner::V1(i) => i.prev_balance_burnt,
            ShardChunkHeaderInner::V2(i) => i.prev_balance_burnt,
            ShardChunkHeaderInner::V3(i) => i.prev_balance_burnt,
            ShardChunkHeaderInner::V4(i) => i.prev_balance_burnt,
        }
    }

    pub open spec fn spec_prev_outgoing_receipts_root(&self) -> CryptoHash {
        match self {
            ShardChunkHeaderInner::V1(i) => i.prev_outgoing_receipts_root,
            ShardChunkHeaderInner::V2(i) => i.prev_outgoing_receipts_root,
            ShardChunkHeaderInner::V3(i) => i.prev_outgoing_receipts_root,
            ShardChunkHeaderInner::V4(i) => i.prev_outgoing_receipts_root,
        }
    }

    pub fn prev_outgoing_receipts_root(&self) -> (r: &CryptoHash)
        ensures
            *r == self.spec_prev_outgoing_receipts_root(),
    {
        match self {
            ShardChunkHeaderInner::V1(i) => &i.prev_outgoing_receipts_root,
            ShardChunkHeaderInner::V2(i) => &i.prev_outgoing_receipts_root,
            ShardChunkHeaderInner::V3(i) => &i.prev_outgoing_receipts_root,
            ShardChunkHeaderInner::V4(i) => &i.prev_outgoing_receipts_root,
        }
    }

    pub open spec fn spec_tx_root(&self) -> CryptoHash {
        match self {
            ShardChunkHeaderInner::V1(i) => i.tx_root,
            ShardChunkHeaderInner::V2(i) => i.tx_root,
            ShardChunkHeaderInner::V3(i) => i.tx_root,
            ShardChunkHeaderInner::V4(i) => i.tx_root,
        }
    }

    pub fn tx_root(&self) -> (r: &CryptoHash)
        ensures
            *r == self.spec_tx_root(),
    {
        match self {
            ShardChunkHeaderInner::V1(i) => &i.tx_root,
            ShardChunkHeaderInner::V2(i) => &i.tx_root,
            ShardChunkHeaderInner::V3(i) => &i.tx_root,
            ShardChunkHeaderInner::V4(i) => &i.tx_root,
        }
    }

    pub open spec fn spec_prev_validator_proposals(&self) -> Seq<ValidatorStake> {
        match self {
            ShardChunkHeaderInner::V1(i) => i.prev_validator_proposals@,
            ShardChunkHeaderInner::V2(i) => i.prev_validator_proposals@,
            ShardChunkHeaderInner::V3(i) => i.prev_validator_proposals@,
            ShardChunkHeaderInner::V4(i) => i.prev_validator_proposals@,
        }
    }

    pub fn prev_validator_proposals(&self) -> (r: &Vec<ValidatorStake>)
        ensures
            r@ == self.spec_prev_validator_proposals(),
    {
        match self {
            ShardChunkHeaderInner::V1(i) => &i.prev_validator_proposals,
            ShardChunkHeaderInner::V2(i) => &i.prev_validator_proposals,
            ShardChunkHeaderInner::V3(i) => &i.prev_validator_proposals,
            ShardChunkHeaderInner::V4(i) => &i.prev_validator_proposals,
        }
    }

    /// The congestion summary, carried from the third shape onward.
    pub open spec fn spec_congestion_info(&self) -> Option<CongestionInfo> {
        match self {
            ShardChunkHeaderInner::V1(_) => None,
            ShardChunkHeaderInner::V2(_) => None,
            ShardChunkHeaderInner::V3(i) => Some(i.congestion_info),
            ShardChunkHeaderInner::V4(i) => Some(i.congestion_info),
        }
    }

    pub fn congestion_info(&self) -> (r: Option<&CongestionInfo>)
        ensures
            match r {
                Some(c) => self.spec_congestion_info() == Some(*c),
                None => self.spec_congestion_info() is None,
            },
    {
        match self {
            ShardChunkHeaderInner::V1(_) => None,
            ShardChunkHeaderInner::V2(_) => None,
            ShardChunkHeaderInner::V3(i) => Some(&i.congestion_info),
            ShardChunkHeaderInner::V4(i) => Some(&i.congestion_info),
        }
    }

    /// The bandwidth-request payload, carried from the fourth shape onward.
    pub open spec fn spec_bandwidth_requests(&self) -> Option<BandwidthRequests> {
        match self {
            ShardChunkHeaderInner::V1(_) => None,
            ShardChunkHeaderInner::V2(_) => None,
            ShardChunkHeaderInner::V3(_) => None,
            ShardChunkHeaderInner::V4(i) => Some(i.bandwidth_requests),
        }
    }

    pub fn bandwidth_requests(&self) -> (r: Option<&BandwidthRequests>)
        ensures
            match r {
                Some(b) => self.spec_bandwidth_requests() == Some(*b),
                None => self.spec_bandwidth_requests() is None,
            },
    {
        match self {
            ShardChunkHeaderInner::V1(_) => None,
            ShardChunkHeaderInner::V2(_) => None,
            ShardChunkHeaderInner::V3(_) => None,
            ShardChunkHeaderInner::V4(i) => Some(&i.bandwidth_requests),
        }
    }
}

} // verus!
