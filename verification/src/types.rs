//! Plain domain values carried through chunk headers: identifiers,
//! amounts, the producer signature, validator-stake proposals, and the two
//! opaque payloads whose presence the header protocol gates by protocol
//! version.

use crate::codec::codec_limit;
use crate::codec::copy_bytes;
use crate::codec::record_valid;
use crate::codec::ser_byte_record;
use crate::codec::ser_u128;
use crate::codec::write_byte_record;
use crate::codec::write_u128;
use vstd::prelude::*;

verus! {

/// Height of a block in the chain.
pub type BlockHeight = u64;

/// Identifier of a shard.
pub type ShardId = u64;

/// An amount of gas.
pub type Gas = u64;

/// An amount of tokens.
pub type Balance = u128;

/// The chain's protocol version: a monotonically increasing integer with
/// named activation thresholds.
pub type ProtocolVersion = u32;

/// A producer signature over a chunk hash. The byte string is opaque to
/// this layer: it is stored and forwarded, never inspected.
#[derive(Debug, PartialEq, Eq)]
pub struct Signature {
    pub data: Vec<u8>,
}

impl Clone for Signature {
    fn clone(&self) -> (r: Self)
        ensures
            r.data@ == self.data@,
    {
        Signature { data: copy_bytes(self.data.as_slice()) }
    }
}

impl Signature {
    /// The signature of the no-op signer, used by dummy headers.
    pub fn empty() -> (r: Self)
        ensures
            r.data@ == Seq::<u8>::empty(),
    {
        Signature { data: Vec::new() }
    }
}

impl Default for Signature {
    fn default() -> (r: Self)
        ensures
            r.data@ == Seq::<u8>::empty(),
    {
        Signature::empty()
    }
}

/// One validator-stake proposal from the previous epoch: who staked how
/// much under which key. Carried and hashed; never interpreted here.
#[derive(Debug, PartialEq, Eq)]
pub struct ValidatorStake {
    pub account_id: Vec<u8>,
    pub public_key: Vec<u8>,
    pub stake: Balance,
}

/// Two proposals that hold the same bytes and amount.
pub open spec fn stake_congruent(a: ValidatorStake, b: ValidatorStake) -> bool {
    &&& a.account_id@ == b.account_id@
    &&& a.public_key@ == b.public_key@
    &&& a.stake == b.stake
}

/// Two proposal sequences that hold the same values position by position.
pub open spec fn stakes_congruent(a: Seq<ValidatorStake>, b: Seq<ValidatorStake>) -> bool {
    &&& a.len() == b.len()
    &&& forall|i: int| 0 <= i < a.len() ==> stake_congruent(#[trigger] a[i], #[trigger] b[i])
}

impl Clone for ValidatorStake {
    fn clone(&self) -> (r: Self)
        ensures
            stake_congruent(r, *self),
    {
        ValidatorStake {
            account_id: copy_bytes(self.account_id.as_slice()),
            public_key: copy_bytes(self.public_key.as_slice()),
            stake: self.stake,
        }
    }
}

/// A proposal the codec can frame.
pub open spec fn validator_stake_valid(v: ValidatorStake) -> bool {
    &&& record_valid(v.account_id@)
    &&& record_valid(v.public_key@)
}

/// The bytes a proposal commits to.
pub open spec fn ser_validator_stake(v: ValidatorStake) -> Seq<u8> {
    ser_byte_record(v.account_id@) + ser_byte_record(v.public_key@) + ser_u128(v.stake)
}

/// Append one proposal's bytes.
pub fn write_validator_stake(out: &mut Vec<u8>, v: &ValidatorStake)
    requires
        validator_stake_valid(*v),
    ensures
        final(out)@ == old(out)@ + ser_validator_stake(*v),
{
    write_byte_record(out, v.account_id.as_slice());
    write_byte_record(out, v.public_key.as_slice());
    write_u128(out, v.stake);
    proof {
        assert(out@ =~= old(out)@ + ser_validator_stake(*v));
    }
}

/// The ordered proposals of a header, each framed in order.
pub open spec fn ser_validator_stakes(vs: Seq<ValidatorStake>) -> Seq<u8>
    decreases vs.len(),
{
    if vs.len() == 0 {
        Seq::empty()
    } else {
        ser_validator_stake(vs[0]) + ser_validator_stakes(vs.drop_first())
    }
}

/// Every proposal the codec can frame, and a count the prefix can carry.
pub open spec fn validator_stakes_valid(vs: Seq<ValidatorStake>) -> bool {
    &&& vs.len() < codec_limit()
    &&& forall|i: int| 0 <= i < vs.len() ==> validator_stake_valid(#[trigger] vs[i])
}

/// Serializing one more proposal appends its bytes at the end.
pub proof fn lemma_ser_validator_stakes_push(vs: Seq<ValidatorStake>, v: ValidatorStake)
    ensures
        ser_validator_stakes(vs.push(v)) == ser_validator_stakes(vs) + ser_validator_stake(v),
    decreases vs.len(),
{
    if vs.len() == 0 {
        assert(vs.push(v)[0] == v);
        assert(vs.push(v).drop_first() =~= Seq::<ValidatorStake>::empty());
        assert(ser_validator_stakes(vs.push(v)) == ser_validator_stake(v) + ser_validator_stakes(
            Seq::<ValidatorStake>::empty(),
        ));
        assert(ser_validator_stakes(vs.push(v)) =~= ser_validator_stakes(vs)
            + ser_validator_stake(v));
    } else {
        assert(vs.push(v)[0] == vs[0]);
        assert(vs.push(v).drop_first() =~= vs.drop_first().push(v));
        lemma_ser_validator_stakes_push(vs.drop_first(), v);
        assert(ser_validator_stakes(vs.push(v)) =~= ser_validator_stakes(vs)
            + ser_validator_stake(v));
    }
}

/// Append the proposals' bytes, in order.
pub fn write_validator_stakes(out: &mut Vec<u8>, vs: &Vec<ValidatorStake>)
    requires
        validator_stakes_valid(vs@),
    ensures
        final(out)@ == old(out)@ + ser_validator_stakes(vs@),
{
    let mut i: usize = 0;
    while i < vs.len()
        invariant
            i <= vs@.len(),
            validator_stakes_valid(vs@),
            out@ == old(out)@ + ser_validator_stakes(vs@.take(i as int)),
        decreases vs@.len() - i,
    {
        proof {
            lemma_ser_validator_stakes_push(vs@.take(i as int), vs@[i as int]);
            assert(vs@.take(i as int).push(vs@[i as int]) =~= vs@.take(i as int + 1));
        }
        write_validator_stake(out, &vs[i]);
        i = i + 1;
    }
    proof {
        assert(vs@.take(vs@.len() as int) =~= vs@);
    }
}

/// Clone a proposal list, keeping every value.
pub fn clone_stakes(vs: &Vec<ValidatorStake>) -> (r: Vec<ValidatorStake>)
    ensures
        stakes_congruent(r@, vs@),
{
    let mut out: Vec<ValidatorStake> = Vec::new();
    let mut i: usize = 0;
    while i < vs.len()
        invariant
            i <= vs@.len(),
            out@.len() == i as int,
            forall|k: int| 0 <= k < i ==> stake_congruent(#[trigger] out@[k], #[trigger] vs@[k]),
        decreases vs@.len() - i,
    {
        out.push(vs[i].clone());
        i = i + 1;
    }
    out
}

/// Congruent proposal sequences serialize to the same bytes and are
/// framable together.
pub proof fn lemma_ser_stakes_congruent(a: Seq<ValidatorStake>, b: Seq<ValidatorStake>)
    requires
        stakes_congruent(a, b),
    ensures
        ser_validator_stakes(a) == ser_validator_stakes(b),
        validator_stakes_valid(a) <==> validator_stakes_valid(b),
    decreases a.len(),
{
    if a.len() == 0 {
    } else {
        assert(stake_congruent(a[0], b[0]));
        assert(ser_validator_stake(a[0]) == ser_validator_stake(b[0]));
        assert(stakes_congruent(a.drop_first(), b.drop_first())) by {
            assert forall|i: int|
                0 <= i < a.drop_first().len() implies stake_congruent(
                #[trigger] a.drop_first()[i],
                #[trigger] b.drop_first()[i],
            ) by {
                assert(a.drop_first()[i] == a[i + 1]);
                assert(b.drop_first()[i] == b[i + 1]);
            }
        }
        lemma_ser_stakes_congruent(a.drop_first(), b.drop_first());
    }
    if validator_stakes_valid(a) {
        assert forall|i: int| 0 <= i < b.len() implies validator_stake_valid(#[trigger] b[i]) by {
            assert(stake_congruent(a[i], b[i]));
            assert(validator_stake_valid(a[i]));
        }
    }
    if validator_stakes_valid(b) {
        assert forall|i: int| 0 <= i < a.len() implies validator_stake_valid(#[trigger] a[i]) by {
            assert(stake_congruent(a[i], b[i]));
            assert(validator_stake_valid(b[i]));
        }
    }
}

/// The congestion summary: an opaque, already-computed payload that the
/// header carries through hashing and signing untouched.
#[derive(Debug, PartialEq, Eq)]
pub struct CongestionInfo {
    pub data: Vec<u8>,
}

impl Clone for CongestionInfo {
    fn clone(&self) -> (r: Self)
        ensures
            r.data@ == self.data@,
    {
        CongestionInfo { data: copy_bytes(self.data.as_slice()) }
    }
}

impl Default for CongestionInfo {
    fn default() -> (r: Self)
        ensures
            r.data@ == Seq::<u8>::empty(),
    {
        CongestionInfo { data: Vec::new() }
    }
}

/// The bandwidth-request payload: opaque to this layer, gated by the
/// bandwidth-scheduler protocol threshold.
#[derive(Debug, PartialEq, Eq)]
pub struct BandwidthRequests {
    pub data: Vec<u8>,
}

impl Clone for BandwidthRequests {
    fn clone(&self) -> (r: Self)
        ensures
            r.data@ == self.data@,
    {
        BandwidthRequests { data: copy_bytes(self.data.as_slice()) }
    }
}

impl Default for BandwidthRequests {
    fn default() -> (r: Self)
        ensures
            r.data@ == Seq::<u8>::empty(),
    {
        BandwidthRequests { data: Vec::new() }
    }
}

} // verus!
