//! The erasure codec: a fixed split into data and parity shards, wrapped
//! around the Reed-Solomon implementation of the `reed_solomon_erasure`
//! crate. The wrappers here are the only trusted boundary of the body
//! codec; everything above them is verified against their contracts.

use vstd::prelude::*;

verus! {

/// The wrapped Reed-Solomon instance, opaque to the verifier: its
/// generic field-trait bound cannot be declared, so the instance is held
/// behind this sealed struct and reached only from the wrappers below.
#[verifier::external_body]
struct RsInstance {
    rs: reed_solomon_erasure::galois_8::ReedSolomon,
}

/// The parity shards that Reed-Solomon encoding appends to the given data
/// shards: a function of the data shards and the parity count alone.
pub uninterp spec fn rs_parity_shards(data: Seq<Seq<u8>>, parity: nat) -> Seq<Seq<u8>>;

/// The full codeword over the given data shards: the data shards followed
/// by their parity shards.
pub open spec fn rs_codeword(data: Seq<Seq<u8>>, parity: nat) -> Seq<Seq<u8>> {
    data + rs_parity_shards(data, parity)
}

/// How many slots of a fragment array are filled.
pub open spec fn count_present(parts: Seq<Option<Vec<u8>>>) -> nat
    decreases parts.len(),
{
    if parts.len() == 0 {
        0
    } else {
        count_present(parts.drop_last()) + (if parts.last() is Some {
            1nat
        } else {
            0nat
        })
    }
}

/// Why an erasure codec could not be constructed.
#[derive(Clone, Copy, Debug, PartialEq, Eq, Structural)]
pub enum ErasureError {
    /// Zero data shards, zero parity shards, or more than 256 in total.
    InvalidShardCounts,
}

/// A Reed-Solomon codec over a fixed number of data and parity shards.
/// The only constructor ties the wrapped instance to the recorded counts.
pub struct ErasureCodec {
    rs: RsInstance,
    data_parts: usize,
    parity_parts: usize,
    total_parts: usize,
}

impl ErasureCodec {
    /// The number of data shards, sufficient to reconstruct the payload.
    pub closed spec fn spec_data_parts(&self) -> usize {
        self.data_parts
    }

    /// The number of parity shards, tolerating that many lost fragments.
    pub closed spec fn spec_parity_parts(&self) -> usize {
        self.parity_parts
    }

    /// The total number of shards in a codeword.
    pub closed spec fn spec_total_parts(&self) -> usize {
        self.total_parts
    }

    /// Relies on `reed_solomon_erasure::ReedSolomon::new`: construction
    /// succeeds exactly when both counts are nonzero and the total is at
    /// most 256, the order of the underlying 8-bit field. Counts beyond
    /// the field order are ruled out up front: far past it the library
    /// would abort on the absurd matrix dimensions instead of returning
    /// its error.
    #[verifier::external_body]
    pub fn new(data_parts: usize, parity_parts: usize) -> (r: Result<ErasureCodec, ErasureError>)
        requires
            data_parts <= 256,
            parity_parts <= 256,
        ensures
            (r is Ok) == (1 <= data_parts && 1 <= parity_parts && data_parts + parity_parts
                <= 256),
            r is Ok ==> r.unwrap().spec_data_parts() == data_parts
                && r.unwrap().spec_parity_parts() == parity_parts
                && r.unwrap().spec_total_parts() == data_parts + parity_parts,
    {
        match reed_solomon_erasure::galois_8::ReedSolomon::new(data_parts, parity_parts) {
            Ok(rs) => Ok(
                ErasureCodec {
                    rs: RsInstance { rs },
                    data_parts,
                    parity_parts,
                    total_parts: data_parts + parity_parts,
                },
            ),
            Err(_) => Err(ErasureError::InvalidShardCounts),
        }
    }

    pub fn data_parts(&self) -> (r: usize)
        ensures
            r == self.spec_data_parts(),
    {
        self.data_parts
    }

    pub fn parity_parts(&self) -> (r: usize)
        ensures
            r == self.spec_parity_parts(),
    {
        self.parity_parts
    }

    pub fn total_parts(&self) -> (r: usize)
        ensures
            r == self.spec_total_parts(),
    {
        self.total_parts
    }
}

/// Relies on `reed_solomon_erasure::ReedSolomon::encode`: with one shard
/// slot per codeword position, all of one equal nonzero length, the call
/// succeeds, leaves the data slots untouched, and overwrites the parity
/// slots with parity shards of that same length, computed from the data
/// slots alone.
#[verifier::external_body]
pub fn rs_encode(codec: &ErasureCodec, shards: &mut Vec<Vec<u8>>)
    requires
        old(shards)@.len() == codec.spec_total_parts(),
        forall|i: int|
            0 <= i < old(shards)@.len() ==> (#[trigger] old(shards)@[i])@.len()
                == old(shards)@[0]@.len(),
        old(shards)@[0]@.len() >= 1,
    ensures
        final(shards)@.len() == old(shards)@.len(),
        final(shards).deep_view() == old(shards).deep_view().take(
            codec.spec_data_parts() as int,
        ) + rs_parity_shards(
            old(shards).deep_view().take(codec.spec_data_parts() as int),
            codec.spec_parity_parts() as nat,
        ),
        forall|i: int|
            0 <= i < final(shards)@.len() ==> (#[trigger] final(shards)@[i])@.len()
                == old(shards)@[0]@.len(),
{
    codec.rs.rs.encode(shards.as_mut_slice()).unwrap();
}

/// Relies on `reed_solomon_erasure::ReedSolomon::reconstruct`: with one
/// slot per codeword position, at least `data` of them filled, and every
/// filled shard of one equal nonzero length, the call succeeds, leaves the
/// filled slots untouched, and fills every empty slot; and when the filled
/// shards agree with the codeword of some uniform-length data shards, every
/// slot afterwards holds exactly that codeword's shard at its position.
#[verifier::external_body]
pub fn rs_reconstruct(codec: &ErasureCodec, shards: &mut Vec<Option<Vec<u8>>>)
    requires
        old(shards)@.len() == codec.spec_total_parts(),
        count_present(old(shards)@) >= codec.spec_data_parts(),
        forall|i: int|
            0 <= i < old(shards)@.len() && old(shards)@[i] is Some ==> (#[trigger] old(
                shards,
            )@[i]).unwrap()@.len() >= 1,
        forall|i: int, j: int|
            0 <= i < old(shards)@.len() && 0 <= j < old(shards)@.len() && old(shards)@[i] is Some
                && old(shards)@[j] is Some ==> (#[trigger] old(shards)@[i]).unwrap()@.len() == (
            #[trigger] old(shards)@[j]).unwrap()@.len(),
    ensures
        final(shards)@.len() == old(shards)@.len(),
        forall|i: int|
            0 <= i < old(shards)@.len() && old(shards)@[i] is Some ==> final(shards)@[i] == old(
                shards,
            )@[i],
        forall|i: int| 0 <= i < final(shards)@.len() ==> (#[trigger] final(shards)@[i]) is Some,
        forall|d: Seq<Seq<u8>>|
            {
                (d.len() == codec.spec_data_parts() && (forall|j: int|
                    0 <= j < d.len() ==> (#[trigger] d[j]).len() == d[0].len()) && d[0].len() >= 1
                    && (forall|i: int|
                    0 <= i < old(shards)@.len() && old(shards)@[i] is Some ==> old(
                        shards,
                    )@[i].unwrap()@ == #[trigger] rs_codeword(
                        d,
                        codec.spec_parity_parts() as nat,
                    )[i])) ==> (forall|i: int|
                    0 <= i < final(shards)@.len() ==> final(shards)@[i].unwrap()@ == rs_codeword(
                        d,
                        codec.spec_parity_parts() as nat,
                    )[i])
            },
{
    codec.rs.rs.reconstruct(shards.as_mut_slice()).unwrap();
}

} // verus!
