//! Content hashing: the 256-bit hash type, the digest primitive, and the
//! order-sensitive hash combination used by header and Merkle commitments.

use vstd::prelude::*;

verus! {

/// The digest that the hashing primitive returns for a byte sequence.
/// The result depends on the input bytes alone.
pub uninterp spec fn sha256_of(data: Seq<u8>) -> Seq<u8>;

/// The all-zero 32-byte sequence: sentinel root of an empty commitment and
/// previous-block hash of genesis chunks.
pub open spec fn zero_hash_bytes() -> Seq<u8> {
    Seq::new(32, |i: int| 0u8)
}

/// A 256-bit content hash.
#[derive(Clone, Copy, Debug, Eq, Hash)]
pub struct CryptoHash(pub [u8; 32]);

impl View for CryptoHash {
    type V = Seq<u8>;

    open spec fn view(&self) -> Seq<u8> {
        self.0@
    }
}

impl PartialEq for CryptoHash {
    fn eq(&self, o: &CryptoHash) -> (r: bool) {
        let mut i: usize = 0;
        while i < 32
            invariant
                i <= 32,
                forall|k: int| 0 <= k < i ==> self.0@[k] == o.0@[k],
            decreases 32 - i,
        {
            if self.0[i] != o.0[i] {
                return false;
            }
            i = i + 1;
        }
        proof {
            assert(self.0@ =~= o.0@);
        }
        true
    }
}

impl vstd::std_specs::cmp::PartialEqSpecImpl for CryptoHash {
    open spec fn obeys_eq_spec() -> bool {
        true
    }

    open spec fn eq_spec(&self, o: &CryptoHash) -> bool {
        self.0@ == o.0@
    }
}

impl Default for CryptoHash {
    fn default() -> (r: Self)
        ensures
            r@ == zero_hash_bytes(),
    {
        let r = CryptoHash([0u8; 32]);
        proof {
            assert(r@ =~= zero_hash_bytes());
        }
        r
    }
}

/// A hash that stands for a Merkle commitment root.
pub type MerkleHash = CryptoHash;

/// A state root carried through chunk headers untouched.
pub type StateRoot = CryptoHash;

/// Relies on `near_primitives_core::hash::CryptoHash::hash_bytes`: the
/// SHA-256 digest of the input, 32 bytes, a function of the input alone.
#[verifier::external_body]
pub fn hash_bytes(data: &[u8]) -> (r: CryptoHash)
    ensures
        r@ == sha256_of(data@),
{
    CryptoHash(near_primitives_core::hash::CryptoHash::hash_bytes(data).0)
}

/// The combination of two hashes: the digest of their concatenation.
/// Order-sensitive: `combine_hash_of(a, b)` and `combine_hash_of(b, a)`
/// differ in general.
pub open spec fn combine_hash_of(a: Seq<u8>, b: Seq<u8>) -> Seq<u8> {
    sha256_of(a + b)
}

/// Combine two hashes into the hash of the ordered pair.
pub fn combine_hash(a: &CryptoHash, b: &CryptoHash) -> (r: CryptoHash)
    ensures
        r@ == combine_hash_of(a@, b@),
{
    let mut buf: Vec<u8> = Vec::new();
    let mut i: usize = 0;
    while i < 32
        invariant
            i <= 32,
            buf@ == a.0@.take(i as int),
        decreases 32 - i,
    {
        buf.push(a.0[i]);
        i = i + 1;
    }
    let mut j: usize = 0;
    while j < 32
        invariant
            j <= 32,
            buf@ == a.0@ + b.0@.take(j as int),
        decreases 32 - j,
    {
        buf.push(b.0[j]);
        j = j + 1;
    }
    proof {
        assert(buf@ =~= a@ + b@);
    }
    hash_bytes(buf.as_slice())
}

/// Append a hash's 32 bytes.
pub fn write_hash(out: &mut Vec<u8>, h: &CryptoHash)
    ensures
        final(out)@ == old(out)@ + h@,
{
    let mut i: usize = 0;
    while i < 32
        invariant
            i <= 32,
            out@ == old(out)@ + h.0@.take(i as int),
        decreases 32 - i,
    {
        out.push(h.0[i]);
        i = i + 1;
    }
    proof {
        assert(out@ =~= old(out)@ + h@);
    }
}

/// A 32-byte content hash uniquely identifying a chunk header's committed
/// contents.
#[derive(Clone, Copy, Debug, Eq, Hash)]
pub struct ChunkHash(pub CryptoHash);

impl View for ChunkHash {
    type V = Seq<u8>;

    open spec fn view(&self) -> Seq<u8> {
        self.0@
    }
}

impl PartialEq for ChunkHash {
    fn eq(&self, o: &ChunkHash) -> (r: bool) {
        self.0 == o.0
    }
}

impl vstd::std_specs::cmp::PartialEqSpecImpl for ChunkHash {
    open spec fn obeys_eq_spec() -> bool {
        true
    }

    open spec fn eq_spec(&self, o: &ChunkHash) -> bool {
        self.0@ == o.0@
    }
}

impl ChunkHash {
    pub fn as_bytes(&self) -> (r: &[u8; 32])
        ensures
            r@ == self@,
    {
        &self.0.0
    }
}

impl Default for ChunkHash {
    fn default() -> (r: Self)
        ensures
            r@ == zero_hash_bytes(),
    {
        ChunkHash(CryptoHash::default())
    }
}

impl From<CryptoHash> for ChunkHash {
    fn from(crypto_hash: CryptoHash) -> (r: Self) {
        ChunkHash(crypto_hash)
    }
}

impl vstd::std_specs::convert::FromSpecImpl<CryptoHash> for ChunkHash {
    open spec fn obeys_from_spec() -> bool {
        true
    }

    open spec fn from_spec(crypto_hash: CryptoHash) -> Self {
        ChunkHash(crypto_hash)
    }
}

} // verus!
