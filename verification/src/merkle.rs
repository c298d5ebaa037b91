//! The Merkle engine: build a commitment root over an ordered sequence of
//! byte buffers, produce per-leaf inclusion proofs, and verify a leaf
//! against a root and proof.
//!
//! A tree over `n` leaves is laid out over the smallest power-of-two width
//! that holds them; a node whose right half is empty takes its left child's
//! hash unchanged (no padding leaves are hashed in), so a proof never
//! carries an item for an absent sibling.

use crate::hash::CryptoHash;
use crate::hash::MerkleHash;
use crate::hash::combine_hash;
use crate::hash::combine_hash_of;
use crate::hash::hash_bytes;
use crate::hash::sha256_of;
use crate::hash::zero_hash_bytes;
use vstd::prelude::*;

verus! {

/// Which side of a combination the sibling hash in a proof item sits on.
#[derive(Clone, Copy, Debug, PartialEq, Eq, Structural)]
pub enum Direction {
    Left,
    Right,
}

/// One step of an inclusion proof: the sibling hash and its side.
#[derive(Clone, Copy, Debug, PartialEq, Eq)]
pub struct MerklePathItem {
    pub hash: MerkleHash,
    pub direction: Direction,
}

/// An inclusion proof: sibling steps ordered from the leaf to the root.
pub type MerklePath = Vec<MerklePathItem>;

/// Walk a proof upward from a leaf hash: each step combines the running
/// hash with the sibling on the recorded side.
pub open spec fn fold_path(path: Seq<MerklePathItem>, h: Seq<u8>) -> Seq<u8>
    decreases path.len(),
{
    if path.len() == 0 {
        h
    } else {
        let item = path[0];
        let next = if item.direction is Left {
            combine_hash_of(item.hash@, h)
        } else {
            combine_hash_of(h, item.hash@)
        };
        fold_path(path.drop_first(), next)
    }
}

/// Appending a step folds it last.
pub proof fn lemma_fold_path_push(path: Seq<MerklePathItem>, item: MerklePathItem, h: Seq<u8>)
    ensures
        fold_path(path.push(item), h) == (if item.direction is Left {
            combine_hash_of(item.hash@, fold_path(path, h))
        } else {
            combine_hash_of(fold_path(path, h), item.hash@)
        }),
    decreases path.len(),
{
    reveal_with_fuel(fold_path, 2);
    if path.len() == 0 {
        assert(path.push(item)[0] == item);
        assert(path.push(item).drop_first() =~= Seq::<MerklePathItem>::empty());
    } else {
        assert(path.push(item)[0] == path[0]);
        assert(path.push(item).drop_first() =~= path.drop_first().push(item));
        let first = path[0];
        let next = if first.direction is Left {
            combine_hash_of(first.hash@, h)
        } else {
            combine_hash_of(h, first.hash@)
        };
        lemma_fold_path_push(path.drop_first(), item, next);
    }
}

/// The root of a tree of the given power-of-two `width` over the leaf
/// hashes `hs` (at most `width` of them): a lone node is its own hash, a
/// node without a right half takes its left root, and otherwise the two
/// half roots are combined in order.
pub open spec fn merkle_root_padded(hs: Seq<Seq<u8>>, width: nat) -> Seq<u8>
    decreases width,
{
    if width <= 1 {
        if hs.len() >= 1 {
            hs[0]
        } else {
            zero_hash_bytes()
        }
    } else {
        let half = width / 2;
        if hs.len() <= half {
            merkle_root_padded(hs, half)
        } else {
            combine_hash_of(
                merkle_root_padded(hs.take(half as int), half),
                merkle_root_padded(hs.skip(half as int), half),
            )
        }
    }
}

/// Whether `n` is a power of two.
pub open spec fn is_pow2(n: nat) -> bool
    decreases n,
{
    if n <= 1 {
        n == 1
    } else {
        n % 2 == 0 && is_pow2(n / 2)
    }
}

/// The power-of-two width reached by doubling `m` until it covers `n`.
pub open spec fn pow2_cover(n: nat, m: nat) -> nat
    recommends
        1 <= m,
    decreases 2 * n - m when 1 <= m
{
    if m >= n {
        m
    } else {
        pow2_cover(n, 2 * m)
    }
}

/// The hash of each leaf buffer, in leaf order.
pub open spec fn leaf_hashes_of(leaves: Seq<Seq<u8>>) -> Seq<Seq<u8>> {
    leaves.map_values(|b: Seq<u8>| sha256_of(b))
}

/// The commitment root over an ordered sequence of byte buffers.
pub open spec fn merkle_root_of(leaves: Seq<Seq<u8>>) -> Seq<u8> {
    if leaves.len() == 0 {
        zero_hash_bytes()
    } else {
        merkle_root_padded(leaf_hashes_of(leaves), pow2_cover(leaves.len(), 1))
    }
}

/// The views of a sequence of hashes.
pub open spec fn hash_views(s: Seq<CryptoHash>) -> Seq<Seq<u8>> {
    s.map_values(|h: CryptoHash| h@)
}

/// The ghost content of an inclusion proof: each step's sibling-hash
/// bytes and side, in order.
pub open spec fn path_view(path: Seq<MerklePathItem>) -> Seq<(Seq<u8>, Direction)> {
    path.map_values(|item: MerklePathItem| (item.hash@, item.direction))
}

/// The inclusion proofs of a tree of power-of-two `width` over the leaf
/// hashes `hs`, one per leaf in order: a lone leaf proves itself with no
/// steps, a node without a right half adds none, and a combined node
/// appends the sibling half's root to every proof of its own half. The
/// proofs are a function of the leaf hashes and the width alone.
pub open spec fn spec_merkle_paths(hs: Seq<Seq<u8>>, width: nat) -> Seq<Seq<(Seq<u8>, Direction)>>
    decreases width,
{
    if width <= 1 {
        seq![Seq::<(Seq<u8>, Direction)>::empty()]
    } else {
        let half = width / 2;
        if hs.len() <= half {
            spec_merkle_paths(hs, half)
        } else {
            let left_root = merkle_root_padded(hs.take(half as int), half);
            let right_root = merkle_root_padded(hs.skip(half as int), half);
            spec_merkle_paths(hs.take(half as int), half).map_values(
                |p: Seq<(Seq<u8>, Direction)>| p.push((right_root, Direction::Right)),
            ) + spec_merkle_paths(hs.skip(half as int), half).map_values(
                |p: Seq<(Seq<u8>, Direction)>| p.push((left_root, Direction::Left)),
            )
        }
    }
}

/// The inclusion proofs over an ordered sequence of byte buffers.
pub open spec fn merkle_paths_of(leaves: Seq<Seq<u8>>) -> Seq<Seq<(Seq<u8>, Direction)>> {
    if leaves.len() == 0 {
        Seq::empty()
    } else {
        spec_merkle_paths(leaf_hashes_of(leaves), pow2_cover(leaves.len(), 1))
    }
}

/// Build the subtree of power-of-two `width` over `hashes[lo..hi]`:
/// the subtree root, and for each leaf the proof steps gathered so far.
fn build_tree(hashes: &Vec<CryptoHash>, lo: usize, hi: usize, width: usize) -> (r: (
    CryptoHash,
    Vec<MerklePath>,
))
    requires
        lo < hi <= hashes@.len(),
        hi - lo <= width,
        is_pow2(width as nat),
    ensures
        r.0@ == merkle_root_padded(hash_views(hashes@).subrange(lo as int, hi as int), width as nat),
        r.1@.len() == hi - lo,
        forall|k: int|
            0 <= k < hi - lo ==> fold_path((#[trigger] r.1@[k])@, hashes@[lo + k]@) == r.0@,
        spec_merkle_paths(hash_views(hashes@).subrange(lo as int, hi as int), width as nat).len()
            == hi - lo,
        forall|k: int|
            0 <= k < hi - lo ==> path_view((#[trigger] r.1@[k])@) == spec_merkle_paths(
                hash_views(hashes@).subrange(lo as int, hi as int),
                width as nat,
            )[k],
    decreases width,
{
    let ghost sub = hash_views(hashes@).subrange(lo as int, hi as int);
    if width <= 1 {
        let mut paths: Vec<MerklePath> = Vec::new();
        let empty_path: MerklePath = Vec::new();
        paths.push(empty_path);
        proof {
            assert(sub[0] == hashes@[lo as int]@);
            assert(path_view(paths@[0]@) =~= Seq::<(Seq<u8>, Direction)>::empty());
            assert(spec_merkle_paths(sub, width as nat) == seq![
                Seq::<(Seq<u8>, Direction)>::empty(),
            ]);
        }
        (hashes[lo], paths)
    } else {
        let half = width / 2;
        if hi - lo <= half {
            let r = build_tree(hashes, lo, hi, half);
            proof {
                assert(spec_merkle_paths(sub, width as nat) == spec_merkle_paths(
                    sub,
                    half as nat,
                ));
            }
            r
        } else {
            let mid = lo + half;
            let (left_root, left_paths) = build_tree(hashes, lo, mid, half);
            let (right_root, right_paths) = build_tree(hashes, mid, hi, half);
            let root = combine_hash(&left_root, &right_root);
            proof {
                assert(hash_views(hashes@).subrange(lo as int, mid as int) =~= sub.take(
                    half as int,
                ));
                assert(hash_views(hashes@).subrange(mid as int, hi as int) =~= sub.skip(
                    half as int,
                ));
            }
            let ghost root_view = root@;
            let ghost spec_left = spec_merkle_paths(sub.take(half as int), half as nat);
            let ghost spec_right = spec_merkle_paths(sub.skip(half as int), half as nat);
            let ghost spec_all = spec_merkle_paths(sub, width as nat);
            proof {
                assert(left_root@ == merkle_root_padded(sub.take(half as int), half as nat));
                assert(right_root@ == merkle_root_padded(sub.skip(half as int), half as nat));
                assert(spec_all.len() == spec_left.len() + spec_right.len());
                assert forall|k: int|
                    0 <= k < spec_left.len() implies #[trigger] spec_all[k] == spec_left[k].push(
                    (right_root@, Direction::Right),
                ) by {}
                assert forall|k: int|
                    0 <= k < spec_right.len() implies #[trigger] spec_all[spec_left.len() + k]
                    == spec_right[k].push((left_root@, Direction::Left)) by {}
            }
            let mut paths: Vec<MerklePath> = Vec::new();
            let ghost left_orig = left_paths@;
            let mut lp = left_paths;
            while lp.len() > 0
                invariant
                    paths@.len() + lp@.len() == left_orig.len(),
                    lp@ =~= left_orig.skip(paths@.len() as int),
                    forall|k: int|
                        0 <= k < left_orig.len() ==> fold_path(
                            (#[trigger] left_orig[k])@,
                            hashes@[lo + k]@,
                        ) == left_root@,
                    lo + left_orig.len() <= hashes@.len(),
                    forall|k: int|
                        0 <= k < paths@.len() ==> fold_path(
                            (#[trigger] paths@[k])@,
                            hashes@[lo + k]@,
                        ) == root_view,
                    root_view == combine_hash_of(left_root@, right_root@),
                    spec_left.len() == left_orig.len(),
                    forall|k: int|
                        0 <= k < left_orig.len() ==> path_view((#[trigger] left_orig[k])@)
                            == spec_left[k],
                    forall|k: int|
                        0 <= k < spec_left.len() ==> #[trigger] spec_all[k] == spec_left[k].push(
                            (right_root@, Direction::Right),
                        ),
                    forall|k: int|
                        0 <= k < paths@.len() ==> path_view((#[trigger] paths@[k])@)
                            == spec_all[k],
                decreases lp@.len(),
            {
                let ghost done = paths@.len() as int;
                let mut path = lp.remove(0);
                proof {
                    assert(left_orig.skip(done)[0] == left_orig[done]);
                    assert(lp@ =~= left_orig.skip(done + 1));
                    lemma_fold_path_push(
                        path@,
                        MerklePathItem { hash: right_root, direction: Direction::Right },
                        hashes@[lo + done]@,
                    );
                }
                path.push(MerklePathItem { hash: right_root, direction: Direction::Right });
                let ghost paths_before = paths@;
                paths.push(path);
                proof {
                    assert(path_view(path@) =~= path_view(left_orig[done]@).push(
                        (right_root@, Direction::Right),
                    ));
                    assert forall|k: int|
                        0 <= k < paths@.len() implies path_view((#[trigger] paths@[k])@)
                        == spec_all[k] by {
                        if k == paths@.len() - 1 {
                            assert(paths@[k] == path);
                        } else {
                            assert(paths@[k] == paths_before[k]);
                        }
                    }
                }
            }
            let ghost right_orig = right_paths@;
            let ghost nleft = left_orig.len() as int;
            let mut rp = right_paths;
            while rp.len() > 0
                invariant
                    0 <= nleft,
                    paths@.len() + rp@.len() == nleft + right_orig.len(),
                    nleft <= paths@.len(),
                    nleft == mid - lo,
                    mid + right_orig.len() <= hashes@.len(),
                    rp@ =~= right_orig.skip(paths@.len() - nleft),
                    forall|k: int|
                        0 <= k < right_orig.len() ==> fold_path(
                            (#[trigger] right_orig[k])@,
                            hashes@[mid + k]@,
                        ) == right_root@,
                    forall|k: int|
                        0 <= k < paths@.len() && k < nleft ==> fold_path(
                            (#[trigger] paths@[k])@,
                            hashes@[lo + k]@,
                        ) == root_view,
                    forall|k: int|
                        nleft <= k < paths@.len() ==> fold_path(
                            (#[trigger] paths@[k])@,
                            hashes@[lo + k]@,
                        ) == root_view,
                    root_view == combine_hash_of(left_root@, right_root@),
                    spec_right.len() == right_orig.len(),
                    spec_all.len() == nleft + right_orig.len(),
                    forall|k: int|
                        0 <= k < right_orig.len() ==> path_view((#[trigger] right_orig[k])@)
                            == spec_right[k],
                    forall|k: int|
                        0 <= k < spec_right.len() ==> #[trigger] spec_all[nleft + k]
                            == spec_right[k].push((left_root@, Direction::Left)),
                    forall|k: int|
                        0 <= k < paths@.len() ==> path_view((#[trigger] paths@[k])@)
                            == spec_all[k],
                decreases rp@.len(),
            {
                let ghost done = paths@.len() - nleft;
                let mut path = rp.remove(0);
                proof {
                    assert(right_orig.skip(done)[0] == right_orig[done]);
                    assert(rp@ =~= right_orig.skip(done + 1));
                    lemma_fold_path_push(
                        path@,
                        MerklePathItem { hash: left_root, direction: Direction::Left },
                        hashes@[mid + done]@,
                    );
                }
                path.push(MerklePathItem { hash: left_root, direction: Direction::Left });
                let ghost paths_before = paths@;
                paths.push(path);
                proof {
                    assert forall|k: int|
                        nleft <= k < paths@.len() implies fold_path(
                        (#[trigger] paths@[k])@,
                        hashes@[lo + k]@,
                    ) == root_view by {
                        if k == paths@.len() - 1 {
                            assert(paths@[k] == path);
                            assert(lo + k == mid + done);
                            assert(fold_path(path@, hashes@[mid + done]@) == root_view);
                        } else {
                            assert(paths@[k] == paths_before[k]);
                            assert(fold_path((paths_before[k])@, hashes@[lo + k]@) == root_view);
                        }
                    }
                    assert(path_view(path@) =~= path_view(right_orig[done]@).push(
                        (left_root@, Direction::Left),
                    ));
                    assert forall|k: int|
                        0 <= k < paths@.len() implies path_view((#[trigger] paths@[k])@)
                        == spec_all[k] by {
                        if k == paths@.len() - 1 {
                            assert(paths@[k] == path);
                            assert(k == nleft + done);
                            assert(spec_all[nleft + done] == spec_right[done].push(
                                (left_root@, Direction::Left),
                            ));
                        } else {
                            assert(paths@[k] == paths_before[k]);
                        }
                    }
                }
            }
            (root, paths)
        }
    }
}

/// Build the commitment root over the ordered byte buffers, and one
/// inclusion proof per leaf, each of which folds back to the root. Root
/// and proofs are functions of the leaves alone: repeating the call on
/// equal leaves commits to the same root and the same proof steps. (The
/// leaf-count bound leaves headroom for the doubled tree width on any
/// machine.)
pub fn merklize(leaves: &Vec<Vec<u8>>) -> (r: (MerkleHash, Vec<MerklePath>))
    requires
        leaves@.len() < 0x4000_0000,
    ensures
        r.0@ == merkle_root_of(leaves.deep_view()),
        r.1@.len() == leaves@.len(),
        forall|k: int|
            0 <= k < leaves@.len() ==> fold_path(
                (#[trigger] r.1@[k])@,
                sha256_of(leaves.deep_view()[k]),
            ) == r.0@,
        merkle_paths_of(leaves.deep_view()).len() == leaves@.len(),
        forall|k: int|
            0 <= k < leaves@.len() ==> path_view((#[trigger] r.1@[k])@) == merkle_paths_of(
                leaves.deep_view(),
            )[k],
{
    if leaves.len() == 0 {
        let paths: Vec<MerklePath> = Vec::new();
        return (CryptoHash::default(), paths);
    }
    let mut hashes: Vec<CryptoHash> = Vec::new();
    let mut i: usize = 0;
    while i < leaves.len()
        invariant
            i <= leaves@.len(),
            hashes@.len() == i as int,
            forall|k: int| 0 <= k < i ==> (#[trigger] hashes@[k])@ == sha256_of(
                leaves.deep_view()[k],
            ),
        decreases leaves@.len() - i,
    {
        let h = hash_bytes(leaves[i].as_slice());
        proof {
            assert(leaves.deep_view()[i as int] =~= leaves@[i as int]@);
        }
        hashes.push(h);
        i = i + 1;
    }
    let n = leaves.len();
    let mut width: usize = 1;
    while width < n
        invariant
            1 <= width,
            width < 0x8000_0000,
            n < 0x4000_0000,
            is_pow2(width as nat),
            pow2_cover(n as nat, width as nat) == pow2_cover(n as nat, 1),
        decreases 2 * n - width,
    {
        width = width * 2;
    }
    proof {
        assert(pow2_cover(n as nat, width as nat) == width as nat);
        assert(hash_views(hashes@).subrange(0, n as int) =~= leaf_hashes_of(leaves.deep_view()));
    }
    let (root, paths) = build_tree(&hashes, 0, n, width);
    (root, paths)
}

/// Walk `path` upward from `item_hash` and return the root it leads to.
pub fn compute_root_from_path(path: &MerklePath, item_hash: &MerkleHash) -> (r: MerkleHash)
    ensures
        r@ == fold_path(path@, item_hash@),
{
    let mut res: CryptoHash = *item_hash;
    let mut i: usize = 0;
    proof {
        assert(path@.skip(0) =~= path@);
    }
    while i < path.len()
        invariant
            i <= path@.len(),
            fold_path(path@.skip(i as int), res@) == fold_path(path@, item_hash@),
        decreases path@.len() - i,
    {
        let ghost before = path@.skip(i as int);
        proof {
            assert(before[0] == path@[i as int]);
            assert(before.drop_first() =~= path@.skip(i as int + 1));
        }
        let item = &path[i];
        match item.direction {
            Direction::Left => {
                res = combine_hash(&item.hash, &res);
            },
            Direction::Right => {
                res = combine_hash(&res, &item.hash);
            },
        }
        i = i + 1;
    }
    proof {
        assert(path@.skip(path@.len() as int) =~= Seq::<MerklePathItem>::empty());
    }
    res
}

/// Decide whether `path` proves `item_hash` against `root`.
pub fn verify_hash(root: &MerkleHash, path: &MerklePath, item_hash: &MerkleHash) -> (r: bool)
    ensures
        r == (fold_path(path@, item_hash@) == root@),
{
    let computed = compute_root_from_path(path, item_hash);
    computed == *root
}

/// Decide whether `path` proves the byte buffer `item` against `root`.
pub fn verify_path(root: &MerkleHash, path: &MerklePath, item: &[u8]) -> (r: bool)
    ensures
        r == (fold_path(path@, sha256_of(item@)) == root@),
{
    let item_hash = hash_bytes(item);
    verify_hash(root, path, &item_hash)
}

} // verus!
