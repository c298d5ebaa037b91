//! The bookkeeping record used to sync shard state as epochs switch: which
//! block anchors the sync and which shards to fetch.

use crate::hash::CryptoHash;
use crate::types::ShardId;
use vstd::prelude::*;

verus! {

/// The older record shape: syncs to the state right before the new epoch,
/// anchored directly on the sync block.
#[derive(Clone, Debug, PartialEq, Eq)]
pub struct StateSyncInfoV0 {
    /// The first block of the epoch to sync for; also the database key of
    /// this record.
    pub sync_hash: CryptoHash,
    /// Shards to fetch state for.
    pub shards: Vec<ShardId>,
}

/// The newer record shape: syncs to the current epoch's state, whose sync
/// block is only known a few blocks into the epoch.
#[derive(Clone, Debug, PartialEq, Eq)]
pub struct StateSyncInfoV1 {
    /// The first block of the epoch to sync for; also the database key of
    /// this record.
    pub epoch_first_block: CryptoHash,
    /// The block to sync from, unknown until a few more blocks are
    /// produced.
    pub sync_hash: Option<CryptoHash>,
    /// Shards to fetch state for.
    pub shards: Vec<ShardId>,
}

/// The information used to sync state for shards as epochs switch.
#[derive(Clone, Debug, PartialEq, Eq)]
pub enum StateSyncInfo {
    /// Old state sync: to the state right before the new epoch.
    V0(StateSyncInfoV0),
    /// New state sync: to the state right after the new epoch.
    V1(StateSyncInfoV1),
}

impl StateSyncInfo {
    /// A fresh record of the newer shape, with the sync block not yet
    /// known.
    pub fn new(epoch_first_block: CryptoHash, shards: Vec<ShardId>) -> (r: Self)
        ensures
            r == StateSyncInfo::V1(
                StateSyncInfoV1 { epoch_first_block, sync_hash: None, shards },
            ),
    {
        StateSyncInfo::V1(StateSyncInfoV1 { epoch_first_block, sync_hash: None, shards })
    }

    /// The block hash that identifies this record on disk.
    pub open spec fn spec_epoch_first_block(&self) -> CryptoHash {
        match self {
            StateSyncInfo::V0(info) => info.sync_hash,
            StateSyncInfo::V1(info) => info.epoch_first_block,
        }
    }

    /// Block hash that identifies this record.
    pub fn epoch_first_block(&self) -> (r: &CryptoHash)
        ensures
            *r == self.spec_epoch_first_block(),
    {
        match self {
            StateSyncInfo::V0(info) => &info.sync_hash,
            StateSyncInfo::V1(info) => &info.epoch_first_block,
        }
    }

    pub open spec fn spec_shards(&self) -> Seq<ShardId> {
        match self {
            StateSyncInfo::V0(info) => info.shards@,
            StateSyncInfo::V1(info) => info.shards@,
        }
    }

    pub fn shards(&self) -> (r: &Vec<ShardId>)
        ensures
            r@ == self.spec_shards(),
    {
        match self {
            StateSyncInfo::V0(info) => &info.shards,
            StateSyncInfo::V1(info) => &info.shards,
        }
    }
}

} // verus!
