//! Sharded-chunk protocol layer: the canonical, content-addressed,
//! erasure-coded representation of one shard's contribution to a block.
//!
//! The crate is organised leaves first: content hashing, the deterministic
//! byte codec, the Merkle engine, the erasure codec, then the versioned
//! header protocol and the chunk / partial-chunk assembly on top of them.

pub mod chunk;
pub mod codec;
pub mod erasure;
pub mod hash;
pub mod header;
pub mod inner;
pub mod merkle;
pub mod partial;
pub mod payload;
pub mod receipt_proof;
pub mod state_sync;
pub mod types;
