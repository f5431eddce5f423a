//! An append-only ledger secured by a proof-of-work puzzle.
//!
//! Each block stores a nonce such that hashing the block's canonical byte
//! encoding yields a digest whose first `difficulty` bytes are zero. The
//! chain starts from a fixed genesis block and grows only by single-block
//! appends, each linked to its predecessor's digest.

pub mod block;
pub mod hashing;
