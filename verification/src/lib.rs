//! Message-lane proof verification for a bidirectional bridge between two
//! chains that finalize blocks and expose their state through storage proofs.
//!
//! The library turns an untrusted, relayer-supplied storage proof plus a
//! claimed nonce range into a gap-free batch of messages (or a lane-state
//! fact), and derives the size and weight bounds that keep a lane from
//! becoming stuck. Everything is deterministic and side-effect free; the
//! trie primitive, the finality oracle and the dispatch engine are consumed
//! through narrow interfaces and are not part of this crate's logic.

pub mod error;
pub mod hashing;
pub mod laws;
pub mod scale;
pub mod source;
pub mod source_chain;
pub mod storage_keys;
pub mod storage_proof;
pub mod target;
pub mod types;
