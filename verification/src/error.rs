//! The error taxonomy of message verification.
//!
//! Every error is terminal for a single proof submission and recoverable by
//! resubmitting a corrected proof; none is fatal to the verifier itself.

use vstd::prelude::*;

verus! {

/// Errors of reading authenticated values out of a storage proof.
#[derive(Clone, Copy, PartialEq, Eq, Debug)]
pub enum StorageProofError {
    /// The raw proof carries the same trie node twice.
    DuplicateNodesInProof,
    /// Some supplied trie node was never consumed by the claimed reads.
    UnusedNodesInTheProof,
    /// The proof does not match the trusted state root.
    StorageRootMismatch,
    /// The proof lacks the nodes needed to read the requested key.
    StorageValueUnavailable,
    /// A mandatory key holds no value.
    StorageValueEmpty,
    /// A value was present but its bytes do not decode.
    StorageValueDecodeFailed,
}

/// Errors of resolving a claimed finalized header to a trusted state root
/// and of opening the proof against that root.
#[derive(Clone, Copy, PartialEq, Eq, Debug)]
pub enum HeaderChainError {
    /// The header hash is not in the trusted finalized set.
    UnknownHeader,
    /// The proof could not be opened against the resolved root.
    StorageProof(StorageProofError),
}

/// Error that happens during message verification.
#[derive(Clone, Copy, PartialEq, Eq, Debug)]
pub enum Error {
    /// The message proof proves neither a message nor a lane state.
    EmptyMessageProof,
    /// Error returned by the bridged header chain.
    HeaderChain(HeaderChainError),
    /// Error of reading or decoding inbound lane data from the proof.
    InboundLaneStorage(StorageProofError),
    /// The declared message weight is rejected by the bridged chain policy.
    InvalidMessageWeight,
    /// Declared messages count doesn't match the nonce range of the proof.
    MessagesCountMismatch,
    /// Error of reading or decoding message data from the proof.
    MessageStorage(StorageProofError),
    /// The message is too large to ever fit a delivery transaction.
    MessageTooLarge,
    /// Error of reading or decoding outbound lane data from the proof.
    OutboundLaneStorage(StorageProofError),
    /// The proof carries trie nodes that no claimed read consumed.
    StorageProof(StorageProofError),
}

} // verus!
