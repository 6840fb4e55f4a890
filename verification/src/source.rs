//! Validation of messages this chain sends towards the bridged chain, and
//! verification of the bridged chain's proofs that they were delivered.

use vstd::prelude::*;

use crate::error::{Error, StorageProofError};
use crate::scale::{decode_inbound_lane_data, spec_decode_inbound_lane_data};
use crate::storage_keys::{inbound_lane_data_key, spec_inbound_lane_data_key};
use crate::storage_proof::{spec_lookup, HeaderChain, StorageValues};
use crate::target::maximal_incoming_message_size;
use crate::types::{
    FromBridgedChainMessagesDeliveryProof, InboundLaneData, LaneId, MessageNonce, OutboundLaneData,
};

verus! {

/// Message payload for messages this chain sends to the bridged chain: an
/// opaque encoded call of the bridged chain.
pub type FromThisChainMessagePayload = Vec<u8>;

/// This chain, in the context of one message bridge: the policy hooks that
/// decide which messages it accepts for sending. Nothing is proved about an
/// implementation; the verifiers state what holds whatever it decides.
pub trait ThisChainWithMessages {
    /// Call origin on the chain.
    type RuntimeOrigin;

    /// Whether a message sent by the given origin to the given lane is
    /// accepted at all.
    fn is_message_accepted(&self, submitter: &Self::RuntimeOrigin, lane: &LaneId) -> bool;

    /// Maximal number of pending (not yet delivered) messages this chain
    /// tolerates on an outbound lane before refusing new sends.
    fn maximal_pending_messages_at_outbound_lane(&self) -> MessageNonce;
}

/// The bridged chain, in the context of one message bridge: its capacity
/// limits and its policy on message dispatch weight. Nothing is proved
/// about an implementation; the verifiers state what holds whatever it
/// decides.
pub trait BridgedChainWithMessages {
    /// Whether the message's dispatch weight is within what the bridged
    /// chain accepts; a message that is too heavy must be rejected before
    /// it is queued, or the lane gets stuck.
    fn verify_dispatch_weight(&self, message_payload: &Vec<u8>) -> bool;

    /// Maximal size of a transaction the bridged chain accepts; the hard
    /// bound behind this chain's maximal outbound message size.
    fn max_extrinsic_size(&self) -> u32;
}

/// A bidirectional message bridge: the two chains' policy hooks, the
/// trusted header chain of the bridged side, and the storage namespace of
/// its messages pallet.
pub trait MessageBridge {
    /// This chain in the context of the bridge.
    type ThisChain: ThisChainWithMessages;

    /// Bridged chain in the context of the bridge.
    type BridgedChain: BridgedChainWithMessages;

    /// Bridged header chain: the oracle of finalized bridged state.
    type BridgedHeaderChain: HeaderChain;

    /// Name of the paired messages pallet instance on the bridged chain,
    /// whose storage namespace all proof keys live under.
    fn bridged_messages_pallet_name(&self) -> &Vec<u8>;

    /// This chain's policy hooks.
    fn this_chain(&self) -> &Self::ThisChain;

    /// The bridged chain's policy hooks and limits.
    fn bridged_chain(&self) -> &Self::BridgedChain;

    /// The bridged header chain.
    fn bridged_header_chain(&self) -> &Self::BridgedHeaderChain;
}

/// The error a lane verifier returns when the outbound lane is disabled.
pub const MESSAGE_REJECTED_BY_OUTBOUND_LANE: &'static str =
    "The outbound message lane has rejected the message.";

/// The error a lane verifier returns on too many pending messages.
pub const TOO_MANY_PENDING_MESSAGES: &'static str = "Too many pending messages at the lane.";

/// Number of messages queued on an outbound lane and not yet confirmed
/// delivered. Saturating: momentarily inconsistent bookkeeping yields zero,
/// never a crash.
pub open spec fn spec_pending_messages(lane_outbound_data: OutboundLaneData) -> int {
    if lane_outbound_data.latest_generated_nonce >= lane_outbound_data.latest_received_nonce {
        lane_outbound_data.latest_generated_nonce - lane_outbound_data.latest_received_nonce
    } else {
        0
    }
}

/// The lane acceptance and backpressure check, on the two facts the chain
/// policy decided: a message on a disabled lane is rejected, and so is one
/// on a lane whose undelivered backlog exceeds the configured ceiling.
pub fn check_lane_message(
    is_accepted: bool,
    max_pending_messages: MessageNonce,
    lane_outbound_data: &OutboundLaneData,
) -> (r: Result<(), &'static str>)
    ensures
        (r is Ok) <==> (is_accepted && spec_pending_messages(*lane_outbound_data)
            <= max_pending_messages),
        !is_accepted ==> r == Err::<(), &'static str>(MESSAGE_REJECTED_BY_OUTBOUND_LANE),
        is_accepted && spec_pending_messages(*lane_outbound_data) > max_pending_messages ==> r
            == Err::<(), &'static str>(TOO_MANY_PENDING_MESSAGES),
{
    if !is_accepted {
        return Err(MESSAGE_REJECTED_BY_OUTBOUND_LANE);
    }
    let pending_messages = if lane_outbound_data.latest_generated_nonce
        >= lane_outbound_data.latest_received_nonce {
        lane_outbound_data.latest_generated_nonce - lane_outbound_data.latest_received_nonce
    } else {
        0
    };
    if pending_messages > max_pending_messages {
        return Err(TOO_MANY_PENDING_MESSAGES);
    }
    Ok(())
}

/// Message verifier doing the basic outbound checks: it treats every lane
/// alike, rejects a message whose lane is currently blocked for its
/// submitter, and rejects a message when too many sent messages await
/// delivery on its lane.
pub struct FromThisChainMessageVerifier<TC> {
    /// This chain's policy hooks.
    pub this_chain: TC,
}

impl<TC: ThisChainWithMessages> FromThisChainMessageVerifier<TC> {
    /// Verifies an outbound message against the lane's current state. The
    /// chain policy decides lane acceptance and the backlog ceiling; for
    /// every decision, acceptance implies the backlog was within it.
    pub fn verify_message(
        &self,
        submitter: &TC::RuntimeOrigin,
        lane: &LaneId,
        lane_outbound_data: &OutboundLaneData,
        payload: &FromThisChainMessagePayload,
    ) -> (r: Result<(), &'static str>)
        ensures
            r is Err ==> (r == Err::<(), &'static str>(MESSAGE_REJECTED_BY_OUTBOUND_LANE) || r
                == Err::<(), &'static str>(TOO_MANY_PENDING_MESSAGES)),
    {
        let is_accepted = self.this_chain.is_message_accepted(submitter, lane);
        let max_pending_messages = self.this_chain.maximal_pending_messages_at_outbound_lane();
        check_lane_message(is_accepted, max_pending_messages, lane_outbound_data)
    }
}

/// The payload checks against the bridged chain's capacity, on the two
/// facts that chain's policy and limits decide: a payload whose dispatch
/// weight the bridged chain refuses is rejected, and so is one too large to
/// ever fit a delivery transaction there.
pub fn check_chain_message(
    dispatch_weight_ok: bool,
    max_message_size: u32,
    payload: &Vec<u8>,
) -> (r: Result<(), Error>)
    ensures
        !dispatch_weight_ok <==> r == Err::<(), Error>(Error::InvalidMessageWeight),
        (dispatch_weight_ok && payload@.len() > max_message_size) <==> r == Err::<(), Error>(
            Error::MessageTooLarge,
        ),
        (dispatch_weight_ok && payload@.len() <= max_message_size) <==> r is Ok,
{
    if !dispatch_weight_ok {
        return Err(Error::InvalidMessageWeight);
    }
    if payload.len() > max_message_size as usize {
        return Err(Error::MessageTooLarge);
    }
    Ok(())
}

/// Maximal size of a message this chain may send over the bridge: derived
/// from the bridged chain's transaction capacity, because the binding
/// constraint is whether the delivery transaction fits on the other side.
pub fn maximal_message_size<B: MessageBridge>(bridge: &B) -> u32 {
    maximal_incoming_message_size(bridge.bridged_chain().max_extrinsic_size())
}

/// Basic bridged-chain-specific verification of an outbound message: its
/// dispatch weight is acceptable there, and it is small enough to ever be
/// delivered. Whatever the bridged chain's policy decides, only those two
/// checks tell success from failure.
pub fn verify_chain_message<B: MessageBridge>(
    bridge: &B,
    payload: &FromThisChainMessagePayload,
) -> (r: Result<(), Error>)
    ensures
        r is Err ==> (r == Err::<(), Error>(Error::InvalidMessageWeight) || r == Err::<(), Error>(
            Error::MessageTooLarge,
        )),
{
    let dispatch_weight_ok = bridge.bridged_chain().verify_dispatch_weight(payload);
    let max = maximal_message_size(bridge);
    check_chain_message(dispatch_weight_ok, max, payload)
}

/// Whether every authenticated fact is either already consumed or is the
/// single fact a delivery proof is allowed to carry.
pub open spec fn spec_delivery_proof_reads_all(
    entries: Seq<(Seq<u8>, Seq<u8>)>,
    used: Seq<bool>,
    pallet: Seq<u8>,
    lane: LaneId,
) -> bool {
    forall|e: int|
        0 <= e < used.len() ==> (#[trigger] used[e] || entries[e].0 == spec_inbound_lane_data_key(
            pallet,
            lane,
        ))
}

/// Verifies a delivery claim against the authenticated facts of an opened
/// storage proof. The proof is defined to contain exactly one fact, the
/// inbound bookkeeping of the lane, so a missing or undecodable value is
/// fatal, and so is any fact beyond that one.
pub fn verify_inbound_lane_storage(
    storage: StorageValues,
    bridged_messages_pallet_name: &Vec<u8>,
    lane: &LaneId,
) -> (r: Result<(LaneId, InboundLaneData), Error>)
    ensures
        ({
            let entries = storage@.entries;
            let pallet = bridged_messages_pallet_name@;
            match spec_lookup(entries, spec_inbound_lane_data_key(pallet, *lane)) {
                None => r == Err::<(LaneId, InboundLaneData), Error>(
                    Error::InboundLaneStorage(StorageProofError::StorageValueEmpty),
                ),
                Some(bytes) => match spec_decode_inbound_lane_data(bytes) {
                    None => r == Err::<(LaneId, InboundLaneData), Error>(
                        Error::InboundLaneStorage(StorageProofError::StorageValueDecodeFailed),
                    ),
                    Some(d) => if spec_delivery_proof_reads_all(
                        entries,
                        storage@.used,
                        pallet,
                        *lane,
                    ) {
                        match r {
                            Ok(p) => p.0 == *lane && p.1@ == d,
                            Err(e) => false,
                        }
                    } else {
                        r == Err::<(LaneId, InboundLaneData), Error>(
                            Error::StorageProof(StorageProofError::UnusedNodesInTheProof),
                        )
                    },
                },
            }
        }),
{
    let ghost v0 = storage@;
    let ghost pallet = bridged_messages_pallet_name@;
    let mut storage = storage;

    // the delivery proof is a proof of this single storage read, so any
    // failure of it is fatal
    let storage_inbound_lane_data_key = inbound_lane_data_key(bridged_messages_pallet_name, lane);
    let inbound_lane_data = match storage.read(&storage_inbound_lane_data_key) {
        None => {
            return Err(Error::InboundLaneStorage(StorageProofError::StorageValueEmpty));
        },
        Some(bytes) => match decode_inbound_lane_data(&bytes) {
            None => {
                return Err(Error::InboundLaneStorage(StorageProofError::StorageValueDecodeFailed));
            },
            Some(d) => d,
        },
    };

    // a correctly built proof of one read never carries extra nodes
    if !storage.all_used() {
        return Err(Error::StorageProof(StorageProofError::UnusedNodesInTheProof));
    }

    Ok((*lane, inbound_lane_data))
}

/// Verifies the bridged chain's proof that messages of this chain were
/// delivered: resolves the claimed finalized header through the bridge's
/// header chain, opens the storage proof, and reads the single inbound
/// bookkeeping fact the proof must contain, rejecting a proof with anything
/// beyond it.
pub fn verify_messages_delivery_proof<B: MessageBridge>(
    bridge: &B,
    proof: FromBridgedChainMessagesDeliveryProof,
) -> (r: Result<(LaneId, InboundLaneData), Error>)
    ensures
        match r {
            Ok(p) => p.0 == proof.lane,
            Err(e) => true,
        },
{
    let lane = proof.lane;
    match bridge.bridged_header_chain().parse_finalized_storage_proof(
        &proof.bridged_header_hash,
        proof.storage_proof,
    ) {
        Err(e) => Err(Error::HeaderChain(e)),
        Ok(storage) => verify_inbound_lane_storage(
            storage,
            bridge.bridged_messages_pallet_name(),
            &lane,
        ),
    }
}

/// Adapter through which the lane machinery checks outbound payloads and
/// delivery proofs, carrying the bridge configuration it verifies against.
pub struct TargetHeaderChainAdapter<B> {
    /// The bridge configuration.
    pub bridge: B,
}

impl<B: MessageBridge> TargetHeaderChainAdapter<B> {
    /// Verifies an outbound payload before it is queued.
    pub fn verify_message(&self, payload: &FromThisChainMessagePayload) -> (r: Result<(), Error>)
        ensures
            r is Err ==> (r == Err::<(), Error>(Error::InvalidMessageWeight) || r == Err::<
                (),
                Error,
            >(Error::MessageTooLarge)),
    {
        verify_chain_message(&self.bridge, payload)
    }

    /// Verifies a proof that messages of this chain were delivered.
    pub fn verify_messages_delivery_proof(
        &self,
        proof: FromBridgedChainMessagesDeliveryProof,
    ) -> (r: Result<(LaneId, InboundLaneData), Error>)
        ensures
            match r {
                Ok(p) => p.0 == proof.lane,
                Err(e) => true,
            },
    {
        verify_messages_delivery_proof(&self.bridge, proof)
    }
}

/// Maximal size of an outbound message payload, as the lane configuration
/// consumes it.
pub struct FromThisChainMaximalOutboundPayloadSize<B> {
    /// The bridge configuration.
    pub bridge: B,
}

impl<B: MessageBridge> FromThisChainMaximalOutboundPayloadSize<B> {
    /// The maximal outbound payload size of the bridge.
    pub fn get(&self) -> u32 {
        maximal_message_size(&self.bridge)
    }
}

} // verus!
