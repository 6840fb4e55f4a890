//! The interfaces a chain plugs its own machinery into on the sending
//! side: checking target-chain facts, vetting outbound messages, paying
//! delivery rewards and sending messages over the bridge.

use vstd::prelude::*;

use crate::types::{
    AccountId, InboundLaneData, LaneId, MessageNonce, OutboundLaneData, UnrewardedRelayer, Weight,
};

verus! {

/// Target chain API, used by the source chain to verify target-chain
/// proofs. An implementation must only accept finalized facts that cannot
/// change, or lanes can get stuck and relayers lose their reward.
pub trait TargetHeaderChain<Payload> {
    /// Error type.
    type Error;

    /// Proof that messages have been received by the target chain.
    type MessagesDeliveryProof;

    /// Verify a message payload before it is accepted for sending.
    fn verify_message(&self, payload: &Payload) -> Result<(), Self::Error>;

    /// Verify a delivery proof and return the lane with its inbound state.
    fn verify_messages_delivery_proof(
        &self,
        proof: Self::MessagesDeliveryProof,
    ) -> Result<(LaneId, InboundLaneData), Self::Error>;
}

/// Lane message verifier: any chain-specific validation of a message over
/// the lane mechanism, such as per-lane access control or fee rules.
pub trait LaneMessageVerifier<SenderOrigin, Payload> {
    /// Error type.
    type Error;

    /// Verify that the message may be sent over the lane.
    fn verify_message(
        &self,
        submitter: &SenderOrigin,
        lane: &LaneId,
        outbound_data: &OutboundLaneData,
        payload: &Payload,
    ) -> Result<(), Self::Error>;
}

/// Manages the payments that happen at the source chain when a delivery is
/// confirmed.
pub trait DeliveryConfirmationPayments {
    /// Error type.
    type Error;

    /// Pay rewards for delivering messages to the given relayers; the
    /// implementation may also reward the relayer that submitted the
    /// delivery confirmation itself.
    fn pay_reward(
        &self,
        lane_id: LaneId,
        messages_relayers: Vec<UnrewardedRelayer>,
        confirmation_relayer: &AccountId,
        received_range_start: MessageNonce,
        received_range_end: MessageNonce,
    );
}

/// Artifacts of sending one message over the bridge.
#[derive(Clone, Copy, PartialEq, Eq, Debug)]
pub struct SendMessageArtifacts {
    /// Nonce the message was queued under.
    pub nonce: MessageNonce,
    /// Actual weight of the send-message call.
    pub weight: Weight,
}

/// Messages bridge API, to be used from the rest of the runtime.
pub trait MessagesBridge<SenderOrigin, Payload> {
    /// Error type.
    type Error;

    /// Send a message over the bridge, returning the nonce it was queued
    /// under.
    fn send_message(
        &self,
        sender: SenderOrigin,
        lane: LaneId,
        message: Payload,
    ) -> Result<SendMessageArtifacts, Self::Error>;
}

impl DeliveryConfirmationPayments for () {
    type Error = &'static str;

    fn pay_reward(
        &self,
        lane_id: LaneId,
        messages_relayers: Vec<UnrewardedRelayer>,
        confirmation_relayer: &AccountId,
        received_range_start: MessageNonce,
        received_range_end: MessageNonce,
    ) {
        // this implementation does not reward relayers at all
    }
}

/// Bridge that does nothing when a message is sent.
#[derive(Clone, Copy, PartialEq, Eq, Debug)]
pub struct NoopMessagesBridge;

impl<SenderOrigin, Payload> MessagesBridge<SenderOrigin, Payload> for NoopMessagesBridge {
    type Error = &'static str;

    fn send_message(
        &self,
        sender: SenderOrigin,
        lane: LaneId,
        message: Payload,
    ) -> Result<SendMessageArtifacts, Self::Error> {
        Ok(SendMessageArtifacts { nonce: 0, weight: Weight::zero() })
    }
}

/// The error every check of `ForbidOutboundMessages` returns.
pub const ALL_OUTBOUND_MESSAGES_REJECTED: &'static str =
    "This chain is configured to reject all outbound messages";

/// Stands in for `TargetHeaderChain`, `LaneMessageVerifier` and
/// `DeliveryConfirmationPayments` on chains where outbound messages are
/// forbidden: every check fails and no reward is ever paid.
#[derive(Clone, Copy, PartialEq, Eq, Debug)]
pub struct ForbidOutboundMessages;

impl<Payload> TargetHeaderChain<Payload> for ForbidOutboundMessages {
    type Error = &'static str;

    type MessagesDeliveryProof = ();

    fn verify_message(&self, payload: &Payload) -> Result<(), Self::Error> {
        Err(ALL_OUTBOUND_MESSAGES_REJECTED)
    }

    fn verify_messages_delivery_proof(
        &self,
        proof: Self::MessagesDeliveryProof,
    ) -> Result<(LaneId, InboundLaneData), Self::Error> {
        Err(ALL_OUTBOUND_MESSAGES_REJECTED)
    }
}

impl<SenderOrigin, Payload> LaneMessageVerifier<SenderOrigin, Payload> for ForbidOutboundMessages {
    type Error = &'static str;

    fn verify_message(
        &self,
        submitter: &SenderOrigin,
        lane: &LaneId,
        outbound_data: &OutboundLaneData,
        payload: &Payload,
    ) -> Result<(), Self::Error> {
        Err(ALL_OUTBOUND_MESSAGES_REJECTED)
    }
}

impl DeliveryConfirmationPayments for ForbidOutboundMessages {
    type Error = &'static str;

    fn pay_reward(
        &self,
        lane_id: LaneId,
        messages_relayers: Vec<UnrewardedRelayer>,
        confirmation_relayer: &AccountId,
        received_range_start: MessageNonce,
        received_range_end: MessageNonce,
    ) {
    }
}

} // verus!
