//! The data model of the message lanes.

use vstd::prelude::*;

verus! {

/// Unsigned 64-bit sequence number of a message, strictly increasing per
/// lane and starting at 1.
pub type MessageNonce = u64;

/// Opaque byte payload of a message; meaningless to this crate beyond size
/// accounting.
pub type MessagePayload = Vec<u8>;

/// A raw storage proof: an ordered sequence of opaque trie nodes.
pub type RawStorageProof = Vec<Vec<u8>>;

/// Hash of a finalized header of the bridged chain.
pub type HeaderHash = [u8; 32];

/// Trusted state root resolved from a finalized header.
pub type StateRoot = [u8; 32];

/// Account identifier on a chain, as its raw 32-byte representation.
pub type AccountId = Vec<u8>;

/// Fixed-width identifier of a lane: an independent, totally ordered channel
/// of messages. Messages in different lanes have no ordering relationship.
#[derive(Clone, Copy, PartialEq, Eq, Debug)]
pub struct LaneId(pub [u8; 4]);

/// Globally unique identity of a message: its lane and its position there.
#[derive(Clone, Copy, PartialEq, Eq, Debug)]
pub struct MessageKey {
    /// Lane the message is sent over.
    pub lane_id: LaneId,
    /// Position of the message in its lane.
    pub nonce: MessageNonce,
}

/// A message: its key and its opaque payload.
#[derive(Clone, PartialEq, Eq, Debug)]
pub struct Message {
    /// Identity of the message.
    pub key: MessageKey,
    /// Payload as stored by the sending chain.
    pub payload: MessagePayload,
}

/// Mathematical image of a `Message`.
pub ghost struct MessageView {
    /// Identity of the message.
    pub key: MessageKey,
    /// Payload bytes.
    pub payload: Seq<u8>,
}

impl View for Message {
    type V = MessageView;

    open spec fn view(&self) -> MessageView {
        MessageView { key: self.key, payload: self.payload@ }
    }
}

/// Authoritative outbound bookkeeping of a lane on the sending chain.
#[derive(Clone, Copy, PartialEq, Eq, Debug)]
pub struct OutboundLaneData {
    /// Nonce of the oldest message that has not yet been pruned.
    pub oldest_unpruned_nonce: MessageNonce,
    /// Highest nonce the target chain has confirmed delivered.
    pub latest_received_nonce: MessageNonce,
    /// Highest nonce ever queued on this lane.
    pub latest_generated_nonce: MessageNonce,
}

impl Default for OutboundLaneData {
    /// The state of a fresh lane: nothing generated, nothing received, the
    /// first message to be generated (nonce 1) is also the oldest unpruned.
    fn default() -> (d: OutboundLaneData)
        ensures
            d.oldest_unpruned_nonce == 1,
            d.latest_received_nonce == 0,
            d.latest_generated_nonce == 0,
    {
        OutboundLaneData {
            oldest_unpruned_nonce: 1,
            latest_received_nonce: 0,
            latest_generated_nonce: 0,
        }
    }
}

/// A gap-free range of nonces delivered by a single relayer.
#[derive(Clone, Copy, PartialEq, Eq, Debug)]
pub struct DeliveredMessages {
    /// First nonce of the range.
    pub begin: MessageNonce,
    /// Last nonce of the range (inclusive).
    pub end: MessageNonce,
}

/// A relayer awaiting reward together with the nonces it delivered.
#[derive(Clone, PartialEq, Eq, Debug)]
pub struct UnrewardedRelayer {
    /// Account of the relayer on the chain that rewards it.
    pub relayer: AccountId,
    /// The nonces this relayer delivered.
    pub messages: DeliveredMessages,
}

/// Authoritative inbound bookkeeping of a lane on the receiving chain:
/// the confirmed-nonce watermark plus the ordered queue of relayers that
/// await reward. Read-only from this crate's perspective.
#[derive(Clone, PartialEq, Eq, Debug)]
pub struct InboundLaneData {
    /// Relayers awaiting reward, ordered by the nonces they delivered.
    pub relayers: Vec<UnrewardedRelayer>,
    /// Highest nonce for which delivery has been confirmed to the sender.
    pub last_confirmed_nonce: MessageNonce,
}

/// Mathematical image of an `UnrewardedRelayer`.
pub ghost struct UnrewardedRelayerView {
    /// Account bytes of the relayer.
    pub relayer: Seq<u8>,
    /// The nonces this relayer delivered.
    pub messages: DeliveredMessages,
}

impl View for UnrewardedRelayer {
    type V = UnrewardedRelayerView;

    open spec fn view(&self) -> UnrewardedRelayerView {
        UnrewardedRelayerView { relayer: self.relayer@, messages: self.messages }
    }
}

/// Mathematical image of an `InboundLaneData`.
pub ghost struct InboundLaneDataView {
    /// Relayers awaiting reward, in order.
    pub relayers: Seq<UnrewardedRelayerView>,
    /// Highest nonce for which delivery has been confirmed to the sender.
    pub last_confirmed_nonce: u64,
}

impl View for InboundLaneData {
    type V = InboundLaneDataView;

    open spec fn view(&self) -> InboundLaneDataView {
        InboundLaneDataView {
            relayers: self.relayers@.map_values(|r: UnrewardedRelayer| r@),
            last_confirmed_nonce: self.last_confirmed_nonce,
        }
    }
}

/// Computational weight of dispatching a message.
#[derive(Clone, Copy, PartialEq, Eq, Debug)]
pub struct Weight {
    /// Computational time budget.
    pub ref_time: u64,
    /// State-proof size budget.
    pub proof_size: u64,
}

impl Weight {
    /// The zero weight.
    pub fn zero() -> (w: Weight)
        ensures
            w.ref_time == 0,
            w.proof_size == 0,
    {
        Weight { ref_time: 0, proof_size: 0 }
    }
}

/// The verified output for one lane of a target-side proof.
#[derive(Clone, PartialEq, Eq, Debug)]
pub struct ProvedLaneMessages {
    /// Outbound bookkeeping of the lane, where the proof carried it.
    pub lane_state: Option<OutboundLaneData>,
    /// The ordered, gap-free batch of proved messages.
    pub messages: Vec<Message>,
}

/// Mathematical image of a `ProvedLaneMessages`.
pub ghost struct ProvedLaneMessagesView {
    /// Outbound bookkeeping of the lane, where the proof carried it.
    pub lane_state: Option<OutboundLaneData>,
    /// The proved messages, in nonce order.
    pub messages: Seq<MessageView>,
}

impl View for ProvedLaneMessages {
    type V = ProvedLaneMessagesView;

    open spec fn view(&self) -> ProvedLaneMessagesView {
        ProvedLaneMessagesView {
            lane_state: self.lane_state,
            messages: self.messages@.map_values(|m: Message| m@),
        }
    }
}

/// All facts proved by one messages proof. A proof always speaks about
/// exactly one lane.
#[derive(Clone, PartialEq, Eq, Debug)]
pub struct ProvedMessages {
    /// The lane the proof is about.
    pub lane: LaneId,
    /// What was proved for that lane.
    pub lane_messages: ProvedLaneMessages,
}

/// Mathematical image of a `ProvedMessages`.
pub ghost struct ProvedMessagesView {
    /// The lane the proof is about.
    pub lane: LaneId,
    /// What was proved for that lane.
    pub lane_messages: ProvedLaneMessagesView,
}

impl View for ProvedMessages {
    type V = ProvedMessagesView;

    open spec fn view(&self) -> ProvedMessagesView {
        ProvedMessagesView { lane: self.lane, lane_messages: self.lane_messages@ }
    }
}

/// Sum of the lengths of a sequence of byte blobs.
pub open spec fn spec_nodes_size(nodes: Seq<Seq<u8>>) -> int
    decreases nodes.len(),
{
    if nodes.len() == 0 {
        0
    } else {
        spec_nodes_size(nodes.drop_last()) + nodes.last().len()
    }
}

/// Size of a storage proof: the summed length of its nodes, saturating at
/// the largest representable size instead of overflowing.
pub open spec fn spec_proof_size(nodes: Seq<Seq<u8>>) -> int {
    if spec_nodes_size(nodes) > u32::MAX {
        u32::MAX as int
    } else {
        spec_nodes_size(nodes)
    }
}

/// Summed length of the nodes of a raw storage proof, saturating at
/// `u32::MAX`.
pub fn storage_proof_size(storage_proof: &RawStorageProof) -> (r: u32)
    ensures
        r == spec_proof_size(storage_proof@.map_values(|n: Vec<u8>| n@)),
{
    let ghost all = storage_proof@.map_values(|n: Vec<u8>| n@);
    let mut sum: u64 = 0;
    let mut i: usize = 0;
    while i < storage_proof.len()
        invariant
            i <= storage_proof@.len(),
            all == storage_proof@.map_values(|n: Vec<u8>| n@),
            sum == if spec_nodes_size(all.take(i as int)) > u64::MAX {
                u64::MAX as int
            } else {
                spec_nodes_size(all.take(i as int))
            },
        decreases storage_proof@.len() - i,
    {
        assert(all.take(i + 1).drop_last() =~= all.take(i as int));
        let node_len = storage_proof[i].len();
        if node_len as u64 > u64::MAX - sum {
            sum = u64::MAX;
        } else {
            sum = sum + node_len as u64;
        }
        i = i + 1;
    }
    assert(all.take(storage_proof@.len() as int) =~= all);
    if sum > u32::MAX as u64 {
        u32::MAX
    } else {
        sum as u32
    }
}

impl FromBridgedChainMessagesProof {
    /// Size of the proof, as accounted against the relayer.
    pub fn size(&self) -> (r: u32)
        ensures
            r == spec_proof_size(self.storage_proof@.map_values(|n: Vec<u8>| n@)),
    {
        storage_proof_size(&self.storage_proof)
    }
}

impl FromBridgedChainMessagesDeliveryProof {
    /// Size of the proof, as accounted against the relayer.
    pub fn size(&self) -> (r: u32)
        ensures
            r == spec_proof_size(self.storage_proof@.map_values(|n: Vec<u8>| n@)),
    {
        storage_proof_size(&self.storage_proof)
    }
}

/// Messages proof from the bridged chain: the wire artifact a relayer
/// submits to claim "these nonces exist in this lane as of this finalized
/// header".
#[derive(Clone, PartialEq, Eq, Debug)]
pub struct FromBridgedChainMessagesProof {
    /// Hash of the finalized bridged header the proof is for.
    pub bridged_header_hash: HeaderHash,
    /// A storage trie proof of messages being delivered.
    pub storage_proof: RawStorageProof,
    /// Messages in this proof are sent over this lane.
    pub lane: LaneId,
    /// Nonce of the first message being delivered.
    pub nonces_start: MessageNonce,
    /// Nonce of the last message being delivered.
    pub nonces_end: MessageNonce,
}

/// Messages delivery proof from the bridged chain: claims "this is the
/// current inbound-lane bookkeeping as of this finalized header".
#[derive(Clone, PartialEq, Eq, Debug)]
pub struct FromBridgedChainMessagesDeliveryProof {
    /// Hash of the finalized bridged header the proof is for.
    pub bridged_header_hash: HeaderHash,
    /// Storage trie proof of the inbound lane state.
    pub storage_proof: RawStorageProof,
    /// Lane over which the messages were delivered.
    pub lane: LaneId,
}

} // verus!
