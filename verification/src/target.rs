//! Verification of proofs of messages sent by the bridged chain towards
//! this chain, and the bounds on what this chain is able to receive.

use vstd::prelude::*;

use crate::error::{Error, StorageProofError};
use crate::scale::{copy_range, decode_byte_vec, decode_compact_u32, decode_outbound_lane_data,
    spec_decode_byte_vec, spec_decode_compact_u32, spec_decode_outbound_lane_data};
use crate::storage_keys::{message_key, outbound_lane_data_key, spec_message_key,
    spec_outbound_lane_data_key};
use crate::source::MessageBridge;
use crate::storage_proof::{spec_lookup, HeaderChain, StorageValues, StorageValuesView};
use crate::types::{FromBridgedChainMessagesProof, LaneId, Message, MessageKey, MessageNonce,
    OutboundLaneData, ProvedLaneMessages, ProvedMessages, Weight};

verus! {

/// Number of messages a proof with the given nonce range claims: the size
/// of the inclusive range, saturating; an inverted range claims none and
/// may carry a lane-state fact alone.
pub open spec fn spec_messages_in_proof(nonces_start: u64, nonces_end: u64) -> int {
    if nonces_end >= nonces_start {
        if nonces_end - nonces_start + 1 > u64::MAX {
            u64::MAX as int
        } else {
            nonces_end - nonces_start + 1
        }
    } else {
        0
    }
}

/// The bytes the proof authenticates for the message at `nonce`, if any.
pub open spec fn spec_message_value(
    entries: Seq<(Seq<u8>, Seq<u8>)>,
    pallet: Seq<u8>,
    lane: LaneId,
    nonce: u64,
) -> Option<Seq<u8>> {
    spec_lookup(entries, spec_message_key(pallet, lane, nonce))
}

/// The payload of the message at `nonce`, where the proof authenticates a
/// value there and that value decodes.
pub open spec fn spec_message_payload(
    entries: Seq<(Seq<u8>, Seq<u8>)>,
    pallet: Seq<u8>,
    lane: LaneId,
    nonce: u64,
) -> Option<Seq<u8>> {
    match spec_message_value(entries, pallet, lane, nonce) {
        Some(v) => spec_decode_byte_vec(v),
        None => None,
    }
}

/// The bytes the proof authenticates for the outbound lane record, if any.
pub open spec fn spec_lane_state_value(
    entries: Seq<(Seq<u8>, Seq<u8>)>,
    pallet: Seq<u8>,
    lane: LaneId,
) -> Option<Seq<u8>> {
    spec_lookup(entries, spec_outbound_lane_data_key(pallet, lane))
}

/// The first failure of reading the messages of `[nonce, end]` in nonce
/// order: an absent value, or one that does not decode. `None` means every
/// message of the range is present and decodes.
pub open spec fn spec_scan_messages(
    entries: Seq<(Seq<u8>, Seq<u8>)>,
    pallet: Seq<u8>,
    lane: LaneId,
    nonce: u64,
    end: u64,
) -> Option<StorageProofError>
    decreases
            if nonce <= end {
                (end - nonce) as int
            } else {
                0
            },
{
    if nonce > end {
        None
    } else {
        match spec_message_value(entries, pallet, lane, nonce) {
            None => Some(StorageProofError::StorageValueEmpty),
            Some(v) => if spec_decode_byte_vec(v) is None {
                Some(StorageProofError::StorageValueDecodeFailed)
            } else if nonce == end {
                None
            } else {
                spec_scan_messages(entries, pallet, lane, (nonce + 1) as u64, end)
            },
        }
    }
}

/// Whether `key` is one that verifying this claim reads: a message key of
/// the claimed range, or the outbound lane record's key.
#[verifier::opaque]
pub open spec fn spec_key_is_read(
    pallet: Seq<u8>,
    lane: LaneId,
    nonces_start: u64,
    nonces_end: u64,
    key: Seq<u8>,
) -> bool {
    key == spec_outbound_lane_data_key(pallet, lane) || (exists|n: u64|
        nonces_start <= n <= nonces_end && key == #[trigger] spec_message_key(pallet, lane, n))
}

/// Exactly when verification of a messages claim against opened storage
/// succeeds: the declared count matches the range; every claimed message is
/// present and decodes; the lane record, where present, decodes; the proof
/// proves something; and every authenticated fact was consumed.
pub open spec fn spec_messages_proof_ok(
    v: StorageValuesView,
    pallet: Seq<u8>,
    lane: LaneId,
    nonces_start: u64,
    nonces_end: u64,
    messages_count: u32,
) -> bool {
    &&& spec_messages_in_proof(nonces_start, nonces_end) == messages_count
    &&& (nonces_start > nonces_end || spec_scan_messages(
        v.entries,
        pallet,
        lane,
        nonces_start,
        nonces_end,
    ) is None)
    &&& match spec_lane_state_value(v.entries, pallet, lane) {
        Some(bytes) => spec_decode_outbound_lane_data(bytes) is Some,
        None => true,
    }
    &&& (nonces_start <= nonces_end || spec_lane_state_value(v.entries, pallet, lane) is Some)
    &&& forall|i: int|
        0 <= i < v.used.len() ==> (#[trigger] v.used[i] || spec_key_is_read(
            pallet,
            lane,
            nonces_start,
            nonces_end,
            v.entries[i].0,
        ))
}

/// The lane state a successful verification reports: the decoded outbound
/// record where the proof carries one, nothing where it does not.
pub open spec fn spec_proved_lane_state(
    entries: Seq<(Seq<u8>, Seq<u8>)>,
    pallet: Seq<u8>,
    lane: LaneId,
) -> Option<OutboundLaneData> {
    match spec_lane_state_value(entries, pallet, lane) {
        Some(bytes) => spec_decode_outbound_lane_data(bytes),
        None => None,
    }
}

/// Reads and decodes every message of the claimed range `[start, end]`,
/// in nonce order. The first missing or undecodable value is fatal: no
/// partial batch is ever handed back.
#[verifier::rlimit(100)]
fn read_messages(
    storage: &mut StorageValues,
    bridged_messages_pallet_name: &Vec<u8>,
    lane: &LaneId,
    nonces_start: MessageNonce,
    nonces_end: MessageNonce,
    count: u64,
) -> (r: Result<Vec<Message>, Error>)
    requires
        nonces_start <= nonces_end,
        count == spec_messages_in_proof(nonces_start, nonces_end),
        count <= u32::MAX,
    ensures
        final(storage)@.entries == old(storage)@.entries,
        final(storage)@.used.len() == old(storage)@.used.len(),
        match r {
            Ok(ms) => {
                let entries = old(storage)@.entries;
                let pallet = bridged_messages_pallet_name@;
                &&& spec_scan_messages(entries, pallet, *lane, nonces_start, nonces_end) is None
                &&& ms@.len() == count
                &&& forall|j: int|
                    0 <= j < ms@.len() ==> {
                        let m = #[trigger] ms@[j];
                        &&& m@.key == MessageKey {
                            lane_id: *lane,
                            nonce: (nonces_start + j) as u64,
                        }
                        &&& spec_message_payload(
                            entries,
                            pallet,
                            *lane,
                            (nonces_start + j) as u64,
                        ) == Some(m@.payload)
                    }
                &&& forall|e: int|
                    0 <= e < old(storage)@.used.len() ==> #[trigger] final(storage)@.used[e] == (
                    old(storage)@.used[e] || (exists|n: u64|
                        nonces_start <= n <= nonces_end && old(storage)@.entries[e].0
                            == #[trigger] spec_message_key(pallet, *lane, n)))
            },
            Err(e) => match spec_scan_messages(
                old(storage)@.entries,
                bridged_messages_pallet_name@,
                *lane,
                nonces_start,
                nonces_end,
            ) {
                Some(bad) => e == Error::MessageStorage(bad),
                None => false,
            },
        },
{
    let ghost v0 = storage@;
    let ghost pallet = bridged_messages_pallet_name@;
    let mut messages: Vec<Message> = Vec::new();
    let mut i: u64 = 0;
    while i < count
        invariant
            0 <= i <= count,
            count <= u32::MAX,
            count == spec_messages_in_proof(nonces_start, nonces_end),
            nonces_start <= nonces_end,
            nonces_start + count - 1 == nonces_end,
            old(storage)@ == v0,
            storage@.entries == v0.entries,
            storage@.used.len() == v0.used.len(),
            pallet == bridged_messages_pallet_name@,
            messages@.len() == i,
            forall|j: int|
                0 <= j < i ==> {
                    let m = #[trigger] messages@[j];
                    &&& m@.key == MessageKey {
                        lane_id: *lane,
                        nonce: (nonces_start + j) as u64,
                    }
                    &&& spec_message_payload(
                        v0.entries,
                        pallet,
                        *lane,
                        (nonces_start + j) as u64,
                    ) == Some(m@.payload)
                },
            forall|e: int|
                0 <= e < v0.used.len() ==> #[trigger] storage@.used[e] == (v0.used[e] || (exists|
                n: u64|
                    nonces_start <= n < nonces_start + i && v0.entries[e].0
                        == #[trigger] spec_message_key(pallet, *lane, n))),
            i < count ==> spec_scan_messages(v0.entries, pallet, *lane, nonces_start, nonces_end)
                == spec_scan_messages(
                v0.entries,
                pallet,
                *lane,
                (nonces_start + i) as u64,
                nonces_end,
            ),
            i == count ==> spec_scan_messages(
                v0.entries,
                pallet,
                *lane,
                nonces_start,
                nonces_end,
            ) is None,
        decreases count - i,
    {
        let nonce: u64 = nonces_start + i;
        let ghost used_pre = storage@.used;
        let storage_message_key = message_key(bridged_messages_pallet_name, lane, nonce);
        let read = storage.read(&storage_message_key);
        proof {
            assert forall|e: int| 0 <= e < v0.used.len() implies #[trigger] storage@.used[e] == (
            v0.used[e] || (exists|n: u64|
                nonces_start <= n < nonces_start + i + 1 && v0.entries[e].0
                    == #[trigger] spec_message_key(pallet, *lane, n))) by {
                if storage@.used[e] {
                    if !v0.used[e] {
                        if used_pre[e] {
                            let n0 = choose|n: u64|
                                nonces_start <= n < nonces_start + i && v0.entries[e].0
                                    == #[trigger] spec_message_key(pallet, *lane, n);
                            assert(v0.entries[e].0 == spec_message_key(pallet, *lane, n0));
                        } else {
                            assert(v0.entries[e].0 == spec_message_key(pallet, *lane, nonce));
                        }
                    }
                }
            }
        }
        match read {
            None => {
                return Err(Error::MessageStorage(StorageProofError::StorageValueEmpty));
            },
            Some(value) => {
                match decode_byte_vec(&value) {
                    None => {
                        return Err(
                            Error::MessageStorage(StorageProofError::StorageValueDecodeFailed),
                        );
                    },
                    Some(payload) => {
                        messages.push(Message { key: MessageKey { lane_id: *lane, nonce }, payload });
                    },
                }
            },
        }
        i = i + 1;
    }
    Ok(messages)
}

/// Reads the optional outbound lane record: an absent value is tolerated
/// as "not proved", a present value that does not decode is fatal.
fn read_lane_state(
    storage: &mut StorageValues,
    bridged_messages_pallet_name: &Vec<u8>,
    lane: &LaneId,
) -> (r: Result<Option<OutboundLaneData>, Error>)
    ensures
        final(storage)@.entries == old(storage)@.entries,
        final(storage)@.used.len() == old(storage)@.used.len(),
        forall|e: int|
            0 <= e < old(storage)@.used.len() ==> #[trigger] final(storage)@.used[e] == (old(
                storage,
            )@.used[e] || old(storage)@.entries[e].0 == spec_outbound_lane_data_key(
                bridged_messages_pallet_name@,
                *lane,
            )),
        match r {
            Ok(state) => state == spec_proved_lane_state(
                old(storage)@.entries,
                bridged_messages_pallet_name@,
                *lane,
            ) && match spec_lane_state_value(
                old(storage)@.entries,
                bridged_messages_pallet_name@,
                *lane,
            ) {
                Some(bytes) => spec_decode_outbound_lane_data(bytes) is Some,
                None => true,
            },
            Err(e) => e == Error::OutboundLaneStorage(StorageProofError::StorageValueDecodeFailed)
                && match spec_lane_state_value(
                old(storage)@.entries,
                bridged_messages_pallet_name@,
                *lane,
            ) {
                Some(bytes) => spec_decode_outbound_lane_data(bytes) is None,
                None => false,
            },
        },
{
    let storage_lane_key = outbound_lane_data_key(bridged_messages_pallet_name, lane);
    match storage.read(&storage_lane_key) {
        None => Ok(None),
        Some(bytes) => match decode_outbound_lane_data(&bytes) {
            None => Err(Error::OutboundLaneStorage(StorageProofError::StorageValueDecodeFailed)),
            Some(d) => Ok(Some(d)),
        },
    }
}

/// Verifies a messages claim against the authenticated facts of an opened
/// storage proof: turns the claimed nonce range into the gap-free batch of
/// exactly those messages, plus the lane record where the proof carries
/// one. The declared count is checked against the range before any read; a
/// missing or undecodable message of the range is fatal, so no partial
/// batch is ever returned; a proof that proves nothing, and a proof with
/// unconsumed facts, are rejected.
#[verifier::rlimit(100)]
pub fn verify_messages_storage(
    storage: StorageValues,
    bridged_messages_pallet_name: &Vec<u8>,
    lane: &LaneId,
    nonces_start: MessageNonce,
    nonces_end: MessageNonce,
    messages_count: u32,
) -> (r: Result<ProvedMessages, Error>)
    ensures
        (spec_messages_in_proof(nonces_start, nonces_end) != messages_count) <==> (r == Err::<
            ProvedMessages,
            Error,
        >(Error::MessagesCountMismatch)),
        (r is Ok) <==> spec_messages_proof_ok(
            storage@,
            bridged_messages_pallet_name@,
            *lane,
            nonces_start,
            nonces_end,
            messages_count,
        ),
        match r {
            Ok(pm) => {
                let entries = storage@.entries;
                let pallet = bridged_messages_pallet_name@;
                &&& pm.lane == *lane
                &&& pm@.lane_messages.lane_state == spec_proved_lane_state(entries, pallet, *lane)
                &&& pm@.lane_messages.messages.len() == spec_messages_in_proof(
                    nonces_start,
                    nonces_end,
                )
                &&& forall|i: int|
                    0 <= i < pm@.lane_messages.messages.len() ==> {
                        let m = #[trigger] pm@.lane_messages.messages[i];
                        &&& m.key == MessageKey {
                            lane_id: *lane,
                            nonce: (nonces_start + i) as u64,
                        }
                        &&& spec_message_payload(
                            entries,
                            pallet,
                            *lane,
                            (nonces_start + i) as u64,
                        ) == Some(m.payload)
                    }
            },
            Err(e) => true,
        },
        spec_messages_in_proof(nonces_start, nonces_end) == messages_count && nonces_start
            <= nonces_end ==> match spec_scan_messages(
            storage@.entries,
            bridged_messages_pallet_name@,
            *lane,
            nonces_start,
            nonces_end,
        ) {
            Some(e) => r == Err::<ProvedMessages, Error>(Error::MessageStorage(e)),
            None => true,
        },
        spec_messages_in_proof(nonces_start, nonces_end) == messages_count && (nonces_start
            > nonces_end || spec_scan_messages(
            storage@.entries,
            bridged_messages_pallet_name@,
            *lane,
            nonces_start,
            nonces_end,
        ) is None) ==> match spec_lane_state_value(
            storage@.entries,
            bridged_messages_pallet_name@,
            *lane,
        ) {
            Some(bytes) => spec_decode_outbound_lane_data(bytes) is None ==> r == Err::<
                ProvedMessages,
                Error,
            >(Error::OutboundLaneStorage(StorageProofError::StorageValueDecodeFailed)),
            None => nonces_start > nonces_end ==> r == Err::<ProvedMessages, Error>(
                Error::EmptyMessageProof,
            ),
        },
{
    let ghost v0 = storage@;
    let ghost pallet = bridged_messages_pallet_name@;
    let mut storage = storage;

    // the declared count must match what the nonce range claims, before
    // anything is read; the range size saturates rather than overflowing
    let messages_in_proof: u64 = if nonces_end >= nonces_start {
        let diff = nonces_end - nonces_start;
        if diff == u64::MAX {
            u64::MAX
        } else {
            diff + 1
        }
    } else {
        0
    };
    if messages_in_proof != messages_count as u64 {
        return Err(Error::MessagesCountMismatch);
    }

    // every message the range claims must be present and decode; any
    // failure is fatal, so a rejected claim delivers no partial batch
    let mut messages: Vec<Message> = Vec::new();
    if nonces_end >= nonces_start {
        match read_messages(
            &mut storage,
            bridged_messages_pallet_name,
            lane,
            nonces_start,
            nonces_end,
            messages_in_proof,
        ) {
            Ok(ms) => {
                messages = ms;
            },
            Err(e) => {
                return Err(e);
            },
        }
    }
    let ghost used_after_messages = storage@.used;

    let lane_state: Option<OutboundLaneData> = match read_lane_state(
        &mut storage,
        bridged_messages_pallet_name,
        lane,
    ) {
        Ok(state) => state,
        Err(e) => {
            return Err(e);
        },
    };

    // the proof must prove something
    if lane_state.is_none() && messages.len() == 0 {
        return Err(Error::EmptyMessageProof);
    }

    // and it must not carry facts beyond the claimed reads
    let every_fact_used = storage.all_used();
    proof {
        assert forall|e: int| 0 <= e < v0.used.len() implies #[trigger] storage@.used[e] == (
        v0.used[e] || spec_key_is_read(pallet, *lane, nonces_start, nonces_end, v0.entries[e].0))
            by {
            reveal(spec_key_is_read);
            if nonces_end >= nonces_start {
                assert(used_after_messages[e] == (v0.used[e] || (exists|n: u64|
                    nonces_start <= n <= nonces_end && v0.entries[e].0
                        == #[trigger] spec_message_key(pallet, *lane, n))));
            } else {
                assert(used_after_messages[e] == v0.used[e]);
                if spec_key_is_read(pallet, *lane, nonces_start, nonces_end, v0.entries[e].0)
                    && v0.entries[e].0 != spec_outbound_lane_data_key(pallet, *lane) {
                    let n0 = choose|n: u64|
                        nonces_start <= n <= nonces_end && v0.entries[e].0
                            == #[trigger] spec_message_key(pallet, *lane, n);
                    assert(false);
                }
            }
        }
    }
    if !every_fact_used {
        proof {
            let e = choose|i: int| 0 <= i < storage@.used.len() && !storage@.used[i];
            assert(!(v0.used[e] || spec_key_is_read(
                pallet,
                *lane,
                nonces_start,
                nonces_end,
                v0.entries[e].0,
            )));
            assert(!spec_messages_proof_ok(
                v0,
                pallet,
                *lane,
                nonces_start,
                nonces_end,
                messages_count,
            ));
        }
        return Err(Error::StorageProof(StorageProofError::UnusedNodesInTheProof));
    }
    proof {
        assert forall|i: int| 0 <= i < v0.used.len() implies (#[trigger] v0.used[i]
            || spec_key_is_read(pallet, *lane, nonces_start, nonces_end, v0.entries[i].0)) by {
            assert(storage@.used[i]);
        }
        assert(spec_messages_proof_ok(v0, pallet, *lane, nonces_start, nonces_end, messages_count));
    }

    let proved = ProvedMessages {
        lane: *lane,
        lane_messages: ProvedLaneMessages { lane_state, messages },
    };
    Ok(proved)
}

/// Verifies a proof of messages sent by the bridged chain: resolves the
/// claimed finalized header through the bridge's header chain, opens the
/// storage proof against the trusted root, and checks the claim against the
/// authenticated facts. A successful result carries exactly the claimed
/// gap-free nonce range for the claimed lane and is never empty.
pub fn verify_messages_proof<B: MessageBridge>(
    bridge: &B,
    proof: FromBridgedChainMessagesProof,
    messages_count: u32,
) -> (r: Result<ProvedMessages, Error>)
    ensures
        match r {
            Ok(pm) => {
                &&& pm.lane == proof.lane
                &&& spec_messages_in_proof(proof.nonces_start, proof.nonces_end) == messages_count
                &&& pm@.lane_messages.messages.len() == messages_count
                &&& forall|i: int|
                    0 <= i < pm@.lane_messages.messages.len()
                        ==> (#[trigger] pm@.lane_messages.messages[i]).key == MessageKey {
                        lane_id: proof.lane,
                        nonce: (proof.nonces_start + i) as u64,
                    }
                &&& (pm@.lane_messages.lane_state is Some || pm@.lane_messages.messages.len() > 0)
            },
            Err(e) => true,
        },
{
    let lane = proof.lane;
    let nonces_start = proof.nonces_start;
    let nonces_end = proof.nonces_end;
    match bridge.bridged_header_chain().parse_finalized_storage_proof(
        &proof.bridged_header_hash,
        proof.storage_proof,
    ) {
        Err(e) => Err(Error::HeaderChain(e)),
        Ok(storage) => {
            let r = verify_messages_storage(
                storage,
                bridge.bridged_messages_pallet_name(),
                &lane,
                nonces_start,
                nonces_end,
                messages_count,
            );
            r
        },
    }
}

/// Adapter that checks proofs of messages coming from the bridged chain,
/// carrying the bridge configuration it verifies against.
pub struct SourceHeaderChainAdapter<B> {
    /// The bridge configuration.
    pub bridge: B,
}

impl<B: MessageBridge> SourceHeaderChainAdapter<B> {
    /// Verifies a proof of messages sent by the bridged chain.
    pub fn verify_messages_proof(
        &self,
        proof: FromBridgedChainMessagesProof,
        messages_count: u32,
    ) -> (r: Result<ProvedMessages, Error>)
        ensures
            match r {
                Ok(pm) => {
                    &&& pm.lane == proof.lane
                    &&& spec_messages_in_proof(proof.nonces_start, proof.nonces_end)
                        == messages_count
                    &&& pm@.lane_messages.messages.len() == messages_count
                    &&& (pm@.lane_messages.lane_state is Some || pm@.lane_messages.messages.len()
                        > 0)
                },
                Err(e) => true,
            },
    {
        verify_messages_proof(&self.bridge, proof, messages_count)
    }
}

/// Maximal dispatch weight of a message this chain is able to receive:
/// half of the maximal transaction weight, the other half being reserved
/// for verification and dispatch overhead outside the payload's own
/// execution.
pub fn maximal_incoming_message_dispatch_weight(maximal_extrinsic_weight: Weight) -> (w: Weight)
    ensures
        w.ref_time == maximal_extrinsic_weight.ref_time / 2,
        w.proof_size == maximal_extrinsic_weight.proof_size / 2,
{
    Weight {
        ref_time: maximal_extrinsic_weight.ref_time / 2,
        proof_size: maximal_extrinsic_weight.proof_size / 2,
    }
}

/// Maximal size of a message this chain is able to receive: two thirds of
/// the maximal transaction size, one third being reserved for the storage
/// proof, signatures and envelope that wrap the message in a delivery
/// transaction.
pub fn maximal_incoming_message_size(maximal_extrinsic_size: u32) -> (r: u32)
    ensures
        r == maximal_extrinsic_size / 3 * 2,
{
    maximal_extrinsic_size / 3 * 2
}

/// The dispatch weight to charge for an incoming message, from what the
/// host's weigher answered: a payload whose weight cannot be computed gets
/// zero, so that the executor fails it instead of the lane getting stuck
/// behind it.
pub fn dispatch_weight_from(weigher_result: Option<Weight>) -> (w: Weight)
    ensures
        match weigher_result {
            Some(computed) => w == computed,
            None => w.ref_time == 0 && w.proof_size == 0,
        },
{
    match weigher_result {
        Some(computed) => computed,
        None => Weight::zero(),
    }
}

/// Decoded payload of a message coming from the bridged chain: the interior
/// program stays opaque encoded bytes here, since its structure belongs to
/// the dispatch collaborator; this crate only strips the redundant length
/// prefix the wire format carries.
#[derive(Clone, PartialEq, Eq, Debug)]
pub struct FromBridgedChainMessagePayload {
    /// The encoded program that is handed to the dispatch collaborator.
    pub xcm: Vec<u8>,
    /// Weight of the message, computed by the weigher. Unknown initially.
    pub weight: Option<Weight>,
}

impl FromBridgedChainMessagePayload {
    /// Decodes a stored message payload: a compact length prefix followed
    /// by the encoded program, whose weight is not yet known.
    pub fn decode(bytes: &Vec<u8>) -> (r: Option<FromBridgedChainMessagePayload>)
        ensures
            match r {
                Some(p) => {
                    &&& spec_decode_compact_u32(bytes@) matches Some((_, k)) && p.xcm@
                        == bytes@.skip(k)
                    &&& p.weight is None
                },
                None => spec_decode_compact_u32(bytes@) is None,
            },
    {
        proof {
            assert(bytes@.skip(0) =~= bytes@);
        }
        match decode_compact_u32(bytes, 0) {
            None => None,
            Some((_, k)) => {
                let xcm = copy_range(bytes, k, bytes.len());
                proof {
                    assert(bytes@.subrange(k as int, bytes@.len() as int) =~= bytes@.skip(k as int));
                }
                Some(FromBridgedChainMessagePayload { xcm, weight: None })
            },
        }
    }
}

} // verus!
