use bridge_messages::error::{Error, HeaderChainError, StorageProofError};
use bridge_messages::scale::{encode_byte_vec, encode_outbound_lane_data};
use bridge_messages::source::{
    check_chain_message, check_lane_message, maximal_message_size, verify_chain_message,
    verify_messages_delivery_proof, BridgedChainWithMessages, FromThisChainMessageVerifier,
    MessageBridge, ThisChainWithMessages, MESSAGE_REJECTED_BY_OUTBOUND_LANE,
    TOO_MANY_PENDING_MESSAGES,
};
use bridge_messages::source_chain::{
    ForbidOutboundMessages, LaneMessageVerifier, MessagesBridge, NoopMessagesBridge,
    SendMessageArtifacts, TargetHeaderChain, ALL_OUTBOUND_MESSAGES_REJECTED,
};
use bridge_messages::storage_keys::{inbound_lane_data_key, message_key, outbound_lane_data_key};
use bridge_messages::storage_proof::{storage_proof_has_duplicate_nodes, HeaderChain, StorageValues};
use bridge_messages::target::{
    dispatch_weight_from, maximal_incoming_message_dispatch_weight, maximal_incoming_message_size,
    verify_messages_proof,
};
use bridge_messages::types::{
    FromBridgedChainMessagesDeliveryProof, FromBridgedChainMessagesProof, InboundLaneData, LaneId,
    Message, MessageKey, MessageNonce, OutboundLaneData, ProvedLaneMessages, ProvedMessages,
    Weight,
};

const TEST_LANE_ID: LaneId = LaneId(*b"test");
const MAXIMAL_PENDING_MESSAGES_AT_TEST_LANE: MessageNonce = 32;
const BRIDGED_CHAIN_MIN_EXTRINSIC_WEIGHT: usize = 5;
const BRIDGED_CHAIN_MAX_EXTRINSIC_WEIGHT: usize = 2048;
const BRIDGED_CHAIN_MAX_EXTRINSIC_SIZE: u32 = 1024;

#[derive(Clone)]
enum TestOrigin {
    Root,
}

struct ThisChain;

impl ThisChainWithMessages for ThisChain {
    type RuntimeOrigin = TestOrigin;

    fn is_message_accepted(&self, _submitter: &TestOrigin, lane: &LaneId) -> bool {
        lane.0 != *b"dsbl"
    }

    fn maximal_pending_messages_at_outbound_lane(&self) -> MessageNonce {
        MAXIMAL_PENDING_MESSAGES_AT_TEST_LANE
    }
}

struct BridgedChain;

impl BridgedChainWithMessages for BridgedChain {
    fn verify_dispatch_weight(&self, message_payload: &Vec<u8>) -> bool {
        message_payload.len() >= BRIDGED_CHAIN_MIN_EXTRINSIC_WEIGHT
            && message_payload.len() <= BRIDGED_CHAIN_MAX_EXTRINSIC_WEIGHT
    }

    fn max_extrinsic_size(&self) -> u32 {
        BRIDGED_CHAIN_MAX_EXTRINSIC_SIZE
    }
}

// A toy header chain for tests: each raw node frames one (key, value) fact
// as key-length, key, value; the state root is the digest of the first
// node, so that appending extra or duplicate nodes does not disturb it.
struct TestHeaderChain {
    known_headers: Vec<([u8; 32], [u8; 32])>,
}

fn test_digest(data: &[u8]) -> [u8; 32] {
    let mut h: u64 = 0xcbf2_9ce4_8422_2325;
    for b in data {
        h ^= *b as u64;
        h = h.wrapping_mul(0x1000_0000_01b3);
    }
    let mut out = [0u8; 32];
    out[..8].copy_from_slice(&h.to_le_bytes());
    out
}

fn encode_node(key: &[u8], value: &[u8]) -> Vec<u8> {
    let mut node = (key.len() as u32).to_le_bytes().to_vec();
    node.extend_from_slice(key);
    node.extend_from_slice(value);
    node
}

fn decode_node(node: &[u8]) -> (Vec<u8>, Vec<u8>) {
    if node.len() >= 4 {
        let key_len = u32::from_le_bytes([node[0], node[1], node[2], node[3]]) as usize;
        if node.len() - 4 >= key_len {
            return (node[4..4 + key_len].to_vec(), node[4 + key_len..].to_vec());
        }
    }
    // a malformed node still becomes a fact, under itself, so that it can
    // only ever show up as unused
    (node.to_vec(), Vec::new())
}

fn test_root(nodes: &[Vec<u8>]) -> [u8; 32] {
    if nodes.is_empty() {
        [0u8; 32]
    } else {
        test_digest(&nodes[0])
    }
}

impl HeaderChain for TestHeaderChain {
    fn parse_finalized_storage_proof(
        &self,
        header_hash: &[u8; 32],
        storage_proof: Vec<Vec<u8>>,
    ) -> Result<StorageValues, HeaderChainError> {
        let root = self
            .known_headers
            .iter()
            .find(|(h, _)| h == header_hash)
            .map(|(_, r)| *r)
            .ok_or(HeaderChainError::UnknownHeader)?;
        if storage_proof_has_duplicate_nodes(&storage_proof) {
            return Err(HeaderChainError::StorageProof(StorageProofError::DuplicateNodesInProof));
        }
        let root_present = if storage_proof.is_empty() {
            root == [0u8; 32]
        } else {
            storage_proof.iter().any(|n| test_digest(n) == root)
        };
        if !root_present {
            return Err(HeaderChainError::StorageProof(StorageProofError::StorageRootMismatch));
        }
        Ok(StorageValues::new(storage_proof.iter().map(|n| decode_node(n)).collect()))
    }
}

struct OnThisChainBridge {
    pallet: Vec<u8>,
    this_chain: ThisChain,
    bridged_chain: BridgedChain,
    header_chain: TestHeaderChain,
}

impl MessageBridge for OnThisChainBridge {
    type ThisChain = ThisChain;
    type BridgedChain = BridgedChain;
    type BridgedHeaderChain = TestHeaderChain;

    fn bridged_messages_pallet_name(&self) -> &Vec<u8> {
        &self.pallet
    }

    fn this_chain(&self) -> &ThisChain {
        &self.this_chain
    }

    fn bridged_chain(&self) -> &BridgedChain {
        &self.bridged_chain
    }

    fn bridged_header_chain(&self) -> &TestHeaderChain {
        &self.header_chain
    }
}

fn test_pallet_name() -> Vec<u8> {
    b"BridgedMessages".to_vec()
}

fn test_lane_outbound_data() -> OutboundLaneData {
    OutboundLaneData::default()
}

fn regular_outbound_message_payload() -> Vec<u8> {
    vec![42]
}

fn encode_all_messages(_nonce: MessageNonce, payload: &Vec<u8>) -> Option<Vec<u8>> {
    let mut out = Vec::new();
    encode_byte_vec(payload, &mut out);
    Some(out)
}

fn encode_lane_data(d: &OutboundLaneData) -> Vec<u8> {
    encode_outbound_lane_data(d)
}

fn make_bridge(nodes: &[Vec<u8>]) -> (OnThisChainBridge, [u8; 32]) {
    let root = test_root(nodes);
    let header_hash = test_digest(&root);
    let bridge = OnThisChainBridge {
        pallet: test_pallet_name(),
        this_chain: ThisChain,
        bridged_chain: BridgedChain,
        header_chain: TestHeaderChain { known_headers: vec![(header_hash, root)] },
    };
    (bridge, header_hash)
}

fn using_messages_proof<R>(
    nonces_end: MessageNonce,
    outbound_lane_data: Option<OutboundLaneData>,
    encode_message: impl Fn(MessageNonce, &Vec<u8>) -> Option<Vec<u8>>,
    encode_outbound_lane_data: impl Fn(&OutboundLaneData) -> Vec<u8>,
    test: impl FnOnce(OnThisChainBridge, FromBridgedChainMessagesProof) -> R,
) -> R {
    let pallet = test_pallet_name();
    let mut nodes: Vec<Vec<u8>> = Vec::new();
    let mut nonce = 1u64;
    while nonce <= nonces_end {
        if let Some(encoded) = encode_message(nonce, &vec![42u8]) {
            nodes.push(encode_node(&message_key(&pallet, &TEST_LANE_ID, nonce), &encoded));
        }
        nonce += 1;
    }
    if let Some(d) = outbound_lane_data {
        nodes.push(encode_node(
            &outbound_lane_data_key(&pallet, &TEST_LANE_ID),
            &encode_outbound_lane_data(&d),
        ));
    }
    let (bridge, header_hash) = make_bridge(&nodes);
    test(
        bridge,
        FromBridgedChainMessagesProof {
            bridged_header_hash: header_hash,
            storage_proof: nodes,
            lane: TEST_LANE_ID,
            nonces_start: 1,
            nonces_end,
        },
    )
}

#[test]
fn message_is_rejected_when_sent_using_disabled_lane() {
    let verifier = FromThisChainMessageVerifier { this_chain: ThisChain };
    assert_eq!(
        verifier.verify_message(
            &TestOrigin::Root,
            &LaneId(*b"dsbl"),
            &test_lane_outbound_data(),
            &regular_outbound_message_payload(),
        ),
        Err(MESSAGE_REJECTED_BY_OUTBOUND_LANE)
    );
}

#[test]
fn message_is_rejected_when_there_are_too_many_pending_messages_at_outbound_lane() {
    let verifier = FromThisChainMessageVerifier { this_chain: ThisChain };
    assert_eq!(
        verifier.verify_message(
            &TestOrigin::Root,
            &TEST_LANE_ID,
            &OutboundLaneData {
                latest_received_nonce: 100,
                latest_generated_nonce: 100 + MAXIMAL_PENDING_MESSAGES_AT_TEST_LANE + 1,
                ..Default::default()
            },
            &regular_outbound_message_payload(),
        ),
        Err(TOO_MANY_PENDING_MESSAGES)
    );
}

#[test]
fn verify_chain_message_rejects_message_with_too_small_declared_weight() {
    let (bridge, _) = make_bridge(&[]);
    assert!(
        verify_chain_message(&bridge, &vec![42; BRIDGED_CHAIN_MIN_EXTRINSIC_WEIGHT - 1]).is_err()
    );
}

#[test]
fn verify_chain_message_rejects_message_with_too_large_declared_weight() {
    let (bridge, _) = make_bridge(&[]);
    assert!(
        verify_chain_message(&bridge, &vec![42; BRIDGED_CHAIN_MAX_EXTRINSIC_WEIGHT - 1]).is_err()
    );
}

#[test]
fn verify_chain_message_rejects_message_too_large_message() {
    let (bridge, _) = make_bridge(&[]);
    assert!(
        verify_chain_message(&bridge, &vec![0; maximal_message_size(&bridge) as usize + 1])
            .is_err()
    );
}

#[test]
fn verify_chain_message_accepts_maximal_message() {
    let (bridge, _) = make_bridge(&[]);
    assert_eq!(
        verify_chain_message(&bridge, &vec![0; maximal_message_size(&bridge) as usize]),
        Ok(()),
    );
}

#[test]
fn messages_proof_is_rejected_if_declared_less_than_actual_number_of_messages() {
    assert_eq!(
        using_messages_proof(10, None, encode_all_messages, encode_lane_data, |bridge, proof| {
            verify_messages_proof(&bridge, proof, 5)
        }),
        Err(Error::MessagesCountMismatch),
    );
}

#[test]
fn messages_proof_is_rejected_if_declared_more_than_actual_number_of_messages() {
    assert_eq!(
        using_messages_proof(10, None, encode_all_messages, encode_lane_data, |bridge, proof| {
            verify_messages_proof(&bridge, proof, 15)
        }),
        Err(Error::MessagesCountMismatch),
    );
}

#[test]
fn message_proof_is_rejected_if_header_is_missing_from_the_chain() {
    assert_eq!(
        using_messages_proof(10, None, encode_all_messages, encode_lane_data, |mut bridge, proof| {
            bridge.header_chain.known_headers.clear();
            verify_messages_proof(&bridge, proof, 10)
        }),
        Err(Error::HeaderChain(HeaderChainError::UnknownHeader)),
    );
}

#[test]
fn message_proof_is_rejected_if_header_state_root_mismatches() {
    assert_eq!(
        using_messages_proof(10, None, encode_all_messages, encode_lane_data, |mut bridge, proof| {
            let header_hash = bridge.header_chain.known_headers[0].0;
            bridge.header_chain.known_headers = vec![(header_hash, [7u8; 32])];
            verify_messages_proof(&bridge, proof, 10)
        }),
        Err(Error::HeaderChain(HeaderChainError::StorageProof(
            StorageProofError::StorageRootMismatch
        ))),
    );
}

#[test]
fn message_proof_is_rejected_if_it_has_duplicate_trie_nodes() {
    assert_eq!(
        using_messages_proof(10, None, encode_all_messages, encode_lane_data, |bridge, mut proof| {
            let node = proof.storage_proof.pop().unwrap();
            proof.storage_proof.push(node.clone());
            proof.storage_proof.push(node);
            verify_messages_proof(&bridge, proof, 10)
        }),
        Err(Error::HeaderChain(HeaderChainError::StorageProof(
            StorageProofError::DuplicateNodesInProof
        ))),
    );
}

#[test]
fn message_proof_is_rejected_if_it_has_unused_trie_nodes() {
    assert_eq!(
        using_messages_proof(10, None, encode_all_messages, encode_lane_data, |bridge, mut proof| {
            proof.storage_proof.push(vec![42]);
            verify_messages_proof(&bridge, proof, 10)
        }),
        Err(Error::StorageProof(StorageProofError::UnusedNodesInTheProof)),
    );
}

#[test]
fn message_proof_is_rejected_if_required_message_is_missing() {
    assert_eq!(
        using_messages_proof(
            10,
            None,
            |n, m| if n != 5 { encode_all_messages(n, m) } else { None },
            encode_lane_data,
            |bridge, proof| verify_messages_proof(&bridge, proof, 10),
        ),
        Err(Error::MessageStorage(StorageProofError::StorageValueEmpty)),
    );
}

#[test]
fn message_proof_is_rejected_if_message_decode_fails() {
    assert_eq!(
        using_messages_proof(
            10,
            None,
            |n, m| {
                if n == 5 {
                    // a bare 42 claims a four-byte compact mode with only
                    // one byte present, so it cannot decode
                    Some(vec![42])
                } else {
                    encode_all_messages(n, m)
                }
            },
            encode_lane_data,
            |bridge, proof| verify_messages_proof(&bridge, proof, 10),
        ),
        Err(Error::MessageStorage(StorageProofError::StorageValueDecodeFailed)),
    );
}

#[test]
fn message_proof_is_rejected_if_outbound_lane_state_decode_fails() {
    assert_eq!(
        using_messages_proof(
            10,
            Some(OutboundLaneData {
                oldest_unpruned_nonce: 1,
                latest_received_nonce: 1,
                latest_generated_nonce: 1,
            }),
            encode_all_messages,
            |d| {
                let mut bytes = encode_lane_data(d);
                bytes.truncate(1);
                bytes
            },
            |bridge, proof| verify_messages_proof(&bridge, proof, 10),
        ),
        Err(Error::OutboundLaneStorage(StorageProofError::StorageValueDecodeFailed)),
    );
}

#[test]
fn message_proof_is_rejected_if_it_is_empty() {
    assert_eq!(
        using_messages_proof(0, None, encode_all_messages, encode_lane_data, |bridge, proof| {
            verify_messages_proof(&bridge, proof, 0)
        }),
        Err(Error::EmptyMessageProof),
    );
}

#[test]
fn non_empty_message_proof_without_messages_is_accepted() {
    assert_eq!(
        using_messages_proof(
            0,
            Some(OutboundLaneData {
                oldest_unpruned_nonce: 1,
                latest_received_nonce: 1,
                latest_generated_nonce: 1,
            }),
            encode_all_messages,
            encode_lane_data,
            |bridge, proof| verify_messages_proof(&bridge, proof, 0),
        ),
        Ok(ProvedMessages {
            lane: TEST_LANE_ID,
            lane_messages: ProvedLaneMessages {
                lane_state: Some(OutboundLaneData {
                    oldest_unpruned_nonce: 1,
                    latest_received_nonce: 1,
                    latest_generated_nonce: 1,
                }),
                messages: Vec::new(),
            },
        }),
    );
}

#[test]
fn non_empty_message_proof_is_accepted() {
    assert_eq!(
        using_messages_proof(
            1,
            Some(OutboundLaneData {
                oldest_unpruned_nonce: 1,
                latest_received_nonce: 1,
                latest_generated_nonce: 1,
            }),
            encode_all_messages,
            encode_lane_data,
            |bridge, proof| verify_messages_proof(&bridge, proof, 1),
        ),
        Ok(ProvedMessages {
            lane: TEST_LANE_ID,
            lane_messages: ProvedLaneMessages {
                lane_state: Some(OutboundLaneData {
                    oldest_unpruned_nonce: 1,
                    latest_received_nonce: 1,
                    latest_generated_nonce: 1,
                }),
                messages: vec![Message {
                    key: MessageKey { lane_id: TEST_LANE_ID, nonce: 1 },
                    payload: vec![42],
                }],
            },
        }),
    );
}

#[test]
fn verify_messages_proof_does_not_panic_if_messages_count_mismatches() {
    assert_eq!(
        using_messages_proof(1, None, encode_all_messages, encode_lane_data, |bridge, mut proof| {
            proof.nonces_end = u64::MAX;
            verify_messages_proof(&bridge, proof, u32::MAX)
        }),
        Err(Error::MessagesCountMismatch),
    );
}

// ---- delivery proofs ----

fn test_inbound_lane_data() -> InboundLaneData {
    InboundLaneData {
        relayers: vec![bridge_messages::types::UnrewardedRelayer {
            relayer: vec![7u8; 32],
            messages: bridge_messages::types::DeliveredMessages { begin: 1, end: 9 },
        }],
        last_confirmed_nonce: 9,
    }
}

fn using_delivery_proof<R>(
    value: Option<Vec<u8>>,
    test: impl FnOnce(OnThisChainBridge, FromBridgedChainMessagesDeliveryProof) -> R,
) -> R {
    let pallet = test_pallet_name();
    let mut nodes: Vec<Vec<u8>> = Vec::new();
    if let Some(v) = value {
        nodes.push(encode_node(&inbound_lane_data_key(&pallet, &TEST_LANE_ID), &v));
    }
    let (bridge, header_hash) = make_bridge(&nodes);
    test(
        bridge,
        FromBridgedChainMessagesDeliveryProof {
            bridged_header_hash: header_hash,
            storage_proof: nodes,
            lane: TEST_LANE_ID,
        },
    )
}

#[test]
fn delivery_proof_with_correct_lane_state_is_accepted() {
    let data = test_inbound_lane_data();
    let encoded = bridge_messages::scale::encode_inbound_lane_data(&data).unwrap();
    assert_eq!(
        using_delivery_proof(Some(encoded), |bridge, proof| {
            verify_messages_delivery_proof(&bridge, proof)
        }),
        Ok((TEST_LANE_ID, data)),
    );
}

#[test]
fn delivery_proof_without_lane_state_is_rejected() {
    assert_eq!(
        using_delivery_proof(None, |bridge, proof| {
            verify_messages_delivery_proof(&bridge, proof)
        }),
        Err(Error::InboundLaneStorage(StorageProofError::StorageValueEmpty)),
    );
}

#[test]
fn delivery_proof_with_undecodable_lane_state_is_rejected() {
    let mut encoded = bridge_messages::scale::encode_inbound_lane_data(&test_inbound_lane_data())
        .unwrap();
    encoded.truncate(3);
    assert_eq!(
        using_delivery_proof(Some(encoded), |bridge, proof| {
            verify_messages_delivery_proof(&bridge, proof)
        }),
        Err(Error::InboundLaneStorage(StorageProofError::StorageValueDecodeFailed)),
    );
}

#[test]
fn delivery_proof_with_unused_nodes_is_rejected() {
    let encoded = bridge_messages::scale::encode_inbound_lane_data(&test_inbound_lane_data())
        .unwrap();
    assert_eq!(
        using_delivery_proof(Some(encoded), |bridge, mut proof| {
            proof.storage_proof.push(vec![42]);
            verify_messages_delivery_proof(&bridge, proof)
        }),
        Err(Error::StorageProof(StorageProofError::UnusedNodesInTheProof)),
    );
}

// ---- outbound checks on explicit policy decisions ----

#[test]
fn lane_check_rejects_backlog_just_over_the_ceiling() {
    let data = OutboundLaneData {
        oldest_unpruned_nonce: 1,
        latest_received_nonce: 100,
        latest_generated_nonce: 133,
    };
    assert_eq!(check_lane_message(true, 32, &data), Err(TOO_MANY_PENDING_MESSAGES));
    let data_at_ceiling = OutboundLaneData { latest_generated_nonce: 132, ..data };
    assert_eq!(check_lane_message(true, 32, &data_at_ceiling), Ok(()));
}

#[test]
fn lane_check_tolerates_inconsistent_bookkeeping() {
    // received beyond generated counts as no backlog, never as a panic
    let data = OutboundLaneData {
        oldest_unpruned_nonce: 1,
        latest_received_nonce: 10,
        latest_generated_nonce: 3,
    };
    assert_eq!(check_lane_message(true, 0, &data), Ok(()));
}

#[test]
fn payload_check_is_exact_at_the_size_bound() {
    assert_eq!(check_chain_message(true, 4, &vec![0; 4]), Ok(()));
    assert_eq!(check_chain_message(true, 4, &vec![0; 5]), Err(Error::MessageTooLarge));
    assert_eq!(check_chain_message(false, 4, &vec![0; 4]), Err(Error::InvalidMessageWeight));
}

// ---- bound calculators ----

#[test]
fn maximal_incoming_message_size_reserves_a_third() {
    assert_eq!(maximal_incoming_message_size(1024), 682);
    assert_eq!(maximal_incoming_message_size(3), 2);
    assert_eq!(maximal_incoming_message_size(u32::MAX), u32::MAX / 3 * 2);
}

#[test]
fn maximal_incoming_message_dispatch_weight_reserves_half() {
    let w = maximal_incoming_message_dispatch_weight(Weight { ref_time: 9, proof_size: 4 });
    assert_eq!(w, Weight { ref_time: 4, proof_size: 2 });
}

#[test]
fn state_only_proof_must_declare_zero_messages() {
    // an inverted range claims zero messages, so any other declared count
    // is an inconsistent claim
    assert_eq!(
        using_messages_proof(
            0,
            Some(OutboundLaneData {
                oldest_unpruned_nonce: 1,
                latest_received_nonce: 1,
                latest_generated_nonce: 1,
            }),
            encode_all_messages,
            encode_lane_data,
            |bridge, proof| verify_messages_proof(&bridge, proof, 5),
        ),
        Err(Error::MessagesCountMismatch),
    );
}

#[test]
fn weigher_failure_degrades_to_zero_weight() {
    assert_eq!(dispatch_weight_from(None), Weight { ref_time: 0, proof_size: 0 });
    let w = Weight { ref_time: 11, proof_size: 3 };
    assert_eq!(dispatch_weight_from(Some(w)), w);
}

#[test]
fn noop_bridge_reports_a_zero_nonce() {
    assert_eq!(
        NoopMessagesBridge.send_message((), TEST_LANE_ID, vec![42u8]),
        Ok(SendMessageArtifacts { nonce: 0, weight: Weight { ref_time: 0, proof_size: 0 } }),
    );
}

#[test]
fn forbidding_bridge_rejects_everything() {
    assert_eq!(
        TargetHeaderChain::<Vec<u8>>::verify_message(&ForbidOutboundMessages, &vec![42u8]),
        Err(ALL_OUTBOUND_MESSAGES_REJECTED),
    );
    assert_eq!(
        TargetHeaderChain::<Vec<u8>>::verify_messages_delivery_proof(&ForbidOutboundMessages, ()),
        Err(ALL_OUTBOUND_MESSAGES_REJECTED),
    );
    assert_eq!(
        LaneMessageVerifier::<(), Vec<u8>>::verify_message(
            &ForbidOutboundMessages,
            &(),
            &TEST_LANE_ID,
            &OutboundLaneData::default(),
            &vec![42u8],
        ),
        Err(ALL_OUTBOUND_MESSAGES_REJECTED),
    );
}
