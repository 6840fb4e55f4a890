use bridge_messages::scale::{
    decode_byte_vec, decode_compact_u32, decode_inbound_lane_data, decode_outbound_lane_data,
    encode_byte_vec, encode_compact_u32, encode_inbound_lane_data, encode_outbound_lane_data,
    read_u64_le, write_u64_le,
};
use bridge_messages::storage_keys::{inbound_lane_data_key, message_key, outbound_lane_data_key};
use bridge_messages::types::{
    DeliveredMessages, FromBridgedChainMessagesProof, InboundLaneData, LaneId, OutboundLaneData,
    UnrewardedRelayer,
};

#[test]
fn u64_little_endian_round_trips() {
    for v in [0u64, 1, 0x0102_0304_0506_0708, u64::MAX] {
        let mut bytes = Vec::new();
        write_u64_le(v, &mut bytes);
        assert_eq!(bytes.len(), 8);
        assert_eq!(read_u64_le(&bytes, 0), v);
    }
    assert_eq!(read_u64_le(&vec![1, 0, 0, 0, 0, 0, 0, 0], 0), 1);
}

#[test]
fn compact_encoding_round_trips_at_the_mode_boundaries() {
    for v in [0u32, 1, 63, 64, 0x3FFF, 0x4000, 0x3FFF_FFFF, 0x4000_0000, u32::MAX] {
        let mut bytes = Vec::new();
        encode_compact_u32(v, &mut bytes);
        let (decoded, end) = decode_compact_u32(&bytes, 0).unwrap();
        assert_eq!((decoded, end), (v, bytes.len()));
    }
}

#[test]
fn compact_encoding_uses_the_documented_widths() {
    let mut one = Vec::new();
    encode_compact_u32(42, &mut one);
    assert_eq!(one, vec![42 * 4]);
    let mut two = Vec::new();
    encode_compact_u32(69, &mut two);
    assert_eq!(two.len(), 2);
    let mut five = Vec::new();
    encode_compact_u32(u32::MAX, &mut five);
    assert_eq!(five[0], 3);
    assert_eq!(five.len(), 5);
}

#[test]
fn non_minimal_compact_encoding_is_rejected() {
    // 1 stored in the two-byte mode: (1 << 2) | 1, 0
    assert_eq!(decode_compact_u32(&vec![0b101, 0], 0), None);
}

#[test]
fn byte_vec_round_trips() {
    for payload in [Vec::new(), vec![42u8], vec![7u8; 64], vec![1u8; 0x4000]] {
        let mut encoded = Vec::new();
        encode_byte_vec(&payload, &mut encoded);
        assert_eq!(decode_byte_vec(&encoded), Some(payload));
    }
}

#[test]
fn truncated_byte_vec_does_not_decode() {
    let mut encoded = Vec::new();
    encode_byte_vec(&vec![1u8; 10], &mut encoded);
    encoded.truncate(encoded.len() - 1);
    assert_eq!(decode_byte_vec(&encoded), None);
}

#[test]
fn outbound_lane_data_round_trips() {
    let d = OutboundLaneData {
        oldest_unpruned_nonce: 1,
        latest_received_nonce: 2,
        latest_generated_nonce: 3,
    };
    let encoded = encode_outbound_lane_data(&d);
    assert_eq!(encoded.len(), 24);
    assert_eq!(decode_outbound_lane_data(&encoded), Some(d));
    assert_eq!(decode_outbound_lane_data(&encoded[..23].to_vec()), None);
}

#[test]
fn inbound_lane_data_round_trips() {
    let d = InboundLaneData {
        relayers: vec![
            UnrewardedRelayer {
                relayer: vec![1u8; 32],
                messages: DeliveredMessages { begin: 1, end: 4 },
            },
            UnrewardedRelayer {
                relayer: vec![2u8; 32],
                messages: DeliveredMessages { begin: 5, end: 5 },
            },
        ],
        last_confirmed_nonce: 5,
    };
    let encoded = encode_inbound_lane_data(&d).unwrap();
    assert_eq!(decode_inbound_lane_data(&encoded), Some(d));
}

#[test]
fn inbound_lane_data_with_odd_account_width_is_not_encodable() {
    let d = InboundLaneData {
        relayers: vec![UnrewardedRelayer {
            relayer: vec![1u8; 5],
            messages: DeliveredMessages { begin: 1, end: 1 },
        }],
        last_confirmed_nonce: 1,
    };
    assert_eq!(encode_inbound_lane_data(&d), None);
}

#[test]
fn storage_keys_have_the_framed_layout() {
    let pallet = b"BridgedMessages".to_vec();
    let lane = LaneId(*b"test");
    // two 16-byte prefix digests, a 16-byte key digest, then the raw key
    assert_eq!(inbound_lane_data_key(&pallet, &lane).len(), 16 + 16 + 16 + 4);
    assert_eq!(outbound_lane_data_key(&pallet, &lane).len(), 16 + 16 + 16 + 4);
    assert_eq!(message_key(&pallet, &lane, 1).len(), 16 + 16 + 16 + 4 + 8);
}

#[test]
fn storage_keys_depend_on_every_input() {
    let pallet = b"BridgedMessages".to_vec();
    let other_pallet = b"OtherMessages".to_vec();
    let lane = LaneId(*b"test");
    let other_lane = LaneId(*b"tst2");
    assert_ne!(inbound_lane_data_key(&pallet, &lane), inbound_lane_data_key(&other_pallet, &lane));
    assert_ne!(inbound_lane_data_key(&pallet, &lane), inbound_lane_data_key(&pallet, &other_lane));
    assert_ne!(inbound_lane_data_key(&pallet, &lane), outbound_lane_data_key(&pallet, &lane));
    assert_ne!(message_key(&pallet, &lane, 1), message_key(&pallet, &lane, 2));
}

#[test]
fn proof_size_is_the_saturating_sum_of_node_lengths() {
    let proof = FromBridgedChainMessagesProof {
        bridged_header_hash: [0u8; 32],
        storage_proof: vec![vec![0u8; 10], vec![0u8; 5], Vec::new()],
        lane: LaneId(*b"test"),
        nonces_start: 1,
        nonces_end: 0,
    };
    assert_eq!(proof.size(), 15);
}
