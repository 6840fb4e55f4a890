//! Derivation of the storage keys under which the bridged chain keeps its
//! lane records. The derivation must be bit-exact with the chain that
//! writes these values, or every proof fails: a map entry lives under
//! `twox128(pallet) ++ twox128(map) ++ blake2_128(key) ++ key`.

use vstd::prelude::*;

use crate::hashing::{blake2_128, blake2_128_of, spec_twox128, twox128};
use crate::scale::{append_bytes, encode_message_key, spec_encode_message_key};
use crate::types::{LaneId, MessageNonce};

verus! {

/// The final storage key of one entry of one storage map.
pub open spec fn spec_storage_map_key(pallet: Seq<u8>, map: Seq<u8>, key: Seq<u8>) -> Seq<u8> {
    spec_twox128(pallet) + spec_twox128(map) + blake2_128_of(key) + key
}

fn storage_map_key(pallet: &Vec<u8>, map: &Vec<u8>, key: &Vec<u8>) -> (r: Vec<u8>)
    ensures
        r@ == spec_storage_map_key(pallet@, map@, key@),
{
    let mut out = twox128(pallet);
    let map_prefix = twox128(map);
    let key_hash = blake2_128(key);
    append_bytes(&map_prefix, &mut out);
    append_bytes(&key_hash, &mut out);
    append_bytes(key, &mut out);
    proof {
        assert(out@ =~= spec_storage_map_key(pallet@, map@, key@));
    }
    out
}

/// Name of the storage map that keeps inbound lane records.
pub open spec fn spec_inbound_lanes_map_name() -> Seq<u8> {
    seq![73u8, 110u8, 98u8, 111u8, 117u8, 110u8, 100u8, 76u8, 97u8, 110u8, 101u8, 115u8]
}

fn inbound_lanes_map_name() -> (r: Vec<u8>)
    ensures
        r@ == spec_inbound_lanes_map_name(),
{
    let mut v: Vec<u8> = Vec::new();
    v.push(73u8);
    v.push(110u8);
    v.push(98u8);
    v.push(111u8);
    v.push(117u8);
    v.push(110u8);
    v.push(100u8);
    v.push(76u8);
    v.push(97u8);
    v.push(110u8);
    v.push(101u8);
    v.push(115u8);
    proof {
        assert(v@ =~= spec_inbound_lanes_map_name());
    }
    v
}

/// Name of the storage map that keeps outbound lane records.
pub open spec fn spec_outbound_lanes_map_name() -> Seq<u8> {
    seq![79u8, 117u8, 116u8, 98u8, 111u8, 117u8, 110u8, 100u8, 76u8, 97u8, 110u8, 101u8, 115u8]
}

fn outbound_lanes_map_name() -> (r: Vec<u8>)
    ensures
        r@ == spec_outbound_lanes_map_name(),
{
    let mut v: Vec<u8> = Vec::new();
    v.push(79u8);
    v.push(117u8);
    v.push(116u8);
    v.push(98u8);
    v.push(111u8);
    v.push(117u8);
    v.push(110u8);
    v.push(100u8);
    v.push(76u8);
    v.push(97u8);
    v.push(110u8);
    v.push(101u8);
    v.push(115u8);
    proof {
        assert(v@ =~= spec_outbound_lanes_map_name());
    }
    v
}

/// Name of the storage map that keeps queued outbound messages.
pub open spec fn spec_outbound_messages_map_name() -> Seq<u8> {
    seq![79u8, 117u8, 116u8, 98u8, 111u8, 117u8, 110u8, 100u8, 77u8, 101u8, 115u8, 115u8, 97u8, 103u8, 101u8,
        115u8]
}

fn outbound_messages_map_name() -> (r: Vec<u8>)
    ensures
        r@ == spec_outbound_messages_map_name(),
{
    let mut v: Vec<u8> = Vec::new();
    v.push(79u8);
    v.push(117u8);
    v.push(116u8);
    v.push(98u8);
    v.push(111u8);
    v.push(117u8);
    v.push(110u8);
    v.push(100u8);
    v.push(77u8);
    v.push(101u8);
    v.push(115u8);
    v.push(115u8);
    v.push(97u8);
    v.push(103u8);
    v.push(101u8);
    v.push(115u8);
    proof {
        assert(v@ =~= spec_outbound_messages_map_name());
    }
    v
}

/// Storage key of the inbound lane record of `lane`.
#[verifier::opaque]
pub open spec fn spec_inbound_lane_data_key(pallet: Seq<u8>, lane: LaneId) -> Seq<u8> {
    spec_storage_map_key(pallet, spec_inbound_lanes_map_name(), lane.0@)
}

/// Derives the storage key of the inbound lane record of `lane` under the
/// given pallet name.
pub fn inbound_lane_data_key(pallet_prefix: &Vec<u8>, lane: &LaneId) -> (r: Vec<u8>)
    ensures
        r@ == spec_inbound_lane_data_key(pallet_prefix@, *lane),
{
    proof {
        reveal(spec_inbound_lane_data_key);
    }
    let map = inbound_lanes_map_name();
    let lane_bytes = lane_id_bytes(lane);
    storage_map_key(pallet_prefix, &map, &lane_bytes)
}

/// Storage key of the outbound lane record of `lane`.
#[verifier::opaque]
pub open spec fn spec_outbound_lane_data_key(pallet: Seq<u8>, lane: LaneId) -> Seq<u8> {
    spec_storage_map_key(pallet, spec_outbound_lanes_map_name(), lane.0@)
}

/// Derives the storage key of the outbound lane record of `lane` under the
/// given pallet name.
pub fn outbound_lane_data_key(pallet_prefix: &Vec<u8>, lane: &LaneId) -> (r: Vec<u8>)
    ensures
        r@ == spec_outbound_lane_data_key(pallet_prefix@, *lane),
{
    proof {
        reveal(spec_outbound_lane_data_key);
    }
    let map = outbound_lanes_map_name();
    let lane_bytes = lane_id_bytes(lane);
    storage_map_key(pallet_prefix, &map, &lane_bytes)
}

/// Storage key of the queued message with the given key.
#[verifier::opaque]
pub open spec fn spec_message_key(pallet: Seq<u8>, lane: LaneId, nonce: MessageNonce) -> Seq<u8> {
    spec_storage_map_key(
        pallet,
        spec_outbound_messages_map_name(),
        spec_encode_message_key(lane, nonce),
    )
}

/// Derives the storage key of the message at `nonce` of `lane` under the
/// given pallet name.
pub fn message_key(pallet_prefix: &Vec<u8>, lane: &LaneId, nonce: MessageNonce) -> (r: Vec<u8>)
    ensures
        r@ == spec_message_key(pallet_prefix@, *lane, nonce),
{
    proof {
        reveal(spec_message_key);
    }
    let map = outbound_messages_map_name();
    let encoded = encode_message_key(lane, nonce);
    storage_map_key(pallet_prefix, &map, &encoded)
}

fn lane_id_bytes(lane: &LaneId) -> (r: Vec<u8>)
    ensures
        r@ == lane.0@,
{
    let mut v: Vec<u8> = Vec::new();
    v.push(lane.0[0]);
    v.push(lane.0[1]);
    v.push(lane.0[2]);
    v.push(lane.0[3]);
    proof {
        assert(v@ =~= lane.0@);
    }
    v
}

} // verus!
