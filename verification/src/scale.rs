//! The wire format of the values this crate reads out of storage proofs and
//! of the keys it derives: little-endian integers, compact length prefixes,
//! length-prefixed byte strings and the two lane-state records.
//!
//! Both chains must agree on this format bit-exactly, so every decoder here
//! has an exact specification and an encoder proved to invert it.

use vstd::prelude::*;

use crate::types::{
    DeliveredMessages, InboundLaneData, InboundLaneDataView, LaneId, OutboundLaneData,
    UnrewardedRelayer, UnrewardedRelayerView,
};

verus! {

/// The 64-bit little-endian value of an 8-byte sequence.
pub open spec fn spec_u64_from_le(s: Seq<u8>) -> u64
    recommends
        s.len() == 8,
{
    (s[0] + s[1] * 0x100 + s[2] * 0x1_0000 + s[3] * 0x100_0000 + s[4] * 0x1_0000_0000
        + s[5] * 0x100_0000_0000 + s[6] * 0x1_0000_0000_0000
        + s[7] * 0x100_0000_0000_0000) as u64
}

/// The 8-byte little-endian encoding of a 64-bit value.
pub open spec fn spec_u64_le_bytes(v: u64) -> Seq<u8> {
    seq![
        (v % 0x100) as u8,
        ((v / 0x100) % 0x100) as u8,
        ((v / 0x1_0000) % 0x100) as u8,
        ((v / 0x100_0000) % 0x100) as u8,
        ((v / 0x1_0000_0000) % 0x100) as u8,
        ((v / 0x100_0000_0000) % 0x100) as u8,
        ((v / 0x1_0000_0000_0000) % 0x100) as u8,
        (v / 0x100_0000_0000_0000) as u8,
    ]
}

/// Little-endian encoding is inverted by little-endian reading.
pub proof fn lemma_u64_le_round_trip(v: u64)
    ensures
        spec_u64_from_le(spec_u64_le_bytes(v)) == v,
{
    assert(v / 0x100_0000_0000_0000 < 0x100) by (bit_vector);
    assert((v % 0x100) + ((v / 0x100) % 0x100) * 0x100 + ((v / 0x1_0000) % 0x100) * 0x1_0000 + ((v
        / 0x100_0000) % 0x100) * 0x100_0000 + ((v / 0x1_0000_0000) % 0x100) * 0x1_0000_0000 + ((v
        / 0x100_0000_0000) % 0x100) * 0x100_0000_0000 + ((v / 0x1_0000_0000_0000) % 0x100)
        * 0x1_0000_0000_0000 + (v / 0x100_0000_0000_0000) * 0x100_0000_0000_0000 == v)
        by (bit_vector);
}

/// Reads the 64-bit little-endian value at `pos`.
pub fn read_u64_le(bytes: &Vec<u8>, pos: usize) -> (r: u64)
    requires
        pos + 8 <= bytes@.len(),
    ensures
        r == spec_u64_from_le(bytes@.subrange(pos as int, pos + 8)),
{
    let n = bytes.len();
    let r = bytes[pos] as u64 + (bytes[pos + 1] as u64) * 0x100 + (bytes[pos + 2] as u64)
        * 0x1_0000 + (bytes[pos + 3] as u64) * 0x100_0000 + (bytes[pos + 4] as u64)
        * 0x1_0000_0000 + (bytes[pos + 5] as u64) * 0x100_0000_0000 + (bytes[pos + 6] as u64)
        * 0x1_0000_0000_0000 + (bytes[pos + 7] as u64) * 0x100_0000_0000_0000;
    proof {
        let s = bytes@.subrange(pos as int, pos + 8);
        assert(s[0] == bytes@[pos as int] && s[1] == bytes@[pos + 1] && s[2] == bytes@[pos + 2]
            && s[3] == bytes@[pos + 3] && s[4] == bytes@[pos + 4] && s[5] == bytes@[pos + 5]
            && s[6] == bytes@[pos + 6] && s[7] == bytes@[pos + 7]);
    }
    r
}

/// Appends the 8-byte little-endian encoding of `v`.
pub fn write_u64_le(v: u64, out: &mut Vec<u8>)
    ensures
        final(out)@ == old(out)@ + spec_u64_le_bytes(v),
{
    out.push((v % 0x100) as u8);
    out.push(((v / 0x100) % 0x100) as u8);
    out.push(((v / 0x1_0000) % 0x100) as u8);
    out.push(((v / 0x100_0000) % 0x100) as u8);
    out.push(((v / 0x1_0000_0000) % 0x100) as u8);
    out.push(((v / 0x100_0000_0000) % 0x100) as u8);
    out.push(((v / 0x1_0000_0000_0000) % 0x100) as u8);
    out.push((v / 0x100_0000_0000_0000) as u8);
    proof {
        assert(out@ =~= old(out)@ + spec_u64_le_bytes(v));
    }
}

/// Result of decoding a compact-encoded 32-bit integer from the front of a
/// byte sequence: the value and how many bytes its encoding occupies.
///
/// The compact scheme stores the mode in the two low bits of the first
/// byte: a value up to 63 in that byte alone, up to `0x3FFF` in two bytes,
/// up to `0x3FFF_FFFF` in four, and anything larger in a marker byte plus
/// four little-endian bytes. A non-minimal encoding does not decode.
pub open spec fn spec_decode_compact_u32(s: Seq<u8>) -> Option<(u32, int)> {
    if s.len() < 1 {
        None
    } else if s[0] % 4 == 0 {
        Some(((s[0] / 4) as u32, 1))
    } else if s[0] % 4 == 1 {
        if s.len() < 2 {
            None
        } else {
            let x = (s[0] + s[1] * 0x100) / 4;
            if x > 63 {
                Some((x as u32, 2))
            } else {
                None
            }
        }
    } else if s[0] % 4 == 2 {
        if s.len() < 4 {
            None
        } else {
            let x = (s[0] + s[1] * 0x100 + s[2] * 0x1_0000 + s[3] * 0x100_0000) / 4;
            if x > 0x3FFF {
                Some((x as u32, 4))
            } else {
                None
            }
        }
    } else {
        if s[0] / 4 != 0 {
            None
        } else if s.len() < 5 {
            None
        } else {
            let x = s[1] + s[2] * 0x100 + s[3] * 0x1_0000 + s[4] * 0x100_0000;
            if x > 0x3FFF_FFFF {
                Some((x as u32, 5))
            } else {
                None
            }
        }
    }
}

/// The minimal compact encoding of a 32-bit value.
pub open spec fn spec_encode_compact_u32(v: u32) -> Seq<u8> {
    if v <= 63 {
        seq![(v * 4) as u8]
    } else if v <= 0x3FFF {
        seq![((v * 4 + 1) % 0x100) as u8, ((v * 4 + 1) / 0x100) as u8]
    } else if v <= 0x3FFF_FFFF {
        seq![
            ((v * 4 + 2) % 0x100) as u8,
            (((v * 4 + 2) / 0x100) % 0x100) as u8,
            (((v * 4 + 2) / 0x1_0000) % 0x100) as u8,
            ((v * 4 + 2) / 0x100_0000) as u8,
        ]
    } else {
        seq![
            3u8,
            (v % 0x100) as u8,
            ((v / 0x100) % 0x100) as u8,
            ((v / 0x1_0000) % 0x100) as u8,
            (v / 0x100_0000) as u8,
        ]
    }
}

/// A compact encoding decodes back to its value, also with arbitrary bytes
/// following it, and occupies exactly its own length.
pub proof fn lemma_compact_u32_round_trip(v: u32, rest: Seq<u8>)
    ensures
        spec_decode_compact_u32(spec_encode_compact_u32(v) + rest) == Some(
            (v, spec_encode_compact_u32(v).len() as int),
        ),
{
    let s = spec_encode_compact_u32(v) + rest;
    if v <= 63 {
        assert(s[0] == (v * 4) as u8);
        assert((v * 4) % 4 == 0 && (v * 4) / 4 == v) by (bit_vector)
            requires
                v <= 63,
        ;
    } else if v <= 0x3FFF {
        assert(s[0] == ((v * 4 + 1) % 0x100) as u8 && s[1] == ((v * 4 + 1) / 0x100) as u8);
        assert(((v * 4 + 1) % 0x100) % 4 == 1 && ((v * 4 + 1) % 0x100 + ((v * 4 + 1) / 0x100)
            * 0x100) / 4 == v && (v * 4 + 1) / 0x100 < 0x100) by (bit_vector)
            requires
                63 < v <= 0x3FFF,
        ;
    } else if v <= 0x3FFF_FFFF {
        assert(s[0] == ((v * 4 + 2) % 0x100) as u8 && s[1] == (((v * 4 + 2) / 0x100) % 0x100) as u8
            && s[2] == (((v * 4 + 2) / 0x1_0000) % 0x100) as u8 && s[3] == ((v * 4 + 2)
            / 0x100_0000) as u8);
        assert(((v * 4 + 2) % 0x100) % 4 == 2 && ((v * 4 + 2) % 0x100 + (((v * 4 + 2) / 0x100)
            % 0x100) * 0x100 + (((v * 4 + 2) / 0x1_0000) % 0x100) * 0x1_0000 + ((v * 4 + 2)
            / 0x100_0000) * 0x100_0000) / 4 == v && (v * 4 + 2) / 0x100_0000 < 0x100)
            by (bit_vector)
            requires
                0x3FFF < v <= 0x3FFF_FFFF,
        ;
    } else {
        assert(s[0] == 3u8 && s[1] == (v % 0x100) as u8 && s[2] == ((v / 0x100) % 0x100) as u8
            && s[3] == ((v / 0x1_0000) % 0x100) as u8 && s[4] == (v / 0x100_0000) as u8);
        assert((v % 0x100) + ((v / 0x100) % 0x100) * 0x100 + ((v / 0x1_0000) % 0x100) * 0x1_0000 + (
        v / 0x100_0000) * 0x100_0000 == v && v / 0x100_0000 < 0x100) by (bit_vector);
    }
}

/// Decodes a compact-encoded 32-bit integer at `pos`; returns the value and
/// the position just after its encoding.
pub fn decode_compact_u32(bytes: &Vec<u8>, pos: usize) -> (r: Option<(u32, usize)>)
    requires
        pos <= bytes@.len(),
    ensures
        match r {
            Some((v, end)) => {
                &&& spec_decode_compact_u32(bytes@.skip(pos as int)) == Some(
                    (v, end - pos),
                )
                &&& pos < end <= bytes@.len()
            },
            None => spec_decode_compact_u32(bytes@.skip(pos as int)) is None,
        },
{
    let ghost s = bytes@.skip(pos as int);
    if pos >= bytes.len() {
        return None;
    }
    let b0 = bytes[pos];
    proof {
        assert(s[0] == bytes@[pos as int]);
    }
    if b0 % 4 == 0 {
        Some(((b0 / 4) as u32, pos + 1))
    } else if b0 % 4 == 1 {
        if bytes.len() - pos < 2 {
            return None;
        }
        proof {
            assert(s[1] == bytes@[pos + 1]);
        }
        let x = (b0 as u32 + bytes[pos + 1] as u32 * 0x100) / 4;
        if x > 63 {
            Some((x, pos + 2))
        } else {
            None
        }
    } else if b0 % 4 == 2 {
        if bytes.len() - pos < 4 {
            return None;
        }
        proof {
            assert(s[1] == bytes@[pos + 1] && s[2] == bytes@[pos + 2] && s[3] == bytes@[pos + 3]);
        }
        let x = (b0 as u32 + bytes[pos + 1] as u32 * 0x100 + bytes[pos + 2] as u32 * 0x1_0000
            + bytes[pos + 3] as u32 * 0x100_0000) / 4;
        if x > 0x3FFF {
            Some((x, pos + 4))
        } else {
            None
        }
    } else {
        if b0 / 4 != 0 {
            return None;
        }
        if bytes.len() - pos < 5 {
            return None;
        }
        proof {
            assert(s[1] == bytes@[pos + 1] && s[2] == bytes@[pos + 2] && s[3] == bytes@[pos + 3]
                && s[4] == bytes@[pos + 4]);
        }
        let x = bytes[pos + 1] as u32 + bytes[pos + 2] as u32 * 0x100 + bytes[pos + 3] as u32
            * 0x1_0000 + bytes[pos + 4] as u32 * 0x100_0000;
        if x > 0x3FFF_FFFF {
            Some((x, pos + 5))
        } else {
            None
        }
    }
}

/// Appends the minimal compact encoding of `v`.
pub fn encode_compact_u32(v: u32, out: &mut Vec<u8>)
    ensures
        final(out)@ == old(out)@ + spec_encode_compact_u32(v),
{
    if v <= 63 {
        out.push((v * 4) as u8);
    } else if v <= 0x3FFF {
        let x = v * 4 + 1;
        out.push((x % 0x100) as u8);
        out.push((x / 0x100) as u8);
    } else if v <= 0x3FFF_FFFF {
        let x = v * 4 + 2;
        out.push((x % 0x100) as u8);
        out.push(((x / 0x100) % 0x100) as u8);
        out.push(((x / 0x1_0000) % 0x100) as u8);
        out.push((x / 0x100_0000) as u8);
    } else {
        out.push(3u8);
        out.push((v % 0x100) as u8);
        out.push(((v / 0x100) % 0x100) as u8);
        out.push(((v / 0x1_0000) % 0x100) as u8);
        out.push((v / 0x100_0000) as u8);
    }
    proof {
        assert(out@ =~= old(out)@ + spec_encode_compact_u32(v));
    }
}

/// Copies `bytes[from..to]` into a fresh vector.
pub fn copy_range(bytes: &Vec<u8>, from: usize, to: usize) -> (r: Vec<u8>)
    requires
        from <= to <= bytes@.len(),
    ensures
        r@ == bytes@.subrange(from as int, to as int),
{
    let mut out: Vec<u8> = Vec::new();
    let mut i: usize = from;
    while i < to
        invariant
            from <= i <= to <= bytes@.len(),
            out@ == bytes@.subrange(from as int, i as int),
        decreases to - i,
    {
        out.push(bytes[i]);
        proof {
            assert(bytes@.subrange(from as int, i + 1) =~= bytes@.subrange(from as int, i as int)
                + seq![bytes@[i as int]]);
        }
        i = i + 1;
    }
    out
}

/// Appends all of `src` to `out`.
pub fn append_bytes(src: &Vec<u8>, out: &mut Vec<u8>)
    ensures
        final(out)@ == old(out)@ + src@,
{
    let mut i: usize = 0;
    while i < src.len()
        invariant
            i <= src@.len(),
            out@ == old(out)@ + src@.take(i as int),
        decreases src@.len() - i,
    {
        out.push(src[i]);
        proof {
            assert(old(out)@ + src@.take(i + 1) =~= (old(out)@ + src@.take(i as int)) + seq![
                src@[i as int],
            ]);
        }
        i = i + 1;
    }
    proof {
        assert(old(out)@ + src@.take(src@.len() as int) =~= old(out)@ + src@);
    }
}

/// A length-prefixed byte string: a compact length, then that many bytes.
/// Input past the encoding is ignored.
#[verifier::opaque]
pub open spec fn spec_decode_byte_vec(s: Seq<u8>) -> Option<Seq<u8>> {
    match spec_decode_compact_u32(s) {
        Some((n, k)) => if s.len() >= k + n {
            Some(s.subrange(k, k + n))
        } else {
            None
        },
        None => None,
    }
}

/// The encoding of a byte string: its length, compact, then its bytes.
pub open spec fn spec_encode_byte_vec(p: Seq<u8>) -> Seq<u8>
    recommends
        p.len() <= u32::MAX,
{
    spec_encode_compact_u32(p.len() as u32) + p
}

/// A byte-string encoding decodes back to its bytes, also with arbitrary
/// bytes following it.
pub proof fn lemma_byte_vec_round_trip(p: Seq<u8>, rest: Seq<u8>)
    requires
        p.len() <= u32::MAX,
    ensures
        spec_decode_byte_vec(spec_encode_byte_vec(p) + rest) == Some(p),
{
    reveal(spec_decode_byte_vec);
    let n = p.len() as u32;
    let pre = spec_encode_compact_u32(n);
    lemma_compact_u32_round_trip(n, p + rest);
    let s = spec_encode_byte_vec(p) + rest;
    assert(s =~= pre + (p + rest));
    assert(s.subrange(pre.len() as int, pre.len() + n) =~= p);
}

/// Decodes a length-prefixed byte string.
pub fn decode_byte_vec(bytes: &Vec<u8>) -> (r: Option<Vec<u8>>)
    ensures
        match r {
            Some(p) => spec_decode_byte_vec(bytes@) == Some(p@),
            None => spec_decode_byte_vec(bytes@) is None,
        },
{
    proof {
        reveal(spec_decode_byte_vec);
        assert(bytes@.skip(0) =~= bytes@);
    }
    match decode_compact_u32(bytes, 0) {
        None => None,
        Some((n, k)) => {
            if n as usize > bytes.len() - k {
                None
            } else {
                Some(copy_range(bytes, k, k + n as usize))
            }
        },
    }
}

/// Appends the encoding of a byte string.
pub fn encode_byte_vec(p: &Vec<u8>, out: &mut Vec<u8>)
    requires
        p@.len() <= u32::MAX,
    ensures
        final(out)@ == old(out)@ + spec_encode_byte_vec(p@),
{
    encode_compact_u32(p.len() as u32, out);
    append_bytes(p, out);
    proof {
        assert(out@ =~= old(out)@ + spec_encode_byte_vec(p@));
    }
}

/// The outbound bookkeeping record: three 64-bit little-endian nonces.
/// Input past the record is ignored.
#[verifier::opaque]
pub open spec fn spec_decode_outbound_lane_data(s: Seq<u8>) -> Option<OutboundLaneData> {
    if s.len() < 24 {
        None
    } else {
        Some(
            OutboundLaneData {
                oldest_unpruned_nonce: spec_u64_from_le(s.subrange(0, 8)),
                latest_received_nonce: spec_u64_from_le(s.subrange(8, 16)),
                latest_generated_nonce: spec_u64_from_le(s.subrange(16, 24)),
            },
        )
    }
}

/// The encoding of the outbound bookkeeping record.
pub open spec fn spec_encode_outbound_lane_data(d: OutboundLaneData) -> Seq<u8> {
    spec_u64_le_bytes(d.oldest_unpruned_nonce) + spec_u64_le_bytes(d.latest_received_nonce)
        + spec_u64_le_bytes(d.latest_generated_nonce)
}

/// An outbound record decodes back to itself, also with arbitrary bytes
/// following it.
pub proof fn lemma_outbound_lane_data_round_trip(d: OutboundLaneData, rest: Seq<u8>)
    ensures
        spec_decode_outbound_lane_data(spec_encode_outbound_lane_data(d) + rest) == Some(d),
{
    reveal(spec_decode_outbound_lane_data);
    let s = spec_encode_outbound_lane_data(d) + rest;
    assert(s.subrange(0, 8) =~= spec_u64_le_bytes(d.oldest_unpruned_nonce));
    assert(s.subrange(8, 16) =~= spec_u64_le_bytes(d.latest_received_nonce));
    assert(s.subrange(16, 24) =~= spec_u64_le_bytes(d.latest_generated_nonce));
    lemma_u64_le_round_trip(d.oldest_unpruned_nonce);
    lemma_u64_le_round_trip(d.latest_received_nonce);
    lemma_u64_le_round_trip(d.latest_generated_nonce);
}

/// Decodes the outbound bookkeeping record.
pub fn decode_outbound_lane_data(bytes: &Vec<u8>) -> (r: Option<OutboundLaneData>)
    ensures
        r == spec_decode_outbound_lane_data(bytes@),
{
    proof {
        reveal(spec_decode_outbound_lane_data);
    }
    if bytes.len() < 24 {
        None
    } else {
        Some(
            OutboundLaneData {
                oldest_unpruned_nonce: read_u64_le(bytes, 0),
                latest_received_nonce: read_u64_le(bytes, 8),
                latest_generated_nonce: read_u64_le(bytes, 16),
            },
        )
    }
}

/// Encodes the outbound bookkeeping record.
pub fn encode_outbound_lane_data(d: &OutboundLaneData) -> (r: Vec<u8>)
    ensures
        r@ == spec_encode_outbound_lane_data(*d),
{
    let mut out: Vec<u8> = Vec::new();
    write_u64_le(d.oldest_unpruned_nonce, &mut out);
    write_u64_le(d.latest_received_nonce, &mut out);
    write_u64_le(d.latest_generated_nonce, &mut out);
    proof {
        assert(out@ =~= spec_encode_outbound_lane_data(*d));
    }
    out
}

/// Decodes `n` unrewarded-relayer entries starting at `pos`: each entry is
/// a 32-byte account followed by the first and last delivered nonce.
/// Returns the entries and the position just after them.
pub open spec fn spec_decode_relayers(s: Seq<u8>, pos: int, n: int) -> Option<
    (Seq<UnrewardedRelayerView>, int),
>
    decreases n,
{
    if n <= 0 {
        Some((Seq::empty(), pos))
    } else if pos + 48 > s.len() {
        None
    } else {
        let entry = UnrewardedRelayerView {
            relayer: s.subrange(pos, pos + 32),
            messages: DeliveredMessages {
                begin: spec_u64_from_le(s.subrange(pos + 32, pos + 40)),
                end: spec_u64_from_le(s.subrange(pos + 40, pos + 48)),
            },
        };
        match spec_decode_relayers(s, pos + 48, n - 1) {
            Some((tail, end)) => Some((seq![entry] + tail, end)),
            None => None,
        }
    }
}

/// The inbound bookkeeping record: a compact count of relayer entries, the
/// entries, then the confirmed-nonce watermark. Input past the record is
/// ignored.
#[verifier::opaque]
pub open spec fn spec_decode_inbound_lane_data(s: Seq<u8>) -> Option<InboundLaneDataView> {
    match spec_decode_compact_u32(s) {
        None => None,
        Some((n, k)) => match spec_decode_relayers(s, k, n as int) {
            None => None,
            Some((relayers, end)) => if s.len() >= end + 8 {
                Some(
                    InboundLaneDataView {
                        relayers,
                        last_confirmed_nonce: spec_u64_from_le(s.subrange(end, end + 8)),
                    },
                )
            } else {
                None
            },
        },
    }
}

/// Decodes the inbound bookkeeping record.
pub fn decode_inbound_lane_data(bytes: &Vec<u8>) -> (r: Option<InboundLaneData>)
    ensures
        match r {
            Some(d) => spec_decode_inbound_lane_data(bytes@) == Some(d@),
            None => spec_decode_inbound_lane_data(bytes@) is None,
        },
{
    proof {
        reveal(spec_decode_inbound_lane_data);
        assert(bytes@.skip(0) =~= bytes@);
    }
    let parsed = decode_compact_u32(bytes, 0);
    if parsed.is_none() {
        return None;
    }
    let (n, start) = parsed.unwrap();
    let mut relayers: Vec<UnrewardedRelayer> = Vec::new();
    let mut pos: usize = start;
    let mut i: u32 = 0;
    while i < n
        invariant
            i <= n,
            pos <= bytes@.len(),
            relayers@.len() == i,
            spec_decode_compact_u32(bytes@) == Some((n, start as int)),
            spec_decode_relayers(bytes@, start as int, n as int) == match spec_decode_relayers(
                bytes@,
                pos as int,
                n - i,
            ) {
                Some((tail, end)) => Some(
                    (relayers@.map_values(|x: UnrewardedRelayer| x@) + tail, end),
                ),
                None => None::<(Seq<UnrewardedRelayerView>, int)>,
            },
        decreases n - i,
    {
        if bytes.len() - pos < 48 {
            proof {
                reveal(spec_decode_inbound_lane_data);
                assert(spec_decode_relayers(bytes@, pos as int, n - i) is None);
            }
            return None;
        }
        let relayer = copy_range(bytes, pos, pos + 32);
        let begin = read_u64_le(bytes, pos + 32);
        let end = read_u64_le(bytes, pos + 40);
        let entry = UnrewardedRelayer { relayer, messages: DeliveredMessages { begin, end } };
        proof {
            let ghost old_map = relayers@.map_values(|x: UnrewardedRelayer| x@);
            assert((relayers@ + seq![entry]).map_values(|x: UnrewardedRelayer| x@) =~= old_map
                + seq![entry@]);
            if let Some((tail, e)) = spec_decode_relayers(bytes@, pos + 48, n - i - 1) {
                assert(old_map + (seq![entry@] + tail) =~= (old_map + seq![entry@]) + tail);
            }
        }
        relayers.push(entry);
        pos = pos + 48;
        i = i + 1;
    }
    proof {
        assert(spec_decode_relayers(bytes@, pos as int, 0) == Some(
            (Seq::<UnrewardedRelayerView>::empty(), pos as int),
        ));
        assert(relayers@.map_values(|x: UnrewardedRelayer| x@)
            + Seq::<UnrewardedRelayerView>::empty() =~= relayers@.map_values(
            |x: UnrewardedRelayer| x@,
        ));
    }
    if bytes.len() - pos < 8 {
        return None;
    }
    let last_confirmed_nonce = read_u64_le(bytes, pos);
    Some(InboundLaneData { relayers, last_confirmed_nonce })
}

/// The byte shape of one unrewarded-relayer entry.
pub open spec fn spec_encode_relayer(x: UnrewardedRelayerView) -> Seq<u8> {
    x.relayer + spec_u64_le_bytes(x.messages.begin) + spec_u64_le_bytes(x.messages.end)
}

/// The byte shape of a sequence of unrewarded-relayer entries.
pub open spec fn spec_encode_relayers(rs: Seq<UnrewardedRelayerView>) -> Seq<u8>
    decreases rs.len(),
{
    if rs.len() == 0 {
        Seq::empty()
    } else {
        spec_encode_relayer(rs[0]) + spec_encode_relayers(rs.drop_first())
    }
}

/// Appending one entry appends its bytes.
pub proof fn lemma_encode_relayers_push(rs: Seq<UnrewardedRelayerView>, x: UnrewardedRelayerView)
    ensures
        spec_encode_relayers(rs.push(x)) == spec_encode_relayers(rs) + spec_encode_relayer(x),
    decreases rs.len(),
{
    if rs.len() == 0 {
        assert(rs.push(x)[0] == x);
        assert(rs.push(x).drop_first() =~= Seq::<UnrewardedRelayerView>::empty());
        assert(spec_encode_relayers(Seq::<UnrewardedRelayerView>::empty())
            == Seq::<u8>::empty());
        assert(spec_encode_relayers(rs.push(x)) =~= spec_encode_relayers(rs)
            + spec_encode_relayer(x));
    } else {
        assert(rs.push(x)[0] == rs[0]);
        assert(rs.push(x).drop_first() =~= rs.drop_first().push(x));
        lemma_encode_relayers_push(rs.drop_first(), x);
        let a = spec_encode_relayer(rs[0]);
        let b = spec_encode_relayers(rs.drop_first());
        let c = spec_encode_relayer(x);
        assert(spec_encode_relayers(rs.push(x)) == a + (b + c));
        vstd::seq_lib::lemma_concat_associative(a, b, c);
    }
}

/// The encoding of the inbound bookkeeping record.
pub open spec fn spec_encode_inbound_lane_data(d: InboundLaneDataView) -> Seq<u8>
    recommends
        d.relayers.len() <= u32::MAX,
{
    spec_encode_compact_u32(d.relayers.len() as u32) + spec_encode_relayers(d.relayers)
        + spec_u64_le_bytes(d.last_confirmed_nonce)
}

/// Encodes the inbound bookkeeping record. Fails only on a record that the
/// wire format cannot carry: more relayer entries than the compact count
/// can hold, or an account that is not 32 bytes wide.
pub fn encode_inbound_lane_data(d: &InboundLaneData) -> (r: Option<Vec<u8>>)
    ensures
        match r {
            Some(bytes) => bytes@ == spec_encode_inbound_lane_data(d@),
            None => d.relayers@.len() > u32::MAX || exists|i: int|
                0 <= i < d.relayers@.len() && #[trigger] d.relayers@[i].relayer@.len() != 32,
        },
{
    if d.relayers.len() > u32::MAX as usize {
        return None;
    }
    let n = d.relayers.len() as u32;
    let mut out: Vec<u8> = Vec::new();
    encode_compact_u32(n, &mut out);
    let ghost prefix = out@;
    let ghost rviews = d.relayers@.map_values(|x: UnrewardedRelayer| x@);
    let mut i: usize = 0;
    while i < d.relayers.len()
        invariant
            i <= d.relayers@.len(),
            d.relayers@.len() == n,
            rviews == d.relayers@.map_values(|x: UnrewardedRelayer| x@),
            prefix == spec_encode_compact_u32(n),
            out@ == prefix + spec_encode_relayers(rviews.take(i as int)),
        decreases d.relayers@.len() - i,
    {
        if d.relayers[i].relayer.len() != 32 {
            return None;
        }
        append_bytes(&d.relayers[i].relayer, &mut out);
        write_u64_le(d.relayers[i].messages.begin, &mut out);
        write_u64_le(d.relayers[i].messages.end, &mut out);
        proof {
            lemma_encode_relayers_push(rviews.take(i as int), rviews[i as int]);
            assert(rviews.take(i + 1) =~= rviews.take(i as int).push(rviews[i as int]));
            assert(out@ =~= prefix + spec_encode_relayers(rviews.take(i + 1)));
        }
        i = i + 1;
    }
    write_u64_le(d.last_confirmed_nonce, &mut out);
    proof {
        assert(rviews.take(d.relayers@.len() as int) =~= rviews);
        assert(out@ =~= spec_encode_inbound_lane_data(d@));
    }
    Some(out)
}

/// A sequence of relayer entries encodes into 48 bytes each.
pub proof fn lemma_encode_relayers_len(rs: Seq<UnrewardedRelayerView>)
    requires
        forall|i: int| 0 <= i < rs.len() ==> (#[trigger] rs[i].relayer).len() == 32,
    ensures
        spec_encode_relayers(rs).len() == 48 * rs.len(),
    decreases rs.len(),
{
    if rs.len() > 0 {
        assert(rs[0].relayer.len() == 32);
        lemma_encode_relayers_len(rs.drop_first());
    }
}

/// Encoded relayer entries decode back to themselves wherever they stand,
/// whatever bytes surround them.
pub proof fn lemma_relayers_round_trip(
    rs: Seq<UnrewardedRelayerView>,
    prefix: Seq<u8>,
    suffix: Seq<u8>,
)
    requires
        forall|i: int| 0 <= i < rs.len() ==> (#[trigger] rs[i].relayer).len() == 32,
    ensures
        spec_decode_relayers(
            prefix + spec_encode_relayers(rs) + suffix,
            prefix.len() as int,
            rs.len() as int,
        ) == Some((rs, (prefix.len() + 48 * rs.len()) as int)),
    decreases rs.len(),
{
    let s = prefix + spec_encode_relayers(rs) + suffix;
    let pos = prefix.len() as int;
    lemma_encode_relayers_len(rs);
    if rs.len() == 0 {
        assert(spec_decode_relayers(s, pos, 0) == Some((Seq::<UnrewardedRelayerView>::empty(), pos)));
        assert(rs =~= Seq::<UnrewardedRelayerView>::empty());
    } else {
        let head = rs[0];
        let one = spec_encode_relayer(head);
        assert(head.relayer.len() == 32);
        assert(one.len() == 48);
        lemma_encode_relayers_len(rs.drop_first());
        assert(s.subrange(pos, pos + 32) =~= head.relayer);
        assert(s.subrange(pos + 32, pos + 40) =~= spec_u64_le_bytes(head.messages.begin));
        assert(s.subrange(pos + 40, pos + 48) =~= spec_u64_le_bytes(head.messages.end));
        lemma_u64_le_round_trip(head.messages.begin);
        lemma_u64_le_round_trip(head.messages.end);
        let prefix2 = prefix + one;
        assert(s =~= prefix2 + spec_encode_relayers(rs.drop_first()) + suffix);
        lemma_relayers_round_trip(rs.drop_first(), prefix2, suffix);
        let entry = UnrewardedRelayerView {
            relayer: s.subrange(pos, pos + 32),
            messages: DeliveredMessages {
                begin: spec_u64_from_le(s.subrange(pos + 32, pos + 40)),
                end: spec_u64_from_le(s.subrange(pos + 40, pos + 48)),
            },
        };
        assert(entry == head);
        assert(seq![head] + rs.drop_first() =~= rs);
    }
}

/// An inbound record encodes into bytes that decode back to it.
pub proof fn lemma_inbound_lane_data_round_trip(d: InboundLaneDataView)
    requires
        d.relayers.len() <= u32::MAX,
        forall|i: int| 0 <= i < d.relayers.len() ==> (#[trigger] d.relayers[i].relayer).len() == 32,
    ensures
        spec_decode_inbound_lane_data(spec_encode_inbound_lane_data(d)) == Some(d),
{
    reveal(spec_decode_inbound_lane_data);
    let n = d.relayers.len() as u32;
    let prefix = spec_encode_compact_u32(n);
    let middle = spec_encode_relayers(d.relayers);
    let tail = spec_u64_le_bytes(d.last_confirmed_nonce);
    let s = spec_encode_inbound_lane_data(d);
    assert(s =~= prefix + (middle + tail));
    lemma_compact_u32_round_trip(n, middle + tail);
    assert(s =~= prefix + middle + tail);
    lemma_relayers_round_trip(d.relayers, prefix, tail);
    lemma_encode_relayers_len(d.relayers);
    let end = prefix.len() + 48 * d.relayers.len();
    assert(s.subrange(end as int, end as int + 8) =~= tail);
    lemma_u64_le_round_trip(d.last_confirmed_nonce);
}

/// The bytes of a message key as they stand in a storage key: the lane
/// identifier followed by the little-endian nonce.
pub open spec fn spec_encode_message_key(lane: LaneId, nonce: u64) -> Seq<u8> {
    lane.0@ + spec_u64_le_bytes(nonce)
}

/// Encodes a message key.
pub fn encode_message_key(lane: &LaneId, nonce: u64) -> (r: Vec<u8>)
    ensures
        r@ == spec_encode_message_key(*lane, nonce),
{
    let mut out: Vec<u8> = Vec::new();
    out.push(lane.0[0]);
    out.push(lane.0[1]);
    out.push(lane.0[2]);
    out.push(lane.0[3]);
    write_u64_le(nonce, &mut out);
    proof {
        assert(out@ =~= spec_encode_message_key(*lane, nonce));
    }
    out
}

} // verus!
