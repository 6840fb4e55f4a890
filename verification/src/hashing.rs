//! The two digest primitives that storage-key derivation rests on. The
//! digests themselves are outside computations; everything built from them
//! is verified against their named results.

use vstd::prelude::*;

use crate::scale::{spec_u64_le_bytes, write_u64_le};

verus! {

/// The 64-bit XXHash digest of a byte string under a seed.
pub uninterp spec fn twox64_of(seed: u64, data: Seq<u8>) -> u64;

/// Relies on `twox_hash::XxHash64::oneshot`: the 64-bit XXHash digest of
/// the data, a function of the seed and the bytes alone.
#[verifier::external_body]
pub(crate) fn twox64(seed: u64, data: &Vec<u8>) -> (r: u64)
    ensures
        r == twox64_of(seed, data@),
{
    twox_hash::XxHash64::oneshot(seed, data.as_slice())
}

/// The 128-bit BLAKE2b digest of a byte string.
pub uninterp spec fn blake2_128_of(data: Seq<u8>) -> Seq<u8>;

/// Relies on `blake2b_simd::Params::hash` with the output length set to 16:
/// the BLAKE2b digest of that width, a function of the bytes alone; its
/// `hash_length` documentation fixes the number of digest bytes.
#[verifier::external_body]
pub(crate) fn blake2_128(data: &Vec<u8>) -> (r: Vec<u8>)
    ensures
        r@ == blake2_128_of(data@),
        r@.len() == 16,
{
    blake2b_simd::Params::new().hash_length(16).hash(data.as_slice()).as_bytes().to_vec()
}

/// The 128-bit XXHash-based digest used for pallet and map prefixes: the
/// little-endian 64-bit digests under seeds 0 and 1, concatenated.
pub open spec fn spec_twox128(data: Seq<u8>) -> Seq<u8> {
    spec_u64_le_bytes(twox64_of(0, data)) + spec_u64_le_bytes(twox64_of(1, data))
}

/// Computes the 128-bit prefix digest.
pub(crate) fn twox128(data: &Vec<u8>) -> (r: Vec<u8>)
    ensures
        r@ == spec_twox128(data@),
{
    let mut out: Vec<u8> = Vec::new();
    write_u64_le(twox64(0, data), &mut out);
    write_u64_le(twox64(1, data), &mut out);
    proof {
        assert(out@ =~= spec_twox128(data@));
    }
    out
}

} // verus!
