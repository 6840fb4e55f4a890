//! Laws of the verifier that cut across its functions: what a message scan
//! outcome says about every nonce of a claimed range.

use vstd::prelude::*;

use crate::error::StorageProofError;
use crate::target::{spec_message_payload, spec_message_value, spec_scan_messages};
use crate::types::LaneId;

verus! {

/// A range whose scan succeeds has every one of its messages present and
/// decodable: a successful batch is complete, never a prefix.
pub proof fn lemma_scan_none_implies_all_present(
    entries: Seq<(Seq<u8>, Seq<u8>)>,
    pallet: Seq<u8>,
    lane: LaneId,
    nonce: u64,
    end: u64,
)
    requires
        nonce <= end,
        spec_scan_messages(entries, pallet, lane, nonce, end) is None,
    ensures
        forall|n: u64|
            nonce <= n <= end ==> #[trigger] spec_message_payload(entries, pallet, lane, n)
                is Some,
    decreases end - nonce,
{
    if nonce < end {
        lemma_scan_none_implies_all_present(entries, pallet, lane, (nonce + 1) as u64, end);
    }
}

/// A range in which one message's value is missing while every other one is
/// present and decodable is rejected with the empty-value error, however
/// many correct messages surround it: no partial batch is ever accepted.
pub proof fn lemma_missing_message_rejected(
    entries: Seq<(Seq<u8>, Seq<u8>)>,
    pallet: Seq<u8>,
    lane: LaneId,
    nonces_start: u64,
    nonces_end: u64,
    missing: u64,
)
    requires
        nonces_start <= missing <= nonces_end,
        spec_message_value(entries, pallet, lane, missing) is None,
        forall|n: u64|
            nonces_start <= n <= nonces_end && n != missing
                ==> #[trigger] spec_message_payload(entries, pallet, lane, n) is Some,
    ensures
        spec_scan_messages(entries, pallet, lane, nonces_start, nonces_end) == Some(
            StorageProofError::StorageValueEmpty,
        ),
    decreases missing - nonces_start,
{
    if nonces_start == missing {
    } else {
        assert(spec_message_payload(entries, pallet, lane, nonces_start) is Some);
        lemma_missing_message_rejected(
            entries,
            pallet,
            lane,
            (nonces_start + 1) as u64,
            nonces_end,
            missing,
        );
    }
}

/// A range in which one message's value does not decode while every other
/// one is present and decodable is rejected with the decode error.
pub proof fn lemma_undecodable_message_rejected(
    entries: Seq<(Seq<u8>, Seq<u8>)>,
    pallet: Seq<u8>,
    lane: LaneId,
    nonces_start: u64,
    nonces_end: u64,
    corrupt: u64,
)
    requires
        nonces_start <= corrupt <= nonces_end,
        spec_message_value(entries, pallet, lane, corrupt) is Some,
        spec_message_payload(entries, pallet, lane, corrupt) is None,
        forall|n: u64|
            nonces_start <= n <= nonces_end && n != corrupt
                ==> #[trigger] spec_message_payload(entries, pallet, lane, n) is Some,
    ensures
        spec_scan_messages(entries, pallet, lane, nonces_start, nonces_end) == Some(
            StorageProofError::StorageValueDecodeFailed,
        ),
    decreases corrupt - nonces_start,
{
    if nonces_start == corrupt {
    } else {
        assert(spec_message_payload(entries, pallet, lane, nonces_start) is Some);
        lemma_undecodable_message_rejected(
            entries,
            pallet,
            lane,
            (nonces_start + 1) as u64,
            nonces_end,
            corrupt,
        );
    }
}

} // verus!
