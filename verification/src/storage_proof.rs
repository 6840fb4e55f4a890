//! Authenticated reads out of a storage proof.
//!
//! A raw proof is opened against a trusted state root by the header-chain
//! collaborator, which hands back the set of key-to-value facts the proof
//! authenticates. `StorageValues` holds those facts and tracks which of
//! them the verifier consumed, so that a proof carrying more than the
//! claimed reads is rejected.

use vstd::prelude::*;
use vstd::pervasive::VecAdditionalExecFns;

use crate::error::HeaderChainError;
use crate::types::{HeaderHash, RawStorageProof};

verus! {

/// First value stored under `key`, where the proof authenticates one.
pub open spec fn spec_lookup(entries: Seq<(Seq<u8>, Seq<u8>)>, key: Seq<u8>) -> Option<Seq<u8>>
    decreases entries.len(),
{
    if entries.len() == 0 {
        None
    } else if entries[0].0 == key {
        Some(entries[0].1)
    } else {
        spec_lookup(entries.drop_first(), key)
    }
}

/// Mathematical image of a `StorageValues`: the authenticated facts, in
/// order, and which of them have been consumed by a read.
pub ghost struct StorageValuesView {
    /// The authenticated key-to-value facts.
    pub entries: Seq<(Seq<u8>, Seq<u8>)>,
    /// Whether each fact has been consumed by a read.
    pub used: Seq<bool>,
}

struct StorageEntry {
    key: Vec<u8>,
    value: Vec<u8>,
    used: bool,
}

/// The authenticated key-to-value facts of one opened storage proof, bound
/// to a trusted root by whoever constructed the value. A key not present
/// among the facts is authenticated as absent.
pub struct StorageValues {
    entries: Vec<StorageEntry>,
}

impl View for StorageValues {
    type V = StorageValuesView;

    closed spec fn view(&self) -> StorageValuesView {
        StorageValuesView {
            entries: self.entries@.map_values(|e: StorageEntry| (e.key@, e.value@)),
            used: self.entries@.map_values(|e: StorageEntry| e.used),
        }
    }
}

impl StorageValues {
    /// Packs authenticated key-to-value facts, all of them still unused.
    pub fn new(pairs: Vec<(Vec<u8>, Vec<u8>)>) -> (r: StorageValues)
        ensures
            r@.entries == pairs@.map_values(|p: (Vec<u8>, Vec<u8>)| (p.0@, p.1@)),
            r@.used.len() == pairs@.len(),
            forall|i: int| 0 <= i < pairs@.len() ==> !r@.used[i],
    {
        let mut entries: Vec<StorageEntry> = Vec::new();
        let mut i: usize = 0;
        let n = pairs.len();
        while i < n
            invariant
                i <= n,
                n == pairs@.len(),
                entries@.len() == i,
                forall|j: int|
                    0 <= j < i ==> (#[trigger] entries@[j].key@ == pairs@[j].0@
                        && entries@[j].value@ == pairs@[j].1@),
                forall|j: int| 0 <= j < i ==> !(#[trigger] entries@[j].used),
            decreases n - i,
        {
            let key = clone_bytes(&pairs[i].0);
            let value = clone_bytes(&pairs[i].1);
            entries.push(StorageEntry { key, value, used: false });
            i = i + 1;
        }
        let r = StorageValues { entries };
        proof {
            assert(r@.entries =~= pairs@.map_values(|p: (Vec<u8>, Vec<u8>)| (p.0@, p.1@)));
            assert(forall|j: int| 0 <= j < pairs@.len() ==> !(#[trigger] r@.used[j]));
        }
        r
    }

    /// Reads the value stored under `key`, if the proof holds one, and
    /// marks every fact with that key as consumed. A key with no fact is
    /// authenticated absent.
    pub fn read(&mut self, key: &Vec<u8>) -> (r: Option<Vec<u8>>)
        ensures
            final(self)@.entries == old(self)@.entries,
            final(self)@.used.len() == old(self)@.used.len(),
            forall|i: int|
                0 <= i < old(self)@.used.len() ==> final(self)@.used[i] == (old(self)@.used[i]
                    || old(self)@.entries[i].0 == key@),
            match r {
                Some(v) => spec_lookup(old(self)@.entries, key@) == Some(v@),
                None => spec_lookup(old(self)@.entries, key@) is None,
            },
    {
        let ghost entries0 = self@.entries;
        let ghost used0 = self@.used;
        let mut found: Option<Vec<u8>> = None;
        let mut i: usize = 0;
        let n = self.entries.len();
        proof {
            assert(entries0.skip(0) =~= entries0);
        }
        while i < n
            invariant
                i <= n,
                n == entries0.len() == self.entries@.len(),
                entries0 == self@.entries,
                used0.len() == n,
                old(self)@.entries == entries0,
                old(self)@.used == used0,
                forall|j: int| 0 <= j < n ==> #[trigger] self@.used[j] == (used0[j] || (j < i
                    && entries0[j].0 == key@)),
                match found {
                    Some(v) => spec_lookup(entries0, key@) == Some(v@),
                    None => spec_lookup(entries0.skip(i as int), key@) == spec_lookup(
                        entries0,
                        key@,
                    ),
                },
            decreases n - i,
        {
            let ghost used_before = self@.used;
            proof {
                assert(entries0.skip(i as int).drop_first() =~= entries0.skip(i + 1));
                assert(entries0[i as int] == (self.entries@[i as int].key@,
                self.entries@[i as int].value@));
            }
            if bytes_eq(&self.entries[i].key, key) {
                if found.is_none() {
                    found = Some(clone_bytes(&self.entries[i].value));
                }
                let k2 = clone_bytes(&self.entries[i].key);
                let v2 = clone_bytes(&self.entries[i].value);
                self.entries.set(i, StorageEntry { key: k2, value: v2, used: true });
                proof {
                    assert(self@.entries =~= entries0);
                    assert(self@.used =~= used_before.update(i as int, true));
                }
            }
            i = i + 1;
        }
        proof {
            assert(entries0.skip(n as int) =~= Seq::<(Seq<u8>, Seq<u8>)>::empty());
        }
        found
    }

    /// Whether every authenticated fact has been consumed by some read.
    pub fn all_used(&self) -> (r: bool)
        ensures
            r == forall|i: int| 0 <= i < self@.used.len() ==> self@.used[i],
    {
        let mut i: usize = 0;
        let n = self.entries.len();
        while i < n
            invariant
                i <= n,
                n == self@.used.len() == self.entries@.len(),
                forall|j: int| 0 <= j < i ==> self@.used[j],
            decreases n - i,
        {
            if !self.entries[i].used {
                proof {
                    assert(!self@.used[i as int]);
                }
                return false;
            }
            i = i + 1;
        }
        true
    }
}

/// Whether two byte strings hold the same bytes.
pub fn bytes_eq(a: &Vec<u8>, b: &Vec<u8>) -> (r: bool)
    ensures
        r == (a@ == b@),
{
    if a.len() != b.len() {
        return false;
    }
    let mut i: usize = 0;
    let n = a.len();
    while i < n
        invariant
            i <= n,
            n == a@.len() == b@.len(),
            forall|j: int| 0 <= j < i ==> a@[j] == b@[j],
        decreases n - i,
    {
        if a[i] != b[i] {
            return false;
        }
        i = i + 1;
    }
    proof {
        assert(a@ =~= b@);
    }
    true
}

fn clone_bytes(a: &Vec<u8>) -> (r: Vec<u8>)
    ensures
        r@ == a@,
{
    let mut out: Vec<u8> = Vec::new();
    let mut i: usize = 0;
    let n = a.len();
    while i < n
        invariant
            i <= n,
            n == a@.len(),
            out@ == a@.take(i as int),
        decreases n - i,
    {
        out.push(a[i]);
        proof {
            assert(a@.take(i + 1) =~= a@.take(i as int).push(a@[i as int]));
        }
        i = i + 1;
    }
    proof {
        assert(a@.take(n as int) =~= a@);
    }
    out
}

/// Whether some trie node occurs twice in a raw proof.
pub open spec fn spec_has_duplicates(nodes: Seq<Seq<u8>>) -> bool {
    exists|i: int, j: int| 0 <= i < j < nodes.len() && nodes[i] == nodes[j]
}

/// Whether a raw proof carries the same trie node twice. A correctly built
/// proof never does; a duplicate signals a malicious or buggy relayer.
pub fn storage_proof_has_duplicate_nodes(proof: &RawStorageProof) -> (r: bool)
    ensures
        r == spec_has_duplicates(proof@.map_values(|n: Vec<u8>| n@)),
{
    let ghost nodes = proof@.map_values(|n: Vec<u8>| n@);
    let n = proof.len();
    let mut i: usize = 0;
    while i < n
        invariant
            i <= n,
            n == nodes.len(),
            nodes == proof@.map_values(|v: Vec<u8>| v@),
            forall|i0: int, j0: int| 0 <= i0 < j0 < n && i0 < i ==> nodes[i0] != nodes[j0],
        decreases n - i,
    {
        let mut j: usize = i + 1;
        while j < n
            invariant
                i < j <= n,
                i < n,
                n == nodes.len(),
                nodes == proof@.map_values(|v: Vec<u8>| v@),
                forall|i0: int, j0: int| 0 <= i0 < j0 < n && i0 < i ==> nodes[i0] != nodes[j0],
                forall|j0: int| i < j0 < j ==> nodes[i as int] != nodes[j0],
            decreases n - j,
        {
            if bytes_eq(&proof[i], &proof[j]) {
                proof {
                    assert(nodes[i as int] == nodes[j as int]);
                    assert(spec_has_duplicates(nodes));
                }
                return true;
            }
            j = j + 1;
        }
        i = i + 1;
    }
    false
}

/// The header-chain oracle: the one entry point through which a claimed
/// finalized header hash becomes read access to authenticated storage.
///
/// An implementation must resolve the hash to the trusted state root of
/// that finalized header (failing with `UnknownHeader` when the hash is not
/// in its finalized set), check the raw proof against that root (failing
/// with `StorageProof` when the proof has duplicate nodes or does not match
/// the root), and hand back the authenticated facts. Nothing is proved
/// about an implementation here: the verifiers state what holds of their
/// result whatever comes back.
pub trait HeaderChain {
    /// Resolves `header_hash` to its trusted state root and opens the raw
    /// proof against it.
    fn parse_finalized_storage_proof(
        &self,
        header_hash: &HeaderHash,
        storage_proof: RawStorageProof,
    ) -> Result<StorageValues, HeaderChainError>;
}

} // verus!
