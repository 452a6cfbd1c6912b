//! The data of one finalized checkpoint, as far as the core reads it.
//!
//! Each artifact carries its canonical serialization, the exact bytes that
//! the checkpoint's authenticator covers. The core reads digests and ids and
//! carries those bytes through untouched.

use vstd::prelude::*;
use crate::digest::Digest;

verus! {

/// The authenticated header of a checkpoint.
#[derive(Clone, Debug, PartialEq, Eq)]
pub struct CheckpointSummary {
    /// The epoch in which the checkpoint was finalized.
    pub epoch: u64,
    /// The checkpoint's place in the ledger.
    pub sequence_number: u64,
    /// The digest that commits to the checkpoint's contents.
    pub content_digest: Digest,
    /// The summary's canonical serialization, authenticator included.
    pub canonical_bytes: Vec<u8>,
}

/// One line of a checkpoint's manifest: a transaction that was executed, and
/// the digest of its effects.
#[derive(Clone, Copy, Debug, PartialEq, Eq)]
pub struct ManifestEntry {
    pub transaction: Digest,
    pub effects: Digest,
}

/// The ordered manifest of everything that a checkpoint executed.
#[derive(Clone, Debug, PartialEq, Eq)]
pub struct CheckpointContents {
    pub entries: Vec<ManifestEntry>,
    /// The manifest's canonical serialization.
    pub canonical_bytes: Vec<u8>,
}

/// A transaction with its execution effects.
#[derive(Clone, Debug, PartialEq, Eq)]
pub struct TransactionRecord {
    /// The digest of the transaction.
    pub transaction_digest: Digest,
    /// The digest of the effects, computed from the record itself.
    pub effects_digest: Digest,
    /// The record's canonical serialization.
    pub canonical_bytes: Vec<u8>,
}

/// Everything that is fetched for one checkpoint.
#[derive(Clone, Debug, PartialEq, Eq)]
pub struct CheckpointData {
    pub summary: CheckpointSummary,
    pub contents: CheckpointContents,
    pub transactions: Vec<TransactionRecord>,
}

/// The transaction digests of a manifest, in its order.
pub open spec fn manifest_keys(entries: Seq<ManifestEntry>) -> Seq<Seq<u8>> {
    Seq::new(entries.len(), |i: int| entries[i].transaction@)
}

/// The transaction digests of a list of records, in its order.
pub open spec fn record_keys(records: Seq<TransactionRecord>) -> Seq<Seq<u8>> {
    Seq::new(records.len(), |i: int| records[i].transaction_digest@)
}

/// No digest occurs twice.
pub open spec fn distinct(keys: Seq<Seq<u8>>) -> bool {
    forall|i: int, j: int| 0 <= i < j < keys.len() ==> keys[i] != keys[j]
}

/// `wanted` stands at `i`, and nowhere before it.
pub open spec fn is_first_at(keys: Seq<Seq<u8>>, wanted: Seq<u8>, i: int) -> bool {
    &&& 0 <= i < keys.len()
    &&& keys[i] == wanted
    &&& forall|j: int| 0 <= j < i ==> keys[j] != wanted
}

/// The first position of `wanted` among `keys`, if it occurs at all.
pub open spec fn first_position(keys: Seq<Seq<u8>>, wanted: Seq<u8>) -> Option<int> {
    if exists|i: int| is_first_at(keys, wanted, i) {
        Some(choose|i: int| is_first_at(keys, wanted, i))
    } else {
        None
    }
}

/// A position that holds `wanted` with none before it is the first position.
pub proof fn lemma_first_position_found(keys: Seq<Seq<u8>>, wanted: Seq<u8>, i: int)
    requires
        is_first_at(keys, wanted, i),
    ensures
        first_position(keys, wanted) == Some(i),
{
    let c = choose|c: int| is_first_at(keys, wanted, c);
    assert(is_first_at(keys, wanted, c));
    if c < i {
        assert(keys[c] != wanted);
    }
    if i < c {
        assert(keys[i] != wanted);
    }
}

/// A digest that stands nowhere has no first position.
pub proof fn lemma_first_position_absent(keys: Seq<Seq<u8>>, wanted: Seq<u8>)
    requires
        forall|j: int| 0 <= j < keys.len() ==> keys[j] != wanted,
    ensures
        first_position(keys, wanted).is_none(),
{
}

impl CheckpointContents {
    /// Looks the manifest up by transaction digest.
    pub fn position_of(&self, wanted: &Digest) -> (found: Option<usize>)
        ensures
            match found {
                Some(i) => first_position(manifest_keys(self.entries@), wanted@) == Some(i as int),
                None => first_position(manifest_keys(self.entries@), wanted@).is_none(),
            },
    {
        let ghost keys = manifest_keys(self.entries@);
        let mut i: usize = 0;
        while i < self.entries.len()
            invariant
                i <= self.entries.len(),
                keys == manifest_keys(self.entries@),
                forall|j: int| 0 <= j < i ==> keys[j] != wanted@,
            decreases self.entries.len() - i,
        {
            if self.entries[i].transaction.same_as(wanted) {
                proof {
                    lemma_first_position_found(keys, wanted@, i as int);
                }
                return Some(i);
            }
            i += 1;
        }
        proof {
            lemma_first_position_absent(keys, wanted@);
        }
        None
    }
}

impl CheckpointData {
    /// Transaction digests are unique within a checkpoint: no two manifest
    /// entries share one, and no two records do.
    pub open spec fn wf(&self) -> bool {
        &&& distinct(manifest_keys(self.contents.entries@))
        &&& distinct(record_keys(self.transactions@))
    }

    /// Looks the transaction records up by transaction digest.
    pub fn record_position_of(&self, wanted: &Digest) -> (found: Option<usize>)
        ensures
            match found {
                Some(i) => first_position(record_keys(self.transactions@), wanted@) == Some(i as int),
                None => first_position(record_keys(self.transactions@), wanted@).is_none(),
            },
    {
        let ghost keys = record_keys(self.transactions@);
        let mut i: usize = 0;
        while i < self.transactions.len()
            invariant
                i <= self.transactions.len(),
                keys == record_keys(self.transactions@),
                forall|j: int| 0 <= j < i ==> keys[j] != wanted@,
            decreases self.transactions.len() - i,
        {
            if self.transactions[i].transaction_digest.same_as(wanted) {
                proof {
                    lemma_first_position_found(keys, wanted@, i as int);
                }
                return Some(i);
            }
            i += 1;
        }
        proof {
            lemma_first_position_absent(keys, wanted@);
        }
        None
    }
}

} // verus!
