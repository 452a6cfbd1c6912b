//! The cross-validator: finds a transaction in a checkpoint's manifest and
//! holds the manifest's effects digest against the transaction's record.

use vstd::prelude::*;
use crate::checkpoint::{
    first_position, manifest_keys, record_keys, CheckpointContents, CheckpointData,
    CheckpointSummary, ManifestEntry, TransactionRecord,
};
use crate::digest::Digest;
use crate::failure::Failure;

verus! {

/// What cross-validation of `requested` against `data` comes to: the
/// positions of the manifest entry and of the record that were matched, or
/// the failure.
///
/// Entry and record are both found by transaction digest, never by position.
/// A transaction that the manifest does not list is not found. One that it
/// lists is validated only if a record with its digest exists and that
/// record's own effects digest is the one that the manifest states.
pub open spec fn cross_validation(data: CheckpointData, requested: Seq<u8>) -> Result<
    (int, int),
    Failure,
> {
    match first_position(manifest_keys(data.contents.entries@), requested) {
        None => Err(Failure::NotFound),
        Some(entry) => match first_position(record_keys(data.transactions@), requested) {
            None => Err(Failure::IntegrityMismatch),
            Some(record) => if data.contents.entries[entry].effects@
                == data.transactions[record].effects_digest@ {
                Ok((entry, record))
            } else {
                Err(Failure::IntegrityMismatch)
            },
        },
    }
}

/// A checkpoint's summary, manifest and one transaction record, matched to a
/// requested transaction. Only `cross_validate` makes one.
#[derive(Clone, Debug, PartialEq, Eq)]
pub struct ValidatedTriple {
    data: CheckpointData,
    requested: Digest,
    entry: usize,
    record: usize,
}

impl ValidatedTriple {
    /// The checkpoint that was validated against.
    pub closed spec fn source(&self) -> CheckpointData {
        self.data
    }

    /// The transaction that was asked for.
    pub closed spec fn requested_id(&self) -> Seq<u8> {
        self.requested@
    }

    /// Where the matched entry stands in the manifest.
    pub closed spec fn entry_index(&self) -> int {
        self.entry as int
    }

    /// Where the matched record stands among the checkpoint's records.
    pub closed spec fn record_index(&self) -> int {
        self.record as int
    }

    /// The triple is what cross-validation of the requested transaction
    /// against its checkpoint yields.
    pub open spec fn wf(&self) -> bool {
        cross_validation(self.source(), self.requested_id()) == Ok::<(int, int), Failure>(
            (self.entry_index(), self.record_index()),
        )
    }

    /// The transaction that was asked for.
    pub fn requested(&self) -> (id: &Digest)
        ensures
            id@ == self.requested_id(),
    {
        &self.requested
    }

    /// The checkpoint's summary.
    pub fn summary(&self) -> (summary: &CheckpointSummary)
        ensures
            *summary == self.source().summary,
    {
        &self.data.summary
    }

    /// The checkpoint's manifest.
    pub fn contents(&self) -> (contents: &CheckpointContents)
        ensures
            *contents == self.source().contents,
    {
        &self.data.contents
    }

    /// The manifest entry that was matched.
    pub fn entry(&self) -> (entry: &ManifestEntry)
        requires
            self.wf(),
        ensures
            *entry == self.source().contents.entries[self.entry_index()],
    {
        proof {
            lemma_validated_binds(self.data, self.requested@, self.entry as int, self.record as int);
        }
        &self.data.contents.entries[self.entry]
    }

    /// The transaction record that was matched.
    pub fn record(&self) -> (record: &TransactionRecord)
        requires
            self.wf(),
        ensures
            *record == self.source().transactions[self.record_index()],
    {
        proof {
            lemma_validated_binds(self.data, self.requested@, self.entry as int, self.record as int);
        }
        &self.data.transactions[self.record]
    }
}

/// A validated match binds identity and authenticity: the matched entry and
/// the matched record both carry the requested digest, and the effects
/// digest that the entry states is the one computed from the record.
pub proof fn lemma_validated_binds(data: CheckpointData, requested: Seq<u8>, entry: int, record: int)
    requires
        cross_validation(data, requested) == Ok::<(int, int), Failure>((entry, record)),
    ensures
        0 <= entry < data.contents.entries.len(),
        0 <= record < data.transactions.len(),
        data.contents.entries[entry].transaction@ == requested,
        data.transactions[record].transaction_digest@ == requested,
        data.contents.entries[entry].effects@ == data.transactions[record].effects_digest@,
{
}

/// Cross-validates `requested` against the data of one checkpoint.
pub fn cross_validate(requested: &Digest, data: CheckpointData) -> (r: Result<
    ValidatedTriple,
    Failure,
>)
    ensures
        match r {
            Ok(triple) => triple.wf() && triple.source() == data && triple.requested_id()
                == requested@,
            Err(failure) => cross_validation(data, requested@) == Err::<(int, int), Failure>(
                failure,
            ),
        },
{
    let entry = match data.contents.position_of(requested) {
        Some(entry) => entry,
        None => {
            return Err(Failure::NotFound);
        },
    };
    let record = match data.record_position_of(requested) {
        Some(record) => record,
        None => {
            return Err(Failure::IntegrityMismatch);
        },
    };
    if data.contents.entries[entry].effects.same_as(&data.transactions[record].effects_digest) {
        Ok(ValidatedTriple { data, requested: *requested, entry, record })
    } else {
        Err(Failure::IntegrityMismatch)
    }
}

} // verus!
