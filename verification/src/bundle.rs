//! The proof bundle and its assembly.

use vstd::prelude::*;
use crate::checkpoint::CheckpointData;
use crate::digest::{parsed_digest, Digest};
use crate::failure::Failure;
use crate::validate::{cross_validate, cross_validation, ValidatedTriple};

verus! {

/// A request for the proof of one transaction.
#[derive(Clone, Debug, PartialEq, Eq)]
pub struct TxDataRequest {
    /// The transaction's identifier, in base58.
    pub tx_id: String,
}

/// The proof bundle: what a light client needs to verify on its own that a
/// transaction is included in a checkpoint.
#[derive(Clone, Debug, PartialEq, Eq)]
pub struct TxDataResponse {
    pub ckp_epoch_id: u64,
    pub checkpoint_summary_bytes: Vec<u8>,
    pub checkpoint_contents_bytes: Vec<u8>,
    pub transaction_bytes: Vec<u8>,
}

/// A bundle as a mathematical value.
pub struct BundleView {
    pub epoch: u64,
    pub summary_bytes: Seq<u8>,
    pub contents_bytes: Seq<u8>,
    pub transaction_bytes: Seq<u8>,
}

impl View for TxDataResponse {
    type V = BundleView;

    open spec fn view(&self) -> BundleView {
        BundleView {
            epoch: self.ckp_epoch_id,
            summary_bytes: self.checkpoint_summary_bytes@,
            contents_bytes: self.checkpoint_contents_bytes@,
            transaction_bytes: self.transaction_bytes@,
        }
    }
}

/// The bundle for the record at `record` of a checkpoint: the summary's
/// epoch, and the canonical bytes of summary, manifest and record.
pub open spec fn bundle_of(data: CheckpointData, record: int) -> BundleView {
    BundleView {
        epoch: data.summary.epoch,
        summary_bytes: data.summary.canonical_bytes@,
        contents_bytes: data.contents.canonical_bytes@,
        transaction_bytes: data.transactions[record].canonical_bytes@,
    }
}

/// The outcome of a request for `requested`, once its checkpoint is at hand:
/// the bundle of the validated match, or the validator's failure.
pub open spec fn inclusion_proof(data: CheckpointData, requested: Seq<u8>) -> Result<
    BundleView,
    Failure,
> {
    match cross_validation(data, requested) {
        Ok((_, record)) => Ok(bundle_of(data, record)),
        Err(failure) => Err(failure),
    }
}

impl TxDataRequest {
    /// The request for the transaction with the given identifier.
    pub fn new(tx_id: String) -> (request: TxDataRequest)
        ensures
            request.tx_id == tx_id,
    {
        TxDataRequest { tx_id }
    }

    /// The digest that the request names.
    pub fn identifier(&self) -> (r: Result<Digest, Failure>)
        ensures
            match r {
                Ok(d) => parsed_digest(self.tx_id@) == Some(d@),
                Err(e) => e == Failure::InvalidInput && parsed_digest(self.tx_id@).is_none(),
            },
    {
        Digest::parse(self.tx_id.as_str())
    }
}

/// Assembles the bundle of a validated triple.
pub fn assemble(triple: &ValidatedTriple) -> (bundle: TxDataResponse)
    requires
        triple.wf(),
    ensures
        bundle@ == bundle_of(triple.source(), triple.record_index()),
        inclusion_proof(triple.source(), triple.requested_id()) == Ok::<BundleView, Failure>(
            bundle@,
        ),
{
    let summary = triple.summary();
    TxDataResponse {
        ckp_epoch_id: summary.epoch,
        checkpoint_summary_bytes: summary.canonical_bytes.clone(),
        checkpoint_contents_bytes: triple.contents().canonical_bytes.clone(),
        transaction_bytes: triple.record().canonical_bytes.clone(),
    }
}

/// Validates `requested` against its checkpoint and assembles the bundle.
pub fn prove_inclusion(requested: &Digest, data: CheckpointData) -> (r: Result<
    TxDataResponse,
    Failure,
>)
    ensures
        match r {
            Ok(bundle) => inclusion_proof(data, requested@) == Ok::<BundleView, Failure>(bundle@),
            Err(failure) => inclusion_proof(data, requested@) == Err::<BundleView, Failure>(
                failure,
            ),
        },
{
    match cross_validate(requested, data) {
        Ok(triple) => Ok(assemble(&triple)),
        Err(failure) => Err(failure),
    }
}

} // verus!
