//! What holds of cross-validation and assembly, for every checkpoint.

use vstd::prelude::*;
use crate::bundle::{bundle_of, inclusion_proof, BundleView, TxDataResponse};
use crate::checkpoint::{
    distinct, first_position, is_first_at, lemma_first_position_found, manifest_keys,
    record_keys, CheckpointData,
};
use crate::failure::Failure;
use crate::digest::Digest;
use crate::request::{ends_with, step_outcome, Action, Event, RequestState};
use crate::validate::{cross_validation, lemma_validated_binds};

verus! {

/// The manifest of `data` lists `requested` at `entry`.
pub open spec fn listed_at(data: CheckpointData, requested: Seq<u8>, entry: int) -> bool {
    0 <= entry < data.contents.entries.len() && data.contents.entries[entry].transaction@
        == requested
}

/// The record at `record` of `data` is that of `requested`.
pub open spec fn recorded_at(data: CheckpointData, requested: Seq<u8>, record: int) -> bool {
    0 <= record < data.transactions.len() && data.transactions[record].transaction_digest@
        == requested
}

/// In a checkpoint with unique digests, a digest's one position is its first.
proof fn lemma_unique_is_first(keys: Seq<Seq<u8>>, wanted: Seq<u8>, i: int)
    requires
        distinct(keys),
        0 <= i < keys.len(),
        keys[i] == wanted,
    ensures
        first_position(keys, wanted) == Some(i),
        forall|j: int| 0 <= j < keys.len() && keys[j] == wanted ==> j == i,
{
    assert forall|j: int| 0 <= j < keys.len() && keys[j] == wanted implies j == i by {
        if j < i {
            assert(keys[j] != keys[i]);
        }
        if i < j {
            assert(keys[i] != keys[j]);
        }
    }
    assert(is_first_at(keys, wanted, i));
    lemma_first_position_found(keys, wanted, i);
}

/// A transaction that a checkpoint includes is validated, and matched
/// exactly once: where the manifest lists it and a record of it confirms the
/// listed effects digest, cross-validation yields that entry and that record,
/// no other entry or record carries the transaction's digest, and the
/// request yields the bundle of that record.
pub proof fn law_included_transaction_has_one_match(
    data: CheckpointData,
    requested: Seq<u8>,
    entry: int,
    record: int,
)
    requires
        data.wf(),
        listed_at(data, requested, entry),
        recorded_at(data, requested, record),
        data.contents.entries[entry].effects@ == data.transactions[record].effects_digest@,
    ensures
        cross_validation(data, requested) == Ok::<(int, int), Failure>((entry, record)),
        forall|other: int| listed_at(data, requested, other) ==> other == entry,
        forall|other: int| recorded_at(data, requested, other) ==> other == record,
        inclusion_proof(data, requested) == Ok::<BundleView, Failure>(bundle_of(data, record)),
{
    lemma_unique_is_first(manifest_keys(data.contents.entries@), requested, entry);
    lemma_unique_is_first(record_keys(data.transactions@), requested, record);
    assert forall|other: int| listed_at(data, requested, other) implies other == entry by {
        assert(manifest_keys(data.contents.entries@)[other] == requested);
    }
    assert forall|other: int| recorded_at(data, requested, other) implies other == record by {
        assert(record_keys(data.transactions@)[other] == requested);
    }
}

/// A transaction is not found exactly when the manifest does not list it,
/// whatever the records hold.
pub proof fn law_absent_transaction_is_not_found(data: CheckpointData, requested: Seq<u8>)
    ensures
        (forall|entry: int| !listed_at(data, requested, entry)) <==> cross_validation(
            data,
            requested,
        ) == Err::<(int, int), Failure>(Failure::NotFound),
        (forall|entry: int| !listed_at(data, requested, entry)) <==> inclusion_proof(
            data,
            requested,
        ) == Err::<BundleView, Failure>(Failure::NotFound),
{
    let keys = manifest_keys(data.contents.entries@);
    if forall|entry: int| !listed_at(data, requested, entry) {
        assert forall|j: int| 0 <= j < keys.len() implies keys[j] != requested by {
            assert(!listed_at(data, requested, j));
        }
    } else {
        let entry = choose|entry: int| listed_at(data, requested, entry);
        lemma_listed_has_first(keys, requested, entry);
    }
}

/// A digest that occurs has a first position.
proof fn lemma_listed_has_first(keys: Seq<Seq<u8>>, wanted: Seq<u8>, i: int)
    requires
        0 <= i < keys.len(),
        keys[i] == wanted,
    ensures
        first_position(keys, wanted).is_some(),
    decreases i,
{
    if exists|j: int| 0 <= j < i && keys[j] == wanted {
        let j = choose|j: int| 0 <= j < i && keys[j] == wanted;
        lemma_listed_has_first(keys, wanted, j);
    } else {
        assert(is_first_at(keys, wanted, i));
    }
}

/// A corrupted manifest is never taken for success: where the manifest
/// lists the transaction with an effects digest other than the one computed
/// from the transaction's record, the outcome is an integrity mismatch.
pub proof fn law_corrupted_effects_is_mismatch(
    data: CheckpointData,
    requested: Seq<u8>,
    entry: int,
    record: int,
)
    requires
        data.wf(),
        listed_at(data, requested, entry),
        recorded_at(data, requested, record),
        data.contents.entries[entry].effects@ != data.transactions[record].effects_digest@,
    ensures
        cross_validation(data, requested) == Err::<(int, int), Failure>(
            Failure::IntegrityMismatch,
        ),
        inclusion_proof(data, requested) == Err::<BundleView, Failure>(
            Failure::IntegrityMismatch,
        ),
{
    lemma_unique_is_first(manifest_keys(data.contents.entries@), requested, entry);
    lemma_unique_is_first(record_keys(data.transactions@), requested, record);
}

/// Assembly is deterministic: two bundles built for the same transaction
/// and the same checkpoint hold the same epoch and the same bytes.
pub proof fn law_repeated_assembly_is_identical(
    data: CheckpointData,
    requested: Seq<u8>,
    first: TxDataResponse,
    second: TxDataResponse,
)
    requires
        inclusion_proof(data, requested) == Ok::<BundleView, Failure>(first@),
        inclusion_proof(data, requested) == Ok::<BundleView, Failure>(second@),
    ensures
        first.ckp_epoch_id == second.ckp_epoch_id,
        first.checkpoint_summary_bytes@ == second.checkpoint_summary_bytes@,
        first.checkpoint_contents_bytes@ == second.checkpoint_contents_bytes@,
        first.transaction_bytes@ == second.transaction_bytes@,
{
}

/// A bundle is handed out only for a validated transaction: whenever a step
/// answers with a bundle, the request held a validated triple, the manifest
/// of its checkpoint lists the requested transaction, a record of that
/// transaction confirms the listed effects digest, and the bundle holds the
/// checkpoint's epoch and the bytes of summary, manifest and that record.
pub proof fn law_bundle_only_after_validation(
    state: RequestState,
    event: Event,
    next: RequestState,
    action: Action,
)
    requires
        state.wf(),
        step_outcome(state, event, next, action),
        action is Respond,
    ensures
        next == RequestState::Done,
        state is Assembling,
        ({
            let data = state->Assembling_0.source();
            let requested = state->Assembling_0.requested_id();
            let bundle = action->Respond_0;
            exists|entry: int, record: int|
                {
                    &&& #[trigger] listed_at(data, requested, entry)
                    &&& #[trigger] recorded_at(data, requested, record)
                    &&& data.contents.entries[entry].effects@
                        == data.transactions[record].effects_digest@
                    &&& bundle@ == bundle_of(data, record)
                }
        }),
{
    let triple = state->Assembling_0;
    lemma_validated_binds(
        triple.source(),
        triple.requested_id(),
        triple.entry_index(),
        triple.record_index(),
    );
    assert(listed_at(triple.source(), triple.requested_id(), triple.entry_index())
        && recorded_at(triple.source(), triple.requested_id(), triple.record_index()));
}

/// Once a checkpoint's data has arrived, the steps that follow come to what
/// `inclusion_proof` says of the requested transaction and that data: the
/// bundle after validation and assembly, or the validator's failure, after
/// which nothing more happens.
pub proof fn law_steps_yield_inclusion_proof(
    id: Digest,
    sequence_number: u64,
    data: CheckpointData,
    validating: RequestState,
    assembling: RequestState,
    assembling_action: Action,
    last: RequestState,
    last_action: Action,
)
    requires
        step_outcome(
            RequestState::Fetching(id, sequence_number),
            Event::Fetched(data),
            validating,
            Action::Proceed,
        ),
        step_outcome(validating, Event::Proceeded, assembling, assembling_action),
        step_outcome(assembling, Event::Proceeded, last, last_action),
    ensures
        match inclusion_proof(data, id@) {
            Ok(bundle) => {
                &&& assembling_action == Action::Proceed
                &&& last == RequestState::Done
                &&& last_action matches Action::Respond(response)
                &&& response@ == bundle
            },
            Err(failure) => {
                &&& ends_with(assembling, assembling_action, failure)
                &&& last == assembling
                &&& last_action == Action::Ignore
            },
        },
{
}

/// A request that has ended stays as it is: no event moves it, and none
/// makes it act again.
pub proof fn law_ended_request_stays(
    state: RequestState,
    event: Event,
    next: RequestState,
    action: Action,
)
    requires
        step_outcome(state, event, next, action),
        state.is_terminal(),
    ensures
        next == state,
        action == Action::Ignore,
{
}

} // verus!
