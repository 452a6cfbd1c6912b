//! The life of one request, as a function from state and event to the next
//! state and the action to take.
//!
//! The caller owns the ledger: it performs each action once and hands back
//! what came of it. Every failure ends the request; nothing is retried.

use vstd::prelude::*;
use crate::bundle::{assemble, bundle_of, TxDataRequest, TxDataResponse};
use crate::checkpoint::CheckpointData;
use crate::digest::{parsed_digest, Digest};
use crate::failure::Failure;
use crate::validate::{cross_validate, cross_validation, ValidatedTriple};

verus! {

/// Where a request stands.
#[derive(Clone, Debug, PartialEq, Eq)]
pub enum RequestState {
    /// Nothing was asked yet.
    Idle,
    /// Waiting for the checkpoint that holds the transaction.
    Resolving(Digest),
    /// Waiting for the data of the checkpoint with this sequence number.
    Fetching(Digest, u64),
    /// The checkpoint's data is at hand and not yet validated.
    Validating(Digest, CheckpointData),
    /// The transaction was validated; its bundle is not yet built.
    Assembling(ValidatedTriple),
    /// The bundle was handed out.
    Done,
    /// The request ended with a failure.
    Failed(Failure),
}

/// What happened since the last step.
#[derive(Clone, Debug, PartialEq, Eq)]
pub enum Event {
    /// A request came in.
    Submitted(TxDataRequest),
    /// The ledger answered for the transaction: the checkpoint that holds it,
    /// or none if it is unknown or not yet in a checkpoint.
    Resolved(Option<u64>),
    /// The ledger failed to answer for the transaction.
    ResolveFailed(Failure),
    /// The checkpoint's data arrived.
    Fetched(CheckpointData),
    /// The checkpoint's data could not be had.
    FetchFailed(Failure),
    /// Nothing: the last action was `Action::Proceed`.
    Proceeded,
}

/// What the caller is to do next.
#[derive(Clone, Debug, PartialEq, Eq)]
pub enum Action {
    /// Ask the ledger which checkpoint holds the transaction.
    Resolve(Digest),
    /// Fetch the data of the checkpoint with this sequence number.
    Fetch(u64),
    /// Nothing is needed from outside: take the next step at once.
    Proceed,
    /// Answer the request with the bundle.
    Respond(TxDataResponse),
    /// Answer the request with the failure.
    Reject(Failure),
    /// The event does not belong to the state: do nothing.
    Ignore,
}

impl RequestState {
    /// A state that assembles holds a triple that was validated.
    pub open spec fn wf(&self) -> bool {
        match *self {
            RequestState::Assembling(triple) => triple.wf(),
            _ => true,
        }
    }

    /// The request has ended.
    pub open spec fn is_terminal(&self) -> bool {
        *self is Done || *self is Failed
    }

    /// Whether the request has ended.
    pub fn ended(&self) -> (ended: bool)
        ensures
            ended == self.is_terminal(),
    {
        match self {
            RequestState::Done => true,
            RequestState::Failed(_) => true,
            _ => false,
        }
    }
}

/// The request ends with `failure`.
pub open spec fn ends_with(next: RequestState, action: Action, failure: Failure) -> bool {
    next == RequestState::Failed(failure) && action == Action::Reject(failure)
}

/// The transition relation: `next` and `action` are what `event` leads to
/// from `state`.
pub open spec fn step_outcome(
    state: RequestState,
    event: Event,
    next: RequestState,
    action: Action,
) -> bool {
    match (state, event) {
        (RequestState::Idle, Event::Submitted(request)) => match parsed_digest(request.tx_id@) {
            Some(bytes) => {
                &&& next matches RequestState::Resolving(id)
                &&& id@ == bytes
                &&& action == Action::Resolve(id)
            },
            None => ends_with(next, action, Failure::InvalidInput),
        },
        (RequestState::Resolving(id), Event::Resolved(Some(sequence_number))) => {
            &&& next == RequestState::Fetching(id, sequence_number)
            &&& action == Action::Fetch(sequence_number)
        },
        (RequestState::Resolving(_), Event::Resolved(None)) => ends_with(
            next,
            action,
            Failure::NotFound,
        ),
        (RequestState::Resolving(_), Event::ResolveFailed(failure)) => ends_with(
            next,
            action,
            failure,
        ),
        (RequestState::Fetching(id, _), Event::Fetched(data)) => {
            &&& next == RequestState::Validating(id, data)
            &&& action == Action::Proceed
        },
        (RequestState::Fetching(_, _), Event::FetchFailed(failure)) => ends_with(
            next,
            action,
            failure,
        ),
        (RequestState::Validating(id, data), Event::Proceeded) => match cross_validation(
            data,
            id@,
        ) {
            Ok(_) => {
                &&& next matches RequestState::Assembling(triple)
                &&& triple.wf()
                &&& triple.source() == data
                &&& triple.requested_id() == id@
                &&& action == Action::Proceed
            },
            Err(failure) => ends_with(next, action, failure),
        },
        (RequestState::Assembling(triple), Event::Proceeded) => {
            &&& next == RequestState::Done
            &&& action matches Action::Respond(bundle)
            &&& bundle@ == bundle_of(triple.source(), triple.record_index())
        },
        _ => next == state && action == Action::Ignore,
    }
}

/// Takes one step of a request.
pub fn step(state: RequestState, event: Event) -> (out: (RequestState, Action))
    requires
        state.wf(),
    ensures
        out.0.wf(),
        step_outcome(state, event, out.0, out.1),
{
    match (state, event) {
        (RequestState::Idle, Event::Submitted(request)) => match request.identifier() {
            Ok(id) => (RequestState::Resolving(id), Action::Resolve(id)),
            Err(failure) => (RequestState::Failed(failure), Action::Reject(failure)),
        },
        (RequestState::Resolving(id), Event::Resolved(Some(sequence_number))) => (
            RequestState::Fetching(id, sequence_number),
            Action::Fetch(sequence_number),
        ),
        (RequestState::Resolving(_), Event::Resolved(None)) => (
            RequestState::Failed(Failure::NotFound),
            Action::Reject(Failure::NotFound),
        ),
        (RequestState::Resolving(_), Event::ResolveFailed(failure)) => (
            RequestState::Failed(failure),
            Action::Reject(failure),
        ),
        (RequestState::Fetching(id, _), Event::Fetched(data)) => (
            RequestState::Validating(id, data),
            Action::Proceed,
        ),
        (RequestState::Fetching(_, _), Event::FetchFailed(failure)) => (
            RequestState::Failed(failure),
            Action::Reject(failure),
        ),
        (RequestState::Validating(id, data), Event::Proceeded) => match cross_validate(&id, data) {
            Ok(triple) => (RequestState::Assembling(triple), Action::Proceed),
            Err(failure) => (RequestState::Failed(failure), Action::Reject(failure)),
        },
        (RequestState::Assembling(triple), Event::Proceeded) => {
            let bundle = assemble(&triple);
            (RequestState::Done, Action::Respond(bundle))
        },
        (state, _) => (state, Action::Ignore),
    }
}

} // verus!
