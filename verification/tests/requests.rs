use inclusion_proof::{
    step, Action, CheckpointContents, CheckpointData, CheckpointSummary, Digest, Event, Failure,
    ManifestEntry, RequestState, TransactionRecord, TxDataRequest, TxDataResponse,
};

fn id(tag: u8) -> Digest {
    Digest::new([tag; 32])
}

fn request_for(tag: u8) -> TxDataRequest {
    TxDataRequest::new(bs58::encode([tag; 32]).into_string())
}

fn data(listed_effects: u8) -> CheckpointData {
    CheckpointData {
        summary: CheckpointSummary {
            epoch: 12,
            sequence_number: 345,
            content_digest: id(0xc0),
            canonical_bytes: vec![1, 2, 3],
        },
        contents: CheckpointContents {
            entries: vec![
                ManifestEntry { transaction: id(1), effects: id(0xe1) },
                ManifestEntry { transaction: id(2), effects: id(listed_effects) },
            ],
            canonical_bytes: vec![4, 5],
        },
        transactions: vec![
            TransactionRecord {
                transaction_digest: id(1),
                effects_digest: id(0xe1),
                canonical_bytes: vec![6],
            },
            TransactionRecord {
                transaction_digest: id(2),
                effects_digest: id(0xe2),
                canonical_bytes: vec![7, 8, 9, 10],
            },
        ],
    }
}

fn fetching(tag: u8) -> RequestState {
    let (state, _) = step(RequestState::Idle, Event::Submitted(request_for(tag)));
    let (state, _) = step(state, Event::Resolved(Some(345)));
    state
}

#[test]
fn request_runs_from_idle_to_done() {
    let (state, action) = step(RequestState::Idle, Event::Submitted(request_for(2)));
    assert_eq!(state, RequestState::Resolving(id(2)));
    assert_eq!(action, Action::Resolve(id(2)));
    assert!(!state.ended());

    let (state, action) = step(state, Event::Resolved(Some(345)));
    assert_eq!(state, RequestState::Fetching(id(2), 345));
    assert_eq!(action, Action::Fetch(345));

    let (state, action) = step(state, Event::Fetched(data(0xe2)));
    assert_eq!(state, RequestState::Validating(id(2), data(0xe2)));
    assert_eq!(action, Action::Proceed);

    let (state, action) = step(state, Event::Proceeded);
    assert!(matches!(state, RequestState::Assembling(_)));
    assert_eq!(action, Action::Proceed);
    assert!(!state.ended());

    let (state, action) = step(state, Event::Proceeded);
    assert_eq!(state, RequestState::Done);
    assert!(state.ended());
    assert_eq!(
        action,
        Action::Respond(TxDataResponse {
            ckp_epoch_id: 12,
            checkpoint_summary_bytes: vec![1, 2, 3],
            checkpoint_contents_bytes: vec![4, 5],
            transaction_bytes: vec![7, 8, 9, 10],
        })
    );
}

#[test]
fn malformed_identifier_fails_the_request() {
    let request = TxDataRequest::new(String::from("0x1234"));
    let (state, action) = step(RequestState::Idle, Event::Submitted(request));
    assert_eq!(state, RequestState::Failed(Failure::InvalidInput));
    assert_eq!(action, Action::Reject(Failure::InvalidInput));
    assert!(state.ended());
}

#[test]
fn unresolved_transaction_is_not_found() {
    let (state, _) = step(RequestState::Idle, Event::Submitted(request_for(2)));
    let (state, action) = step(state, Event::Resolved(None));
    assert_eq!(state, RequestState::Failed(Failure::NotFound));
    assert_eq!(action, Action::Reject(Failure::NotFound));
}

#[test]
fn resolver_failure_passes_through() {
    for failure in [Failure::Unavailable, Failure::NotFound] {
        let (state, _) = step(RequestState::Idle, Event::Submitted(request_for(2)));
        let (state, action) = step(state, Event::ResolveFailed(failure));
        assert_eq!(state, RequestState::Failed(failure));
        assert_eq!(action, Action::Reject(failure));
    }
}

#[test]
fn fetch_failure_passes_through() {
    for failure in [Failure::Unavailable, Failure::NotFound] {
        let (state, action) = step(fetching(2), Event::FetchFailed(failure));
        assert_eq!(state, RequestState::Failed(failure));
        assert_eq!(action, Action::Reject(failure));
    }
}

#[test]
fn validation_failure_ends_the_request() {
    let (state, _) = step(fetching(2), Event::Fetched(data(0xee)));
    let (state, action) = step(state, Event::Proceeded);
    assert_eq!(state, RequestState::Failed(Failure::IntegrityMismatch));
    assert_eq!(action, Action::Reject(Failure::IntegrityMismatch));

    let (state, _) = step(fetching(3), Event::Fetched(data(0xe2)));
    let (state, action) = step(state, Event::Proceeded);
    assert_eq!(state, RequestState::Failed(Failure::NotFound));
    assert_eq!(action, Action::Reject(Failure::NotFound));
}

#[test]
fn ended_request_ignores_every_event() {
    let events = [
        Event::Submitted(request_for(1)),
        Event::Resolved(Some(1)),
        Event::Resolved(None),
        Event::ResolveFailed(Failure::Unavailable),
        Event::Fetched(data(0xe2)),
        Event::FetchFailed(Failure::Unavailable),
        Event::Proceeded,
    ];
    for ended in [RequestState::Done, RequestState::Failed(Failure::NotFound)] {
        for event in events.iter() {
            let (state, action) = step(ended.clone(), event.clone());
            assert_eq!(state, ended);
            assert_eq!(action, Action::Ignore);
        }
    }
}

#[test]
fn event_out_of_turn_is_ignored() {
    let (state, action) = step(RequestState::Idle, Event::Resolved(Some(4)));
    assert_eq!(state, RequestState::Idle);
    assert_eq!(action, Action::Ignore);

    let (state, action) = step(RequestState::Resolving(id(2)), Event::Fetched(data(0xe2)));
    assert_eq!(state, RequestState::Resolving(id(2)));
    assert_eq!(action, Action::Ignore);

    let (state, action) = step(fetching(2), Event::Proceeded);
    assert_eq!(state, RequestState::Fetching(id(2), 345));
    assert_eq!(action, Action::Ignore);

    let (state, _) = step(fetching(2), Event::Fetched(data(0xe2)));
    let (state, action) = step(state, Event::FetchFailed(Failure::Unavailable));
    assert_eq!(state, RequestState::Validating(id(2), data(0xe2)));
    assert_eq!(action, Action::Ignore);
}
