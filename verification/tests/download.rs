use sui_checkpoint::checkpoint_handler::{
    chunk_past_object_requests, collect_object_changes, fetch_changed_objects, get_object_changes,
    CheckpointHandler, CHECKPOINT_POLL_INTERVAL_MS, MULTI_GET_CHUNK_SIZE,
};
use sui_checkpoint::chunking::split_chunks;
use sui_checkpoint::correlation::{chunk_lengths, settle};
use sui_checkpoint::fault::{DownloadError, Fault, FetchStage};
use sui_checkpoint::protocol::{Action, Event, Stage};
use sui_checkpoint::types::{
    Checkpoint, CheckpointData, CheckpointTransactionBlockResponse, ObjectDigest, ObjectID, ObjectStatus,
    OwnedObjectRef, Owner, PastObjectError, SequenceNumber, SuiGetPastObjectRequest, SuiObjectData,
    SuiObjectDataOptions, SuiObjectRef, SuiPastObjectResponse, SuiTransactionBlockEffects,
    TransactionDigest,
};

fn id(n: u8) -> ObjectID {
    ObjectID { bytes: [n; 32] }
}

fn version(n: u64) -> SequenceNumber {
    SequenceNumber { value: n }
}

fn digest(n: u32) -> TransactionDigest {
    let mut bytes = [0u8; 32];
    bytes[..4].copy_from_slice(&n.to_be_bytes());
    TransactionDigest { bytes }
}

fn owned(n: u8, v: u64) -> OwnedObjectRef {
    OwnedObjectRef {
        owner: Owner::Immutable,
        reference: SuiObjectRef { object_id: id(n), version: version(v), digest: ObjectDigest { bytes: [n; 32] } },
    }
}

fn snapshot(n: u8, v: u64, payload: &[u8]) -> SuiObjectData {
    SuiObjectData {
        object_id: id(n),
        version: version(v),
        digest: ObjectDigest { bytes: [n; 32] },
        payload: payload.to_vec(),
    }
}

fn transaction(n: u32, created: Vec<OwnedObjectRef>, mutated: Vec<OwnedObjectRef>) -> CheckpointTransactionBlockResponse {
    CheckpointTransactionBlockResponse {
        digest: digest(n),
        effects: SuiTransactionBlockEffects { created, mutated, unwrapped: vec![] },
    }
}

fn checkpoint(seq: u64, transactions: u32) -> Checkpoint {
    Checkpoint { sequence_number: seq, transactions: (1..=transactions).map(digest).collect() }
}

/// Answers each chunk of digests with one transaction without effects for each digest.
fn plain_transactions(chunks: &[Vec<TransactionDigest>]) -> Vec<Result<Vec<CheckpointTransactionBlockResponse>, String>> {
    chunks
        .iter()
        .map(|chunk| {
            Ok(chunk
                .iter()
                .map(|d| CheckpointTransactionBlockResponse {
                    digest: *d,
                    effects: SuiTransactionBlockEffects { created: vec![], mutated: vec![], unwrapped: vec![] },
                })
                .collect())
        })
        .collect()
}

/// Answers each chunk of requests with the object asked for, its payload the version's low byte.
fn found_objects(chunks: &[Vec<SuiGetPastObjectRequest>]) -> Vec<Result<Vec<SuiPastObjectResponse>, String>> {
    chunks
        .iter()
        .map(|chunk| {
            Ok(chunk
                .iter()
                .map(|r| {
                    SuiPastObjectResponse::VersionFound(SuiObjectData {
                        object_id: r.object_id,
                        version: r.version,
                        digest: ObjectDigest { bytes: [0; 32] },
                        payload: vec![r.version.value as u8],
                    })
                })
                .collect())
        })
        .collect()
}

fn sizes<T>(chunks: &[Vec<T>]) -> Vec<usize> {
    chunks.iter().map(|c| c.len()).collect()
}

#[test]
fn constants_are_the_documented_defaults() {
    assert_eq!(MULTI_GET_CHUNK_SIZE, 50);
    assert_eq!(CHECKPOINT_POLL_INTERVAL_MS, 100);
}

#[test]
fn available_checkpoint_is_fetched_without_sleep_or_retry() {
    let mut handler = CheckpointHandler::new();
    assert_eq!(handler.stage, Stage::Idle);
    let mut actions = Vec::new();
    let first = handler.download_checkpoint_data(Event::Requested { seq: 7 });
    assert_eq!(first, Action::FetchCheckpoint { seq: 7 });
    actions.push(first.clone());
    let second = handler.download_checkpoint_data(Event::CheckpointFetched(Ok(checkpoint(7, 3))));
    let chunks = match &second {
        Action::FetchTransactions { chunks } => chunks.clone(),
        other => panic!("unexpected action {:?}", other),
    };
    assert_eq!(chunks, vec![vec![digest(1), digest(2), digest(3)]]);
    actions.push(second);
    let third = handler.download_checkpoint_data(Event::TransactionsFetched(plain_transactions(&chunks)));
    assert_eq!(
        third,
        Action::FetchObjects { chunks: vec![], options: SuiObjectDataOptions::bcs_lossless() }
    );
    actions.push(third);
    let last = handler.download_checkpoint_data(Event::ObjectsFetched(vec![]));
    match &last {
        Action::Finished(data) => {
            assert_eq!(data.checkpoint.sequence_number, 7);
            assert_eq!(data.checkpoint, checkpoint(7, 3));
            assert_eq!(data.transactions.len(), 3);
            assert!(data.changed_objects.is_empty());
        }
        other => panic!("unexpected action {:?}", other),
    }
    actions.push(last);
    assert!(actions.iter().all(|a| !matches!(a, Action::Sleep { .. })));
    assert_eq!(actions.iter().filter(|a| matches!(a, Action::FetchCheckpoint { .. })).count(), 1);
    assert_eq!(handler.stage, Stage::Idle);
}

#[test]
fn checkpoint_is_polled_until_it_is_there() {
    let failures = 4;
    let mut handler = CheckpointHandler::new();
    let mut actions = vec![handler.download_checkpoint_data(Event::Requested { seq: 11 })];
    for attempt in 0..failures {
        let wait = handler.download_checkpoint_data(Event::CheckpointFetched(Err(format!("not yet {}", attempt))));
        assert_eq!(wait, Action::Sleep { millis: 100 });
        assert_eq!(
            handler.stage,
            Stage::Polling { seq: 11, last_failure: Some(format!("not yet {}", attempt)), asleep: true }
        );
        actions.push(wait);
        let again = handler.download_checkpoint_data(Event::Slept);
        assert_eq!(again, Action::FetchCheckpoint { seq: 11 });
        actions.push(again);
    }
    let go_on = handler.download_checkpoint_data(Event::CheckpointFetched(Ok(checkpoint(11, 1))));
    assert_eq!(go_on, Action::FetchTransactions { chunks: vec![vec![digest(1)]] });
    assert_eq!(actions.iter().filter(|a| matches!(a, Action::FetchCheckpoint { seq: 11 })).count(), failures + 1);
    assert_eq!(actions.iter().filter(|a| matches!(a, Action::Sleep { millis: 100 })).count(), failures);
    assert_eq!(handler.stage, Stage::AwaitingTransactions { seq: 11, checkpoint: checkpoint(11, 1) });
}

#[test]
fn hundred_and_twenty_digests_go_out_in_three_chunks() {
    let mut handler = CheckpointHandler::new();
    handler.download_checkpoint_data(Event::Requested { seq: 3 });
    let action = handler.download_checkpoint_data(Event::CheckpointFetched(Ok(checkpoint(3, 120))));
    let chunks = match action {
        Action::FetchTransactions { chunks } => chunks,
        other => panic!("unexpected action {:?}", other),
    };
    assert_eq!(sizes(&chunks), vec![50, 50, 20]);
    assert_eq!(chunks.concat(), (1..=120).map(digest).collect::<Vec<_>>());
    handler.download_checkpoint_data(Event::TransactionsFetched(plain_transactions(&chunks)));
    match handler.download_checkpoint_data(Event::ObjectsFetched(vec![])) {
        Action::Finished(data) => {
            let digests: Vec<TransactionDigest> = data.transactions.iter().map(|t| t.digest).collect();
            assert_eq!(digests, (1..=120).map(digest).collect::<Vec<_>>());
            assert_eq!(digests, data.checkpoint.transactions);
        }
        other => panic!("unexpected action {:?}", other),
    }
}

#[test]
fn changes_come_created_then_mutated_then_unwrapped() {
    let effects = SuiTransactionBlockEffects {
        created: vec![owned(1, 10), owned(2, 20)],
        mutated: vec![owned(3, 30)],
        unwrapped: vec![owned(4, 40), owned(5, 50), owned(6, 60)],
    };
    assert_eq!(
        get_object_changes(&effects),
        vec![
            (id(1), version(10), ObjectStatus::Created),
            (id(2), version(20), ObjectStatus::Created),
            (id(3), version(30), ObjectStatus::Mutated),
            (id(4), version(40), ObjectStatus::Unwrapped),
            (id(5), version(50), ObjectStatus::Unwrapped),
            (id(6), version(60), ObjectStatus::Unwrapped),
        ]
    );
}

#[test]
fn effects_without_changes_give_no_change() {
    let effects = SuiTransactionBlockEffects { created: vec![], mutated: vec![], unwrapped: vec![] };
    assert_eq!(get_object_changes(&effects), vec![]);
}

#[test]
fn changes_of_all_transactions_follow_the_transactions() {
    let transactions = vec![
        transaction(1, vec![owned(1, 1)], vec![owned(2, 2)]),
        transaction(2, vec![], vec![]),
        transaction(3, vec![owned(3, 3)], vec![]),
    ];
    assert_eq!(
        collect_object_changes(&transactions),
        vec![
            (id(1), version(1), ObjectStatus::Created),
            (id(2), version(2), ObjectStatus::Mutated),
            (id(3), version(3), ObjectStatus::Created),
        ]
    );
}

#[test]
fn short_object_response_fails_the_download() {
    let mut handler = CheckpointHandler::new();
    handler.download_checkpoint_data(Event::Requested { seq: 5 });
    handler.download_checkpoint_data(Event::CheckpointFetched(Ok(checkpoint(5, 1))));
    let created: Vec<OwnedObjectRef> = (0..60).map(|n| owned(n, n as u64)).collect();
    let action = handler
        .download_checkpoint_data(Event::TransactionsFetched(vec![Ok(vec![transaction(1, created, vec![])])]));
    let chunks = match action {
        Action::FetchObjects { chunks, options } => {
            assert_eq!(options, SuiObjectDataOptions::bcs_lossless());
            chunks
        }
        other => panic!("unexpected action {:?}", other),
    };
    assert_eq!(sizes(&chunks), vec![50, 10]);
    let mut responses = found_objects(&chunks);
    responses[1].as_mut().unwrap().pop();
    let action = handler.download_checkpoint_data(Event::ObjectsFetched(responses));
    assert_eq!(
        action,
        Action::Failed(DownloadError {
            seq: 5,
            stage: FetchStage::ChangedObjects,
            fault: Fault::Correlation { chunk: 1, expected: 10, received: 9 },
        })
    );
    assert_eq!(handler.stage, Stage::Idle);
}

#[test]
fn kinds_pair_with_objects_by_position() {
    let changes = vec![(id(0xA), version(1), ObjectStatus::Created), (id(0xB), version(2), ObjectStatus::Mutated)];
    // The objects come back under other addresses: the place pairs them, not the address.
    let snap_a = snapshot(0xB, 9, b"first");
    let snap_b = snapshot(0xA, 8, b"second");
    let responses = vec![Ok(vec![
        SuiPastObjectResponse::VersionFound(snap_a.clone()),
        SuiPastObjectResponse::VersionFound(snap_b.clone()),
    ])];
    assert_eq!(
        fetch_changed_objects(changes, responses),
        Ok(vec![(ObjectStatus::Created, snap_a), (ObjectStatus::Mutated, snap_b)])
    );
}

#[test]
fn full_download_assembles_the_record() {
    let mut handler = CheckpointHandler::new();
    handler.download_checkpoint_data(Event::Requested { seq: 9 });
    handler.download_checkpoint_data(Event::CheckpointFetched(Ok(checkpoint(9, 2))));
    let transactions = vec![
        transaction(1, vec![owned(1, 5)], vec![owned(2, 6)]),
        transaction(2, vec![], vec![owned(3, 7)]),
    ];
    let action = handler.download_checkpoint_data(Event::TransactionsFetched(vec![Ok(transactions.clone())]));
    let chunks = match action {
        Action::FetchObjects { chunks, .. } => chunks,
        other => panic!("unexpected action {:?}", other),
    };
    assert_eq!(
        chunks,
        vec![vec![
            SuiGetPastObjectRequest { object_id: id(1), version: version(5) },
            SuiGetPastObjectRequest { object_id: id(2), version: version(6) },
            SuiGetPastObjectRequest { object_id: id(3), version: version(7) },
        ]]
    );
    assert_eq!(
        handler.stage,
        Stage::AwaitingObjects { seq: 9, checkpoint: checkpoint(9, 2), transactions: transactions.clone() }
    );
    let action = handler.download_checkpoint_data(Event::ObjectsFetched(found_objects(&chunks)));
    let object = |n: u8, v: u64| SuiObjectData {
        object_id: id(n),
        version: version(v),
        digest: ObjectDigest { bytes: [0; 32] },
        payload: vec![v as u8],
    };
    assert_eq!(
        action,
        Action::Finished(CheckpointData {
            checkpoint: checkpoint(9, 2),
            transactions,
            changed_objects: vec![
                (ObjectStatus::Created, object(1, 5)),
                (ObjectStatus::Mutated, object(2, 6)),
                (ObjectStatus::Mutated, object(3, 7)),
            ],
        })
    );
    assert_eq!(handler.stage, Stage::Idle);
}

#[test]
fn handler_downloads_one_checkpoint_after_another() {
    let mut handler = CheckpointHandler::new();
    for seq in [1u64, 2, 3] {
        assert_eq!(handler.download_checkpoint_data(Event::Requested { seq }), Action::FetchCheckpoint { seq });
        handler.download_checkpoint_data(Event::CheckpointFetched(Ok(checkpoint(seq, 0))));
        handler.download_checkpoint_data(Event::TransactionsFetched(vec![]));
        match handler.download_checkpoint_data(Event::ObjectsFetched(vec![])) {
            Action::Finished(data) => assert_eq!(data.checkpoint.sequence_number, seq),
            other => panic!("unexpected action {:?}", other),
        }
    }
}

#[test]
fn empty_checkpoint_gives_an_empty_record() {
    let mut handler = CheckpointHandler::new();
    handler.download_checkpoint_data(Event::Requested { seq: 0 });
    assert_eq!(
        handler.download_checkpoint_data(Event::CheckpointFetched(Ok(checkpoint(0, 0)))),
        Action::FetchTransactions { chunks: vec![] }
    );
    assert_eq!(
        handler.download_checkpoint_data(Event::TransactionsFetched(vec![])),
        Action::FetchObjects { chunks: vec![], options: SuiObjectDataOptions::bcs_lossless() }
    );
    assert_eq!(
        handler.download_checkpoint_data(Event::ObjectsFetched(vec![])),
        Action::Finished(CheckpointData { checkpoint: checkpoint(0, 0), transactions: vec![], changed_objects: vec![] })
    );
}

#[test]
fn cancelled_polling_reports_the_last_failure() {
    let mut handler = CheckpointHandler::new();
    handler.download_checkpoint_data(Event::Requested { seq: 21 });
    handler.download_checkpoint_data(Event::CheckpointFetched(Err("first".to_string())));
    handler.download_checkpoint_data(Event::Slept);
    handler.download_checkpoint_data(Event::CheckpointFetched(Err("second".to_string())));
    assert_eq!(
        handler.download_checkpoint_data(Event::Cancelled),
        Action::Failed(DownloadError {
            seq: 21,
            stage: FetchStage::Checkpoint,
            fault: Fault::Cancelled { last_failure: Some("second".to_string()) },
        })
    );
    assert_eq!(handler.stage, Stage::Idle);
}

#[test]
fn cancelled_before_any_failure_reports_none() {
    let mut handler = CheckpointHandler::new();
    handler.download_checkpoint_data(Event::Requested { seq: 21 });
    assert_eq!(
        handler.download_checkpoint_data(Event::Cancelled),
        Action::Failed(DownloadError {
            seq: 21,
            stage: FetchStage::Checkpoint,
            fault: Fault::Cancelled { last_failure: None },
        })
    );
}

#[test]
fn cancelled_fetches_fail_at_their_stage() {
    let mut handler = CheckpointHandler::new();
    handler.download_checkpoint_data(Event::Requested { seq: 2 });
    handler.download_checkpoint_data(Event::CheckpointFetched(Ok(checkpoint(2, 1))));
    assert_eq!(
        handler.download_checkpoint_data(Event::Cancelled),
        Action::Failed(DownloadError {
            seq: 2,
            stage: FetchStage::Transactions,
            fault: Fault::Cancelled { last_failure: None },
        })
    );
    handler.download_checkpoint_data(Event::Requested { seq: 2 });
    let action = handler.download_checkpoint_data(Event::CheckpointFetched(Ok(checkpoint(2, 1))));
    let chunks = match action {
        Action::FetchTransactions { chunks } => chunks,
        other => panic!("unexpected action {:?}", other),
    };
    handler.download_checkpoint_data(Event::TransactionsFetched(plain_transactions(&chunks)));
    assert_eq!(
        handler.download_checkpoint_data(Event::Cancelled),
        Action::Failed(DownloadError {
            seq: 2,
            stage: FetchStage::ChangedObjects,
            fault: Fault::Cancelled { last_failure: None },
        })
    );
    assert_eq!(handler.stage, Stage::Idle);
}

#[test]
fn failed_transaction_chunk_fails_the_download() {
    let mut handler = CheckpointHandler::new();
    handler.download_checkpoint_data(Event::Requested { seq: 4 });
    let action = handler.download_checkpoint_data(Event::CheckpointFetched(Ok(checkpoint(4, 120))));
    let chunks = match action {
        Action::FetchTransactions { chunks } => chunks,
        other => panic!("unexpected action {:?}", other),
    };
    let mut responses = plain_transactions(&chunks);
    responses[1] = Err("connection reset".to_string());
    responses[2] = Err("later".to_string());
    assert_eq!(
        handler.download_checkpoint_data(Event::TransactionsFetched(responses)),
        Action::Failed(DownloadError {
            seq: 4,
            stage: FetchStage::Transactions,
            fault: Fault::Remote { chunk: 1, reason: "connection reset".to_string() },
        })
    );
    assert_eq!(handler.stage, Stage::Idle);
}

#[test]
fn miscounted_transaction_chunk_fails_the_download() {
    let mut handler = CheckpointHandler::new();
    handler.download_checkpoint_data(Event::Requested { seq: 4 });
    let action = handler.download_checkpoint_data(Event::CheckpointFetched(Ok(checkpoint(4, 60))));
    let chunks = match action {
        Action::FetchTransactions { chunks } => chunks,
        other => panic!("unexpected action {:?}", other),
    };
    let mut responses = plain_transactions(&chunks);
    responses[0].as_mut().unwrap().push(transaction(999, vec![], vec![]));
    assert_eq!(
        handler.download_checkpoint_data(Event::TransactionsFetched(responses)),
        Action::Failed(DownloadError {
            seq: 4,
            stage: FetchStage::Transactions,
            fault: Fault::Correlation { chunk: 0, expected: 50, received: 51 },
        })
    );
}

#[test]
fn wrong_number_of_responses_fails_the_download() {
    let mut handler = CheckpointHandler::new();
    handler.download_checkpoint_data(Event::Requested { seq: 4 });
    handler.download_checkpoint_data(Event::CheckpointFetched(Ok(checkpoint(4, 60))));
    assert_eq!(
        handler.download_checkpoint_data(Event::TransactionsFetched(vec![Err("only one".to_string())])),
        Action::Failed(DownloadError {
            seq: 4,
            stage: FetchStage::Transactions,
            fault: Fault::ChunkCount { expected: 2, received: 1 },
        })
    );
}

#[test]
fn unresolved_object_fails_the_fetch() {
    let changes: Vec<_> = (0..3).map(|n| (id(n), version(n as u64), ObjectStatus::Mutated)).collect();
    let deleted = SuiObjectRef { object_id: id(1), version: version(1), digest: ObjectDigest { bytes: [9; 32] } };
    let cases = vec![
        (SuiPastObjectResponse::ObjectNotExists(id(1)), PastObjectError::ObjectNotExists(id(1))),
        (SuiPastObjectResponse::ObjectDeleted(deleted), PastObjectError::ObjectDeleted(deleted)),
        (
            SuiPastObjectResponse::VersionNotFound(id(1), version(1)),
            PastObjectError::VersionNotFound(id(1), version(1)),
        ),
        (
            SuiPastObjectResponse::VersionTooHigh {
                object_id: id(1),
                asked_version: version(1),
                latest_version: version(0),
            },
            PastObjectError::VersionTooHigh {
                object_id: id(1),
                asked_version: version(1),
                latest_version: version(0),
            },
        ),
    ];
    for (answer, error) in cases {
        let responses = vec![Ok(vec![
            SuiPastObjectResponse::VersionFound(snapshot(0, 0, b"")),
            answer,
            SuiPastObjectResponse::ObjectNotExists(id(2)),
        ])];
        assert_eq!(
            fetch_changed_objects(changes.clone(), responses),
            Err(Fault::Unresolved { chunk: 0, index: 1, error })
        );
    }
}

#[test]
fn unresolved_answer_comes_before_a_wrong_count() {
    let changes = vec![(id(0), version(0), ObjectStatus::Created), (id(1), version(1), ObjectStatus::Created)];
    let responses = vec![Ok(vec![SuiPastObjectResponse::ObjectNotExists(id(0))])];
    assert_eq!(
        fetch_changed_objects(changes, responses),
        Err(Fault::Unresolved { chunk: 0, index: 0, error: PastObjectError::ObjectNotExists(id(0)) })
    );
}

#[test]
fn first_faulty_chunk_is_reported() {
    let changes: Vec<_> = (0..120).map(|n| (id(n as u8), version(n), ObjectStatus::Created)).collect();
    let chunks = chunk_past_object_requests(&changes);
    assert_eq!(sizes(&chunks), vec![50, 50, 20]);
    let mut responses = found_objects(&chunks);
    responses[2] = Err("gone".to_string());
    responses[1].as_mut().unwrap()[7] = SuiPastObjectResponse::VersionNotFound(id(57), version(57));
    assert_eq!(
        fetch_changed_objects(changes.clone(), responses),
        Err(Fault::Unresolved {
            chunk: 1,
            index: 7,
            error: PastObjectError::VersionNotFound(id(57), version(57)),
        })
    );
    let mut responses = found_objects(&chunks);
    responses[2] = Err("gone".to_string());
    assert_eq!(
        fetch_changed_objects(changes, responses),
        Err(Fault::Remote { chunk: 2, reason: "gone".to_string() })
    );
}

#[test]
fn objects_of_many_chunks_keep_their_order() {
    let changes: Vec<_> = (0..120u64)
        .map(|n| (id(n as u8), version(n), if n % 2 == 0 { ObjectStatus::Created } else { ObjectStatus::Unwrapped }))
        .collect();
    let chunks = chunk_past_object_requests(&changes);
    let pairs = fetch_changed_objects(changes.clone(), found_objects(&chunks)).unwrap();
    assert_eq!(pairs.len(), 120);
    for (n, (status, object)) in pairs.iter().enumerate() {
        assert_eq!(*status, changes[n].2);
        assert_eq!(object.object_id, changes[n].0);
        assert_eq!(object.version, changes[n].1);
    }
}

#[test]
fn events_that_answer_nothing_are_ignored() {
    let mut handler = CheckpointHandler::new();
    for event in [Event::Slept, Event::Cancelled, Event::ObjectsFetched(vec![]), Event::TransactionsFetched(vec![])] {
        assert_eq!(handler.download_checkpoint_data(event), Action::Ignored);
        assert_eq!(handler.stage, Stage::Idle);
    }
    assert_eq!(
        handler.download_checkpoint_data(Event::CheckpointFetched(Ok(checkpoint(1, 1)))),
        Action::Ignored
    );
    handler.download_checkpoint_data(Event::Requested { seq: 1 });
    let polling = Stage::Polling { seq: 1, last_failure: None, asleep: false };
    assert_eq!(handler.download_checkpoint_data(Event::Slept), Action::Ignored);
    assert_eq!(handler.stage, polling);
    assert_eq!(handler.download_checkpoint_data(Event::Requested { seq: 2 }), Action::Ignored);
    assert_eq!(handler.stage, polling);
    handler.download_checkpoint_data(Event::CheckpointFetched(Err("no".to_string())));
    let asleep = Stage::Polling { seq: 1, last_failure: Some("no".to_string()), asleep: true };
    assert_eq!(
        handler.download_checkpoint_data(Event::CheckpointFetched(Ok(checkpoint(1, 1)))),
        Action::Ignored
    );
    assert_eq!(handler.stage, asleep);
    handler.download_checkpoint_data(Event::Slept);
    handler.download_checkpoint_data(Event::CheckpointFetched(Ok(checkpoint(1, 1))));
    let waiting = Stage::AwaitingTransactions { seq: 1, checkpoint: checkpoint(1, 1) };
    assert_eq!(handler.download_checkpoint_data(Event::ObjectsFetched(vec![])), Action::Ignored);
    assert_eq!(handler.stage, waiting);
    handler.download_checkpoint_data(Event::TransactionsFetched(vec![Ok(vec![transaction(1, vec![], vec![])])]));
    assert_eq!(handler.download_checkpoint_data(Event::TransactionsFetched(vec![])), Action::Ignored);
    assert!(matches!(handler.stage, Stage::AwaitingObjects { seq: 1, .. }));
}

#[test]
fn chunks_hold_fifty_items_and_the_rest() {
    for (total, expected) in [
        (0usize, vec![]),
        (1, vec![1]),
        (49, vec![49]),
        (50, vec![50]),
        (51, vec![50, 1]),
        (100, vec![50, 50]),
        (120, vec![50, 50, 20]),
    ] {
        let items: Vec<usize> = (0..total).collect();
        let chunks = split_chunks(&items, MULTI_GET_CHUNK_SIZE);
        assert_eq!(sizes(&chunks), expected);
        assert_eq!(chunks.concat(), items);
        assert_eq!(chunk_lengths(total, MULTI_GET_CHUNK_SIZE), expected);
    }
    assert_eq!(split_chunks(&vec![1, 2, 3, 4, 5], 2), vec![vec![1, 2], vec![3, 4], vec![5]]);
    assert_eq!(chunk_lengths(5, 2), vec![2, 2, 1]);
}

#[test]
fn outcomes_settle_in_the_order_of_the_chunks() {
    let outcomes: Vec<Result<Vec<Checkpoint>, Fault>> =
        vec![Ok(vec![checkpoint(1, 0), checkpoint(2, 0)]), Ok(vec![checkpoint(3, 0)])];
    assert_eq!(settle(3, 2, outcomes), Ok(vec![checkpoint(1, 0), checkpoint(2, 0), checkpoint(3, 0)]));
    let outcomes: Vec<Result<Vec<Checkpoint>, Fault>> = vec![Ok(vec![checkpoint(1, 0)]), Ok(vec![checkpoint(3, 0)])];
    assert_eq!(settle(3, 2, outcomes), Err(Fault::Correlation { chunk: 0, expected: 2, received: 1 }));
    let outcomes: Vec<Result<Vec<Checkpoint>, Fault>> = vec![];
    assert_eq!(settle(3, 2, outcomes), Err(Fault::ChunkCount { expected: 2, received: 0 }));
    let outcomes: Vec<Result<Vec<Checkpoint>, Fault>> = vec![];
    assert_eq!(settle(0, 2, outcomes), Ok(vec![]));
}

#[test]
fn lossless_options_ask_for_raw_contents() {
    let options = SuiObjectDataOptions::bcs_lossless();
    assert!(options.show_bcs && options.show_type && options.show_owner);
    assert!(options.show_previous_transaction && options.show_storage_rebate);
    assert!(!options.show_content && !options.show_display);
}

#[test]
fn answers_hand_out_their_object_or_the_reason() {
    assert_eq!(SuiPastObjectResponse::VersionFound(snapshot(1, 2, b"x")).into_object(), Ok(snapshot(1, 2, b"x")));
    assert_eq!(
        SuiPastObjectResponse::ObjectNotExists(id(3)).into_object(),
        Err(PastObjectError::ObjectNotExists(id(3)))
    );
    assert_eq!(version(17).value(), 17);
}
