//! From a sequence number to the checkpoint's full record.
use vstd::prelude::*;
use crate::chunking::{chunks, split_chunks};
use crate::correlation::{lemma_outcomes_view_push, outcome_view, outcomes_view, settle, settled};
use crate::laws::law_record_is_consistent;
use crate::fault::{DownloadError, DownloadErrorView, Fault, FaultView, FetchStage};
use crate::protocol::{responses_view, Action, ActionView, Event, EventView, Stage, StageView};
use crate::types::{
    changed_objects_view, views, CheckpointData, CheckpointDataView, CheckpointTransactionBlockResponse,
    CheckpointTransactionBlockResponseView, ObjectChange, ObjectStatus, OwnedObjectRef, SuiGetPastObjectRequest,
    SuiObjectData, SuiObjectDataOptions, SuiObjectDataView, SuiPastObjectResponse, SuiPastObjectResponseView,
    SuiTransactionBlockEffects, SuiTransactionBlockEffectsView,
};

verus! {

/// How many items one request to the remote service may carry.
pub const MULTI_GET_CHUNK_SIZE: usize = 50;

/// How long to wait, in milliseconds, before asking again for a checkpoint that is not there yet.
pub const CHECKPOINT_POLL_INTERVAL_MS: u64 = 100;

/// One change of the given kind for each reference, in order.
pub open spec fn tagged(refs: Seq<OwnedObjectRef>, status: ObjectStatus) -> Seq<ObjectChange> {
    Seq::new(
        refs.len(),
        |i: int| (refs[i].reference.object_id, refs[i].reference.version, status),
    )
}

/// The changes that a transaction's effects record: the objects it created,
/// then those it mutated, then those it unwrapped.
pub open spec fn object_changes(effects: SuiTransactionBlockEffectsView) -> Seq<ObjectChange> {
    tagged(effects.created, ObjectStatus::Created) + tagged(effects.mutated, ObjectStatus::Mutated)
        + tagged(effects.unwrapped, ObjectStatus::Unwrapped)
}

/// The changes of all the transactions, in the transactions' order.
pub open spec fn all_object_changes(transactions: Seq<CheckpointTransactionBlockResponseView>) -> Seq<
    ObjectChange,
> {
    transactions.map_values(|t: CheckpointTransactionBlockResponseView| object_changes(t.effects)).flatten()
}

/// The request that fetches what a change left behind.
pub open spec fn request_of(change: ObjectChange) -> SuiGetPastObjectRequest {
    SuiGetPastObjectRequest { object_id: change.0, version: change.1 }
}

/// The requests for a list of changes, one for each, in chunks of `size`.
pub open spec fn past_object_requests(changes: Seq<ObjectChange>, size: nat) -> Seq<
    Seq<SuiGetPastObjectRequest>,
> {
    chunks(changes.map_values(|c: ObjectChange| request_of(c)), size)
}

fn push_tagged(changes: &mut Vec<ObjectChange>, refs: &Vec<OwnedObjectRef>, status: ObjectStatus)
    ensures
        final(changes)@ == old(changes)@ + tagged(refs@, status),
{
    let ghost before = changes@;
    let mut i: usize = 0;
    while i < refs.len()
        invariant
            i <= refs.len(),
            changes@ == before + tagged(refs@, status).take(i as int),
        decreases refs.len() - i,
    {
        let r = &refs[i];
        changes.push((r.reference.object_id, r.reference.version, status));
        i += 1;
    }
}

/// The objects that a transaction created, mutated or unwrapped, in that order
/// and within each kind in the order of the effects, each with the version it
/// was left at.
pub fn get_object_changes(effects: &SuiTransactionBlockEffects) -> (changes: Vec<ObjectChange>)
    ensures
        changes@ == object_changes(effects@),
{
    let mut changes: Vec<ObjectChange> = Vec::new();
    push_tagged(&mut changes, &effects.created, ObjectStatus::Created);
    push_tagged(&mut changes, &effects.mutated, ObjectStatus::Mutated);
    push_tagged(&mut changes, &effects.unwrapped, ObjectStatus::Unwrapped);
    changes
}

/// The changes of all the transactions of a checkpoint, in the transactions' order.
pub fn collect_object_changes(transactions: &Vec<CheckpointTransactionBlockResponse>) -> (changes: Vec<
    ObjectChange,
>)
    ensures
        changes@ == all_object_changes(views(transactions@)),
{
    let ghost per_tx = views(transactions@).map_values(
        |t: CheckpointTransactionBlockResponseView| object_changes(t.effects),
    );
    let mut changes: Vec<ObjectChange> = Vec::new();
    let mut i: usize = 0;
    while i < transactions.len()
        invariant
            i <= transactions.len(),
            per_tx == views(transactions@).map_values(
                |t: CheckpointTransactionBlockResponseView| object_changes(t.effects),
            ),
            changes@ == per_tx.take(i as int).flatten(),
        decreases transactions.len() - i,
    {
        let mut of_tx = get_object_changes(&transactions[i].effects);
        proof {
            assert(per_tx.take(i + 1) =~= per_tx.take(i as int).push(of_tx@));
            per_tx.take(i as int).lemma_flatten_push(of_tx@);
        }
        changes.append(&mut of_tx);
        i += 1;
    }
    assert(per_tx.take(i as int) =~= per_tx);
    changes
}

/// The requests that fetch what the changes left behind: one for each change,
/// in the changes' order, in chunks of `MULTI_GET_CHUNK_SIZE`.
pub fn chunk_past_object_requests(object_changes: &Vec<ObjectChange>) -> (requests: Vec<
    Vec<SuiGetPastObjectRequest>,
>)
    ensures
        views(requests@) == past_object_requests(object_changes@, MULTI_GET_CHUNK_SIZE as nat),
{
    let mut all: Vec<SuiGetPastObjectRequest> = Vec::new();
    let ghost wanted = object_changes@.map_values(|c: ObjectChange| request_of(c));
    let mut i: usize = 0;
    while i < object_changes.len()
        invariant
            i <= object_changes.len(),
            wanted == object_changes@.map_values(|c: ObjectChange| request_of(c)),
            all@ == wanted.take(i as int),
        decreases object_changes.len() - i,
    {
        let change = &object_changes[i];
        all.push(SuiGetPastObjectRequest { object_id: change.0, version: change.1 });
        i += 1;
    }
    assert(wanted.take(i as int) =~= wanted);
    split_chunks(&all, MULTI_GET_CHUNK_SIZE)
}

/// The outcome of each chunk of a fetch of transactions: what the remote
/// service handed out, or its failure as the fault of that chunk.
pub open spec fn transaction_outcomes(
    responses: Seq<Result<Seq<CheckpointTransactionBlockResponseView>, Seq<char>>>,
) -> Seq<Result<Seq<CheckpointTransactionBlockResponseView>, FaultView>> {
    Seq::new(
        responses.len(),
        |k: int|
            match responses[k] {
                Ok(items) => Ok(items),
                Err(reason) => Err(FaultView::Remote { chunk: k as nat, reason }),
            },
    )
}

/// The transactions of a checkpoint with `digests` transactions, from the
/// responses to the chunks of its digests: the responses one after the other,
/// or the first fault.
pub open spec fn fetched_transactions(
    digests: nat,
    responses: Seq<Result<Seq<CheckpointTransactionBlockResponseView>, Seq<char>>>,
    size: nat,
) -> Result<Seq<CheckpointTransactionBlockResponseView>, FaultView> {
    settled(digests, size, transaction_outcomes(responses))
}

/// The objects that the first `n` answers of chunk `chunk` hold, or the fault
/// of the first among them that holds none.
pub open spec fn resolved_upto(chunk: nat, items: Seq<SuiPastObjectResponseView>, n: nat) -> Result<
    Seq<SuiObjectDataView>,
    FaultView,
>
    decreases n,
{
    if n == 0 {
        Ok(Seq::empty())
    } else {
        match resolved_upto(chunk, items, (n - 1) as nat) {
            Err(fault) => Err(fault),
            Ok(objects) => match items[n - 1].object() {
                Ok(object) => Ok(objects.push(object)),
                Err(error) => Err(FaultView::Unresolved { chunk, index: (n - 1) as nat, error }),
            },
        }
    }
}

/// The outcome of each chunk of a fetch of objects: the objects that the
/// answers hold, or the fault of that chunk, where a failed request comes
/// before an answer without an object.
pub open spec fn object_outcomes(responses: Seq<Result<Seq<SuiPastObjectResponseView>, Seq<char>>>) -> Seq<
    Result<Seq<SuiObjectDataView>, FaultView>,
> {
    Seq::new(
        responses.len(),
        |k: int|
            match responses[k] {
                Ok(items) => resolved_upto(k as nat, items, items.len()),
                Err(reason) => Err(FaultView::Remote { chunk: k as nat, reason }),
            },
    )
}

/// Each change's kind with the object at the same place of the list.
pub open spec fn pair_up(changes: Seq<ObjectChange>, objects: Seq<SuiObjectDataView>) -> Seq<
    (ObjectStatus, SuiObjectDataView),
> {
    Seq::new(changes.len(), |i: int| (changes[i].2, objects[i]))
}

/// The changed objects of a checkpoint, from the responses to the chunks of
/// requests for its changes: each change's kind with the object that was
/// fetched for that place of the list, or the first fault.
pub open spec fn changed_objects(
    changes: Seq<ObjectChange>,
    responses: Seq<Result<Seq<SuiPastObjectResponseView>, Seq<char>>>,
    size: nat,
) -> Result<Seq<(ObjectStatus, SuiObjectDataView)>, FaultView> {
    match settled(changes.len(), size, object_outcomes(responses)) {
        Ok(objects) => Ok(pair_up(changes, objects)),
        Err(fault) => Err(fault),
    }
}

/// A list of changed objects or a fault, as the contracts see it.
pub open spec fn changed_objects_result_view(r: Result<Vec<(ObjectStatus, SuiObjectData)>, Fault>) -> Result<
    Seq<(ObjectStatus, SuiObjectDataView)>,
    FaultView,
> {
    match r {
        Ok(pairs) => Ok(changed_objects_view(pairs@)),
        Err(fault) => Err(fault@),
    }
}

fn assemble_transactions(
    digests: usize,
    responses: Vec<Result<Vec<CheckpointTransactionBlockResponse>, String>>,
) -> (r: Result<Vec<CheckpointTransactionBlockResponse>, Fault>)
    ensures
        outcome_view(r) == fetched_transactions(
            digests as nat,
            responses_view(responses@),
            MULTI_GET_CHUNK_SIZE as nat,
        ),
{
    let mut outcomes: Vec<Result<Vec<CheckpointTransactionBlockResponse>, Fault>> = Vec::new();
    let mut k: usize = 0;
    let ghost wanted = transaction_outcomes(responses_view(responses@));
    let count = responses.len();
    for response in it: responses
        invariant
            it.seq() == responses@,
            k == it.index(),
            count == responses@.len(),
            wanted == transaction_outcomes(responses_view(responses@)),
            outcomes_view(outcomes@) == wanted.take(k as int),
    {
        let outcome = match response {
            Ok(items) => Ok(items),
            Err(reason) => Err(Fault::Remote { chunk: k, reason }),
        };
        proof {
            lemma_outcomes_view_push(outcomes@, outcome);
        }
        outcomes.push(outcome);
        k += 1;
    }
    assert(wanted.take(k as int) =~= wanted);
    settle(digests, MULTI_GET_CHUNK_SIZE, outcomes)
}

fn resolve_chunk(chunk: usize, items: Vec<SuiPastObjectResponse>) -> (r: Result<Vec<SuiObjectData>, Fault>)
    ensures
        outcome_view(r) == resolved_upto(chunk as nat, views(items@), items@.len()),
{
    let mut objects: Vec<SuiObjectData> = Vec::new();
    let mut i: usize = 0;
    assert(views(objects@) =~= Seq::<SuiObjectDataView>::empty());
    let count = items.len();
    for item in it: items
        invariant
            it.seq() == items@,
            i == it.index(),
            count == items@.len(),
            resolved_upto(chunk as nat, views(items@), i as nat) == Ok::<Seq<SuiObjectDataView>, FaultView>(
                views(objects@),
            ),
    {
        match item.into_object() {
            Ok(object) => {
                assert(views(objects@.push(object)) =~= views(objects@).push(object@));
                objects.push(object);
            },
            Err(error) => {
                let fault = Fault::Unresolved { chunk, index: i, error };
                proof {
                    assert(resolved_upto(chunk as nat, views(items@), (i + 1) as nat) == Err::<
                        Seq<SuiObjectDataView>,
                        FaultView,
                    >(fault@));
                    lemma_unresolved_stays(chunk as nat, views(items@), (i + 1) as nat, items@.len());
                }
                return Err(fault);
            },
        }
        i += 1;
    }
    Ok(objects)
}

/// Once an answer holds no object, more answers do not change the fault.
proof fn lemma_unresolved_stays(chunk: nat, items: Seq<SuiPastObjectResponseView>, n: nat, m: nat)
    requires
        n <= m,
        resolved_upto(chunk, items, n) is Err,
    ensures
        resolved_upto(chunk, items, m) == resolved_upto(chunk, items, n),
    decreases m,
{
    if n < m {
        lemma_unresolved_stays(chunk, items, n, (m - 1) as nat);
    }
}

/// Pairs each change's kind with the object that the remote service handed out
/// for that place of the list of changes.
///
/// `responses` holds the outcome of the request for each chunk of
/// `chunk_past_object_requests(&object_changes)`, in the chunks' order. The
/// result is the first fault, if a request failed, an answer holds no object,
/// or a response does not hold one answer for each request of its chunk.
pub fn fetch_changed_objects(
    object_changes: Vec<ObjectChange>,
    responses: Vec<Result<Vec<SuiPastObjectResponse>, String>>,
) -> (r: Result<Vec<(ObjectStatus, SuiObjectData)>, Fault>)
    ensures
        changed_objects_result_view(r) == changed_objects(
            object_changes@,
            responses_view(responses@),
            MULTI_GET_CHUNK_SIZE as nat,
        ),
{
    let mut outcomes: Vec<Result<Vec<SuiObjectData>, Fault>> = Vec::new();
    let mut k: usize = 0;
    let ghost wanted = object_outcomes(responses_view(responses@));
    let count = responses.len();
    for response in it: responses
        invariant
            it.seq() == responses@,
            k == it.index(),
            count == responses@.len(),
            wanted == object_outcomes(responses_view(responses@)),
            outcomes_view(outcomes@) == wanted.take(k as int),
    {
        let outcome = match response {
            Ok(items) => resolve_chunk(k, items),
            Err(reason) => Err(Fault::Remote { chunk: k, reason }),
        };
        proof {
            lemma_outcomes_view_push(outcomes@, outcome);
        }
        outcomes.push(outcome);
        k += 1;
    }
    assert(wanted.take(k as int) =~= wanted);
    match settle(object_changes.len(), MULTI_GET_CHUNK_SIZE, outcomes) {
        Err(fault) => Err(fault),
        Ok(objects) => {
            proof {
                crate::correlation::lemma_settled_len(
                    object_changes@.len(),
                    MULTI_GET_CHUNK_SIZE as nat,
                    wanted,
                );
            }
            let ghost fetched = views(objects@);
            let mut pairs: Vec<(ObjectStatus, SuiObjectData)> = Vec::new();
            let mut i: usize = 0;
            let count = objects.len();
            for object in it: objects
                invariant
                    it.seq() == objects@,
                    i == it.index(),
                    count == objects@.len(),
                    objects@.len() == object_changes@.len(),
                    fetched == views(objects@),
                    changed_objects_view(pairs@) == pair_up(object_changes@, fetched).take(i as int),
            {
                let status = object_changes[i].2;
                proof {
                    assert(changed_objects_view(pairs@.push((status, object))) =~= changed_objects_view(
                        pairs@,
                    ).push((status, object@)));
                }
                pairs.push((status, object));
                i += 1;
            }
            assert(pair_up(object_changes@, fetched).take(i as int) =~= pair_up(
                object_changes@,
                fetched,
            ));
            Ok(pairs)
        },
    }
}

/// What a download that waits for its checkpoint does with an event.
///
/// A checkpoint that the remote service hands out ends the wait, and its
/// transactions are asked for. A failure to hand it out means that the
/// checkpoint is not there yet: the reason is kept, and the checkpoint is asked
/// for again after `CHECKPOINT_POLL_INTERVAL_MS`, without a limit on the number
/// of attempts. Only the caller ends the wait otherwise, and is then told the
/// reason of the last failure.
pub open spec fn poll(seq: u64, last_failure: Option<Seq<char>>, asleep: bool, event: EventView) -> (
    StageView,
    ActionView,
) {
    let unchanged = (StageView::Polling { seq, last_failure, asleep }, ActionView::Ignored);
    match event {
        EventView::CheckpointFetched(outcome) => if asleep {
            unchanged
        } else {
            match outcome {
                Ok(checkpoint) => (
                    StageView::AwaitingTransactions { seq, checkpoint },
                    ActionView::FetchTransactions {
                        chunks: chunks(checkpoint.transactions, MULTI_GET_CHUNK_SIZE as nat),
                    },
                ),
                Err(reason) => (
                    StageView::Polling { seq, last_failure: Some(reason), asleep: true },
                    ActionView::Sleep { millis: CHECKPOINT_POLL_INTERVAL_MS },
                ),
            }
        },
        EventView::Slept => if asleep {
            (StageView::Polling { seq, last_failure, asleep: false }, ActionView::FetchCheckpoint { seq })
        } else {
            unchanged
        },
        EventView::Cancelled => (
            StageView::Idle,
            ActionView::Failed(
                DownloadErrorView {
                    seq,
                    stage: FetchStage::Checkpoint,
                    fault: FaultView::Cancelled { last_failure },
                },
            ),
        ),
        _ => unchanged,
    }
}

/// What a download does with an event: where it stands afterwards, and what
/// the caller is to do next.
///
/// A request starts a download if none is under way. The checkpoint is waited
/// for as `poll` says. The responses to the chunks of digests give the
/// transactions, in the order of the digests, and the objects that those
/// changed are asked for, in the order of the changes. The responses to those
/// chunks give the changed objects, and with them the record. A fault at either
/// fetch ends the download without a record, and so does the caller's giving
/// up. An event that answers nothing that was asked changes nothing.
pub open spec fn step(stage: StageView, event: EventView) -> (StageView, ActionView) {
    match stage {
        StageView::Idle => match event {
            EventView::Requested { seq } => (
                StageView::Polling { seq, last_failure: None, asleep: false },
                ActionView::FetchCheckpoint { seq },
            ),
            _ => (stage, ActionView::Ignored),
        },
        StageView::Polling { seq, last_failure, asleep } => poll(seq, last_failure, asleep, event),
        StageView::AwaitingTransactions { seq, checkpoint } => match event {
            EventView::TransactionsFetched(responses) => match fetched_transactions(
                checkpoint.transactions.len(),
                responses,
                MULTI_GET_CHUNK_SIZE as nat,
            ) {
                Ok(transactions) => (
                    StageView::AwaitingObjects { seq, checkpoint, transactions },
                    ActionView::FetchObjects {
                        chunks: past_object_requests(
                            all_object_changes(transactions),
                            MULTI_GET_CHUNK_SIZE as nat,
                        ),
                        options: SuiObjectDataOptions::bcs_lossless(),
                    },
                ),
                Err(fault) => (
                    StageView::Idle,
                    ActionView::Failed(DownloadErrorView { seq, stage: FetchStage::Transactions, fault }),
                ),
            },
            EventView::Cancelled => (
                StageView::Idle,
                ActionView::Failed(
                    DownloadErrorView {
                        seq,
                        stage: FetchStage::Transactions,
                        fault: FaultView::Cancelled { last_failure: None },
                    },
                ),
            ),
            _ => (stage, ActionView::Ignored),
        },
        StageView::AwaitingObjects { seq, checkpoint, transactions } => match event {
            EventView::ObjectsFetched(responses) => match changed_objects(
                all_object_changes(transactions),
                responses,
                MULTI_GET_CHUNK_SIZE as nat,
            ) {
                Ok(changed_objects) => (
                    StageView::Idle,
                    ActionView::Finished(CheckpointDataView { checkpoint, transactions, changed_objects }),
                ),
                Err(fault) => (
                    StageView::Idle,
                    ActionView::Failed(DownloadErrorView { seq, stage: FetchStage::ChangedObjects, fault }),
                ),
            },
            EventView::Cancelled => (
                StageView::Idle,
                ActionView::Failed(
                    DownloadErrorView {
                        seq,
                        stage: FetchStage::ChangedObjects,
                        fault: FaultView::Cancelled { last_failure: None },
                    },
                ),
            ),
            _ => (stage, ActionView::Ignored),
        },
    }
}

/// A record is consistent: it holds one transaction for each digest of its
/// checkpoint, and one changed object for each change that its transactions
/// record, with the kind of that change.
pub open spec fn consistent(data: CheckpointDataView) -> bool {
    &&& data.transactions.len() == data.checkpoint.transactions.len()
    &&& data.changed_objects.len() == all_object_changes(data.transactions).len()
    &&& forall|i: int|
        0 <= i < data.changed_objects.len() ==> (#[trigger] data.changed_objects[i]).0
            == all_object_changes(data.transactions)[i].2
}

/// A stage is well formed if the transactions it holds are as many as the
/// digests of its checkpoint.
pub open spec fn well_formed(stage: StageView) -> bool {
    match stage {
        StageView::AwaitingObjects { checkpoint, transactions, .. } => transactions.len()
            == checkpoint.transactions.len(),
        _ => true,
    }
}

/// Downloads the record of one checkpoint at a time, by telling the caller
/// what to ask of the remote service and taking the answers.
#[derive(Clone, PartialEq, Eq, Debug)]
pub struct CheckpointHandler {
    pub stage: Stage,
}

impl View for CheckpointHandler {
    type V = StageView;

    open spec fn view(&self) -> StageView {
        self.stage@
    }
}

impl CheckpointHandler {
    /// A handler with no download under way.
    pub fn new() -> (handler: Self)
        ensures
            handler@ == StageView::Idle,
    {
        CheckpointHandler { stage: Stage::Idle }
    }

    /// Download all the data we need for one checkpoint, one event at a time.
    ///
    /// The download starts with `Event::Requested`. Each call takes what the
    /// caller reports and returns what the caller is to do next, until
    /// `Action::Finished` hands out the record or `Action::Failed` says why
    /// there is none. The handler is then idle again.
    pub fn download_checkpoint_data(&mut self, event: Event) -> (action: Action)
        ensures
            final(self)@ == step(old(self)@, event@).0,
            action@ == step(old(self)@, event@).1,
            well_formed(old(self)@) ==> well_formed(final(self)@),
            well_formed(old(self)@) ==> (action matches Action::Finished(data) ==> consistent(data@)),
    {
        proof {
            if well_formed(self@) {
                law_record_is_consistent(self@, event@);
            }
        }
        let mut stage = Stage::Idle;
        core::mem::swap(&mut self.stage, &mut stage);
        let (next, action) = match stage {
            Stage::Idle => match event {
                Event::Requested { seq } => (
                    Stage::Polling { seq, last_failure: None, asleep: false },
                    Action::FetchCheckpoint { seq },
                ),
                _ => (Stage::Idle, Action::Ignored),
            },
            Stage::Polling { seq, last_failure, asleep } => Self::get_checkpoint(
                seq,
                last_failure,
                asleep,
                event,
            ),
            Stage::AwaitingTransactions { seq, checkpoint } => match event {
                Event::TransactionsFetched(responses) => match assemble_transactions(
                    checkpoint.transactions.len(),
                    responses,
                ) {
                    Ok(transactions) => {
                        let changes = collect_object_changes(&transactions);
                        let chunks = chunk_past_object_requests(&changes);
                        (
                            Stage::AwaitingObjects { seq, checkpoint, transactions },
                            Action::FetchObjects { chunks, options: SuiObjectDataOptions::bcs_lossless() },
                        )
                    },
                    Err(fault) => (
                        Stage::Idle,
                        Action::Failed(DownloadError { seq, stage: FetchStage::Transactions, fault }),
                    ),
                },
                Event::Cancelled => (
                    Stage::Idle,
                    Action::Failed(
                        DownloadError {
                            seq,
                            stage: FetchStage::Transactions,
                            fault: Fault::Cancelled { last_failure: None },
                        },
                    ),
                ),
                _ => (Stage::AwaitingTransactions { seq, checkpoint }, Action::Ignored),
            },
            Stage::AwaitingObjects { seq, checkpoint, transactions } => match event {
                Event::ObjectsFetched(responses) => {
                    let changes = collect_object_changes(&transactions);
                    match fetch_changed_objects(changes, responses) {
                        Ok(changed_objects) => (
                            Stage::Idle,
                            Action::Finished(CheckpointData { checkpoint, transactions, changed_objects }),
                        ),
                        Err(fault) => (
                            Stage::Idle,
                            Action::Failed(DownloadError { seq, stage: FetchStage::ChangedObjects, fault }),
                        ),
                    }
                },
                Event::Cancelled => (
                    Stage::Idle,
                    Action::Failed(
                        DownloadError {
                            seq,
                            stage: FetchStage::ChangedObjects,
                            fault: Fault::Cancelled { last_failure: None },
                        },
                    ),
                ),
                _ => (Stage::AwaitingObjects { seq, checkpoint, transactions }, Action::Ignored),
            },
        };
        self.stage = next;
        action
    }

    /// The part of a download that waits for the checkpoint to be there.
    fn get_checkpoint(seq: u64, last_failure: Option<String>, asleep: bool, event: Event) -> (r: (
        Stage,
        Action,
    ))
        ensures
            r.0@ == poll(seq, last_failure.deep_view(), asleep, event@).0,
            r.1@ == poll(seq, last_failure.deep_view(), asleep, event@).1,
    {
        match event {
            Event::CheckpointFetched(outcome) => if asleep {
                (Stage::Polling { seq, last_failure, asleep }, Action::Ignored)
            } else {
                match outcome {
                    Ok(checkpoint) => {
                        let chunks = split_chunks(&checkpoint.transactions, MULTI_GET_CHUNK_SIZE);
                        (Stage::AwaitingTransactions { seq, checkpoint }, Action::FetchTransactions { chunks })
                    },
                    Err(reason) => (
                        Stage::Polling { seq, last_failure: Some(reason), asleep: true },
                        Action::Sleep { millis: CHECKPOINT_POLL_INTERVAL_MS },
                    ),
                }
            },
            Event::Slept => if asleep {
                (Stage::Polling { seq, last_failure, asleep: false }, Action::FetchCheckpoint { seq })
            } else {
                (Stage::Polling { seq, last_failure, asleep }, Action::Ignored)
            },
            Event::Cancelled => (
                Stage::Idle,
                Action::Failed(
                    DownloadError {
                        seq,
                        stage: FetchStage::Checkpoint,
                        fault: Fault::Cancelled { last_failure },
                    },
                ),
            ),
            _ => (Stage::Polling { seq, last_failure, asleep }, Action::Ignored),
        }
    }
}

} // verus!
