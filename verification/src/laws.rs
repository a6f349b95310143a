//! What holds of every download, whatever the remote service answers.
use vstd::prelude::*;
use crate::checkpoint_handler::{
    all_object_changes, changed_objects, consistent, fetched_transactions, object_outcomes, resolved_upto,
    step, transaction_outcomes, well_formed, CHECKPOINT_POLL_INTERVAL_MS, MULTI_GET_CHUNK_SIZE,
};
use crate::chunking::{chunk_lens, chunks};
use crate::correlation::{chunk_result, lemma_joined_ok, lemma_settled_len};
use crate::fault::FaultView;
use crate::protocol::{ActionView, EventView, StageView};
use crate::types::{
    CheckpointDataView, CheckpointTransactionBlockResponseView, CheckpointView, ObjectChange,
    SuiObjectDataView, SuiPastObjectResponseView,
};

verus! {

/// Where a handler that starts at `stage` stands after `events`, and what it
/// returned for each of them.
pub open spec fn run(stage: StageView, events: Seq<EventView>) -> (StageView, Seq<ActionView>)
    decreases events.len(),
{
    if events.len() == 0 {
        (stage, Seq::empty())
    } else {
        let (before, actions) = run(stage, events.drop_last());
        let (after, action) = step(before, events.last());
        (after, actions.push(action))
    }
}

/// The events of a remote service that fails to hand out the checkpoint once
/// for each of `reasons`, each failure followed by the end of the wait.
pub open spec fn failed_attempts(reasons: Seq<Seq<char>>) -> Seq<EventView>
    decreases reasons.len(),
{
    if reasons.len() == 0 {
        Seq::empty()
    } else {
        failed_attempts(reasons.drop_last()) + seq![
            EventView::CheckpointFetched(Err(reasons.last())),
            EventView::Slept,
        ]
    }
}

/// `times` times a wait followed by a request for the checkpoint.
pub open spec fn retries(seq: u64, times: nat) -> Seq<ActionView>
    decreases times,
{
    if times == 0 {
        Seq::empty()
    } else {
        retries(seq, (times - 1) as nat) + seq![
            ActionView::Sleep { millis: CHECKPOINT_POLL_INTERVAL_MS },
            ActionView::FetchCheckpoint { seq },
        ]
    }
}

/// How often a list of actions asks for the checkpoint.
pub open spec fn fetch_attempts(actions: Seq<ActionView>) -> nat
    decreases actions.len(),
{
    if actions.len() == 0 {
        0
    } else {
        fetch_attempts(actions.drop_last()) + if actions.last() is FetchCheckpoint {
            1nat
        } else {
            0nat
        }
    }
}

/// How long a list of actions waits in all, in milliseconds.
pub open spec fn time_slept(actions: Seq<ActionView>) -> nat
    decreases actions.len(),
{
    if actions.len() == 0 {
        0
    } else {
        time_slept(actions.drop_last()) + match actions.last() {
            ActionView::Sleep { millis } => millis as nat,
            _ => 0nat,
        }
    }
}

/// A run over one more event takes one more step.
pub proof fn lemma_run_push(stage: StageView, events: Seq<EventView>, event: EventView)
    ensures
        run(stage, events.push(event)).0 == step(run(stage, events).0, event).0,
        run(stage, events.push(event)).1 == run(stage, events).1.push(step(run(stage, events).0, event).1),
{
    assert(events.push(event).drop_last() =~= events);
}

proof fn lemma_counts_push(actions: Seq<ActionView>, action: ActionView)
    ensures
        fetch_attempts(actions.push(action)) == fetch_attempts(actions) + if action is FetchCheckpoint {
            1nat
        } else {
            0nat
        },
        time_slept(actions.push(action)) == time_slept(actions) + match action {
            ActionView::Sleep { millis } => millis as nat,
            _ => 0nat,
        },
{
    assert(actions.push(action).drop_last() =~= actions);
}

proof fn lemma_counts_concat(first: Seq<ActionView>, second: Seq<ActionView>)
    ensures
        fetch_attempts(first + second) == fetch_attempts(first) + fetch_attempts(second),
        time_slept(first + second) == time_slept(first) + time_slept(second),
    decreases second.len(),
{
    if second.len() > 0 {
        lemma_counts_concat(first, second.drop_last());
        assert((first + second).drop_last() =~= first + second.drop_last());
    }
}

proof fn lemma_counts_of_retries(seq: u64, times: nat)
    ensures
        fetch_attempts(retries(seq, times)) == times,
        time_slept(retries(seq, times)) == times * CHECKPOINT_POLL_INTERVAL_MS,
    decreases times,
{
    if times > 0 {
        let before = retries(seq, (times - 1) as nat);
        let wait = ActionView::Sleep { millis: CHECKPOINT_POLL_INTERVAL_MS };
        let ask = ActionView::FetchCheckpoint { seq };
        let none = Seq::<ActionView>::empty();
        lemma_counts_of_retries(seq, (times - 1) as nat);
        lemma_counts_push(none, wait);
        lemma_counts_push(none.push(wait), ask);
        assert(seq![wait, ask] =~= none.push(wait).push(ask));
        lemma_counts_concat(before, seq![wait, ask]);
        assert(times * CHECKPOINT_POLL_INTERVAL_MS == (times - 1) * CHECKPOINT_POLL_INTERVAL_MS
            + CHECKPOINT_POLL_INTERVAL_MS) by (nonlinear_arith);
    }
}

proof fn lemma_polling_after_failures(seq: u64, reasons: Seq<Seq<char>>)
    ensures
        run(StageView::Idle, seq![EventView::Requested { seq }] + failed_attempts(reasons)) == (
            StageView::Polling {
                seq,
                last_failure: if reasons.len() == 0 {
                    None
                } else {
                    Some(reasons.last())
                },
                asleep: false,
            },
            seq![ActionView::FetchCheckpoint { seq }] + retries(seq, reasons.len()),
        ),
    decreases reasons.len(),
{
    let request = EventView::Requested { seq };
    let ask = ActionView::FetchCheckpoint { seq };
    let no_event = Seq::<EventView>::empty();
    if reasons.len() == 0 {
        lemma_run_push(StageView::Idle, no_event, request);
    } else {
        let earlier = seq![request] + failed_attempts(reasons.drop_last());
        let failure = EventView::CheckpointFetched(Err(reasons.last()));
        let wait = ActionView::Sleep { millis: CHECKPOINT_POLL_INTERVAL_MS };
        lemma_polling_after_failures(seq, reasons.drop_last());
        lemma_run_push(StageView::Idle, earlier, failure);
        lemma_run_push(StageView::Idle, earlier.push(failure), EventView::Slept);
        assert(seq![request] + failed_attempts(reasons) =~= earlier.push(failure).push(EventView::Slept));
        assert((seq![ask] + retries(seq, (reasons.len() - 1) as nat)).push(wait).push(ask) =~= seq![ask]
            + retries(seq, reasons.len()));
    }
}

/// A remote service that fails to hand out the checkpoint once for each of
/// `reasons` and then hands it out is asked once more than it failed, and
/// waited for once for each failure: the handler asks, then for each failure
/// waits and asks again, and goes on to the checkpoint's transactions.
pub proof fn law_polling_until_available(seq: u64, reasons: Seq<Seq<char>>, checkpoint: CheckpointView)
    ensures
        ({
            let events = seq![EventView::Requested { seq }] + failed_attempts(reasons) + seq![
                EventView::CheckpointFetched(Ok(checkpoint)),
            ];
            let go_on = ActionView::FetchTransactions {
                chunks: chunks(checkpoint.transactions, MULTI_GET_CHUNK_SIZE as nat),
            };
            let (stage, actions) = run(StageView::Idle, events);
            &&& stage == StageView::AwaitingTransactions { seq, checkpoint }
            &&& actions == seq![ActionView::FetchCheckpoint { seq }] + retries(seq, reasons.len()) + seq![
                go_on,
            ]
            &&& fetch_attempts(actions) == reasons.len() + 1
            &&& time_slept(actions) == reasons.len() * CHECKPOINT_POLL_INTERVAL_MS
        }),
{
    let polling = seq![EventView::Requested { seq }] + failed_attempts(reasons);
    let success = EventView::CheckpointFetched(Ok(checkpoint));
    let ask = ActionView::FetchCheckpoint { seq };
    let go_on = ActionView::FetchTransactions {
        chunks: chunks(checkpoint.transactions, MULTI_GET_CHUNK_SIZE as nat),
    };
    let none = Seq::<ActionView>::empty();
    lemma_polling_after_failures(seq, reasons);
    lemma_run_push(StageView::Idle, polling, success);
    assert(polling + seq![success] =~= polling.push(success));
    let asked = seq![ask] + retries(seq, reasons.len());
    lemma_counts_of_retries(seq, reasons.len());
    lemma_counts_push(none, ask);
    lemma_counts_concat(seq![ask], retries(seq, reasons.len()));
    lemma_counts_push(asked, go_on);
}

/// A download that waits for its checkpoint never gives up on its own: only
/// the caller's giving up ends it without the checkpoint, and every failure of
/// the remote service to hand the checkpoint out is answered by a wait, after
/// which the checkpoint is asked for again.
pub proof fn law_polling_never_gives_up(
    seq: u64,
    last_failure: Option<Seq<char>>,
    asleep: bool,
    event: EventView,
)
    ensures
        step(StageView::Polling { seq, last_failure, asleep }, event).1 is Failed <==> event is Cancelled,
        !asleep ==> (event matches EventView::CheckpointFetched(Err(reason)) ==> step(
            StageView::Polling { seq, last_failure, asleep },
            event,
        ) == (
            StageView::Polling { seq, last_failure: Some(reason), asleep: true },
            ActionView::Sleep { millis: CHECKPOINT_POLL_INTERVAL_MS },
        )),
        step(StageView::Polling { seq, last_failure, asleep: true }, EventView::Slept) == (
            StageView::Polling { seq, last_failure, asleep: false },
            ActionView::FetchCheckpoint { seq },
        ),
{
}

/// A checkpoint that the remote service hands out at the first request for
/// its sequence number is followed at once by the fetch of its transactions:
/// the handler neither waits nor asks again, and a record that the download
/// ends with holds this checkpoint, and so the sequence number asked for.
pub proof fn law_available_at_once(
    seq: u64,
    checkpoint: CheckpointView,
    transactions: Seq<Result<Seq<CheckpointTransactionBlockResponseView>, Seq<char>>>,
    objects: Seq<Result<Seq<SuiPastObjectResponseView>, Seq<char>>>,
)
    requires
        checkpoint.sequence_number == seq,
    ensures
        ({
            let events = seq![
                EventView::Requested { seq },
                EventView::CheckpointFetched(Ok(checkpoint)),
                EventView::TransactionsFetched(transactions),
                EventView::ObjectsFetched(objects),
            ];
            let actions = run(StageView::Idle, events).1;
            &&& actions.len() == 4
            &&& actions[0] == ActionView::FetchCheckpoint { seq }
            &&& actions[1] == ActionView::FetchTransactions {
                chunks: chunks(checkpoint.transactions, MULTI_GET_CHUNK_SIZE as nat),
            }
            &&& fetch_attempts(actions) == 1
            &&& time_slept(actions) == 0
            &&& forall|data: CheckpointDataView|
                actions[3] == ActionView::Finished(data) ==> data.checkpoint == checkpoint
                    && data.checkpoint.sequence_number == seq
        }),
{
    let e0 = EventView::Requested { seq };
    let e1 = EventView::CheckpointFetched(Ok(checkpoint));
    let e2 = EventView::TransactionsFetched(transactions);
    let e3 = EventView::ObjectsFetched(objects);
    let no_event = Seq::<EventView>::empty();
    let none = Seq::<ActionView>::empty();
    let idle = StageView::Idle;
    lemma_run_push(idle, no_event, e0);
    lemma_run_push(idle, no_event.push(e0), e1);
    lemma_run_push(idle, no_event.push(e0).push(e1), e2);
    lemma_run_push(idle, no_event.push(e0).push(e1).push(e2), e3);
    assert(seq![e0, e1, e2, e3] =~= no_event.push(e0).push(e1).push(e2).push(e3));
    let a0 = ActionView::FetchCheckpoint { seq };
    let a1 = ActionView::FetchTransactions {
        chunks: chunks(checkpoint.transactions, MULTI_GET_CHUNK_SIZE as nat),
    };
    let a2 = step(StageView::AwaitingTransactions { seq, checkpoint }, e2).1;
    let s3 = step(StageView::AwaitingTransactions { seq, checkpoint }, e2).0;
    let a3 = step(s3, e3).1;
    lemma_counts_push(none, a0);
    lemma_counts_push(none.push(a0), a1);
    lemma_counts_push(none.push(a0).push(a1), a2);
    lemma_counts_push(none.push(a0).push(a1).push(a2), a3);
}

/// The response to a chunk of `expected` requests is in full: the request went
/// through, and there is one item for each request.
pub open spec fn in_full<V>(response: Result<Seq<V>, Seq<char>>, expected: nat) -> bool {
    response matches Ok(items) && items.len() == expected
}

/// Every answer of the response holds an object.
pub open spec fn all_found(response: Result<Seq<SuiPastObjectResponseView>, Seq<char>>) -> bool {
    response matches Ok(items) && forall|j: int| 0 <= j < items.len() ==> (#[trigger] items[j]) is VersionFound
}

/// The objects that the answers of a response hold, in order.
pub open spec fn found(response: Result<Seq<SuiPastObjectResponseView>, Seq<char>>) -> Seq<
    SuiObjectDataView,
> {
    Seq::new(response->Ok_0.len(), |j: int| response->Ok_0[j]->VersionFound_0)
}

/// The objects that all the responses hold, chunk after chunk.
pub open spec fn all_fetched(responses: Seq<Result<Seq<SuiPastObjectResponseView>, Seq<char>>>) -> Seq<
    SuiObjectDataView,
> {
    responses.map_values(|r: Result<Seq<SuiPastObjectResponseView>, Seq<char>>| found(r)).flatten()
}

/// The answers of a chunk resolve exactly if each holds an object, and then
/// to those objects in order.
pub proof fn lemma_resolved(chunk: nat, items: Seq<SuiPastObjectResponseView>, n: nat)
    requires
        n <= items.len(),
    ensures
        resolved_upto(chunk, items, n) is Ok <==> forall|j: int|
            0 <= j < n ==> (#[trigger] items[j]) is VersionFound,
        resolved_upto(chunk, items, n) is Ok ==> resolved_upto(chunk, items, n)->Ok_0 == Seq::new(
            n,
            |j: int| items[j]->VersionFound_0,
        ),
    decreases n,
{
    if n > 0 {
        lemma_resolved(chunk, items, (n - 1) as nat);
    }
}

/// The changed objects are there exactly if there is one response for each
/// chunk of changes and each response is in full and holds an object in every
/// answer. Then there is one entry for each change, with the kind of that
/// change and the object that stands at the same place among all that was
/// fetched: the place pairs them, not the object's address.
pub proof fn law_changed_objects(
    changes: Seq<ObjectChange>,
    responses: Seq<Result<Seq<SuiPastObjectResponseView>, Seq<char>>>,
    size: nat,
)
    requires
        size > 0,
    ensures
        changed_objects(changes, responses, size) is Ok <==> {
            &&& responses.len() == chunk_lens(changes.len(), size).len()
            &&& forall|k: int|
                0 <= k < responses.len() ==> in_full(
                    #[trigger] responses[k],
                    chunk_lens(changes.len(), size)[k],
                ) && all_found(responses[k])
        },
        changed_objects(changes, responses, size) matches Ok(pairs) ==> {
            &&& pairs.len() == changes.len()
            &&& all_fetched(responses).len() == changes.len()
            &&& forall|i: int|
                0 <= i < changes.len() ==> (#[trigger] pairs[i]) == (changes[i].2, all_fetched(responses)[i])
        },
{
    let expected = chunk_lens(changes.len(), size);
    let outcomes = object_outcomes(responses);
    if responses.len() == expected.len() {
        lemma_joined_ok(expected, outcomes, outcomes.len());
        assert forall|k: int| 0 <= k < responses.len() implies ((#[trigger] chunk_result(
            k,
            expected[k],
            outcomes[k],
        )) is Ok <==> in_full(responses[k], expected[k]) && all_found(responses[k])) by {
            if responses[k] is Ok {
                lemma_resolved(k as nat, responses[k]->Ok_0, responses[k]->Ok_0.len());
            }
        }
        if changed_objects(changes, responses, size) is Ok {
            assert forall|k: int| 0 <= k < responses.len() implies in_full(
                #[trigger] responses[k],
                expected[k],
            ) && all_found(responses[k]) by {
                assert(chunk_result(k, expected[k], outcomes[k]) is Ok);
            }
            lemma_settled_len(changes.len(), size, outcomes);
            let items_of = |o: Result<Seq<SuiObjectDataView>, FaultView>| o->Ok_0;
            let found_of = |r: Result<Seq<SuiPastObjectResponseView>, Seq<char>>| found(r);
            assert(outcomes.take(outcomes.len() as int) =~= outcomes);
            assert forall|k: int| 0 <= k < responses.len() implies outcomes.map_values(items_of)[k]
                == responses.map_values(found_of)[k] by {
                lemma_resolved(k as nat, responses[k]->Ok_0, responses[k]->Ok_0.len());
            }
            assert(outcomes.map_values(items_of) =~= responses.map_values(found_of));
        }
    }
}

/// A response that holds fewer or more items than its chunk asked for leaves
/// the download without changed objects, whatever the other responses hold.
pub proof fn law_miscounted_response_is_fatal(
    changes: Seq<ObjectChange>,
    responses: Seq<Result<Seq<SuiPastObjectResponseView>, Seq<char>>>,
    k: int,
)
    requires
        0 <= k < responses.len(),
        k < chunk_lens(changes.len(), MULTI_GET_CHUNK_SIZE as nat).len(),
        responses[k] matches Ok(items) && items.len() != chunk_lens(
            changes.len(),
            MULTI_GET_CHUNK_SIZE as nat,
        )[k],
    ensures
        changed_objects(changes, responses, MULTI_GET_CHUNK_SIZE as nat) is Err,
{
    law_changed_objects(changes, responses, MULTI_GET_CHUNK_SIZE as nat);
}

/// The transactions are there exactly if there is one response for each chunk
/// of digests and each is in full. They are then the responses' items, chunk
/// after chunk, as many as there are digests.
pub proof fn law_fetched_transactions(
    digests: nat,
    responses: Seq<Result<Seq<CheckpointTransactionBlockResponseView>, Seq<char>>>,
    size: nat,
)
    requires
        size > 0,
    ensures
        fetched_transactions(digests, responses, size) is Ok <==> {
            &&& responses.len() == chunk_lens(digests, size).len()
            &&& forall|k: int|
                0 <= k < responses.len() ==> in_full(#[trigger] responses[k], chunk_lens(digests, size)[k])
        },
        fetched_transactions(digests, responses, size) matches Ok(transactions) ==> {
            &&& transactions.len() == digests
            &&& transactions == responses.map_values(
                |r: Result<Seq<CheckpointTransactionBlockResponseView>, Seq<char>>| r->Ok_0,
            ).flatten()
        },
{
    let expected = chunk_lens(digests, size);
    let outcomes = transaction_outcomes(responses);
    if responses.len() == expected.len() {
        lemma_joined_ok(expected, outcomes, outcomes.len());
        assert forall|k: int| 0 <= k < responses.len() implies ((#[trigger] chunk_result(
            k,
            expected[k],
            outcomes[k],
        )) is Ok <==> in_full(responses[k], expected[k])) by {}
        if fetched_transactions(digests, responses, size) is Ok {
            assert forall|k: int| 0 <= k < responses.len() implies in_full(
                #[trigger] responses[k],
                expected[k],
            ) by {
                assert(chunk_result(k, expected[k], outcomes[k]) is Ok);
            }
            lemma_settled_len(digests, size, outcomes);
            let items_of = |o: Result<Seq<CheckpointTransactionBlockResponseView>, FaultView>| o->Ok_0;
            let given = |r: Result<Seq<CheckpointTransactionBlockResponseView>, Seq<char>>| r->Ok_0;
            assert(outcomes.take(outcomes.len() as int) =~= outcomes);
            assert forall|k: int| 0 <= k < responses.len() implies outcomes.map_values(items_of)[k]
                == responses.map_values(given)[k] by {}
            assert(outcomes.map_values(items_of) =~= responses.map_values(given));
        }
    }
}

/// A step leaves a well-formed stage well formed, and a record that it
/// finishes with is consistent and holds the checkpoint and the transactions of
/// the stage. A record is finished only from the responses for the objects.
pub proof fn law_record_is_consistent(stage: StageView, event: EventView)
    requires
        well_formed(stage),
    ensures
        well_formed(step(stage, event).0),
        step(stage, event).1 matches ActionView::Finished(data) ==> {
            &&& consistent(data)
            &&& event is ObjectsFetched
            &&& stage matches StageView::AwaitingObjects { checkpoint, transactions, .. }
            &&& data.checkpoint == checkpoint
            &&& data.transactions == transactions
        },
{
    match stage {
        StageView::AwaitingTransactions { seq, checkpoint } => {
            if let EventView::TransactionsFetched(responses) = event {
                law_fetched_transactions(
                    checkpoint.transactions.len(),
                    responses,
                    MULTI_GET_CHUNK_SIZE as nat,
                );
            }
        },
        StageView::AwaitingObjects { seq, checkpoint, transactions } => {
            if let EventView::ObjectsFetched(responses) = event {
                law_changed_objects(all_object_changes(transactions), responses, MULTI_GET_CHUNK_SIZE as nat);
            }
        },
        _ => {},
    }
}

} // verus!
