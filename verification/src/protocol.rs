//! The dialogue between a download and the caller who talks to the remote
//! service: the caller reports what happened, and is told what to do next.
use vstd::prelude::*;
use crate::fault::{DownloadError, DownloadErrorView};
use crate::types::{
    views, Checkpoint, CheckpointData, CheckpointDataView, CheckpointTransactionBlockResponse,
    CheckpointTransactionBlockResponseView, CheckpointView, SuiGetPastObjectRequest, SuiObjectDataOptions,
    SuiPastObjectResponse, SuiPastObjectResponseView, TransactionDigest,
};

verus! {

/// What the remote service answered to each chunk, as the contracts see it.
pub open spec fn responses_view<T: View>(responses: Seq<Result<Vec<T>, String>>) -> Seq<
    Result<Seq<T::V>, Seq<char>>,
> {
    Seq::new(
        responses.len(),
        |k: int|
            match responses[k] {
                Ok(items) => Ok(views(items@)),
                Err(reason) => Err(reason@),
            },
    )
}

/// What the caller reports.
#[derive(PartialEq, Eq, Debug)]
pub enum Event {
    /// The record of the checkpoint at `seq` is wanted.
    Requested { seq: u64 },
    /// The remote service handed out the checkpoint, or failed to, with its reason.
    CheckpointFetched(Result<Checkpoint, String>),
    /// The wait is over.
    Slept,
    /// The outcome of the request for each chunk of digests, in the chunks' order.
    TransactionsFetched(Vec<Result<Vec<CheckpointTransactionBlockResponse>, String>>),
    /// The outcome of the request for each chunk of object versions, in the chunks' order.
    ObjectsFetched(Vec<Result<Vec<SuiPastObjectResponse>, String>>),
    /// The caller gives the download up.
    Cancelled,
}

/// `Event` as the contracts see it: with `Seq` in place of `Vec` and `String`.
pub enum EventView {
    Requested { seq: u64 },
    CheckpointFetched(Result<CheckpointView, Seq<char>>),
    Slept,
    TransactionsFetched(Seq<Result<Seq<CheckpointTransactionBlockResponseView>, Seq<char>>>),
    ObjectsFetched(Seq<Result<Seq<SuiPastObjectResponseView>, Seq<char>>>),
    Cancelled,
}

impl View for Event {
    type V = EventView;

    open spec fn view(&self) -> EventView {
        match *self {
            Event::Requested { seq } => EventView::Requested { seq },
            Event::CheckpointFetched(outcome) => EventView::CheckpointFetched(
                match outcome {
                    Ok(checkpoint) => Ok(checkpoint@),
                    Err(reason) => Err(reason@),
                },
            ),
            Event::Slept => EventView::Slept,
            Event::TransactionsFetched(responses) => EventView::TransactionsFetched(
                responses_view(responses@),
            ),
            Event::ObjectsFetched(responses) => EventView::ObjectsFetched(responses_view(responses@)),
            Event::Cancelled => EventView::Cancelled,
        }
    }
}

/// What the caller is to do next.
#[derive(Clone, PartialEq, Eq, Debug)]
pub enum Action {
    /// Ask the remote service for the checkpoint at `seq`, and report `CheckpointFetched`.
    FetchCheckpoint { seq: u64 },
    /// Wait for `millis` milliseconds, and report `Slept`.
    Sleep { millis: u64 },
    /// Ask the remote service for the transactions of each chunk of digests,
    /// all chunks at once, and report `TransactionsFetched`.
    FetchTransactions { chunks: Vec<Vec<TransactionDigest>> },
    /// Ask the remote service for the objects of each chunk of requests, all
    /// chunks at once and with the given options, and report `ObjectsFetched`.
    FetchObjects { chunks: Vec<Vec<SuiGetPastObjectRequest>>, options: SuiObjectDataOptions },
    /// The download is over: this is the record.
    Finished(CheckpointData),
    /// The download is over, and there is no record.
    Failed(DownloadError),
    /// The event answers nothing that was asked: nothing has changed.
    Ignored,
}

/// `Action` as the contracts see it: with `Seq` in place of `Vec` and `String`.
pub enum ActionView {
    FetchCheckpoint { seq: u64 },
    Sleep { millis: u64 },
    FetchTransactions { chunks: Seq<Seq<TransactionDigest>> },
    FetchObjects { chunks: Seq<Seq<SuiGetPastObjectRequest>>, options: SuiObjectDataOptions },
    Finished(CheckpointDataView),
    Failed(DownloadErrorView),
    Ignored,
}

impl View for Action {
    type V = ActionView;

    open spec fn view(&self) -> ActionView {
        match *self {
            Action::FetchCheckpoint { seq } => ActionView::FetchCheckpoint { seq },
            Action::Sleep { millis } => ActionView::Sleep { millis },
            Action::FetchTransactions { chunks } => ActionView::FetchTransactions { chunks: views(chunks@) },
            Action::FetchObjects { chunks, options } => ActionView::FetchObjects {
                chunks: views(chunks@),
                options,
            },
            Action::Finished(data) => ActionView::Finished(data@),
            Action::Failed(error) => ActionView::Failed(error@),
            Action::Ignored => ActionView::Ignored,
        }
    }
}

/// Where a download stands.
#[derive(Clone, PartialEq, Eq, Debug)]
pub enum Stage {
    /// No download is under way.
    Idle,
    /// The checkpoint at `seq` has not been handed out yet. The handler waits
    /// for `Slept` if `asleep`, else for `CheckpointFetched`. `last_failure`
    /// is what the remote service said when it last failed.
    Polling { seq: u64, last_failure: Option<String>, asleep: bool },
    /// The checkpoint is there, and its transactions have been asked for.
    AwaitingTransactions { seq: u64, checkpoint: Checkpoint },
    /// The transactions are there, and the objects they changed have been asked for.
    AwaitingObjects { seq: u64, checkpoint: Checkpoint, transactions: Vec<CheckpointTransactionBlockResponse> },
}

/// `Stage` as the contracts see it: with `Seq` in place of `Vec` and `String`.
pub enum StageView {
    Idle,
    Polling { seq: u64, last_failure: Option<Seq<char>>, asleep: bool },
    AwaitingTransactions { seq: u64, checkpoint: CheckpointView },
    AwaitingObjects {
        seq: u64,
        checkpoint: CheckpointView,
        transactions: Seq<CheckpointTransactionBlockResponseView>,
    },
}

impl View for Stage {
    type V = StageView;

    open spec fn view(&self) -> StageView {
        match *self {
            Stage::Idle => StageView::Idle,
            Stage::Polling { seq, last_failure, asleep } => StageView::Polling {
                seq,
                last_failure: last_failure.deep_view(),
                asleep,
            },
            Stage::AwaitingTransactions { seq, checkpoint } => StageView::AwaitingTransactions {
                seq,
                checkpoint: checkpoint@,
            },
            Stage::AwaitingObjects { seq, checkpoint, transactions } => StageView::AwaitingObjects {
                seq,
                checkpoint: checkpoint@,
                transactions: views(transactions@),
            },
        }
    }
}

} // verus!
