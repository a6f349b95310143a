//! What can end a download without a record.
use vstd::prelude::*;
use crate::types::PastObjectError;

verus! {

/// The fetch that a download was at.
#[derive(Clone, Copy, PartialEq, Eq, Debug, Hash)]
pub enum FetchStage {
    Checkpoint,
    Transactions,
    ChangedObjects,
}

/// Why a fetch gave no result. Chunks and items are counted from zero.
#[derive(Clone, PartialEq, Eq, Debug)]
pub enum Fault {
    /// The caller gave up. `last_failure` is what the remote service said when
    /// it last failed to hand out the checkpoint, if it ever did.
    Cancelled { last_failure: Option<String> },
    /// There are not as many responses as there were chunks.
    ChunkCount { expected: usize, received: usize },
    /// The request for a chunk failed.
    Remote { chunk: usize, reason: String },
    /// The response to a chunk holds no object for one of its items.
    Unresolved { chunk: usize, index: usize, error: PastObjectError },
    /// The response to a chunk does not hold as many items as the chunk asked for.
    Correlation { chunk: usize, expected: usize, received: usize },
}

/// `Fault` as the contracts see it: with `Seq` in place of `Vec` and `String`.
pub enum FaultView {
    Cancelled { last_failure: Option<Seq<char>> },
    ChunkCount { expected: nat, received: nat },
    Remote { chunk: nat, reason: Seq<char> },
    Unresolved { chunk: nat, index: nat, error: PastObjectError },
    Correlation { chunk: nat, expected: nat, received: nat },
}

impl View for Fault {
    type V = FaultView;

    open spec fn view(&self) -> FaultView {
        match *self {
            Fault::Cancelled { last_failure } => FaultView::Cancelled {
                last_failure: last_failure.deep_view(),
            },
            Fault::ChunkCount { expected, received } => FaultView::ChunkCount {
                expected: expected as nat,
                received: received as nat,
            },
            Fault::Remote { chunk, reason } => FaultView::Remote { chunk: chunk as nat, reason: reason@ },
            Fault::Unresolved { chunk, index, error } => FaultView::Unresolved {
                chunk: chunk as nat,
                index: index as nat,
                error,
            },
            Fault::Correlation { chunk, expected, received } => FaultView::Correlation {
                chunk: chunk as nat,
                expected: expected as nat,
                received: received as nat,
            },
        }
    }
}

/// A download that ended without a record: the sequence number asked for, the
/// fetch it was at, and what went wrong there.
#[derive(Clone, PartialEq, Eq, Debug)]
pub struct DownloadError {
    pub seq: u64,
    pub stage: FetchStage,
    pub fault: Fault,
}

/// `DownloadError` as the contracts see it: with `Seq` in place of `Vec` and `String`.
pub struct DownloadErrorView {
    pub seq: u64,
    pub stage: FetchStage,
    pub fault: FaultView,
}

impl View for DownloadError {
    type V = DownloadErrorView;

    open spec fn view(&self) -> DownloadErrorView {
        DownloadErrorView { seq: self.seq, stage: self.stage, fault: self.fault@ }
    }
}

} // verus!
