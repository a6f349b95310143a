//! The alternatives of a checkpoint commitment.
use vstd::prelude::*;

verus! {

/// The alternatives of a checkpoint commitment.
#[derive(PartialEq, Eq, Debug)]
pub enum CheckpointCommitment {
    EcmhLiveObjectSetDigest(crate::pb::EcmhLiveObjectSetDigest),
}

} // verus!
