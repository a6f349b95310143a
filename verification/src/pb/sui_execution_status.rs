//! The alternatives of an execution status.
use vstd::prelude::*;

verus! {

/// The alternatives of an execution status.
#[derive(PartialEq, Eq, Debug)]
pub enum SuiExecutionStatus {
    Success,
    Failure(crate::pb::Failure),
}

} // verus!
