//! The alternatives of an argument of a programmable transaction.
use vstd::prelude::*;

verus! {

/// The alternatives of an argument.
#[derive(Clone, Copy, PartialEq, Eq, Debug)]
pub enum SuiArguments {
    GasCoin,
    Input(u32),
    Result(u32),
    NestedResult(crate::pb::PairOfU32),
}

} // verus!
