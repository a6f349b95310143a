//! The alternatives of the raw contents of an object.
use vstd::prelude::*;

verus! {

/// The alternatives of the raw contents of an object.
#[derive(PartialEq, Eq, Debug)]
pub enum SuiRawData {
    MoveObject(crate::pb::SuiRawMoveObject),
    Package(crate::pb::SuiRawMovePackage),
}

} // verus!
