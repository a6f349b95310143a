//! The alternatives of the parsed contents of an object.
use vstd::prelude::*;

verus! {

/// The alternatives of the parsed contents of an object.
#[derive(PartialEq, Eq, Debug)]
pub enum SuiParsedData {
    MoveObject(crate::pb::SuiParsedMoveObject),
    Package(crate::pb::SuiMovePackage),
}

} // verus!
