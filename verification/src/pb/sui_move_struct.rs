//! The alternatives of a Move struct.
use vstd::prelude::*;

verus! {

/// The alternatives of a struct value.
#[derive(PartialEq, Eq, Debug)]
pub enum SuiMoveStruct {
    Runtime(crate::pb::ListOfSuiMoveValues),
    WithTypes(crate::pb::WithTypes),
    WithFields(crate::pb::WithFields),
}

} // verus!
