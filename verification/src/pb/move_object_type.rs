//! The alternatives of the type of a Move object.
use vstd::prelude::*;

verus! {

/// The alternatives of the type of a Move object.
#[derive(PartialEq, Eq, Debug)]
pub enum MoveObjectType {
    Other(crate::pb::StructTag),
    GasCoin,
    StakedSui,
    Coin(crate::pb::TypeTag),
}

} // verus!
