//! The alternatives of an object type.
use vstd::prelude::*;

verus! {

/// The alternatives of the type of an object.
#[derive(PartialEq, Eq, Debug)]
pub enum ObjectType {
    Package,
    Struct(crate::pb::MoveObjectType),
}

} // verus!
