//! The alternatives of a type tag.
use vstd::prelude::*;

verus! {

/// The alternatives of a type.
#[derive(PartialEq, Eq, Debug)]
pub enum TypeTag {
    Bool,
    U8,
    U64,
    U128,
    Address,
    Signer,
    Vector(Box<crate::pb::TypeTag>),
    Struct(crate::pb::StructTag),
    U16,
    U32,
    U256,
}

} // verus!
