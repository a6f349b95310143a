//! The alternatives of a Move value.
use vstd::prelude::*;

verus! {

/// The alternatives of a value.
#[derive(PartialEq, Eq, Debug)]
pub enum SuiMoveValue {
    Number(u32),
    Bool(bool),
    Address(String),
    Vector(crate::pb::ListOfSuiMoveValues),
    String(String),
    Uid(crate::pb::Uid),
    Struct(crate::pb::SuiMoveStruct),
    Option(Box<crate::pb::SuiMoveValue>),
}

} // verus!
