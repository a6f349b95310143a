//! The alternatives of a JSON value.
use vstd::prelude::*;

verus! {

/// The alternatives of a JSON value.
#[derive(PartialEq, Eq, Debug)]
pub enum Value {
    Null,
    Bool(bool),
    Number(String),
    String(String),
    Array(crate::pb::ListOfJsonValues),
}

} // verus!
