//! The alternatives of an owner.
use vstd::prelude::*;

verus! {

/// The alternatives of an owner.
#[derive(PartialEq, Eq, Debug)]
pub enum Owner {
    AddressOwner(String),
    ObjectOwner(String),
    Shared(crate::pb::Shared),
    Immutable,
}

} // verus!
