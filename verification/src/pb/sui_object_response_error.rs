//! The alternatives of an error in a response about an object.
use vstd::prelude::*;

verus! {

/// No object stands at the address.
#[derive(PartialEq, Eq, Debug)]
pub struct NotExists {
    pub object_id: Option<crate::pb::ObjectId>,
}

/// The parent object has no such dynamic field.
#[derive(PartialEq, Eq, Debug)]
pub struct DynamicFieldNotFound {
    pub parent_object_id: Option<crate::pb::ObjectId>,
}

/// The object was deleted at this version.
#[derive(PartialEq, Eq, Debug)]
pub struct Deleted {
    pub object_id: Option<crate::pb::ObjectId>,
    pub version: u64,
    pub digest: String,
}

/// The object could not be displayed.
#[derive(PartialEq, Eq, Debug)]
pub struct DisplayError {
    pub error: String,
}

/// The alternatives of an error in a response about an object.
#[derive(PartialEq, Eq, Debug)]
pub enum SuiObjectResponseError {
    NotExists(NotExists),
    DynamicFieldNotFound(DynamicFieldNotFound),
    Deleted(Deleted),
    Unknown,
    DisplayError(DisplayError),
}

} // verus!
