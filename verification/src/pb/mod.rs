//! The messages of the wire schema that ledger entities are converted into.
//!
//! A message that is one of several alternatives holds them in `Option`: the
//! alternatives of `TypeTag` are `type_tag::TypeTag`, and so on. Where the
//! schema has a map, the message holds its entries as a list of pairs, each key once.
use vstd::prelude::*;

pub mod checkpoint_commitment;
pub mod move_object_type;
pub mod object_type;
pub mod owner;
pub mod sui_argument;
pub mod sui_execution_status;
pub mod sui_json_value;
pub mod sui_move_struct;
pub mod sui_move_value;
pub mod sui_object_response_error;
pub mod sui_parsed_data;
pub mod sui_raw_data;
pub mod type_tag;

verus! {

/// The address of an object, as text.
#[derive(PartialEq, Eq, Debug)]
pub struct ObjectId {
    pub account_address: String,
}

/// A type.
#[derive(PartialEq, Eq, Debug)]
pub struct TypeTag {
    pub type_tag: Option<type_tag::TypeTag>,
}

/// A list of types.
#[derive(PartialEq, Eq, Debug)]
pub struct ListOfTypeTags {
    pub list: Vec<TypeTag>,
}

/// A struct type: the address and module that declare it, its name, and its type parameters.
#[derive(PartialEq, Eq, Debug)]
pub struct StructTag {
    pub address: String,
    pub module: String,
    pub name: String,
    pub type_params: Option<ListOfTypeTags>,
}

/// A JSON value.
#[derive(PartialEq, Eq, Debug)]
pub struct SuiJsonValue {
    pub value: Option<sui_json_value::Value>,
}

/// A list of JSON values.
#[derive(PartialEq, Eq, Debug)]
pub struct ListOfJsonValues {
    pub list: Vec<SuiJsonValue>,
}

/// An argument of a command of a programmable transaction.
#[derive(PartialEq, Eq, Debug)]
pub struct SuiArgument {
    pub sui_arguments: Option<sui_argument::SuiArguments>,
}

/// Two numbers.
#[derive(Clone, Copy, PartialEq, Eq, Debug)]
pub struct PairOfU32 {
    pub one: u32,
    pub two: u32,
}

/// An object at one version, with its digest as text.
#[derive(PartialEq, Eq, Debug)]
pub struct SuiObjectRef {
    pub object_id: Option<ObjectId>,
    pub version: u64,
    pub digest: String,
}

/// How the execution of a transaction ended.
#[derive(PartialEq, Eq, Debug)]
pub struct SuiExecutionStatus {
    pub sui_execution_status: Option<sui_execution_status::SuiExecutionStatus>,
}

/// The error that a failed execution ended with.
#[derive(PartialEq, Eq, Debug)]
pub struct Failure {
    pub error: String,
}

/// What a transaction cost.
#[derive(Clone, Copy, PartialEq, Eq, Debug)]
pub struct GasCostSummary {
    pub computation_cost: u64,
    pub storage_cost: u64,
    pub storage_rebate: u64,
    pub non_refundable_storage_fee: u64,
}

/// Who may use an object.
#[derive(PartialEq, Eq, Debug)]
pub struct Owner {
    pub owner: Option<owner::Owner>,
}

/// The version at which an object was first shared.
#[derive(Clone, Copy, PartialEq, Eq, Debug)]
pub struct Shared {
    pub initial_shared_version: u64,
}

/// An object at one version, with its owner.
#[derive(PartialEq, Eq, Debug)]
pub struct OwnedObjectRef {
    pub owner: Option<Owner>,
    pub reference: Option<SuiObjectRef>,
}

/// The version at which a transaction found an object that it modified.
#[derive(PartialEq, Eq, Debug)]
pub struct SuiTransactionBlockEffectsModifiedAtVersions {
    pub object_id: Option<ObjectId>,
    pub sequence_number: u64,
}

/// The place of an event: its transaction's digest as text, and its number.
#[derive(PartialEq, Eq, Debug)]
pub struct EventId {
    pub tx_digest: String,
    pub event_seq: u64,
}

/// An event that a transaction emitted.
#[derive(PartialEq, Eq, Debug)]
pub struct SuiEvent {
    pub id: Option<EventId>,
    pub package_id: Option<ObjectId>,
    pub transaction_module: String,
    pub sender: String,
    pub type_: Option<StructTag>,
    pub parsed_json: Option<SuiJsonValue>,
    pub bcs: String,
    pub timestamp_ms: Option<u64>,
}

/// The events of a transaction.
#[derive(PartialEq, Eq, Debug)]
pub struct SuiTransactionBlockEvents {
    pub data: Vec<SuiEvent>,
}

/// The type of an object.
#[derive(PartialEq, Eq, Debug)]
pub struct ObjectType {
    pub object_type: Option<object_type::ObjectType>,
}

/// The type of a Move object.
#[derive(PartialEq, Eq, Debug)]
pub struct MoveObjectType {
    pub move_object_type: Option<move_object_type::MoveObjectType>,
}

/// Why a response holds no object.
#[derive(PartialEq, Eq, Debug)]
pub struct SuiObjectResponseError {
    pub sui_object_response_error: Option<sui_object_response_error::SuiObjectResponseError>,
}

/// The parsed contents of an object.
#[derive(PartialEq, Eq, Debug)]
pub struct SuiParsedData {
    pub sui_parsed_data: Option<sui_parsed_data::SuiParsedData>,
}

/// A Move object with its fields parsed.
#[derive(PartialEq, Eq, Debug)]
pub struct SuiParsedMoveObject {
    pub type_: Option<StructTag>,
    pub has_public_transfer: bool,
    pub fields: Option<SuiMoveStruct>,
}

/// A struct value.
#[derive(PartialEq, Eq, Debug)]
pub struct SuiMoveStruct {
    pub sui_move_struct: Option<sui_move_struct::SuiMoveStruct>,
}

/// A list of values.
#[derive(PartialEq, Eq, Debug)]
pub struct ListOfSuiMoveValues {
    pub list: Vec<SuiMoveValue>,
}

/// The fields of a struct by name, with the struct's type.
#[derive(PartialEq, Eq, Debug)]
pub struct WithTypes {
    pub type_: Option<StructTag>,
    pub fields: Vec<(String, SuiMoveValue)>,
}

/// The fields of a struct by name.
#[derive(PartialEq, Eq, Debug)]
pub struct WithFields {
    pub fields: Vec<(String, SuiMoveValue)>,
}

/// A value.
#[derive(PartialEq, Eq, Debug)]
pub struct SuiMoveValue {
    pub sui_move_value: Option<sui_move_value::SuiMoveValue>,
}

/// The identity of a Move object.
#[derive(PartialEq, Eq, Debug)]
pub struct Uid {
    pub id: Option<ObjectId>,
}

/// A package as its disassembled modules, by name.
#[derive(PartialEq, Eq, Debug)]
pub struct SuiMovePackage {
    pub disassembled: Vec<(String, SuiJsonValue)>,
}

/// The raw contents of an object.
#[derive(PartialEq, Eq, Debug)]
pub struct SuiRawData {
    pub sui_raw_data: Option<sui_raw_data::SuiRawData>,
}

/// A Move object as its serialised bytes.
#[derive(PartialEq, Eq, Debug)]
pub struct SuiRawMoveObject {
    pub type_: Option<StructTag>,
    pub has_public_transfer: bool,
    pub version: u64,
    pub bcs_bytes: Vec<u8>,
}

/// A package as its serialised modules, by name, with its tables.
#[derive(PartialEq, Eq, Debug)]
pub struct SuiRawMovePackage {
    pub id: Option<ObjectId>,
    pub version: u64,
    pub module_map: Vec<(String, Vec<u8>)>,
    pub type_origin_table: Vec<TypeOrigin>,
    pub linkage_table: Vec<(String, UpgradeInfo)>,
}

/// Where a struct of a package was first declared.
#[derive(PartialEq, Eq, Debug)]
pub struct TypeOrigin {
    pub module_name: String,
    pub struct_name: String,
    pub package: Option<ObjectId>,
}

/// The version of a dependency that a package is linked against.
#[derive(PartialEq, Eq, Debug)]
pub struct UpgradeInfo {
    pub upgraded_id: Option<ObjectId>,
    pub upgraded_version: u64,
}

/// What a checkpoint commits to.
#[derive(PartialEq, Eq, Debug)]
pub struct CheckpointCommitment {
    pub checkpoint_commitment: Option<checkpoint_commitment::CheckpointCommitment>,
}

/// The digest of the set of live objects, as text.
#[derive(PartialEq, Eq, Debug)]
pub struct EcmhLiveObjectSetDigest {
    pub digest: String,
}

/// A member of the next epoch's committee: its key as text, and its voting power.
#[derive(PartialEq, Eq, Debug)]
pub struct NextEpochCommittee {
    pub authority_name: String,
    pub stake_unit: u64,
}

} // verus!
