//! What the ledger says of objects, events and checkpoints beyond their references.
use vstd::prelude::*;
use crate::types::{ObjectDigest, ObjectID, SequenceNumber, SuiAddress, TransactionDigest};
use crate::values::{StructTag, SuiMoveStruct, TypeTag, Value};

verus! {

/// How the execution of a transaction ended.
#[derive(Clone, PartialEq, Eq, Debug)]
pub enum SuiExecutionStatus {
    Success,
    Failure { error: String },
}

/// What a transaction cost.
#[derive(Clone, Copy, PartialEq, Eq, Debug)]
pub struct GasCostSummary {
    pub computation_cost: u64,
    pub storage_cost: u64,
    pub storage_rebate: u64,
    pub non_refundable_storage_fee: u64,
}

/// The version at which a transaction found an object that it modified.
#[derive(Clone, Copy, PartialEq, Eq, Debug)]
pub struct SuiTransactionBlockEffectsModifiedAtVersions {
    pub object_id: ObjectID,
    pub sequence_number: SequenceNumber,
}

impl SuiTransactionBlockEffectsModifiedAtVersions {
    pub fn object_id(&self) -> (id: ObjectID)
        ensures
            id == self.object_id,
    {
        self.object_id
    }

    pub fn sequence_number(&self) -> (version: SequenceNumber)
        ensures
            version == self.sequence_number,
    {
        self.sequence_number
    }
}

/// The place of an event: its transaction, and its number among that transaction's events.
#[derive(Clone, Copy, PartialEq, Eq, Debug)]
pub struct EventID {
    pub tx_digest: TransactionDigest,
    pub event_seq: u64,
}

/// An event that a transaction emitted.
#[derive(PartialEq, Eq, Debug)]
pub struct SuiEvent {
    pub id: EventID,
    pub package_id: ObjectID,
    pub transaction_module: String,
    pub sender: SuiAddress,
    pub type_: StructTag,
    pub parsed_json: Value,
    pub bcs: Vec<u8>,
    pub timestamp_ms: Option<u64>,
}

/// The events of a transaction, in the order they were emitted.
#[derive(PartialEq, Eq, Debug)]
pub struct SuiTransactionBlockEvents {
    pub data: Vec<SuiEvent>,
}

/// The type of a Move object.
#[derive(PartialEq, Eq, Debug)]
pub enum MoveObjectType {
    Other(StructTag),
    GasCoin,
    StakedSui,
    Coin(TypeTag),
}

/// The type of an object: a package, or a Move object of some type.
#[derive(PartialEq, Eq, Debug)]
pub enum ObjectType {
    Package,
    Struct(MoveObjectType),
}

/// Why a response holds no object.
#[derive(Clone, PartialEq, Eq, Debug)]
pub enum SuiObjectResponseError {
    NotExists { object_id: ObjectID },
    DynamicFieldNotFound { parent_object_id: ObjectID },
    Deleted { object_id: ObjectID, version: SequenceNumber, digest: ObjectDigest },
    Unknown,
    DisplayError { error: String },
}

/// The identity that a Move object carries in its first field.
#[derive(Clone, Copy, PartialEq, Eq, Debug)]
pub struct UID {
    pub id: ObjectID,
}

impl UID {
    pub fn object_id(&self) -> (id: &ObjectID)
        ensures
            *id == self.id,
    {
        &self.id
    }
}

/// A Move object with its fields parsed.
#[derive(PartialEq, Eq, Debug)]
pub struct SuiParsedMoveObject {
    pub type_: StructTag,
    pub has_public_transfer: bool,
    pub fields: SuiMoveStruct,
}

/// A package as its disassembled modules, by name: each name once, in the order of the names.
#[derive(PartialEq, Eq, Debug)]
pub struct SuiMovePackage {
    pub disassembled: Vec<(String, Value)>,
}

/// The parsed contents of an object.
#[derive(PartialEq, Eq, Debug)]
pub enum SuiParsedData {
    MoveObject(SuiParsedMoveObject),
    Package(SuiMovePackage),
}

/// A Move object as its serialised bytes.
#[derive(PartialEq, Eq, Debug)]
pub struct SuiRawMoveObject {
    pub type_: StructTag,
    pub has_public_transfer: bool,
    pub version: SequenceNumber,
    pub bcs_bytes: Vec<u8>,
}

/// Where a struct of a package was first declared.
#[derive(Clone, PartialEq, Eq, Debug)]
pub struct TypeOrigin {
    pub module_name: String,
    pub struct_name: String,
    pub package: ObjectID,
}

/// The version of a dependency that a package is linked against.
#[derive(Clone, Copy, PartialEq, Eq, Debug)]
pub struct UpgradeInfo {
    pub upgraded_id: ObjectID,
    pub upgraded_version: SequenceNumber,
}

/// A package as its serialised modules, by name, with its tables. Each module
/// name and each dependency stands once, in the order of the names and of the addresses.
#[derive(PartialEq, Eq, Debug)]
pub struct SuiRawMovePackage {
    pub id: ObjectID,
    pub version: SequenceNumber,
    pub module_map: Vec<(String, Vec<u8>)>,
    pub type_origin_table: Vec<TypeOrigin>,
    pub linkage_table: Vec<(ObjectID, UpgradeInfo)>,
}

/// The raw contents of an object.
#[derive(PartialEq, Eq, Debug)]
pub enum SuiRawData {
    MoveObject(SuiRawMoveObject),
    Package(SuiRawMovePackage),
}

/// The digest of the set of live objects: 32 bytes.
#[derive(Clone, Copy, PartialEq, Eq, Debug)]
pub struct ECMHLiveObjectSetDigest {
    pub digest: [u8; 32],
}

/// What a checkpoint commits to.
#[derive(Clone, Copy, PartialEq, Eq, Debug)]
pub enum CheckpointCommitment {
    ECMHLiveObjectSetDigest(ECMHLiveObjectSetDigest),
}

/// The public key that names an authority: 96 bytes.
#[derive(Clone, Copy, PartialEq, Eq, Debug)]
pub struct AuthorityName {
    pub bytes: [u8; 96],
}

/// The voting power of an authority.
pub type StakeUnit = u64;

} // verus!
