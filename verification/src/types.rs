//! The ledger's entities, as far as acquisition reads them.
//!
//! Identifiers and references are plain copyable values. The records that own a
//! list or a payload come with a view: the same record with `Seq` in place of
//! `Vec`, which is what the contracts of this crate speak of.
use vstd::prelude::*;
use vstd::string::StringExecFns;
use crate::encoding::{base58_encode, base58_text, hex_encode, hex_text};

verus! {

/// The address of an object: 32 bytes.
#[derive(Clone, Copy, PartialEq, Eq, Debug, Hash)]
pub struct ObjectID {
    pub bytes: [u8; 32],
}

impl ObjectID {
    /// The address in its canonical form: 64 hexadecimal digits in lower case, without a prefix.
    pub fn to_canonical_string(&self) -> (text: String)
        ensures
            text@ == hex_text(self.bytes@),
    {
        hex_encode(self.bytes.as_slice())
    }

    /// The address in full with the prefix `0x`: no leading zero is left out.
    pub fn to_hex_uncompressed(&self) -> (text: String)
        ensures
            text@ == "0x"@ + hex_text(self.bytes@),
    {
        let digits = hex_encode(self.bytes.as_slice());
        String::from_str("0x").concat(digits.as_str())
    }
}

/// The address of an account or of a package: 32 bytes.
#[derive(Clone, Copy, PartialEq, Eq, Debug, Hash)]
pub struct AccountAddress {
    pub bytes: [u8; 32],
}

impl AccountAddress {
    /// The address in its canonical form: 64 hexadecimal digits in lower case, without a prefix.
    pub fn to_canonical_string(&self) -> (text: String)
        ensures
            text@ == hex_text(self.bytes@),
    {
        hex_encode(self.bytes.as_slice())
    }
}

/// The version of an object.
#[derive(Clone, Copy, PartialEq, Eq, Debug, Hash)]
pub struct SequenceNumber {
    pub value: u64,
}

impl SequenceNumber {
    /// The version as a number.
    pub fn value(&self) -> (v: u64)
        ensures
            v == self.value,
    {
        self.value
    }
}

/// The digest of an object's contents: 32 bytes.
#[derive(Clone, Copy, PartialEq, Eq, Debug, Hash)]
pub struct ObjectDigest {
    pub bytes: [u8; 32],
}

impl ObjectDigest {
    /// The digest in base 58.
    pub fn base58_encode(&self) -> (text: String)
        ensures
            text@ == base58_text(self.bytes@),
    {
        base58_encode(self.bytes.as_slice())
    }
}

/// The digest that names a transaction: 32 bytes.
#[derive(Clone, Copy, PartialEq, Eq, Debug, Hash)]
pub struct TransactionDigest {
    pub bytes: [u8; 32],
}

impl TransactionDigest {
    /// The digest in base 58.
    pub fn base58_encode(&self) -> (text: String)
        ensures
            text@ == base58_text(self.bytes@),
    {
        base58_encode(self.bytes.as_slice())
    }
}

/// The address of an account: 32 bytes.
#[derive(Clone, Copy, PartialEq, Eq, Debug, Hash)]
pub struct SuiAddress {
    pub bytes: [u8; 32],
}

impl SuiAddress {
    /// The address in hexadecimal: 64 digits in lower case, without a prefix.
    pub fn to_hex(&self) -> (text: String)
        ensures
            text@ == hex_text(self.bytes@),
    {
        hex_encode(self.bytes.as_slice())
    }
}

/// Who may use an object.
#[derive(Clone, Copy, PartialEq, Eq, Debug, Hash)]
pub enum Owner {
    AddressOwner(SuiAddress),
    ObjectOwner(SuiAddress),
    Shared { initial_shared_version: SequenceNumber },
    Immutable,
}

/// An object at one version.
#[derive(Clone, Copy, PartialEq, Eq, Debug, Hash)]
pub struct SuiObjectRef {
    pub object_id: ObjectID,
    pub version: SequenceNumber,
    pub digest: ObjectDigest,
}

/// An object at one version, with its owner.
#[derive(Clone, Copy, PartialEq, Eq, Debug, Hash)]
pub struct OwnedObjectRef {
    pub owner: Owner,
    pub reference: SuiObjectRef,
}

/// How a transaction changed an object.
#[derive(Clone, Copy, PartialEq, Eq, Debug, Hash)]
pub enum ObjectStatus {
    Created,
    Mutated,
    Unwrapped,
}

/// One object's change of state: the object, the version it was left at, and the kind of change.
pub type ObjectChange = (ObjectID, SequenceNumber, ObjectStatus);

/// The request for one object at one version.
#[derive(Clone, Copy, PartialEq, Eq, Debug, Hash)]
pub struct SuiGetPastObjectRequest {
    pub object_id: ObjectID,
    pub version: SequenceNumber,
}

/// What of an object the remote service is to hand out.
#[derive(Clone, Copy, PartialEq, Eq, Debug, Hash)]
pub struct SuiObjectDataOptions {
    pub show_type: bool,
    pub show_owner: bool,
    pub show_previous_transaction: bool,
    pub show_display: bool,
    pub show_content: bool,
    pub show_bcs: bool,
    pub show_storage_rebate: bool,
}

impl SuiObjectDataOptions {
    /// The options that ask for the raw contents and all that goes with them,
    /// so that nothing of the object is lost: no parsed contents and no display.
    pub open spec fn spec_bcs_lossless() -> SuiObjectDataOptions {
        SuiObjectDataOptions {
            show_type: true,
            show_owner: true,
            show_previous_transaction: true,
            show_display: false,
            show_content: false,
            show_bcs: true,
            show_storage_rebate: true,
        }
    }

    /// The options that ask for the raw contents and all that goes with them.
    #[verifier::when_used_as_spec(spec_bcs_lossless)]
    pub fn bcs_lossless() -> (options: SuiObjectDataOptions)
        ensures
            options == Self::spec_bcs_lossless(),
    {
        SuiObjectDataOptions {
            show_type: true,
            show_owner: true,
            show_previous_transaction: true,
            show_display: false,
            show_content: false,
            show_bcs: true,
            show_storage_rebate: true,
        }
    }
}

/// Why a request for an object at a version found no object.
#[derive(Clone, Copy, PartialEq, Eq, Debug, Hash)]
pub enum PastObjectError {
    ObjectNotExists(ObjectID),
    ObjectDeleted(SuiObjectRef),
    VersionNotFound(ObjectID, SequenceNumber),
    VersionTooHigh { object_id: ObjectID, asked_version: SequenceNumber, latest_version: SequenceNumber },
}

/// The views of the items of a sequence, in order.
pub open spec fn views<T: View>(items: Seq<T>) -> Seq<T::V> {
    Seq::new(items.len(), |i: int| items[i]@)
}

/// A checkpoint as the remote service confirmed it.
#[derive(Clone, PartialEq, Eq, Debug)]
pub struct Checkpoint {
    pub sequence_number: u64,
    pub transactions: Vec<TransactionDigest>,
}

/// `Checkpoint` as the contracts see it: with `Seq` in place of `Vec` and `String`.
pub struct CheckpointView {
    pub sequence_number: u64,
    pub transactions: Seq<TransactionDigest>,
}

impl View for Checkpoint {
    type V = CheckpointView;

    open spec fn view(&self) -> CheckpointView {
        CheckpointView { sequence_number: self.sequence_number, transactions: self.transactions@ }
    }
}

/// What a transaction did to objects: those it created, those it mutated, and
/// those it unwrapped, each list in the order of execution.
#[derive(Clone, PartialEq, Eq, Debug)]
pub struct SuiTransactionBlockEffects {
    pub created: Vec<OwnedObjectRef>,
    pub mutated: Vec<OwnedObjectRef>,
    pub unwrapped: Vec<OwnedObjectRef>,
}

/// `SuiTransactionBlockEffects` as the contracts see it: with `Seq` in place of `Vec` and `String`.
pub struct SuiTransactionBlockEffectsView {
    pub created: Seq<OwnedObjectRef>,
    pub mutated: Seq<OwnedObjectRef>,
    pub unwrapped: Seq<OwnedObjectRef>,
}

impl View for SuiTransactionBlockEffects {
    type V = SuiTransactionBlockEffectsView;

    open spec fn view(&self) -> SuiTransactionBlockEffectsView {
        SuiTransactionBlockEffectsView {
            created: self.created@,
            mutated: self.mutated@,
            unwrapped: self.unwrapped@,
        }
    }
}

/// One executed transaction with its effects.
#[derive(Clone, PartialEq, Eq, Debug)]
pub struct CheckpointTransactionBlockResponse {
    pub digest: TransactionDigest,
    pub effects: SuiTransactionBlockEffects,
}

/// `CheckpointTransactionBlockResponse` as the contracts see it: with `Seq` in place of `Vec` and `String`.
pub struct CheckpointTransactionBlockResponseView {
    pub digest: TransactionDigest,
    pub effects: SuiTransactionBlockEffectsView,
}

impl View for CheckpointTransactionBlockResponse {
    type V = CheckpointTransactionBlockResponseView;

    open spec fn view(&self) -> CheckpointTransactionBlockResponseView {
        CheckpointTransactionBlockResponseView { digest: self.digest, effects: self.effects@ }
    }
}

/// The state of one object at one version, with its raw contents.
#[derive(Clone, PartialEq, Eq, Debug)]
pub struct SuiObjectData {
    pub object_id: ObjectID,
    pub version: SequenceNumber,
    pub digest: ObjectDigest,
    pub payload: Vec<u8>,
}

/// `SuiObjectData` as the contracts see it: with `Seq` in place of `Vec` and `String`.
pub struct SuiObjectDataView {
    pub object_id: ObjectID,
    pub version: SequenceNumber,
    pub digest: ObjectDigest,
    pub payload: Seq<u8>,
}

impl View for SuiObjectData {
    type V = SuiObjectDataView;

    open spec fn view(&self) -> SuiObjectDataView {
        SuiObjectDataView {
            object_id: self.object_id,
            version: self.version,
            digest: self.digest,
            payload: self.payload@,
        }
    }
}

/// The answer to a request for one object at one version.
#[derive(Clone, PartialEq, Eq, Debug)]
pub enum SuiPastObjectResponse {
    VersionFound(SuiObjectData),
    ObjectNotExists(ObjectID),
    ObjectDeleted(SuiObjectRef),
    VersionNotFound(ObjectID, SequenceNumber),
    VersionTooHigh { object_id: ObjectID, asked_version: SequenceNumber, latest_version: SequenceNumber },
}

/// `SuiPastObjectResponse` as the contracts see it: with `Seq` in place of `Vec` and `String`.
pub enum SuiPastObjectResponseView {
    VersionFound(SuiObjectDataView),
    ObjectNotExists(ObjectID),
    ObjectDeleted(SuiObjectRef),
    VersionNotFound(ObjectID, SequenceNumber),
    VersionTooHigh { object_id: ObjectID, asked_version: SequenceNumber, latest_version: SequenceNumber },
}

impl View for SuiPastObjectResponse {
    type V = SuiPastObjectResponseView;

    open spec fn view(&self) -> SuiPastObjectResponseView {
        match *self {
            SuiPastObjectResponse::VersionFound(data) => SuiPastObjectResponseView::VersionFound(data@),
            SuiPastObjectResponse::ObjectNotExists(id) => SuiPastObjectResponseView::ObjectNotExists(id),
            SuiPastObjectResponse::ObjectDeleted(r) => SuiPastObjectResponseView::ObjectDeleted(r),
            SuiPastObjectResponse::VersionNotFound(id, version) => {
                SuiPastObjectResponseView::VersionNotFound(id, version)
            },
            SuiPastObjectResponse::VersionTooHigh { object_id, asked_version, latest_version } => {
                SuiPastObjectResponseView::VersionTooHigh { object_id, asked_version, latest_version }
            },
        }
    }
}

impl SuiPastObjectResponseView {
    /// The object that the answer holds, or why it holds none.
    pub open spec fn object(self) -> Result<SuiObjectDataView, PastObjectError> {
        match self {
            SuiPastObjectResponseView::VersionFound(data) => Ok(data),
            SuiPastObjectResponseView::ObjectNotExists(id) => Err(PastObjectError::ObjectNotExists(id)),
            SuiPastObjectResponseView::ObjectDeleted(r) => Err(PastObjectError::ObjectDeleted(r)),
            SuiPastObjectResponseView::VersionNotFound(id, version) => {
                Err(PastObjectError::VersionNotFound(id, version))
            },
            SuiPastObjectResponseView::VersionTooHigh { object_id, asked_version, latest_version } => {
                Err(PastObjectError::VersionTooHigh { object_id, asked_version, latest_version })
            },
        }
    }
}

impl SuiPastObjectResponse {
    /// Hands out the object if the version was found, and the reason if it was not.
    pub fn into_object(self) -> (r: Result<SuiObjectData, PastObjectError>)
        ensures
            match r {
                Ok(data) => self@.object() == Ok::<SuiObjectDataView, PastObjectError>(data@),
                Err(e) => self@.object() == Err::<SuiObjectDataView, PastObjectError>(e),
            },
    {
        match self {
            SuiPastObjectResponse::VersionFound(data) => Ok(data),
            SuiPastObjectResponse::ObjectNotExists(id) => Err(PastObjectError::ObjectNotExists(id)),
            SuiPastObjectResponse::ObjectDeleted(r) => Err(PastObjectError::ObjectDeleted(r)),
            SuiPastObjectResponse::VersionNotFound(id, version) => {
                Err(PastObjectError::VersionNotFound(id, version))
            },
            SuiPastObjectResponse::VersionTooHigh { object_id, asked_version, latest_version } => {
                Err(PastObjectError::VersionTooHigh { object_id, asked_version, latest_version })
            },
        }
    }
}

/// The views of a list of changed objects: each kind of change with the view of its object.
pub open spec fn changed_objects_view(items: Seq<(ObjectStatus, SuiObjectData)>) -> Seq<
    (ObjectStatus, SuiObjectDataView),
> {
    Seq::new(items.len(), |i: int| (items[i].0, items[i].1@))
}

/// All that one checkpoint did: the checkpoint, its transactions in the
/// checkpoint's order, and the objects they changed, each with the kind of change.
#[derive(Clone, PartialEq, Eq, Debug)]
pub struct CheckpointData {
    pub checkpoint: Checkpoint,
    pub transactions: Vec<CheckpointTransactionBlockResponse>,
    pub changed_objects: Vec<(ObjectStatus, SuiObjectData)>,
}

/// `CheckpointData` as the contracts see it: with `Seq` in place of `Vec` and `String`.
pub struct CheckpointDataView {
    pub checkpoint: CheckpointView,
    pub transactions: Seq<CheckpointTransactionBlockResponseView>,
    pub changed_objects: Seq<(ObjectStatus, SuiObjectDataView)>,
}

impl View for CheckpointData {
    type V = CheckpointDataView;

    open spec fn view(&self) -> CheckpointDataView {
        CheckpointDataView {
            checkpoint: self.checkpoint@,
            transactions: views(self.transactions@),
            changed_objects: changed_objects_view(self.changed_objects@),
        }
    }
}

} // verus!
