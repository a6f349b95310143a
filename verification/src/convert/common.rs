//! One message for each entity, field by field.
//!
//! For each conversion a predicate says when a message is the message of an
//! entity. It leaves no field of the message open: texts are given by their
//! characters, lists item by item, and alternatives one by one.
use vstd::prelude::*;
use crate::encoding::{
    base58_encode, base58_text, base64_encode, base64_text, fits_base58, hex_text,
};
use crate::objects::{
    AuthorityName, CheckpointCommitment, EventID, GasCostSummary, MoveObjectType, ObjectType, StakeUnit,
    SuiEvent, SuiExecutionStatus, SuiMovePackage, SuiObjectResponseError, SuiParsedData,
    SuiParsedMoveObject, SuiRawData, SuiRawMoveObject, SuiRawMovePackage,
    SuiTransactionBlockEffectsModifiedAtVersions, SuiTransactionBlockEvents, TypeOrigin, UpgradeInfo, UID,
};
use crate::pb;
use crate::types::{ObjectID, OwnedObjectRef, Owner, SuiObjectRef};
use crate::values::{StructTag, SuiArgument, SuiMoveStruct, SuiMoveValue, TypeTag, Value};

verus! {

/// The message holds the address in its canonical form.
pub open spec fn object_id_as_pb(source: ObjectID, target: pb::ObjectId) -> bool {
    target.account_address@ == hex_text(source.bytes@)
}

/// The message of an object's address.
pub fn convert_sui_object(source: &ObjectID) -> (target: pb::ObjectId)
    ensures
        object_id_as_pb(*source, target),
{
    pb::ObjectId { account_address: source.to_canonical_string() }
}

/// The message holds the same type: the same alternative, and for a vector
/// the message of the type of its items, for a struct that of the struct type.
pub open spec fn type_tag_as_pb(source: TypeTag, target: pb::TypeTag) -> bool
    decreases source,
{
    match source {
        TypeTag::Bool => target.type_tag == Some(pb::type_tag::TypeTag::Bool),
        TypeTag::U8 => target.type_tag == Some(pb::type_tag::TypeTag::U8),
        TypeTag::U64 => target.type_tag == Some(pb::type_tag::TypeTag::U64),
        TypeTag::U128 => target.type_tag == Some(pb::type_tag::TypeTag::U128),
        TypeTag::Address => target.type_tag == Some(pb::type_tag::TypeTag::Address),
        TypeTag::Signer => target.type_tag == Some(pb::type_tag::TypeTag::Signer),
        TypeTag::Vector(inner) => target.type_tag matches Some(pb::type_tag::TypeTag::Vector(item))
            && type_tag_as_pb(*inner, *item),
        TypeTag::Struct(tag) => target.type_tag matches Some(pb::type_tag::TypeTag::Struct(message))
            && struct_tag_as_pb(*tag, message),
        TypeTag::U16 => target.type_tag == Some(pb::type_tag::TypeTag::U16),
        TypeTag::U32 => target.type_tag == Some(pb::type_tag::TypeTag::U32),
        TypeTag::U256 => target.type_tag == Some(pb::type_tag::TypeTag::U256),
    }
}

/// The message holds the address in its canonical form, the names of the
/// module and of the struct, and the message of each type parameter, in order.
pub open spec fn struct_tag_as_pb(source: StructTag, target: pb::StructTag) -> bool
    decreases source,
{
    &&& target.address@ == hex_text(source.address.bytes@)
    &&& target.module@ == source.module@
    &&& target.name@ == source.name@
    &&& target.type_params matches Some(params) && params.list.len() == source.type_params.len()
        && forall|i: int|
        0 <= i < source.type_params.len() ==> type_tag_as_pb(
            #[trigger] source.type_params[i],
            params.list[i],
        )
}

/// The message of a type.
pub fn convert_type_tag(source: &TypeTag) -> (target: pb::TypeTag)
    ensures
        type_tag_as_pb(*source, target),
    decreases source,
{
    let type_tag = match source {
        TypeTag::Bool => pb::type_tag::TypeTag::Bool,
        TypeTag::U8 => pb::type_tag::TypeTag::U8,
        TypeTag::U64 => pb::type_tag::TypeTag::U64,
        TypeTag::U128 => pb::type_tag::TypeTag::U128,
        TypeTag::Address => pb::type_tag::TypeTag::Address,
        TypeTag::Signer => pb::type_tag::TypeTag::Signer,
        TypeTag::Vector(inner) => pb::type_tag::TypeTag::Vector(Box::new(convert_type_tag(inner))),
        TypeTag::Struct(tag) => pb::type_tag::TypeTag::Struct(convert_struct_tag(tag)),
        TypeTag::U16 => pb::type_tag::TypeTag::U16,
        TypeTag::U32 => pb::type_tag::TypeTag::U32,
        TypeTag::U256 => pb::type_tag::TypeTag::U256,
    };
    pb::TypeTag { type_tag: Some(type_tag) }
}

/// The message of a struct type.
pub fn convert_struct_tag(source: &StructTag) -> (target: pb::StructTag)
    ensures
        struct_tag_as_pb(*source, target),
    decreases source,
{
    let mut list: Vec<pb::TypeTag> = Vec::new();
    let mut i: usize = 0;
    while i < source.type_params.len()
        invariant
            i <= source.type_params.len(),
            list.len() == i,
            forall|j: int| 0 <= j < i ==> type_tag_as_pb(#[trigger] source.type_params[j], list[j]),
        decreases source.type_params.len() - i,
    {
        let item = convert_type_tag(&source.type_params[i]);
        list.push(item);
        i += 1;
    }
    pb::StructTag {
        address: source.address.to_canonical_string(),
        module: source.module.clone(),
        name: source.name.clone(),
        type_params: Some(pb::ListOfTypeTags { list }),
    }
}

/// The message holds the same JSON value, but for an object, in whose place it holds null.
pub open spec fn json_value_as_pb(source: Value, target: pb::SuiJsonValue) -> bool
    decreases source,
{
    match source {
        Value::Null => target.value == Some(pb::sui_json_value::Value::Null),
        Value::Bool(b) => target.value == Some(pb::sui_json_value::Value::Bool(b)),
        Value::Number(number) => target.value matches Some(pb::sui_json_value::Value::Number(text))
            && text@ == number@,
        Value::String(string) => target.value matches Some(pb::sui_json_value::Value::String(text))
            && text@ == string@,
        Value::Array(items) => target.value matches Some(pb::sui_json_value::Value::Array(values))
            && values.list.len() == items.len() && forall|i: int|
            0 <= i < items.len() ==> json_value_as_pb(#[trigger] items[i], values.list[i]),
        Value::Object(_) => target.value == Some(pb::sui_json_value::Value::Null),
    }
}

/// The message of a JSON value. An object is not carried over: null stands in its place.
pub fn convert_sui_json_value(source: &Value) -> (target: pb::SuiJsonValue)
    ensures
        json_value_as_pb(*source, target),
    decreases source,
{
    let json_value = match source {
        Value::Null => pb::sui_json_value::Value::Null,
        Value::Bool(val) => pb::sui_json_value::Value::Bool(*val),
        Value::Number(val) => pb::sui_json_value::Value::Number(val.clone()),
        Value::String(val) => pb::sui_json_value::Value::String(val.clone()),
        Value::Array(val) => {
            let mut list: Vec<pb::SuiJsonValue> = Vec::new();
            let mut i: usize = 0;
            while i < val.len()
                invariant
                    i <= val.len(),
                    list.len() == i,
                    *source == Value::Array(*val),
                    forall|j: int| 0 <= j < i ==> json_value_as_pb(#[trigger] val[j], list[j]),
                decreases val.len() - i,
            {
                assert(decreases_to!(*source => source->Array_0));
                let item = convert_sui_json_value(&val[i]);
                list.push(item);
                i += 1;
            }
            pb::sui_json_value::Value::Array(pb::ListOfJsonValues { list })
        },
        Value::Object(_) => pb::sui_json_value::Value::Null,
    };
    pb::SuiJsonValue { value: Some(json_value) }
}

/// The message holds the same argument, its numbers widened.
pub open spec fn argument_as_pb(source: SuiArgument) -> pb::SuiArgument {
    pb::SuiArgument {
        sui_arguments: Some(
            match source {
                SuiArgument::GasCoin => pb::sui_argument::SuiArguments::GasCoin,
                SuiArgument::Input(index) => pb::sui_argument::SuiArguments::Input(index as u32),
                SuiArgument::Result(index) => pb::sui_argument::SuiArguments::Result(index as u32),
                SuiArgument::NestedResult(one, two) => pb::sui_argument::SuiArguments::NestedResult(
                    pb::PairOfU32 { one: one as u32, two: two as u32 },
                ),
            },
        ),
    }
}

/// The message of an argument.
pub fn convert_sui_argument(source: &SuiArgument) -> (target: pb::SuiArgument)
    ensures
        target == argument_as_pb(*source),
{
    let sui_arguments = match source {
        SuiArgument::GasCoin => pb::sui_argument::SuiArguments::GasCoin,
        SuiArgument::Input(val) => pb::sui_argument::SuiArguments::Input(*val as u32),
        SuiArgument::Result(val) => pb::sui_argument::SuiArguments::Result(*val as u32),
        SuiArgument::NestedResult(one, two) => pb::sui_argument::SuiArguments::NestedResult(
            pb::PairOfU32 { one: *one as u32, two: *two as u32 },
        ),
    };
    pb::SuiArgument { sui_arguments: Some(sui_arguments) }
}

/// The message holds the object's address, its version, and its digest in base 58.
pub open spec fn object_ref_as_pb(source: SuiObjectRef, target: pb::SuiObjectRef) -> bool {
    &&& target.object_id matches Some(id) && object_id_as_pb(source.object_id, id)
    &&& target.version == source.version.value
    &&& target.digest@ == base58_text(source.digest.bytes@)
}

/// The message of a reference to an object.
pub fn convert_sui_object_ref(source: &SuiObjectRef) -> (target: pb::SuiObjectRef)
    ensures
        object_ref_as_pb(*source, target),
{
    pb::SuiObjectRef {
        object_id: Some(convert_sui_object(&source.object_id)),
        version: source.version.value(),
        digest: source.digest.base58_encode(),
    }
}

/// The message holds the same owner: an address in hexadecimal, or the
/// version at which the object was first shared.
pub open spec fn owner_as_pb(source: Owner, target: pb::Owner) -> bool {
    match source {
        Owner::AddressOwner(address) => target.owner matches Some(pb::owner::Owner::AddressOwner(text))
            && text@ == hex_text(address.bytes@),
        Owner::ObjectOwner(address) => target.owner matches Some(pb::owner::Owner::ObjectOwner(text))
            && text@ == hex_text(address.bytes@),
        Owner::Shared { initial_shared_version } => target.owner == Some(
            pb::owner::Owner::Shared(pb::Shared { initial_shared_version: initial_shared_version.value }),
        ),
        Owner::Immutable => target.owner == Some(pb::owner::Owner::Immutable),
    }
}

/// The message of an owner.
pub fn convert_owner(source: &Owner) -> (target: pb::Owner)
    ensures
        owner_as_pb(*source, target),
{
    let owner = match source {
        Owner::AddressOwner(val) => pb::owner::Owner::AddressOwner(val.to_hex()),
        Owner::ObjectOwner(val) => pb::owner::Owner::ObjectOwner(val.to_hex()),
        Owner::Shared { initial_shared_version } => pb::owner::Owner::Shared(
            pb::Shared { initial_shared_version: initial_shared_version.value() },
        ),
        Owner::Immutable => pb::owner::Owner::Immutable,
    };
    pb::Owner { owner: Some(owner) }
}

/// The message holds the messages of the owner and of the reference.
pub open spec fn owned_object_ref_as_pb(source: OwnedObjectRef, target: pb::OwnedObjectRef) -> bool {
    &&& target.owner matches Some(owner) && owner_as_pb(source.owner, owner)
    &&& target.reference matches Some(reference) && object_ref_as_pb(source.reference, reference)
}

/// The message of a reference to an object with its owner.
pub fn convert_owned_object_ref(source: &OwnedObjectRef) -> (target: pb::OwnedObjectRef)
    ensures
        owned_object_ref_as_pb(*source, target),
{
    pb::OwnedObjectRef {
        owner: Some(convert_owner(&source.owner)),
        reference: Some(convert_sui_object_ref(&source.reference)),
    }
}

/// The message holds the same status, with the error's text where there is one.
pub open spec fn execution_status_as_pb(source: SuiExecutionStatus, target: pb::SuiExecutionStatus) -> bool {
    match source {
        SuiExecutionStatus::Success => target.sui_execution_status == Some(
            pb::sui_execution_status::SuiExecutionStatus::Success,
        ),
        SuiExecutionStatus::Failure { error } => target.sui_execution_status matches Some(
            pb::sui_execution_status::SuiExecutionStatus::Failure(failure),
        ) && failure.error@ == error@,
    }
}

/// The message of an execution status.
pub fn convert_sui_execution_status(source: &SuiExecutionStatus) -> (target: pb::SuiExecutionStatus)
    ensures
        execution_status_as_pb(*source, target),
{
    let sui_execution_status = match source {
        SuiExecutionStatus::Success => pb::sui_execution_status::SuiExecutionStatus::Success,
        SuiExecutionStatus::Failure { error } => pb::sui_execution_status::SuiExecutionStatus::Failure(
            pb::Failure { error: error.clone() },
        ),
    };
    pb::SuiExecutionStatus { sui_execution_status: Some(sui_execution_status) }
}

/// The message holds the same four amounts.
pub open spec fn gas_cost_summary_as_pb(source: GasCostSummary) -> pb::GasCostSummary {
    pb::GasCostSummary {
        computation_cost: source.computation_cost,
        storage_cost: source.storage_cost,
        storage_rebate: source.storage_rebate,
        non_refundable_storage_fee: source.non_refundable_storage_fee,
    }
}

/// The message of a gas cost summary.
pub fn convert_gas_cost_summary(source: &GasCostSummary) -> (target: pb::GasCostSummary)
    ensures
        target == gas_cost_summary_as_pb(*source),
{
    pb::GasCostSummary {
        computation_cost: source.computation_cost,
        storage_cost: source.storage_cost,
        storage_rebate: source.storage_rebate,
        non_refundable_storage_fee: source.non_refundable_storage_fee,
    }
}

/// The message holds the object's address and the version.
pub open spec fn modified_at_versions_as_pb(
    source: SuiTransactionBlockEffectsModifiedAtVersions,
    target: pb::SuiTransactionBlockEffectsModifiedAtVersions,
) -> bool {
    &&& target.object_id matches Some(id) && object_id_as_pb(source.object_id, id)
    &&& target.sequence_number == source.sequence_number.value
}

/// The message of the version at which an object was found.
pub fn convert_tx_block_effects_modified_at_versions(
    source: &SuiTransactionBlockEffectsModifiedAtVersions,
) -> (target: pb::SuiTransactionBlockEffectsModifiedAtVersions)
    ensures
        modified_at_versions_as_pb(*source, target),
{
    pb::SuiTransactionBlockEffectsModifiedAtVersions {
        object_id: Some(convert_sui_object(&source.object_id())),
        sequence_number: source.sequence_number().value(),
    }
}

/// The message holds the transaction's digest in base 58 and the event's number.
pub open spec fn event_id_as_pb(source: EventID, target: pb::EventId) -> bool {
    &&& target.tx_digest@ == base58_text(source.tx_digest.bytes@)
    &&& target.event_seq == source.event_seq
}

/// The message of the place of an event.
pub fn convert_event_id(source: &EventID) -> (target: pb::EventId)
    ensures
        event_id_as_pb(*source, target),
{
    pb::EventId { tx_digest: source.tx_digest.base58_encode(), event_seq: source.event_seq }
}

/// The message holds the event field by field: the sender in hexadecimal, the
/// serialised contents in base 58, and the messages of the rest.
pub open spec fn event_as_pb(source: SuiEvent, target: pb::SuiEvent) -> bool {
    &&& target.id matches Some(id) && event_id_as_pb(source.id, id)
    &&& target.package_id matches Some(package) && object_id_as_pb(source.package_id, package)
    &&& target.transaction_module@ == source.transaction_module@
    &&& target.sender@ == hex_text(source.sender.bytes@)
    &&& target.type_ matches Some(tag) && struct_tag_as_pb(source.type_, tag)
    &&& target.parsed_json matches Some(json) && json_value_as_pb(source.parsed_json, json)
    &&& target.bcs@ == base58_text(source.bcs@)
    &&& target.timestamp_ms == source.timestamp_ms
}

/// The message holds the message of each event, in order.
pub open spec fn events_as_pb(source: SuiTransactionBlockEvents, target: pb::SuiTransactionBlockEvents) -> bool {
    &&& target.data.len() == source.data.len()
    &&& forall|i: int| 0 <= i < source.data.len() ==> event_as_pb(#[trigger] source.data[i], target.data[i])
}

/// The serialised contents of every event are short enough for the base 58 encoder.
pub open spec fn events_fit(source: SuiTransactionBlockEvents) -> bool {
    forall|i: int| 0 <= i < source.data.len() ==> fits_base58((#[trigger] source.data[i]).bcs@.len())
}

/// Tells whether the serialised contents of every event are short enough for the base 58 encoder.
pub fn events_are_in_reach(source: &SuiTransactionBlockEvents) -> (fit: bool)
    ensures
        fit == events_fit(*source),
{
    let mut i: usize = 0;
    while i < source.data.len()
        invariant
            i <= source.data.len(),
            forall|j: int| 0 <= j < i ==> fits_base58((#[trigger] source.data[j]).bcs@.len()),
        decreases source.data.len() - i,
    {
        if source.data[i].bcs.len() > usize::MAX / 138 {
            return false;
        }
        i += 1;
    }
    true
}

/// The message of the events of a transaction.
pub fn convert_tx_block_events(source: &SuiTransactionBlockEvents) -> (target: pb::SuiTransactionBlockEvents)
    requires
        events_fit(*source),
    ensures
        events_as_pb(*source, target),
{
    let mut data: Vec<pb::SuiEvent> = Vec::new();
    let mut i: usize = 0;
    while i < source.data.len()
        invariant
            i <= source.data.len(),
            data.len() == i,
            events_fit(*source),
            forall|j: int| 0 <= j < i ==> event_as_pb(#[trigger] source.data[j], data[j]),
        decreases source.data.len() - i,
    {
        let e = &source.data[i];
        data.push(
            pb::SuiEvent {
                id: Some(convert_event_id(&e.id)),
                package_id: Some(convert_sui_object(&e.package_id)),
                transaction_module: e.transaction_module.clone(),
                sender: e.sender.to_hex(),
                type_: Some(convert_struct_tag(&e.type_)),
                parsed_json: Some(convert_sui_json_value(&e.parsed_json)),
                bcs: base58_encode(e.bcs.as_slice()),
                timestamp_ms: e.timestamp_ms,
            },
        );
        i += 1;
    }
    pb::SuiTransactionBlockEvents { data }
}

/// The message holds the same type of Move object.
pub open spec fn move_object_type_as_pb(source: MoveObjectType, target: pb::MoveObjectType) -> bool {
    match source {
        MoveObjectType::Other(tag) => target.move_object_type matches Some(
            pb::move_object_type::MoveObjectType::Other(message),
        ) && struct_tag_as_pb(tag, message),
        MoveObjectType::GasCoin => target.move_object_type == Some(
            pb::move_object_type::MoveObjectType::GasCoin,
        ),
        MoveObjectType::StakedSui => target.move_object_type == Some(
            pb::move_object_type::MoveObjectType::StakedSui,
        ),
        MoveObjectType::Coin(tag) => target.move_object_type matches Some(
            pb::move_object_type::MoveObjectType::Coin(message),
        ) && type_tag_as_pb(tag, message),
    }
}

/// The message holds the same type of object.
pub open spec fn object_type_as_pb(source: ObjectType, target: pb::ObjectType) -> bool {
    match source {
        ObjectType::Package => target.object_type == Some(pb::object_type::ObjectType::Package),
        ObjectType::Struct(object) => target.object_type matches Some(
            pb::object_type::ObjectType::Struct(message),
        ) && move_object_type_as_pb(object, message),
    }
}

/// The message of the type of an object.
pub fn convert_object_type(source: &ObjectType) -> (target: pb::ObjectType)
    ensures
        object_type_as_pb(*source, target),
{
    let object_type = match source {
        ObjectType::Package => pb::object_type::ObjectType::Package,
        ObjectType::Struct(source) => pb::object_type::ObjectType::Struct(convert_move_object_type(source)),
    };
    pb::ObjectType { object_type: Some(object_type) }
}

/// The message of the type of a Move object.
pub fn convert_move_object_type(source: &MoveObjectType) -> (target: pb::MoveObjectType)
    ensures
        move_object_type_as_pb(*source, target),
{
    let move_object_type = match source {
        MoveObjectType::Other(source) => pb::move_object_type::MoveObjectType::Other(
            convert_struct_tag(source),
        ),
        MoveObjectType::GasCoin => pb::move_object_type::MoveObjectType::GasCoin,
        MoveObjectType::StakedSui => pb::move_object_type::MoveObjectType::StakedSui,
        MoveObjectType::Coin(source) => pb::move_object_type::MoveObjectType::Coin(convert_type_tag(source)),
    };
    pb::MoveObjectType { move_object_type: Some(move_object_type) }
}

/// The message holds the same error with what it names.
pub open spec fn object_response_error_as_pb(
    source: SuiObjectResponseError,
    target: pb::SuiObjectResponseError,
) -> bool {
    match source {
        SuiObjectResponseError::NotExists { object_id } => target.sui_object_response_error matches Some(
            pb::sui_object_response_error::SuiObjectResponseError::NotExists(message),
        ) && message.object_id matches Some(id) && object_id_as_pb(object_id, id),
        SuiObjectResponseError::DynamicFieldNotFound {
            parent_object_id,
        } => target.sui_object_response_error matches Some(
            pb::sui_object_response_error::SuiObjectResponseError::DynamicFieldNotFound(message),
        ) && message.parent_object_id matches Some(id) && object_id_as_pb(parent_object_id, id),
        SuiObjectResponseError::Deleted {
            object_id,
            version,
            digest,
        } => target.sui_object_response_error matches Some(
            pb::sui_object_response_error::SuiObjectResponseError::Deleted(message),
        ) && message.object_id matches Some(id) && object_id_as_pb(object_id, id) && message.version
            == version.value && message.digest@ == base58_text(digest.bytes@),
        SuiObjectResponseError::Unknown => target.sui_object_response_error == Some(
            pb::sui_object_response_error::SuiObjectResponseError::Unknown,
        ),
        SuiObjectResponseError::DisplayError { error } => target.sui_object_response_error matches Some(
            pb::sui_object_response_error::SuiObjectResponseError::DisplayError(message),
        ) && message.error@ == error@,
    }
}

/// The message of an error in a response about an object.
pub fn convert_sui_object_response_error(source: &SuiObjectResponseError) -> (target: pb::SuiObjectResponseError)
    ensures
        object_response_error_as_pb(*source, target),
{
    let sui_object_response_error = match source {
        SuiObjectResponseError::NotExists {
            object_id,
        } => pb::sui_object_response_error::SuiObjectResponseError::NotExists(
            pb::sui_object_response_error::NotExists { object_id: Some(convert_sui_object(object_id)) },
        ),
        SuiObjectResponseError::DynamicFieldNotFound {
            parent_object_id,
        } => pb::sui_object_response_error::SuiObjectResponseError::DynamicFieldNotFound(
            pb::sui_object_response_error::DynamicFieldNotFound {
                parent_object_id: Some(convert_sui_object(parent_object_id)),
            },
        ),
        SuiObjectResponseError::Deleted {
            object_id,
            version,
            digest,
        } => pb::sui_object_response_error::SuiObjectResponseError::Deleted(
            pb::sui_object_response_error::Deleted {
                object_id: Some(convert_sui_object(object_id)),
                version: version.value(),
                digest: digest.base58_encode(),
            },
        ),
        SuiObjectResponseError::Unknown => pb::sui_object_response_error::SuiObjectResponseError::Unknown,
        SuiObjectResponseError::DisplayError {
            error,
        } => pb::sui_object_response_error::SuiObjectResponseError::DisplayError(
            pb::sui_object_response_error::DisplayError { error: error.clone() },
        ),
    };
    pb::SuiObjectResponseError { sui_object_response_error: Some(sui_object_response_error) }
}

/// No option within the value is empty.
pub open spec fn move_value_is_whole(source: SuiMoveValue) -> bool
    decreases source,
{
    match source {
        SuiMoveValue::Vector(items) => forall|i: int|
            0 <= i < items.len() ==> move_value_is_whole(#[trigger] items[i]),
        SuiMoveValue::Struct(fields) => move_struct_is_whole(fields),
        SuiMoveValue::Option(inner) => *inner matches Some(value) && move_value_is_whole(value),
        _ => true,
    }
}

/// No option within the struct is empty.
pub open spec fn move_struct_is_whole(source: SuiMoveStruct) -> bool
    decreases source,
{
    match source {
        SuiMoveStruct::Runtime(items) => forall|i: int|
            0 <= i < items.len() ==> move_value_is_whole(#[trigger] items[i]),
        SuiMoveStruct::WithTypes { type_, fields } => forall|i: int|
            0 <= i < fields.len() ==> move_value_is_whole((#[trigger] fields[i]).1),
        SuiMoveStruct::WithFields(fields) => forall|i: int|
            0 <= i < fields.len() ==> move_value_is_whole((#[trigger] fields[i]).1),
    }
}

/// The message holds the same value: an address in hexadecimal, and the
/// message of what a vector, a struct or an option holds.
pub open spec fn move_value_as_pb(source: SuiMoveValue, target: pb::SuiMoveValue) -> bool
    decreases source,
{
    match source {
        SuiMoveValue::Number(number) => target.sui_move_value == Some(
            pb::sui_move_value::SuiMoveValue::Number(number),
        ),
        SuiMoveValue::Bool(b) => target.sui_move_value == Some(pb::sui_move_value::SuiMoveValue::Bool(b)),
        SuiMoveValue::Address(address) => target.sui_move_value matches Some(
            pb::sui_move_value::SuiMoveValue::Address(text),
        ) && text@ == hex_text(address.bytes@),
        SuiMoveValue::Vector(items) => target.sui_move_value matches Some(
            pb::sui_move_value::SuiMoveValue::Vector(values),
        ) && values.list.len() == items.len() && forall|i: int|
            0 <= i < items.len() ==> move_value_as_pb(#[trigger] items[i], values.list[i]),
        SuiMoveValue::String(string) => target.sui_move_value matches Some(
            pb::sui_move_value::SuiMoveValue::String(text),
        ) && text@ == string@,
        SuiMoveValue::UID { id } => target.sui_move_value matches Some(
            pb::sui_move_value::SuiMoveValue::Uid(uid),
        ) && uid.id matches Some(message) && object_id_as_pb(id, message),
        SuiMoveValue::Struct(fields) => target.sui_move_value matches Some(
            pb::sui_move_value::SuiMoveValue::Struct(message),
        ) && move_struct_as_pb(fields, message),
        SuiMoveValue::Option(inner) => target.sui_move_value matches Some(
            pb::sui_move_value::SuiMoveValue::Option(message),
        ) && *inner matches Some(value) && move_value_as_pb(value, *message),
    }
}

/// The message holds the same struct: its values in order, or its fields in
/// order under the same names, with the message of its type where it has one.
pub open spec fn move_struct_as_pb(source: SuiMoveStruct, target: pb::SuiMoveStruct) -> bool
    decreases source,
{
    match source {
        SuiMoveStruct::Runtime(items) => target.sui_move_struct matches Some(
            pb::sui_move_struct::SuiMoveStruct::Runtime(values),
        ) && values.list.len() == items.len() && forall|i: int|
            0 <= i < items.len() ==> move_value_as_pb(#[trigger] items[i], values.list[i]),
        SuiMoveStruct::WithTypes { type_, fields } => target.sui_move_struct matches Some(
            pb::sui_move_struct::SuiMoveStruct::WithTypes(message),
        ) && message.type_ matches Some(tag) && struct_tag_as_pb(type_, tag) && message.fields.len()
            == fields.len() && forall|i: int|
            0 <= i < fields.len() ==> message.fields[i].0@ == (#[trigger] fields[i]).0@
                && move_value_as_pb(fields[i].1, message.fields[i].1),
        SuiMoveStruct::WithFields(fields) => target.sui_move_struct matches Some(
            pb::sui_move_struct::SuiMoveStruct::WithFields(message),
        ) && message.fields.len() == fields.len() && forall|i: int|
            0 <= i < fields.len() ==> message.fields[i].0@ == (#[trigger] fields[i]).0@
                && move_value_as_pb(fields[i].1, message.fields[i].1),
    }
}

/// Tells whether no option within the value is empty.
pub fn move_value_has_no_empty_option(source: &SuiMoveValue) -> (whole: bool)
    ensures
        whole == move_value_is_whole(*source),
    decreases source,
{
    match source {
        SuiMoveValue::Vector(items) => {
            let mut i: usize = 0;
            while i < items.len()
                invariant
                    i <= items.len(),
                    *source == SuiMoveValue::Vector(*items),
                    forall|j: int| 0 <= j < i ==> move_value_is_whole(#[trigger] items[j]),
                decreases items.len() - i,
            {
                assert(decreases_to!(*source => source->Vector_0));
                if !move_value_has_no_empty_option(&items[i]) {
                    return false;
                }
                i += 1;
            }
            true
        },
        SuiMoveValue::Struct(fields) => move_struct_has_no_empty_option(fields),
        SuiMoveValue::Option(inner) => match &**inner {
            Some(value) => move_value_has_no_empty_option(value),
            None => false,
        },
        _ => true,
    }
}

/// Tells whether no option within the struct is empty.
pub fn move_struct_has_no_empty_option(source: &SuiMoveStruct) -> (whole: bool)
    ensures
        whole == move_struct_is_whole(*source),
    decreases source,
{
    match source {
        SuiMoveStruct::Runtime(items) => {
            let mut i: usize = 0;
            while i < items.len()
                invariant
                    i <= items.len(),
                    *source == SuiMoveStruct::Runtime(*items),
                    forall|j: int| 0 <= j < i ==> move_value_is_whole(#[trigger] items[j]),
                decreases items.len() - i,
            {
                assert(decreases_to!(*source => source->Runtime_0));
                if !move_value_has_no_empty_option(&items[i]) {
                    return false;
                }
                i += 1;
            }
            true
        },
        SuiMoveStruct::WithTypes { type_, fields } => {
            let mut i: usize = 0;
            while i < fields.len()
                invariant
                    i <= fields.len(),
                    *source matches SuiMoveStruct::WithTypes { fields: all, .. } && all == *fields,
                    forall|j: int| 0 <= j < i ==> move_value_is_whole((#[trigger] fields[j]).1),
                decreases fields.len() - i,
            {
                assert(decreases_to!(*source => source->WithTypes_fields));
                if !move_value_has_no_empty_option(&fields[i].1) {
                    return false;
                }
                i += 1;
            }
            true
        },
        SuiMoveStruct::WithFields(fields) => {
            let mut i: usize = 0;
            while i < fields.len()
                invariant
                    i <= fields.len(),
                    *source == SuiMoveStruct::WithFields(*fields),
                    forall|j: int| 0 <= j < i ==> move_value_is_whole((#[trigger] fields[j]).1),
                decreases fields.len() - i,
            {
                assert(decreases_to!(*source => source->WithFields_0));
                if !move_value_has_no_empty_option(&fields[i].1) {
                    return false;
                }
                i += 1;
            }
            true
        },
    }
}

/// The message of a struct value in which no option is empty.
pub fn convert_sui_move_struct(source: &SuiMoveStruct) -> (target: pb::SuiMoveStruct)
    requires
        move_struct_is_whole(*source),
    ensures
        move_struct_as_pb(*source, target),
    decreases source,
{
    let sui_move_struct = match source {
        SuiMoveStruct::Runtime(source_items) => {
            let mut list: Vec<pb::SuiMoveValue> = Vec::new();
            let mut i: usize = 0;
            while i < source_items.len()
                invariant
                    i <= source_items.len(),
                    list.len() == i,
                    *source == SuiMoveStruct::Runtime(*source_items),
                    move_struct_is_whole(*source),
                    forall|j: int| 0 <= j < i ==> move_value_as_pb(#[trigger] source_items[j], list[j]),
                decreases source_items.len() - i,
            {
                assert(decreases_to!(*source => source->Runtime_0));
                let item = convert_sui_move_value(&source_items[i]);
                list.push(item);
                i += 1;
            }
            pb::sui_move_struct::SuiMoveStruct::Runtime(pb::ListOfSuiMoveValues { list })
        },
        SuiMoveStruct::WithTypes { type_, fields } => {
            let mut fields_: Vec<(String, pb::SuiMoveValue)> = Vec::new();
            let mut i: usize = 0;
            while i < fields.len()
                invariant
                    i <= fields.len(),
                    fields_.len() == i,
                    *source matches SuiMoveStruct::WithTypes { fields: all, .. } && all == *fields,
                    move_struct_is_whole(*source),
                    forall|j: int|
                        0 <= j < i ==> fields_[j].0@ == (#[trigger] fields[j]).0@ && move_value_as_pb(
                            fields[j].1,
                            fields_[j].1,
                        ),
                decreases fields.len() - i,
            {
                assert(decreases_to!(*source => source->WithTypes_fields));
                let value = convert_sui_move_value(&fields[i].1);
                fields_.push((fields[i].0.clone(), value));
                i += 1;
            }
            pb::sui_move_struct::SuiMoveStruct::WithTypes(
                pb::WithTypes { type_: Some(convert_struct_tag(type_)), fields: fields_ },
            )
        },
        SuiMoveStruct::WithFields(source_fields) => {
            let mut fields: Vec<(String, pb::SuiMoveValue)> = Vec::new();
            let mut i: usize = 0;
            while i < source_fields.len()
                invariant
                    i <= source_fields.len(),
                    fields.len() == i,
                    *source == SuiMoveStruct::WithFields(*source_fields),
                    move_struct_is_whole(*source),
                    forall|j: int|
                        0 <= j < i ==> fields[j].0@ == (#[trigger] source_fields[j]).0@
                            && move_value_as_pb(source_fields[j].1, fields[j].1),
                decreases source_fields.len() - i,
            {
                assert(decreases_to!(*source => source->WithFields_0));
                let value = convert_sui_move_value(&source_fields[i].1);
                fields.push((source_fields[i].0.clone(), value));
                i += 1;
            }
            pb::sui_move_struct::SuiMoveStruct::WithFields(pb::WithFields { fields })
        },
    };
    pb::SuiMoveStruct { sui_move_struct: Some(sui_move_struct) }
}

/// The message of a value in which no option is empty.
pub fn convert_sui_move_value(source: &SuiMoveValue) -> (target: pb::SuiMoveValue)
    requires
        move_value_is_whole(*source),
    ensures
        move_value_as_pb(*source, target),
    decreases source,
{
    let sui_move_value = match source {
        SuiMoveValue::Number(source) => pb::sui_move_value::SuiMoveValue::Number(*source),
        SuiMoveValue::Bool(source) => pb::sui_move_value::SuiMoveValue::Bool(*source),
        SuiMoveValue::Address(source) => pb::sui_move_value::SuiMoveValue::Address(source.to_hex()),
        SuiMoveValue::Vector(items) => {
            let mut list: Vec<pb::SuiMoveValue> = Vec::new();
            let mut i: usize = 0;
            while i < items.len()
                invariant
                    i <= items.len(),
                    list.len() == i,
                    *source == SuiMoveValue::Vector(*items),
                    move_value_is_whole(*source),
                    forall|j: int| 0 <= j < i ==> move_value_as_pb(#[trigger] items[j], list[j]),
                decreases items.len() - i,
            {
                assert(decreases_to!(*source => source->Vector_0));
                let item = convert_sui_move_value(&items[i]);
                list.push(item);
                i += 1;
            }
            pb::sui_move_value::SuiMoveValue::Vector(pb::ListOfSuiMoveValues { list })
        },
        SuiMoveValue::String(source) => pb::sui_move_value::SuiMoveValue::String(source.clone()),
        SuiMoveValue::UID { id } => pb::sui_move_value::SuiMoveValue::Uid(
            pb::Uid { id: Some(convert_sui_object(id)) },
        ),
        SuiMoveValue::Struct(source) => pb::sui_move_value::SuiMoveValue::Struct(
            convert_sui_move_struct(source),
        ),
        SuiMoveValue::Option(inner) => match &**inner {
            Some(value) => pb::sui_move_value::SuiMoveValue::Option(Box::new(convert_sui_move_value(value))),
            None => unreached(),
        },
    };
    pb::SuiMoveValue { sui_move_value: Some(sui_move_value) }
}

/// The message holds the message of the object's type and fields.
pub open spec fn parsed_move_object_as_pb(source: SuiParsedMoveObject, target: pb::SuiParsedMoveObject) -> bool {
    &&& target.type_ matches Some(tag) && struct_tag_as_pb(source.type_, tag)
    &&& target.has_public_transfer == source.has_public_transfer
    &&& target.fields matches Some(fields) && move_struct_as_pb(source.fields, fields)
}

/// The message holds the message of each module under the module's name, in order.
pub open spec fn move_package_as_pb(source: SuiMovePackage, target: pb::SuiMovePackage) -> bool {
    &&& target.disassembled.len() == source.disassembled.len()
    &&& forall|i: int|
        0 <= i < source.disassembled.len() ==> target.disassembled[i].0@ == (
        #[trigger] source.disassembled[i]).0@ && json_value_as_pb(
            source.disassembled[i].1,
            target.disassembled[i].1,
        )
}

/// The message holds the message of the object or of the package.
pub open spec fn parsed_data_as_pb(source: SuiParsedData, target: pb::SuiParsedData) -> bool {
    match source {
        SuiParsedData::MoveObject(object) => target.sui_parsed_data matches Some(
            pb::sui_parsed_data::SuiParsedData::MoveObject(message),
        ) && parsed_move_object_as_pb(object, message),
        SuiParsedData::Package(package) => target.sui_parsed_data matches Some(
            pb::sui_parsed_data::SuiParsedData::Package(message),
        ) && move_package_as_pb(package, message),
    }
}

/// No option within the fields of a parsed Move object is empty.
pub open spec fn parsed_data_is_whole(source: SuiParsedData) -> bool {
    source matches SuiParsedData::MoveObject(object) ==> move_struct_is_whole(object.fields)
}

/// The message of the parsed contents of an object.
pub fn convert_sui_parsed_data(source: &SuiParsedData) -> (target: pb::SuiParsedData)
    requires
        parsed_data_is_whole(*source),
    ensures
        parsed_data_as_pb(*source, target),
{
    let sui_parsed_data = match source {
        SuiParsedData::MoveObject(source) => pb::sui_parsed_data::SuiParsedData::MoveObject(
            convert_sui_parsed_move_object(source),
        ),
        SuiParsedData::Package(source) => pb::sui_parsed_data::SuiParsedData::Package(
            convert_sui_move_package(source),
        ),
    };
    pb::SuiParsedData { sui_parsed_data: Some(sui_parsed_data) }
}

/// The message of a parsed Move object.
pub fn convert_sui_parsed_move_object(source: &SuiParsedMoveObject) -> (target: pb::SuiParsedMoveObject)
    requires
        move_struct_is_whole(source.fields),
    ensures
        parsed_move_object_as_pb(*source, target),
{
    pb::SuiParsedMoveObject {
        type_: Some(convert_struct_tag(&source.type_)),
        has_public_transfer: source.has_public_transfer,
        fields: Some(convert_sui_move_struct(&source.fields)),
    }
}

/// The message holds the address of the object's identity.
pub open spec fn uid_as_pb(source: UID, target: pb::Uid) -> bool {
    target.id matches Some(id) && object_id_as_pb(source.id, id)
}

/// The message of the identity of a Move object.
pub fn convert_uid(source: &UID) -> (target: pb::Uid)
    ensures
        uid_as_pb(*source, target),
{
    pb::Uid { id: Some(convert_sui_object(source.object_id())) }
}

/// The message of a disassembled package.
pub fn convert_sui_move_package(source: &SuiMovePackage) -> (target: pb::SuiMovePackage)
    ensures
        move_package_as_pb(*source, target),
{
    let mut disassembled: Vec<(String, pb::SuiJsonValue)> = Vec::new();
    let mut i: usize = 0;
    while i < source.disassembled.len()
        invariant
            i <= source.disassembled.len(),
            disassembled.len() == i,
            forall|j: int|
                0 <= j < i ==> disassembled[j].0@ == (#[trigger] source.disassembled[j]).0@
                    && json_value_as_pb(source.disassembled[j].1, disassembled[j].1),
        decreases source.disassembled.len() - i,
    {
        let entry = &source.disassembled[i];
        disassembled.push((entry.0.clone(), convert_sui_json_value(&entry.1)));
        i += 1;
    }
    pb::SuiMovePackage { disassembled }
}

/// The message holds the message of the object's type, its version, and the same bytes.
pub open spec fn raw_move_object_as_pb(source: SuiRawMoveObject, target: pb::SuiRawMoveObject) -> bool {
    &&& target.type_ matches Some(tag) && struct_tag_as_pb(source.type_, tag)
    &&& target.has_public_transfer == source.has_public_transfer
    &&& target.version == source.version.value
    &&& target.bcs_bytes@ == source.bcs_bytes@
}

/// The message holds where the struct was first declared.
pub open spec fn type_origin_as_pb(source: TypeOrigin, target: pb::TypeOrigin) -> bool {
    &&& target.module_name@ == source.module_name@
    &&& target.struct_name@ == source.struct_name@
    &&& target.package matches Some(package) && object_id_as_pb(source.package, package)
}

/// The message holds the address and the version of the dependency.
pub open spec fn upgrade_info_as_pb(source: UpgradeInfo, target: pb::UpgradeInfo) -> bool {
    &&& target.upgraded_id matches Some(id) && object_id_as_pb(source.upgraded_id, id)
    &&& target.upgraded_version == source.upgraded_version.value
}

/// The message holds the package's address and version, each module's bytes
/// under the module's name, the message of each type origin, and the
/// message of each dependency under the dependency's address in full with
/// the prefix `0x`, all in order.
pub open spec fn raw_move_package_as_pb(source: SuiRawMovePackage, target: pb::SuiRawMovePackage) -> bool {
    &&& target.id matches Some(id) && object_id_as_pb(source.id, id)
    &&& target.version == source.version.value
    &&& target.module_map.len() == source.module_map.len()
    &&& forall|i: int|
        0 <= i < source.module_map.len() ==> target.module_map[i].0@ == (#[trigger] source.module_map[i]).0@
            && target.module_map[i].1@ == source.module_map[i].1@
    &&& target.type_origin_table.len() == source.type_origin_table.len()
    &&& forall|i: int|
        0 <= i < source.type_origin_table.len() ==> type_origin_as_pb(
            #[trigger] source.type_origin_table[i],
            target.type_origin_table[i],
        )
    &&& target.linkage_table.len() == source.linkage_table.len()
    &&& forall|i: int|
        0 <= i < source.linkage_table.len() ==> target.linkage_table[i].0@ == "0x"@ + hex_text(
            (#[trigger] source.linkage_table[i]).0.bytes@,
        ) && upgrade_info_as_pb(source.linkage_table[i].1, target.linkage_table[i].1)
}

/// The message holds the message of the object or of the package.
pub open spec fn raw_data_as_pb(source: SuiRawData, target: pb::SuiRawData) -> bool {
    match source {
        SuiRawData::MoveObject(object) => target.sui_raw_data matches Some(
            pb::sui_raw_data::SuiRawData::MoveObject(message),
        ) && raw_move_object_as_pb(object, message),
        SuiRawData::Package(package) => target.sui_raw_data matches Some(
            pb::sui_raw_data::SuiRawData::Package(message),
        ) && raw_move_package_as_pb(package, message),
    }
}

/// The message of the raw contents of an object.
pub fn convert_sui_raw_data(source: &SuiRawData) -> (target: pb::SuiRawData)
    ensures
        raw_data_as_pb(*source, target),
{
    let sui_raw_data = match source {
        SuiRawData::MoveObject(source) => pb::sui_raw_data::SuiRawData::MoveObject(
            convert_sui_raw_move_object(source),
        ),
        SuiRawData::Package(source) => pb::sui_raw_data::SuiRawData::Package(
            convert_sui_raw_move_package(source),
        ),
    };
    pb::SuiRawData { sui_raw_data: Some(sui_raw_data) }
}

/// The same bytes in a list of their own.
fn copy_bytes(bytes: &Vec<u8>) -> (copy: Vec<u8>)
    ensures
        copy@ == bytes@,
{
    let mut copy: Vec<u8> = Vec::new();
    let mut i: usize = 0;
    while i < bytes.len()
        invariant
            i <= bytes.len(),
            copy@ == bytes@.take(i as int),
        decreases bytes.len() - i,
    {
        copy.push(bytes[i]);
        i += 1;
    }
    copy
}

/// The message of a serialised Move object.
pub fn convert_sui_raw_move_object(source: &SuiRawMoveObject) -> (target: pb::SuiRawMoveObject)
    ensures
        raw_move_object_as_pb(*source, target),
{
    pb::SuiRawMoveObject {
        type_: Some(convert_struct_tag(&source.type_)),
        has_public_transfer: source.has_public_transfer,
        version: source.version.value(),
        bcs_bytes: copy_bytes(&source.bcs_bytes),
    }
}

/// The message of a serialised package.
pub fn convert_sui_raw_move_package(source: &SuiRawMovePackage) -> (target: pb::SuiRawMovePackage)
    ensures
        raw_move_package_as_pb(*source, target),
{
    let mut linkage_table: Vec<(String, pb::UpgradeInfo)> = Vec::new();
    let mut i: usize = 0;
    while i < source.linkage_table.len()
        invariant
            i <= source.linkage_table.len(),
            linkage_table.len() == i,
            forall|j: int|
                0 <= j < i ==> linkage_table[j].0@ == "0x"@ + hex_text(
                    (#[trigger] source.linkage_table[j]).0.bytes@,
                ) && upgrade_info_as_pb(source.linkage_table[j].1, linkage_table[j].1),
        decreases source.linkage_table.len() - i,
    {
        let entry = &source.linkage_table[i];
        // The key is the address in full, as text: a message cannot be the key of a map.
        linkage_table.push((entry.0.to_hex_uncompressed(), convert_upgrade_info(&entry.1)));
        i += 1;
    }
    let mut module_map: Vec<(String, Vec<u8>)> = Vec::new();
    let mut k: usize = 0;
    while k < source.module_map.len()
        invariant
            k <= source.module_map.len(),
            module_map.len() == k,
            forall|j: int|
                0 <= j < k ==> module_map[j].0@ == (#[trigger] source.module_map[j]).0@ && module_map[j].1@
                    == source.module_map[j].1@,
        decreases source.module_map.len() - k,
    {
        let entry = &source.module_map[k];
        module_map.push((entry.0.clone(), copy_bytes(&entry.1)));
        k += 1;
    }
    let mut type_origin_table: Vec<pb::TypeOrigin> = Vec::new();
    let mut n: usize = 0;
    while n < source.type_origin_table.len()
        invariant
            n <= source.type_origin_table.len(),
            type_origin_table.len() == n,
            forall|j: int|
                0 <= j < n ==> type_origin_as_pb(
                    #[trigger] source.type_origin_table[j],
                    type_origin_table[j],
                ),
        decreases source.type_origin_table.len() - n,
    {
        type_origin_table.push(convert_type_origin(&source.type_origin_table[n]));
        n += 1;
    }
    pb::SuiRawMovePackage {
        id: Some(convert_sui_object(&source.id)),
        version: source.version.value(),
        module_map,
        type_origin_table,
        linkage_table,
    }
}

/// The message of the origin of a struct.
pub fn convert_type_origin(source: &TypeOrigin) -> (target: pb::TypeOrigin)
    ensures
        type_origin_as_pb(*source, target),
{
    pb::TypeOrigin {
        module_name: source.module_name.clone(),
        struct_name: source.struct_name.clone(),
        package: Some(convert_sui_object(&source.package)),
    }
}

/// The message of the version of a dependency.
pub fn convert_upgrade_info(source: &UpgradeInfo) -> (target: pb::UpgradeInfo)
    ensures
        upgrade_info_as_pb(*source, target),
{
    pb::UpgradeInfo {
        upgraded_id: Some(convert_sui_object(&source.upgraded_id)),
        upgraded_version: source.upgraded_version.value(),
    }
}

/// The message holds the digest of the set of live objects in base 58.
pub open spec fn checkpoint_commitment_as_pb(source: CheckpointCommitment, target: pb::CheckpointCommitment) -> bool {
    match source {
        CheckpointCommitment::ECMHLiveObjectSetDigest(commitment) => target.checkpoint_commitment matches Some(
            pb::checkpoint_commitment::CheckpointCommitment::EcmhLiveObjectSetDigest(message),
        ) && message.digest@ == base58_text(commitment.digest@),
    }
}

/// The message of a checkpoint commitment.
pub fn convert_checkpoint_commitment(source: &CheckpointCommitment) -> (target: pb::CheckpointCommitment)
    ensures
        checkpoint_commitment_as_pb(*source, target),
{
    let checkpoint_commitment = match source {
        CheckpointCommitment::ECMHLiveObjectSetDigest(
            source,
        ) => pb::checkpoint_commitment::CheckpointCommitment::EcmhLiveObjectSetDigest(
            pb::EcmhLiveObjectSetDigest { digest: base58_encode(source.digest.as_slice()) },
        ),
    };
    pb::CheckpointCommitment { checkpoint_commitment: Some(checkpoint_commitment) }
}

/// The message holds the authority's key in base 64 and its voting power.
pub open spec fn next_epoch_committee_as_pb(source: (AuthorityName, StakeUnit), target: pb::NextEpochCommittee) -> bool {
    &&& target.authority_name@ == base64_text(source.0.bytes@)
    &&& target.stake_unit == source.1
}

/// The message of a member of the next epoch's committee.
pub fn convert_next_epoch_committee(source: &(AuthorityName, StakeUnit)) -> (target: pb::NextEpochCommittee)
    ensures
        next_epoch_committee_as_pb(*source, target),
{
    pb::NextEpochCommittee { authority_name: base64_encode(source.0.bytes.as_slice()), stake_unit: source.1 }
}

} // verus!
