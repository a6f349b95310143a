//! Types and values of the ledger's language, and JSON values.
use vstd::prelude::*;
use crate::types::{AccountAddress, ObjectID, SuiAddress};

verus! {

/// The type of a value.
#[derive(PartialEq, Eq, Debug)]
pub enum TypeTag {
    Bool,
    U8,
    U64,
    U128,
    Address,
    Signer,
    Vector(Box<TypeTag>),
    Struct(Box<StructTag>),
    U16,
    U32,
    U256,
}

/// A struct type: where it is declared, and what its type parameters stand for.
#[derive(PartialEq, Eq, Debug)]
pub struct StructTag {
    pub address: AccountAddress,
    pub module: String,
    pub name: String,
    pub type_params: Vec<TypeTag>,
}

/// A JSON value. A number is held as its decimal text; an object as its
/// members, each name once.
#[derive(PartialEq, Eq, Debug)]
pub enum Value {
    Null,
    Bool(bool),
    Number(String),
    String(String),
    Array(Vec<Value>),
    Object(Vec<(String, Value)>),
}

/// An argument of a command of a programmable transaction.
#[derive(Clone, Copy, PartialEq, Eq, Debug)]
pub enum SuiArgument {
    GasCoin,
    Input(u16),
    Result(u16),
    NestedResult(u16, u16),
}

/// A struct value: its fields by position, by name with the struct's type, or by name.
/// Named fields stand in the order of their names, each name once.
#[derive(PartialEq, Eq, Debug)]
pub enum SuiMoveStruct {
    Runtime(Vec<SuiMoveValue>),
    WithTypes { type_: StructTag, fields: Vec<(String, SuiMoveValue)> },
    WithFields(Vec<(String, SuiMoveValue)>),
}

/// A value.
#[derive(PartialEq, Eq, Debug)]
pub enum SuiMoveValue {
    Number(u32),
    Bool(bool),
    Address(SuiAddress),
    Vector(Vec<SuiMoveValue>),
    String(String),
    UID { id: ObjectID },
    Struct(SuiMoveStruct),
    Option(Box<Option<SuiMoveValue>>),
}

} // verus!
