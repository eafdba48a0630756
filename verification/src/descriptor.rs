//! The descriptors that the generator reads: files, messages, fields and enums,
//! as the protocol compiler hands them over.
//!
//! Every field of a descriptor is optional, as on the wire; the generator
//! states in its preconditions which of them it needs.
use vstd::prelude::*;

verus! {

/// The type of a field.
#[derive(Clone, Copy, PartialEq, Eq, Structural, Debug)]
pub enum FieldDescriptorProtoType {
    TypeDouble,
    TypeFloat,
    TypeInt64,
    TypeUint64,
    TypeInt32,
    TypeFixed64,
    TypeFixed32,
    TypeBool,
    TypeString,
    TypeGroup,
    TypeMessage,
    TypeBytes,
    TypeUint32,
    TypeEnum,
    TypeSfixed32,
    TypeSfixed64,
    TypeSint32,
    TypeSint64,
}

/// How many values a field holds.
#[derive(Clone, Copy, PartialEq, Eq, Structural, Debug)]
pub enum FieldDescriptorProtoLabel {
    LabelOptional,
    LabelRequired,
    LabelRepeated,
}

/// Options of a field.
#[derive(Debug)]
pub struct FieldOptions {
    pub packed: Option<bool>,
}

/// A field of a message.
#[derive(Debug)]
pub struct FieldDescriptorProto {
    pub name: Option<String>,
    pub number: Option<i32>,
    pub label: Option<FieldDescriptorProtoLabel>,
    pub field_type: Option<FieldDescriptorProtoType>,
    /// For message and enum fields: the full name of the type, such as `.pkg.Msg`.
    pub type_path: Option<String>,
    pub options: Option<FieldOptions>,
}

/// A value of an enum.
#[derive(Debug)]
pub struct EnumValueDescriptorProto {
    pub name: Option<String>,
    pub number: Option<i32>,
}

/// An enum type.
#[derive(Debug)]
pub struct EnumDescriptorProto {
    pub name: Option<String>,
    pub value: Vec<EnumValueDescriptorProto>,
}

/// A message type, with the messages and enums nested in it.
#[derive(Debug)]
pub struct DescriptorProto {
    pub name: Option<String>,
    pub field: Vec<FieldDescriptorProto>,
    pub nested_type: Vec<DescriptorProto>,
    pub enum_type: Vec<EnumDescriptorProto>,
}

/// A `.proto` file.
#[derive(Debug)]
pub struct FileDescriptorProto {
    pub name: Option<String>,
    pub package: Option<String>,
    pub dependency: Vec<String>,
    pub message_type: Vec<DescriptorProto>,
    pub enum_type: Vec<EnumDescriptorProto>,
}

} // verus!
