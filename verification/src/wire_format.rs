//! Wire types of the protocol buffer encoding, and the sizes that the
//! generated code needs from them.
use vstd::prelude::*;
use crate::descriptor::FieldDescriptorProtoType;

verus! {

/// How a value is laid out on the wire.
#[derive(Clone, Copy, PartialEq, Eq, Structural, Debug)]
pub enum WireType {
    WireTypeVarint,
    WireTypeFixed64,
    WireTypeLengthDelimited,
    WireTypeStartGroup,
    WireTypeEndGroup,
    WireTypeFixed32,
}

/// The name under which a wire type is written into generated code.
pub open spec fn spec_wire_type_name(w: WireType) -> Seq<char> {
    match w {
        WireType::WireTypeVarint => "WireTypeVarint"@,
        WireType::WireTypeFixed64 => "WireTypeFixed64"@,
        WireType::WireTypeLengthDelimited => "WireTypeLengthDelimited"@,
        WireType::WireTypeStartGroup => "WireTypeStartGroup"@,
        WireType::WireTypeEndGroup => "WireTypeEndGroup"@,
        WireType::WireTypeFixed32 => "WireTypeFixed32"@,
    }
}

/// The name under which a wire type is written into generated code.
pub fn wire_type_name(w: WireType) -> (r: &'static str)
    ensures
        r@ == spec_wire_type_name(w),
{
    match w {
        WireType::WireTypeVarint => "WireTypeVarint",
        WireType::WireTypeFixed64 => "WireTypeFixed64",
        WireType::WireTypeLengthDelimited => "WireTypeLengthDelimited",
        WireType::WireTypeStartGroup => "WireTypeStartGroup",
        WireType::WireTypeEndGroup => "WireTypeEndGroup",
        WireType::WireTypeFixed32 => "WireTypeFixed32",
    }
}

/// The wire type of each field type; groups have none.
pub open spec fn spec_field_type_wire_type(t: FieldDescriptorProtoType) -> WireType
    recommends
        t != FieldDescriptorProtoType::TypeGroup,
{
    match t {
        FieldDescriptorProtoType::TypeInt32 => WireType::WireTypeVarint,
        FieldDescriptorProtoType::TypeInt64 => WireType::WireTypeVarint,
        FieldDescriptorProtoType::TypeUint32 => WireType::WireTypeVarint,
        FieldDescriptorProtoType::TypeUint64 => WireType::WireTypeVarint,
        FieldDescriptorProtoType::TypeSint32 => WireType::WireTypeVarint,
        FieldDescriptorProtoType::TypeSint64 => WireType::WireTypeVarint,
        FieldDescriptorProtoType::TypeBool => WireType::WireTypeVarint,
        FieldDescriptorProtoType::TypeEnum => WireType::WireTypeVarint,
        FieldDescriptorProtoType::TypeFixed32 => WireType::WireTypeFixed32,
        FieldDescriptorProtoType::TypeFixed64 => WireType::WireTypeFixed64,
        FieldDescriptorProtoType::TypeSfixed32 => WireType::WireTypeFixed32,
        FieldDescriptorProtoType::TypeSfixed64 => WireType::WireTypeFixed64,
        FieldDescriptorProtoType::TypeFloat => WireType::WireTypeFixed32,
        FieldDescriptorProtoType::TypeDouble => WireType::WireTypeFixed64,
        FieldDescriptorProtoType::TypeString => WireType::WireTypeLengthDelimited,
        FieldDescriptorProtoType::TypeBytes => WireType::WireTypeLengthDelimited,
        FieldDescriptorProtoType::TypeMessage => WireType::WireTypeLengthDelimited,
        FieldDescriptorProtoType::TypeGroup => arbitrary(),
    }
}

/// The wire type of a field type. Groups are not supported.
pub fn field_type_wire_type(field_type: FieldDescriptorProtoType) -> (r: WireType)
    requires
        field_type != FieldDescriptorProtoType::TypeGroup,
    ensures
        r == spec_field_type_wire_type(field_type),
{
    match field_type {
        FieldDescriptorProtoType::TypeInt32 => WireType::WireTypeVarint,
        FieldDescriptorProtoType::TypeInt64 => WireType::WireTypeVarint,
        FieldDescriptorProtoType::TypeUint32 => WireType::WireTypeVarint,
        FieldDescriptorProtoType::TypeUint64 => WireType::WireTypeVarint,
        FieldDescriptorProtoType::TypeSint32 => WireType::WireTypeVarint,
        FieldDescriptorProtoType::TypeSint64 => WireType::WireTypeVarint,
        FieldDescriptorProtoType::TypeBool => WireType::WireTypeVarint,
        FieldDescriptorProtoType::TypeEnum => WireType::WireTypeVarint,
        FieldDescriptorProtoType::TypeFixed32 => WireType::WireTypeFixed32,
        FieldDescriptorProtoType::TypeFixed64 => WireType::WireTypeFixed64,
        FieldDescriptorProtoType::TypeSfixed32 => WireType::WireTypeFixed32,
        FieldDescriptorProtoType::TypeSfixed64 => WireType::WireTypeFixed64,
        FieldDescriptorProtoType::TypeFloat => WireType::WireTypeFixed32,
        FieldDescriptorProtoType::TypeDouble => WireType::WireTypeFixed64,
        FieldDescriptorProtoType::TypeString => WireType::WireTypeLengthDelimited,
        FieldDescriptorProtoType::TypeBytes => WireType::WireTypeLengthDelimited,
        FieldDescriptorProtoType::TypeMessage => WireType::WireTypeLengthDelimited,
        FieldDescriptorProtoType::TypeGroup => WireType::WireTypeStartGroup,
    }
}

/// The fixed encoded size of a value of the given type, when it has one:
/// one byte for `bool`, four or eight for the fixed-width types.
pub open spec fn spec_field_type_size(t: FieldDescriptorProtoType) -> Option<u32>
    recommends
        t != FieldDescriptorProtoType::TypeGroup,
{
    if t == FieldDescriptorProtoType::TypeBool {
        Some(1)
    } else if spec_field_type_wire_type(t) == WireType::WireTypeFixed32 {
        Some(4)
    } else if spec_field_type_wire_type(t) == WireType::WireTypeFixed64 {
        Some(8)
    } else {
        None
    }
}

/// The fixed encoded size of a value of the given type, when it has one.
pub fn field_type_size(field_type: FieldDescriptorProtoType) -> (r: Option<u32>)
    requires
        field_type != FieldDescriptorProtoType::TypeGroup,
    ensures
        r == spec_field_type_size(field_type),
{
    if field_type == FieldDescriptorProtoType::TypeBool {
        Some(1)
    } else if field_type_wire_type(field_type) == WireType::WireTypeFixed32 {
        Some(4)
    } else if field_type_wire_type(field_type) == WireType::WireTypeFixed64 {
        Some(8)
    } else {
        None
    }
}

/// Number of bytes of the base-128 varint encoding of a 32-bit value.
pub open spec fn varint32_size(v: int) -> u32 {
    if v < 0x80 {
        1
    } else if v < 0x4000 {
        2
    } else if v < 0x20_0000 {
        3
    } else if v < 0x1000_0000 {
        4
    } else {
        5
    }
}

/// The tag of a field: its number shifted past the three wire-type bits,
/// as a 32-bit value (the top bits of the number fall off).
pub open spec fn spec_tag_value(field_number: u32) -> int {
    (field_number % 0x2000_0000) * 8
}

/// Number of bytes of a field's tag.
pub open spec fn spec_tag_size(field_number: u32) -> u32 {
    varint32_size(spec_tag_value(field_number))
}

/// Number of bytes of the encoded tag of the field with the given number.
pub fn tag_size(field_number: u32) -> (r: u32)
    ensures
        r == spec_tag_size(field_number),
        1 <= r <= 5,
{
    let tag: u32 = (field_number % 0x2000_0000) * 8;
    if tag < 0x80 {
        1
    } else if tag < 0x4000 {
        2
    } else if tag < 0x20_0000 {
        3
    } else if tag < 0x1000_0000 {
        4
    } else {
        5
    }
}

} // verus!
