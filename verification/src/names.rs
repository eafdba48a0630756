//! Naming rules: Rust and protobuf names of the scalar types, and the
//! trimming of paths and package names.
use vstd::prelude::*;
use crate::descriptor::FieldDescriptorProtoType;
use crate::text::{
    find_char, first_index_of, is_prefix, is_suffix, last_index_of, lemma_first_index_of,
    lemma_last_index_of, owned, rfind_char, starts_with,
};

verus! {

/// Field types that are not scalars: they name a message, an enum or a group.
pub open spec fn is_composite(t: FieldDescriptorProtoType) -> bool {
    t == FieldDescriptorProtoType::TypeEnum || t == FieldDescriptorProtoType::TypeGroup || t
        == FieldDescriptorProtoType::TypeMessage
}

/// The Rust type that holds a scalar of the given field type.
pub open spec fn spec_rust_name(t: FieldDescriptorProtoType) -> Seq<char>
    recommends
        !is_composite(t),
{
    match t {
        FieldDescriptorProtoType::TypeDouble => "f64"@,
        FieldDescriptorProtoType::TypeFloat => "f32"@,
        FieldDescriptorProtoType::TypeInt32 => "i32"@,
        FieldDescriptorProtoType::TypeInt64 => "i64"@,
        FieldDescriptorProtoType::TypeUint32 => "u32"@,
        FieldDescriptorProtoType::TypeUint64 => "u64"@,
        FieldDescriptorProtoType::TypeSint32 => "i32"@,
        FieldDescriptorProtoType::TypeSint64 => "i64"@,
        FieldDescriptorProtoType::TypeFixed32 => "u32"@,
        FieldDescriptorProtoType::TypeFixed64 => "u64"@,
        FieldDescriptorProtoType::TypeSfixed32 => "s32"@,
        FieldDescriptorProtoType::TypeSfixed64 => "s64"@,
        FieldDescriptorProtoType::TypeBool => "bool"@,
        FieldDescriptorProtoType::TypeString => "~str"@,
        FieldDescriptorProtoType::TypeBytes => "~[u8]"@,
        _ => arbitrary(),
    }
}

/// The Rust type that holds a scalar of the given field type.
pub fn rust_name(field_type: FieldDescriptorProtoType) -> (r: &'static str)
    requires
        !is_composite(field_type),
    ensures
        r@ == spec_rust_name(field_type),
{
    match field_type {
        FieldDescriptorProtoType::TypeDouble => "f64",
        FieldDescriptorProtoType::TypeFloat => "f32",
        FieldDescriptorProtoType::TypeInt32 => "i32",
        FieldDescriptorProtoType::TypeInt64 => "i64",
        FieldDescriptorProtoType::TypeUint32 => "u32",
        FieldDescriptorProtoType::TypeUint64 => "u64",
        FieldDescriptorProtoType::TypeSint32 => "i32",
        FieldDescriptorProtoType::TypeSint64 => "i64",
        FieldDescriptorProtoType::TypeFixed32 => "u32",
        FieldDescriptorProtoType::TypeFixed64 => "u64",
        FieldDescriptorProtoType::TypeSfixed32 => "s32",
        FieldDescriptorProtoType::TypeSfixed64 => "s64",
        FieldDescriptorProtoType::TypeBool => "bool",
        FieldDescriptorProtoType::TypeString => "~str",
        FieldDescriptorProtoType::TypeBytes => "~[u8]",
        _ => "",
    }
}

/// The name of a scalar field type in the `.proto` language.
pub open spec fn spec_protobuf_name(t: FieldDescriptorProtoType) -> Seq<char>
    recommends
        !is_composite(t),
{
    match t {
        FieldDescriptorProtoType::TypeDouble => "double"@,
        FieldDescriptorProtoType::TypeFloat => "float"@,
        FieldDescriptorProtoType::TypeInt32 => "int32"@,
        FieldDescriptorProtoType::TypeInt64 => "int64"@,
        FieldDescriptorProtoType::TypeUint32 => "uint32"@,
        FieldDescriptorProtoType::TypeUint64 => "uint64"@,
        FieldDescriptorProtoType::TypeSint32 => "sint32"@,
        FieldDescriptorProtoType::TypeSint64 => "sint64"@,
        FieldDescriptorProtoType::TypeFixed32 => "fixed32"@,
        FieldDescriptorProtoType::TypeFixed64 => "fixed64"@,
        FieldDescriptorProtoType::TypeSfixed32 => "sfixed32"@,
        FieldDescriptorProtoType::TypeSfixed64 => "sfixed64"@,
        FieldDescriptorProtoType::TypeBool => "bool"@,
        FieldDescriptorProtoType::TypeString => "string"@,
        FieldDescriptorProtoType::TypeBytes => "bytes"@,
        _ => arbitrary(),
    }
}

/// The name of a scalar field type in the `.proto` language.
pub fn protobuf_name(field_type: FieldDescriptorProtoType) -> (r: &'static str)
    requires
        !is_composite(field_type),
    ensures
        r@ == spec_protobuf_name(field_type),
{
    match field_type {
        FieldDescriptorProtoType::TypeDouble => "double",
        FieldDescriptorProtoType::TypeFloat => "float",
        FieldDescriptorProtoType::TypeInt32 => "int32",
        FieldDescriptorProtoType::TypeInt64 => "int64",
        FieldDescriptorProtoType::TypeUint32 => "uint32",
        FieldDescriptorProtoType::TypeUint64 => "uint64",
        FieldDescriptorProtoType::TypeSint32 => "sint32",
        FieldDescriptorProtoType::TypeSint64 => "sint64",
        FieldDescriptorProtoType::TypeFixed32 => "fixed32",
        FieldDescriptorProtoType::TypeFixed64 => "fixed64",
        FieldDescriptorProtoType::TypeSfixed32 => "sfixed32",
        FieldDescriptorProtoType::TypeSfixed64 => "sfixed64",
        FieldDescriptorProtoType::TypeBool => "bool",
        FieldDescriptorProtoType::TypeString => "string",
        FieldDescriptorProtoType::TypeBytes => "bytes",
        _ => "",
    }
}

/// What follows the last `c` in `s`, or all of `s` when `c` does not occur.
pub open spec fn spec_remove_to(s: Seq<char>, c: char) -> Seq<char> {
    match last_index_of(s, c) {
        Some(i) => s.subrange(i + 1, s.len() as int),
        None => s,
    }
}

/// What precedes the first `c` in `s`, or all of `s` when `c` does not occur.
pub open spec fn spec_remove_from(s: Seq<char>, c: char) -> Seq<char> {
    match first_index_of(s, c) {
        Some(i) => s.subrange(0, i),
        None => s,
    }
}

/// `s` without its prefix `p`.
pub open spec fn spec_remove_prefix(s: Seq<char>, p: Seq<char>) -> Seq<char>
    recommends
        is_prefix(p, s),
{
    s.subrange(p.len() as int, s.len() as int)
}

/// `s` without its suffix `p`.
pub open spec fn spec_remove_suffix(s: Seq<char>, p: Seq<char>) -> Seq<char>
    recommends
        is_suffix(p, s),
{
    s.subrange(0, s.len() - p.len())
}

/// `s` without the prefix `p` when it has it, else `s`.
pub open spec fn spec_remove_prefix_if_present(s: Seq<char>, p: Seq<char>) -> Seq<char> {
    if is_prefix(p, s) {
        spec_remove_prefix(s, p)
    } else {
        s
    }
}

/// The last dot-separated part of a package name.
pub open spec fn spec_last_part_of_package(pkg: Seq<char>) -> Seq<char> {
    spec_remove_to(pkg, '.')
}

/// The paths that name a `.proto` file: the file name after the last `/`
/// ends with `.proto`.
pub open spec fn is_proto_path(path: Seq<char>) -> bool {
    is_suffix(".proto"@, spec_remove_to(path, '/'))
}

/// The base name of the Rust module generated for a `.proto` file: the file
/// name after the last `/`, without `.proto`.
pub open spec fn spec_proto_path_to_rust_base(path: Seq<char>) -> Seq<char>
    recommends
        is_proto_path(path),
{
    spec_remove_suffix(spec_remove_to(path, '/'), ".proto"@)
}

/// What follows the last `c` in `s`, or all of `s` when `c` does not occur.
pub fn remove_to<'s>(s: &'s str, c: char) -> (r: &'s str)
    ensures
        r@ == spec_remove_to(s@, c),
{
    match rfind_char(s, c) {
        Some(pos) => {
            proof {
                lemma_last_index_of(s@, c);
            }
            let n = s.unicode_len();
            s.substring_char(pos + 1, n)
        },
        None => s,
    }
}

/// What precedes the first `c` in `s`, or all of `s` when `c` does not occur.
pub fn remove_from(s: &str, c: char) -> (r: String)
    ensures
        r@ == spec_remove_from(s@, c),
{
    match find_char(s, c) {
        Some(pos) => {
            proof {
                lemma_first_index_of(s@, c);
            }
            owned(s.substring_char(0, pos))
        },
        None => owned(s),
    }
}

/// `s` without its suffix `suffix`; `s` must end with it.
pub fn remove_suffix<'s>(s: &'s str, suffix: &str) -> (r: &'s str)
    requires
        is_suffix(suffix@, s@),
    ensures
        r@ == spec_remove_suffix(s@, suffix@),
{
    let n = s.unicode_len();
    let m = suffix.unicode_len();
    s.substring_char(0, n - m)
}

/// `s` without its prefix `prefix`; `s` must begin with it.
pub fn remove_prefix<'s>(s: &'s str, prefix: &str) -> (r: &'s str)
    requires
        is_prefix(prefix@, s@),
    ensures
        r@ == spec_remove_prefix(s@, prefix@),
{
    let n = s.unicode_len();
    let m = prefix.unicode_len();
    s.substring_char(m, n)
}

/// `s` without the prefix `prefix` when it has it, else `s`.
pub fn remove_prefix_if_present<'s>(s: &'s str, prefix: &str) -> (r: &'s str)
    ensures
        r@ == spec_remove_prefix_if_present(s@, prefix@),
{
    if starts_with(s, prefix) {
        remove_prefix(s, prefix)
    } else {
        s
    }
}

/// The last dot-separated part of a package name.
pub fn last_part_of_package<'s>(pkg: &'s str) -> (r: &'s str)
    ensures
        r@ == spec_last_part_of_package(pkg@),
{
    remove_to(pkg, '.')
}

/// The base name of the Rust module generated for a `.proto` file.
pub fn proto_path_to_rust_base<'s>(path: &'s str) -> (r: &'s str)
    requires
        is_proto_path(path@),
    ensures
        r@ == spec_proto_path_to_rust_base(path@),
{
    remove_suffix(remove_to(path, '/'), ".proto")
}

} // verus!
