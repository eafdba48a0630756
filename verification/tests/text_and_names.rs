use lib::descriptor::FieldDescriptorProtoType;
use lib::names::{
    last_part_of_package, proto_path_to_rust_base, protobuf_name, remove_from, remove_prefix,
    remove_prefix_if_present, remove_suffix, remove_to, rust_name,
};
use lib::text::{
    cat2, cat3, cat4, cat5, char_len, contains_char, ends_with, find_char, int_to_decimal,
    replace_char_str, rfind_char, starts_with, str_eq,
};
use lib::wire_format::{
    field_type_size, field_type_wire_type, tag_size, wire_type_name, WireType,
};

#[test]
fn decimal_of_positive_negative_and_zero() {
    assert_eq!(int_to_decimal(0), "0");
    assert_eq!(int_to_decimal(7), "7");
    assert_eq!(int_to_decimal(10), "10");
    assert_eq!(int_to_decimal(4096), "4096");
    assert_eq!(int_to_decimal(-1), "-1");
    assert_eq!(int_to_decimal(-250), "-250");
    assert_eq!(int_to_decimal(i32::MAX as i64), "2147483647");
    assert_eq!(int_to_decimal(i64::MIN), "-9223372036854775808");
}

#[test]
fn char_searches() {
    assert_eq!(char_len("héllo"), 5);
    assert_eq!(rfind_char("a.b.c", '.'), Some(3));
    assert_eq!(rfind_char("abc", '.'), None);
    assert_eq!(find_char("a.b.c", '.'), Some(1));
    assert_eq!(find_char("", '.'), None);
    assert!(contains_char("a.b", '.'));
    assert!(!contains_char("ab", '.'));
    assert!(starts_with(".pkg.Msg", ".pkg."));
    assert!(!starts_with(".pk", ".pkg."));
    assert!(ends_with("a.proto", ".proto"));
    assert!(!ends_with("a.prot", ".proto"));
    assert!(str_eq("type", "type"));
    assert!(!str_eq("type", "typ"));
    assert!(!str_eq("type", "tyPe"));
}

#[test]
fn concatenation_and_replacement() {
    assert_eq!(cat2("a", "b"), "ab");
    assert_eq!(cat3("a", "", "c"), "ac");
    assert_eq!(cat4("a", "b", "c", "d"), "abcd");
    assert_eq!(cat5("1", "2", "3", "4", "5"), "12345");
    assert_eq!(replace_char_str("Outer.Inner.Leaf", '.', "_"), "Outer_Inner_Leaf");
    assert_eq!(replace_char_str("", '.', "_"), "");
    assert_eq!(replace_char_str("ünï.x", '.', "_"), "ünï_x");
}

#[test]
fn trimming_names() {
    assert_eq!(remove_to(".other.pkg.Type", '.'), "Type");
    assert_eq!(remove_to("Type", '.'), "Type");
    assert_eq!(remove_to("a.", '.'), "");
    assert_eq!(remove_from("foo.bar.baz", '.'), "foo");
    assert_eq!(remove_from("foo", '.'), "foo");
    assert_eq!(remove_prefix(".pkg.Msg", ".pkg."), "Msg");
    assert_eq!(remove_suffix("test.proto", ".proto"), "test");
    assert_eq!(remove_prefix_if_present("pre_x", "pre_"), "x");
    assert_eq!(remove_prefix_if_present("x", "pre_"), "x");
    assert_eq!(last_part_of_package("com.example.proto"), "proto");
    assert_eq!(last_part_of_package("single"), "single");
}

#[test]
fn rust_base_of_proto_paths() {
    assert_eq!(proto_path_to_rust_base("descriptor.proto"), "descriptor");
    assert_eq!(proto_path_to_rust_base("google/protobuf/descriptor.proto"), "descriptor");
    assert_eq!(proto_path_to_rust_base("/abs/dir/x.y.proto"), "x.y");
}

#[test]
fn scalar_type_names() {
    assert_eq!(rust_name(FieldDescriptorProtoType::TypeDouble), "f64");
    assert_eq!(rust_name(FieldDescriptorProtoType::TypeSint64), "i64");
    assert_eq!(rust_name(FieldDescriptorProtoType::TypeSfixed32), "s32");
    assert_eq!(rust_name(FieldDescriptorProtoType::TypeString), "~str");
    assert_eq!(rust_name(FieldDescriptorProtoType::TypeBytes), "~[u8]");
    assert_eq!(protobuf_name(FieldDescriptorProtoType::TypeSfixed64), "sfixed64");
    assert_eq!(protobuf_name(FieldDescriptorProtoType::TypeBool), "bool");
    assert_eq!(protobuf_name(FieldDescriptorProtoType::TypeBytes), "bytes");
}

#[test]
fn wire_types_and_sizes() {
    assert_eq!(field_type_wire_type(FieldDescriptorProtoType::TypeSint32), WireType::WireTypeVarint);
    assert_eq!(field_type_wire_type(FieldDescriptorProtoType::TypeFloat), WireType::WireTypeFixed32);
    assert_eq!(field_type_wire_type(FieldDescriptorProtoType::TypeDouble), WireType::WireTypeFixed64);
    assert_eq!(
        field_type_wire_type(FieldDescriptorProtoType::TypeMessage),
        WireType::WireTypeLengthDelimited
    );
    assert_eq!(wire_type_name(WireType::WireTypeFixed32), "WireTypeFixed32");
    assert_eq!(field_type_size(FieldDescriptorProtoType::TypeBool), Some(1));
    assert_eq!(field_type_size(FieldDescriptorProtoType::TypeSfixed32), Some(4));
    assert_eq!(field_type_size(FieldDescriptorProtoType::TypeDouble), Some(8));
    assert_eq!(field_type_size(FieldDescriptorProtoType::TypeInt32), None);
    assert_eq!(field_type_size(FieldDescriptorProtoType::TypeString), None);
}

#[test]
fn tag_sizes() {
    assert_eq!(tag_size(1), 1);
    assert_eq!(tag_size(15), 1);
    assert_eq!(tag_size(16), 2);
    assert_eq!(tag_size(2047), 2);
    assert_eq!(tag_size(2048), 3);
    assert_eq!(tag_size(262143), 3);
    assert_eq!(tag_size(262144), 4);
    assert_eq!(tag_size(33554432), 5);
    assert_eq!(tag_size(536870911), 5);
    // the number is shifted as a 32-bit value: its top bits fall off
    assert_eq!(tag_size(536870912), 1);
}
