use lib::codegen::{gen, write_enum, write_merge_from_field, write_message, GenOptions};
use lib::descriptor::{
    DescriptorProto, EnumDescriptorProto, EnumValueDescriptorProto, FieldDescriptorProto,
    FieldDescriptorProtoLabel, FieldDescriptorProtoType, FieldOptions, FileDescriptorProto,
};
use lib::model::{field_type_name, Field, Message, RepeatMode};
use lib::writer::{IndentWriter, VecWriter};

fn field(
    name: &str,
    number: i32,
    label: FieldDescriptorProtoLabel,
    t: FieldDescriptorProtoType,
    type_path: Option<&str>,
    packed: Option<bool>,
) -> FieldDescriptorProto {
    FieldDescriptorProto {
        name: Some(name.to_string()),
        number: Some(number),
        label: Some(label),
        field_type: Some(t),
        type_path: type_path.map(|s| s.to_string()),
        options: packed.map(|p| FieldOptions { packed: Some(p) }),
    }
}

fn message(name: &str, fields: Vec<FieldDescriptorProto>) -> DescriptorProto {
    DescriptorProto {
        name: Some(name.to_string()),
        field: fields,
        nested_type: Vec::new(),
        enum_type: Vec::new(),
    }
}

fn enum_type(name: &str, values: &[(&str, i32)]) -> EnumDescriptorProto {
    EnumDescriptorProto {
        name: Some(name.to_string()),
        value: values
            .iter()
            .map(|(n, v)| EnumValueDescriptorProto { name: Some(n.to_string()), number: Some(*v) })
            .collect(),
    }
}

fn lines_of(w: &VecWriter) -> Vec<String> {
    (0..w.len()).map(|i| w.line(i).to_string()).collect()
}

use FieldDescriptorProtoLabel::{LabelOptional, LabelRepeated, LabelRequired};
use FieldDescriptorProtoType::{
    TypeBool, TypeDouble, TypeEnum, TypeFixed32, TypeInt32, TypeInt64, TypeMessage, TypeSint32,
    TypeString, TypeUint64,
};

fn person() -> DescriptorProto {
    message(
        "Person",
        vec![
            field("name", 1, LabelRequired, TypeString, None, None),
            field("scores", 5, LabelRepeated, TypeInt32, None, Some(true)),
            field("type", 4, LabelOptional, TypeEnum, Some(".tutorial.Person.Kind"), None),
            field("friend", 6, LabelRepeated, TypeMessage, Some(".other.Friend"), None),
        ],
    )
}

const PERSON_FILE: &str = "// This file is generated. Do not edit

use protobuf::*;
use protobuf::rt;
use other::*;

#[deriving(Clone,Eq)]
pub struct Person {
    name: Option<~str>,
    scores: ~[i32],
    field_type: Option<Person_Kind>,
    friend: ~[Friend],
}

impl Person {
    pub fn new() -> Person {
        Person {
            name: None,
            scores: ~[],
            field_type: None,
            friend: ~[],
        }
    }

    pub fn write_to_with_computed_sizes(&self, os: &mut CodedOutputStream, sizes: &[u32], sizes_pos: &mut uint) {
        match self.name {
            Some(ref v) => {
                os.write_string(1, *v);
            },
            None => {},
        };
        if !self.scores.is_empty() {
            os.write_tag(5, wire_format::WireTypeLengthDelimited);
            os.write_raw_varint32(rt::vec_packed_data_size(self.scores, wire_format::WireTypeVarint));
            for self.scores.iter().advance |v| {
                os.write_int32_no_tag(*v);
            };
        };
        match self.field_type {
            Some(ref v) => {
                os.write_enum(4, *v as i32);
            },
            None => {},
        };
        for self.friend.iter().advance |v| {
            os.write_tag(6, wire_format::WireTypeLengthDelimited);
            os.write_raw_varint32(sizes[*sizes_pos]);
            *sizes_pos += 1;
            v.write_to_with_computed_sizes(os, sizes, sizes_pos);
        };
    }

    pub fn clear_name(&mut self) {
        self.name = None;
    }

    pub fn clear_scores(&mut self) {
        self.scores.clear();
    }

    pub fn clear_field_type(&mut self) {
        self.field_type = None;
    }

    pub fn clear_friend(&mut self) {
        self.friend.clear();
    }
}

impl Message for Person {
    fn new() -> Person {
        Person::new()
    }

    fn clear(&mut self) {
        self.clear_name();
        self.clear_scores();
        self.clear_field_type();
        self.clear_friend();
    }

    fn is_initialized(&self) -> bool {
        if self.name.is_none() {
            return false;
        };
        true
    }

    fn merge_from(&mut self, is: &mut CodedInputStream) {
        while !is.eof() {
            let (field_number, wire_type) = is.read_tag_unpack();
            match field_number {
                1 => {
                    assert_eq!(wire_format::WireTypeLengthDelimited, wire_type);
                    let tmp = is.read_string();
                    self.name = Some(tmp);
                },
                5 => {
                    if wire_type == wire_format::WireTypeLengthDelimited {
                        let len = is.read_raw_varint32();
                        let old_limit = is.push_limit(len);
                        while !is.eof() {
                            self.scores.push(is.read_int32());
                        }
                        is.pop_limit(old_limit);
                    } else {
                        assert_eq!(wire_format::WireTypeVarint, wire_type);
                        self.scores.push(is.read_int32());
                    }
                },
                4 => {
                    assert_eq!(wire_format::WireTypeVarint, wire_type);
                    let tmp = Person_Kind::new(is.read_int32());
                    self.field_type = Some(tmp);
                },
                6 => {
                    assert_eq!(wire_format::WireTypeLengthDelimited, wire_type);
                    let mut tmp = Friend::new();
                    is.merge_message(&mut tmp);
                    self.friend.push(tmp);
                },
                _ => {
                    // TODO: store in unknown fields
                    is.skip_field(wire_type);
                },
            };
        }
    }

    // Compute sizes of nested messages
    fn compute_sizes(&self, sizes: &mut ~[u32]) -> u32 {
        let pos = sizes.len();
        sizes.push(0);
        let mut my_size = 0;
        for self.name.iter().advance |value| {
            my_size += rt::string_size(1, *value);
        };
        my_size += rt::vec_packed_size(5, self.scores, wire_format::WireTypeVarint);
        for self.field_type.iter().advance |value| {
            my_size += rt::enum_size(4, *value);
        };
        for self.friend.iter().advance |value| {
            let len = value.compute_sizes(sizes);
            my_size += 1 + rt::compute_raw_varint32_size(len) + len;
        };
        sizes[pos] = my_size;
        // value is returned for convenience
        my_size
    }

    pub fn write_to(&self, os: &mut CodedOutputStream) {
        self.check_initialized();
        let mut sizes: ~[u32] = ~[];
        self.compute_sizes(&mut sizes);
        let mut sizes_pos = 1; // first element is self
        self.write_to_with_computed_sizes(os, sizes, &mut sizes_pos);
        assert_eq!(sizes_pos, sizes.len());
    }
}
";

#[test]
fn gen_writes_the_module_of_a_file() {
    let file = FileDescriptorProto {
        name: Some("protos/tutorial.proto".to_string()),
        package: Some("tutorial".to_string()),
        dependency: vec!["other/other.proto".to_string()],
        message_type: vec![person()],
        enum_type: Vec::new(),
    };
    let results = gen(&[file], &GenOptions { dummy: false });
    assert_eq!(results.len(), 1);
    assert_eq!(results[0].name, "tutorial.rs");
    let text = String::from_utf8(results[0].content.clone()).unwrap();
    assert_eq!(text, PERSON_FILE);
}

#[test]
fn gen_makes_one_result_per_file_in_order() {
    let a = FileDescriptorProto {
        name: Some("a.proto".to_string()),
        package: None,
        dependency: Vec::new(),
        message_type: Vec::new(),
        enum_type: vec![enum_type("Color", &[("RED", 1)])],
    };
    let b = FileDescriptorProto {
        name: Some("dir/b.proto".to_string()),
        package: Some("b".to_string()),
        dependency: Vec::new(),
        message_type: vec![message("Empty", Vec::new())],
        enum_type: Vec::new(),
    };
    let results = gen(&[a, b], &GenOptions { dummy: false });
    assert_eq!(results.len(), 2);
    assert_eq!(results[0].name, "a.rs");
    assert_eq!(results[1].name, "b.rs");
    let a_text = String::from_utf8(results[0].content.clone()).unwrap();
    assert_eq!(
        a_text,
        "// This file is generated. Do not edit\n\nuse protobuf::*;\nuse protobuf::rt;\n\n\
         #[deriving(Clone,Eq)]\npub enum Color {\n    RED = 1,\n}\n\nimpl Color {\n    \
         pub fn new(value: i32) -> Color {\n        match value {\n            1 => RED,\n            \
         _ => fail!()\n        }\n    }\n}\n\nimpl ProtobufEnum for Color {\n    \
         pub fn value(&self) -> i32 {\n        *self as i32\n    }\n}\n"
    );
    let b_text = String::from_utf8(results[1].content.clone()).unwrap();
    assert!(b_text.contains("pub struct Empty {\n    dummy: bool,\n}\n"));
    assert!(b_text.contains("        Empty {\n            dummy: false,\n        }\n"));
    assert!(b_text.contains("    #[allow(unused_variable)]\n    pub fn write_to_with_computed_sizes("));
    assert!(b_text.contains("    fn is_initialized(&self) -> bool {\n        true\n    }\n"));
}

#[test]
fn write_enum_with_prefix_and_negative_values() {
    let e = enum_type("Color", &[("RED", 1), ("BLUE", -2)]);
    let mut out = VecWriter::new();
    let w = IndentWriter::new();
    write_enum("Foo_", &w, &mut out, &e);
    let expected = vec![
        "#[deriving(Clone,Eq)]",
        "pub enum Foo_Color {",
        "    RED = 1,",
        "    BLUE = -2,",
        "}",
        "",
        "impl Foo_Color {",
        "    pub fn new(value: i32) -> Foo_Color {",
        "        match value {",
        "            1 => RED,",
        "            -2 => BLUE,",
        "            _ => fail!()",
        "        }",
        "    }",
        "}",
        "",
        "impl ProtobufEnum for Foo_Color {",
        "    pub fn value(&self) -> i32 {",
        "        *self as i32",
        "    }",
        "}",
    ];
    assert_eq!(lines_of(&out), expected);
}

#[test]
fn nested_messages_and_enums_are_prefixed() {
    let mut outer = message(
        "Outer",
        vec![field("inner", 1, LabelOptional, TypeMessage, Some(".p.Outer.Inner"), None)],
    );
    outer.nested_type.push(message("Inner", vec![field("x", 1, LabelOptional, TypeInt64, None, None)]));
    outer.enum_type.push(enum_type("Kind", &[("A", 0)]));
    let msg = Message::parse(&outer, "p", "");
    let mut out = VecWriter::new();
    let w = IndentWriter::new();
    write_message(&msg, &w, &mut out);
    let lines = lines_of(&out);
    assert!(lines.contains(&"pub struct Outer {".to_string()));
    assert!(lines.contains(&"    inner: Option<Outer_Inner>,".to_string()));
    assert!(lines.contains(&"pub struct Outer_Inner {".to_string()));
    assert!(lines.contains(&"pub enum Outer_Kind {".to_string()));
    assert!(lines.contains(&"            my_size += rt::value_size(1, *value, wire_format::WireTypeVarint);".to_string()));
    let outer_pos = lines.iter().position(|l| l == "pub struct Outer {").unwrap();
    let inner_pos = lines.iter().position(|l| l == "pub struct Outer_Inner {").unwrap();
    let kind_pos = lines.iter().position(|l| l == "pub enum Outer_Kind {").unwrap();
    assert!(outer_pos < inner_pos && inner_pos < kind_pos);
    // the inner message has no message field, the outer one has
    let allow: Vec<usize> = lines
        .iter()
        .enumerate()
        .filter(|(_, l)| l.as_str() == "    #[allow(unused_variable)]")
        .map(|(i, _)| i)
        .collect();
    assert_eq!(allow.len(), 1);
    assert!(allow[0] > inner_pos);
}

#[test]
fn fixed_size_fields_are_counted_with_their_tag() {
    let point = message(
        "Point",
        vec![
            field("weight", 7, LabelOptional, TypeDouble, None, None),
            field("ids", 8, LabelRepeated, TypeFixed32, None, None),
            field("flag", 20, LabelRepeated, TypeBool, None, None),
        ],
    );
    let msg = Message::parse(&point, "p", "");
    let mut out = VecWriter::new();
    let w = IndentWriter::new();
    write_message(&msg, &w, &mut out);
    let lines = lines_of(&out);
    let i = lines.iter().position(|l| l == "        if self.weight.is_some() {").unwrap();
    assert_eq!(lines[i + 1], "            my_size += 9;");
    assert_eq!(lines[i + 2], "        };");
    assert!(lines.contains(&"        my_size += 5 * self.ids.len();".to_string()));
    assert!(lines.contains(&"        my_size += 3 * self.flag.len();".to_string()));
    // not packed, but read as packed or not in merge_from
    assert!(lines.contains(&"                        assert_eq!(wire_format::WireTypeFixed32, wire_type);".to_string()));
    // written one by one with a tag each
    assert!(lines.contains(&"            os.write_fixed32(8, *v);".to_string()));
    assert!(lines.contains(&"                os.write_double(7, *v);".to_string()));
}

#[test]
fn merge_from_field_single_value() {
    let proto = field("count", 3, LabelOptional, TypeUint64, None, None);
    let f = Field::parse(&proto, "p").unwrap();
    let mut out = VecWriter::new();
    let w = IndentWriter::new().indent();
    write_merge_from_field(&f, &w, &mut out);
    assert_eq!(
        lines_of(&out),
        vec![
            "    assert_eq!(wire_format::WireTypeVarint, wire_type);",
            "    let tmp = is.read_uint64();",
            "    self.count = Some(tmp);",
        ]
    );
}

#[test]
fn parsing_fields_and_messages() {
    let own = field("kind", 2, LabelOptional, TypeEnum, Some(".a.b.Outer.Kind"), None);
    let foreign = field("type", 3, LabelRepeated, TypeMessage, Some(".x.y.Other"), Some(false));
    let packed = field("v", 4, LabelRepeated, TypeSint32, None, Some(true));
    assert_eq!(field_type_name(&own, "a.b"), "Outer.Kind");
    assert_eq!(field_type_name(&foreign, "a.b"), "Other");
    assert_eq!(field_type_name(&packed, "a.b"), "i32");
    let f = Field::parse(&own, "a.b").unwrap();
    assert_eq!(f.rust_type, "Outer_Kind");
    assert_eq!(f.repeat_mode, RepeatMode::Single);
    let g = Field::parse(&foreign, "a.b").unwrap();
    assert_eq!(g.name, "field_type");
    assert_eq!(g.repeat_mode, RepeatMode::RepeatRegular);
    assert_eq!(g.number, 3);
    let h = Field::parse(&packed, "a.b").unwrap();
    assert_eq!(h.repeat_mode, RepeatMode::RepeatPacked);
    assert!(h.packed && h.repeated);

    let p = person();
    let m = Message::parse(&p, "tutorial", "Top_");
    assert_eq!(m.rust_type, "Top_Person");
    assert_eq!(m.fields.len(), 4);
    assert!(m.has_any_message_field());
    let req = m.required_fields();
    assert_eq!(req.len(), 1);
    assert_eq!(req[0].name, "name");
    let plain = message("Plain", vec![field("a", 1, LabelRequired, TypeInt32, None, None)]);
    let pm = Message::parse(&plain, "p", "");
    assert!(!pm.has_any_message_field());
}

#[test]
fn field_type_name_needs_no_type_when_a_path_is_given() {
    let only_path = |path: &str| FieldDescriptorProto {
        name: Some("f".to_string()),
        number: Some(1),
        label: Some(LabelOptional),
        field_type: None,
        type_path: Some(path.to_string()),
        options: None,
    };
    assert_eq!(
        field_type_name(&only_path(".google.protobuf.FileDescriptorProto"), "google.protobuf"),
        "FileDescriptorProto"
    );
    assert_eq!(field_type_name(&only_path(".other.Foo"), "p"), "Foo");
    assert_eq!(field_type_name(&only_path(".p.A.B"), "p"), "A.B");
    let scalar = field("n", 2, LabelOptional, TypeUint64, None, None);
    assert_eq!(field_type_name(&scalar, "p"), "u64");
}

fn assert_braces_balanced<S: AsRef<str>>(lines: &[S]) {
    let mut depth: i64 = 0;
    for line in lines {
        for c in line.as_ref().chars() {
            if c == '{' {
                depth += 1;
            } else if c == '}' {
                depth -= 1;
            }
        }
        assert!(depth >= 0, "a line closes a brace that was not opened: {}", line.as_ref());
    }
    assert_eq!(depth, 0);
}

#[test]
fn message_code_has_balanced_braces() {
    let mut outer = message(
        "Outer",
        vec![
            field("id", 1, LabelRequired, TypeFixed32, None, None),
            field("values", 2, LabelRepeated, TypeSint32, None, Some(true)),
            field("flags", 3, LabelRepeated, TypeBool, None, None),
            field("title", 4, LabelOptional, TypeString, None, None),
            field("type", 5, LabelOptional, TypeEnum, Some(".p.Outer.Kind"), None),
            field("inner", 6, LabelRepeated, TypeMessage, Some(".p.Outer.Inner"), None),
            field("ratio", 7, LabelOptional, TypeDouble, None, None),
        ],
    );
    let mut inner = message("Inner", vec![field("x", 1, LabelOptional, TypeInt64, None, None)]);
    inner.nested_type.push(message("Deep", Vec::new()));
    outer.nested_type.push(inner);
    outer.enum_type.push(enum_type("Kind", &[("A", 0), ("B", -1)]));
    let msg = Message::parse(&outer, "p", "");
    let mut out = VecWriter::new();
    let w = IndentWriter::new();
    write_message(&msg, &w, &mut out);
    let lines = lines_of(&out);
    assert!(lines.iter().any(|l| l.contains('{')));
    assert_braces_balanced(&lines);
}

#[test]
fn enum_and_file_code_have_balanced_braces() {
    let e = enum_type("Color", &[("RED", 1), ("BLUE", -2)]);
    let mut out = VecWriter::new();
    let w = IndentWriter::new();
    write_enum("Foo_", &w, &mut out, &e);
    assert_braces_balanced(&lines_of(&out));
    assert_braces_balanced(&PERSON_FILE.lines().collect::<Vec<&str>>());
    let file = FileDescriptorProto {
        name: Some("protos/tutorial.proto".to_string()),
        package: Some("tutorial".to_string()),
        dependency: vec!["other/other.proto".to_string()],
        message_type: vec![person()],
        enum_type: vec![enum_type("Color", &[("RED", 1)])],
    };
    let results = gen(&[file], &GenOptions { dummy: false });
    let text = String::from_utf8(results[0].content.clone()).unwrap();
    assert_braces_balanced(&text.lines().collect::<Vec<&str>>());
}
