//! The generator's view of messages and fields: what it reads from a
//! descriptor, with the Rust names already worked out.
use vstd::prelude::*;
use crate::descriptor::{
    DescriptorProto, FieldDescriptorProto, FieldDescriptorProtoLabel, FieldDescriptorProtoType,
};
use crate::names::{
    is_composite, remove_prefix, remove_to, rust_name, spec_remove_prefix, spec_remove_to,
    spec_rust_name,
};
use crate::text::{cat3, is_prefix, owned, replace_char, replace_char_str, starts_with, str_eq};
use crate::wire_format::{field_type_wire_type, spec_field_type_wire_type, WireType};

verus! {

/// How the values of a field are laid out.
#[derive(Clone, Copy, PartialEq, Eq, Structural, Debug)]
pub enum RepeatMode {
    /// At most one value.
    Single,
    /// Each value with its own tag.
    RepeatRegular,
    /// All values in one length-delimited run.
    RepeatPacked,
}

/// The fields that the generator needs from a field descriptor, and the
/// type that it cannot handle (groups).
pub open spec fn field_ok(f: FieldDescriptorProto) -> bool {
    &&& f.name is Some
    &&& f.number is Some
    &&& f.label is Some
    &&& f.field_type is Some
    &&& f.field_type.unwrap() != FieldDescriptorProtoType::TypeGroup
    &&& f.type_path is None ==> !is_composite(f.field_type.unwrap())
}

/// The Rust name of the type of a field, before dots become underscores:
/// a type of the current package loses the package prefix, a type of
/// another package keeps its last part only, a scalar has its Rust name.
pub open spec fn spec_field_type_name(f: FieldDescriptorProto, pkg: Seq<char>) -> Seq<char> {
    match f.type_path {
        Some(tp) => {
            let pre = "."@ + pkg + "."@;
            if is_prefix(pre, tp@) {
                spec_remove_prefix(tp@, pre)
            } else {
                spec_remove_to(tp@, '.')
            }
        },
        None => spec_rust_name(f.field_type.unwrap()),
    }
}

/// A field as the generator sees it.
pub struct FieldView {
    pub proto: FieldDescriptorProto,
    pub name: Seq<char>,
    pub field_type: FieldDescriptorProtoType,
    pub wire_type: WireType,
    pub rust_type: Seq<char>,
    pub number: u32,
    pub repeated: bool,
    pub packed: bool,
    pub repeat_mode: RepeatMode,
}

/// Whether a field descriptor asks for packed encoding.
pub open spec fn spec_packed(f: FieldDescriptorProto) -> bool {
    match f.options {
        Some(o) => match o.packed {
            Some(b) => b,
            None => false,
        },
        None => false,
    }
}

/// The Rust name of a field: `type` is a keyword and becomes `field_type`.
pub open spec fn spec_field_name(name: Seq<char>) -> Seq<char> {
    if name == "type"@ {
        "field_type"@
    } else {
        name
    }
}

/// What the generator makes of a field descriptor.
pub open spec fn spec_parse_field(f: FieldDescriptorProto, pkg: Seq<char>) -> FieldView {
    let repeated = f.label.unwrap() == FieldDescriptorProtoLabel::LabelRepeated;
    let packed = spec_packed(f);
    FieldView {
        proto: f,
        name: spec_field_name(f.name.unwrap()@),
        field_type: f.field_type.unwrap(),
        wire_type: spec_field_type_wire_type(f.field_type.unwrap()),
        rust_type: replace_char(spec_field_type_name(f, pkg), '.', '_'),
        number: f.number.unwrap() as u32,
        repeated,
        packed,
        repeat_mode: if repeated {
            if packed {
                RepeatMode::RepeatPacked
            } else {
                RepeatMode::RepeatRegular
            }
        } else {
            RepeatMode::Single
        },
    }
}

/// The Rust name of the type of a field, before dots become underscores.
pub fn field_type_name(field: &FieldDescriptorProto, pkg: &str) -> (r: String)
    requires
        field.type_path is None ==> (field.field_type is Some && !is_composite(
            field.field_type.unwrap(),
        )),
    ensures
        r@ == spec_field_type_name(*field, pkg@),
{
    match &field.type_path {
        Some(type_path) => {
            let current_pkg_prefix = cat3(".", pkg, ".");
            if starts_with(type_path.as_str(), current_pkg_prefix.as_str()) {
                owned(remove_prefix(type_path.as_str(), current_pkg_prefix.as_str()))
            } else {
                owned(remove_to(type_path.as_str(), '.'))
            }
        },
        None => owned(rust_name(field.field_type.unwrap())),
    }
}

/// A field of a message, with its Rust names.
pub struct Field<'a> {
    pub proto_field: &'a FieldDescriptorProto,
    pub name: String,
    pub field_type: FieldDescriptorProtoType,
    pub wire_type: WireType,
    pub rust_type: String,
    pub number: u32,
    pub repeated: bool,
    pub packed: bool,
    pub repeat_mode: RepeatMode,
}

impl<'a> View for Field<'a> {
    type V = FieldView;

    open spec fn view(&self) -> FieldView {
        FieldView {
            proto: *self.proto_field,
            name: self.name@,
            field_type: self.field_type,
            wire_type: self.wire_type,
            rust_type: self.rust_type@,
            number: self.number,
            repeated: self.repeated,
            packed: self.packed,
            repeat_mode: self.repeat_mode,
        }
    }
}

impl<'a> Field<'a> {
    /// Reads a field descriptor. The descriptor must carry a name, a number,
    /// a label and a type, must not be a group, and a message or enum field
    /// must name its type.
    pub fn parse(field: &'a FieldDescriptorProto, pkg: &str) -> (r: Option<Field<'a>>)
        requires
            field_ok(*field),
        ensures
            r matches Some(f) && f@ == spec_parse_field(*field, pkg@) && f.proto_field == field,
    {
        proof {
            reveal_strlit("_");
        }
        let tn = field_type_name(field, pkg);
        let rust_type = replace_char_str(tn.as_str(), '.', "_");
        let repeated = match field.label.unwrap() {
            FieldDescriptorProtoLabel::LabelRepeated => true,
            FieldDescriptorProtoLabel::LabelOptional => false,
            FieldDescriptorProtoLabel::LabelRequired => false,
        };
        let given = match &field.name {
            Some(n) => n.as_str(),
            None => "",
        };
        let name = if str_eq(given, "type") {
            owned("field_type")
        } else {
            owned(given)
        };
        let packed = match &field.options {
            Some(options) => match options.packed {
                Some(b) => b,
                None => false,
            },
            None => false,
        };
        let repeat_mode = if repeated {
            if packed {
                RepeatMode::RepeatPacked
            } else {
                RepeatMode::RepeatRegular
            }
        } else {
            RepeatMode::Single
        };
        let field_type = field.field_type.unwrap();
        let number = field.number.unwrap();
        Some(
            Field {
                proto_field: field,
                name,
                field_type,
                wire_type: field_type_wire_type(field_type),
                rust_type,
                number: number as u32,
                repeated,
                packed,
                repeat_mode,
            },
        )
    }
}

/// The descriptors that the generator can handle: named, with fields that
/// `field_ok` accepts, named enums with named and numbered values, and
/// nested messages of the same kind.
pub open spec fn descriptor_ok(d: DescriptorProto) -> bool
    decreases d,
{
    &&& d.name is Some
    &&& forall|i: int| 0 <= i < d.field@.len() ==> field_ok(#[trigger] d.field@[i])
    &&& forall|i: int|
        0 <= i < d.enum_type@.len() ==> crate::model::enum_ok(#[trigger] d.enum_type@[i])
    &&& forall|i: int|
        0 <= i < d.nested_type@.len() ==> descriptor_ok(#[trigger] d.nested_type@[i])
}

/// Enums that the generator can handle: named, with named and numbered values.
pub open spec fn enum_ok(e: crate::descriptor::EnumDescriptorProto) -> bool {
    &&& e.name is Some
    &&& forall|i: int|
        0 <= i < e.value@.len() ==> (#[trigger] e.value@[i]).name is Some && e.value@[i].number is Some
}

/// A message as the generator sees it.
pub struct MessageView {
    pub proto: DescriptorProto,
    pub pkg: Seq<char>,
    pub prefix: Seq<char>,
    pub rust_type: Seq<char>,
    pub fields: Seq<FieldView>,
}

/// What the generator makes of a message descriptor: its Rust type is the
/// prefix followed by its name.
pub open spec fn spec_parse_message(d: DescriptorProto, pkg: Seq<char>, prefix: Seq<char>) -> MessageView {
    MessageView {
        proto: d,
        pkg,
        prefix,
        rust_type: prefix + d.name.unwrap()@,
        fields: d.field@.map_values(|f: FieldDescriptorProto| spec_parse_field(f, pkg)),
    }
}

/// A message, with its fields read.
pub struct Message<'a> {
    pub proto_message: &'a DescriptorProto,
    pub pkg: String,
    pub prefix: String,
    pub rust_type: String,
    pub fields: Vec<Field<'a>>,
}

impl<'a> View for Message<'a> {
    type V = MessageView;

    open spec fn view(&self) -> MessageView {
        MessageView {
            proto: *self.proto_message,
            pkg: self.pkg@,
            prefix: self.prefix@,
            rust_type: self.rust_type@,
            fields: self.fields@.map_values(|f: Field<'a>| f@),
        }
    }
}

/// The fields of a sequence whose label is `required`, in order.
pub open spec fn required_fields_of(fs: Seq<FieldView>) -> Seq<FieldView>
    decreases fs.len(),
{
    if fs.len() == 0 {
        Seq::empty()
    } else {
        let rest = required_fields_of(fs.drop_last());
        if fs.last().proto.label == Some(FieldDescriptorProtoLabel::LabelRequired) {
            rest.push(fs.last())
        } else {
            rest
        }
    }
}

impl<'a> Message<'a> {
    /// The message was read from its descriptor.
    pub open spec fn is_parsed(&self) -> bool {
        self@ == spec_parse_message(*self.proto_message, self.pkg@, self.prefix@)
    }

    /// Reads a message descriptor of package `pkg`, whose Rust type is named
    /// `prefix` followed by the message's name.
    pub fn parse(proto_message: &'a DescriptorProto, pkg: &str, prefix: &str) -> (r: Message<'a>)
        requires
            proto_message.name is Some,
            forall|i: int| 0 <= i < proto_message.field@.len() ==> field_ok(#[trigger] proto_message.field@[i]),
        ensures
            r.proto_message == proto_message,
            r.pkg@ == pkg@,
            r.prefix@ == prefix@,
            r@ == spec_parse_message(*proto_message, pkg@, prefix@),
    {
        let name = match &proto_message.name {
            Some(n) => n.as_str(),
            None => "",
        };
        let mut rust_type = owned(prefix);
        rust_type.append(name);
        let mut fields: Vec<Field<'a>> = Vec::new();
        let n = proto_message.field.len();
        let mut i: usize = 0;
        while i < n
            invariant
                n == proto_message.field@.len(),
                i <= n,
                forall|j: int| 0 <= j < proto_message.field@.len() ==> field_ok(#[trigger] proto_message.field@[j]),
                fields@.len() == i,
                forall|j: int|
                    0 <= j < i ==> (#[trigger] fields@[j])@ == spec_parse_field(
                        proto_message.field@[j],
                        pkg@,
                    ),
            decreases n - i,
        {
            let f = &proto_message.field[i];
            match Field::parse(f, pkg) {
                Some(field) => {
                    fields.push(field);
                },
                None => {},
            }
            i = i + 1;
        }
        let r = Message {
            proto_message,
            pkg: owned(pkg),
            prefix: owned(prefix),
            rust_type,
            fields,
        };
        assert(r@.fields =~= proto_message.field@.map_values(
            |f: FieldDescriptorProto| spec_parse_field(f, pkg@),
        ));
        r
    }

    /// Whether a field of the message holds a message.
    pub fn has_any_message_field(&self) -> (r: bool)
        ensures
            r == exists|i: int|
                0 <= i < self@.fields.len() && (#[trigger] self@.fields[i]).field_type
                    == FieldDescriptorProtoType::TypeMessage,
    {
        let n = self.fields.len();
        let mut i: usize = 0;
        while i < n
            invariant
                n == self.fields@.len(),
                i <= n,
                forall|j: int|
                    0 <= j < i ==> (#[trigger] self.fields@[j]).field_type
                        != FieldDescriptorProtoType::TypeMessage,
            decreases n - i,
        {
            if self.fields[i].field_type == FieldDescriptorProtoType::TypeMessage {
                assert(self@.fields[i as int].field_type == FieldDescriptorProtoType::TypeMessage);
                return true;
            }
            i = i + 1;
        }
        assert forall|j: int| 0 <= j < self@.fields.len() implies (#[trigger] self@.fields[j]).field_type
            != FieldDescriptorProtoType::TypeMessage by {
            assert(self@.fields[j] == self.fields@[j]@);
        }
        false
    }

    /// The fields whose label is `required`, in order.
    pub fn required_fields<'s>(&'s self) -> (r: Vec<&'s Field<'a>>)
        ensures
            r@.map_values(|f: &Field<'a>| f@) == required_fields_of(self@.fields),
    {
        let mut r: Vec<&'s Field<'a>> = Vec::new();
        let n = self.fields.len();
        let mut i: usize = 0;
        while i < n
            invariant
                n == self.fields@.len(),
                i <= n,
                r@.map_values(|f: &Field<'a>| f@) == required_fields_of(self@.fields.take(i as int)),
            decreases n - i,
        {
            let field = &self.fields[i];
            let ghost before = r@.map_values(|f: &Field<'a>| f@);
            if field.proto_field.label == Some(FieldDescriptorProtoLabel::LabelRequired) {
                r.push(field);
                assert(r@.map_values(|f: &Field<'a>| f@) =~= before.push(field@));
            }
            assert(self@.fields.take(i + 1).drop_last() =~= self@.fields.take(i as int));
            assert(self@.fields.take(i + 1).last() == field@);
            i = i + 1;
        }
        assert(self@.fields.take(n as int) =~= self@.fields);
        r
    }
}

} // verus!
