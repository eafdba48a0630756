//! The templates of the generated code: one Rust struct, its impls and the
//! `Message` impl per message, one Rust enum per enum, and one module per
//! `.proto` file.
//!
//! Each `write_*` function appends to a line buffer; its contract says which
//! lines it appends, as a spec function of the descriptors it reads.
use vstd::prelude::*;
use crate::descriptor::{
    DescriptorProto, EnumDescriptorProto, EnumValueDescriptorProto, FieldDescriptorProto,
    FieldDescriptorProtoType, FileDescriptorProto,
};
use crate::model::{
    descriptor_ok, enum_ok, field_ok, required_fields_of, spec_parse_field, spec_parse_message,
    Field, FieldView, Message, MessageView, RepeatMode,
};
use crate::names::{
    is_proto_path, proto_path_to_rust_base, protobuf_name,
    spec_proto_path_to_rust_base, spec_protobuf_name,
};
use crate::text::{cat2, cat3, cat4, cat5, int_decimal, int_to_decimal, owned};
use crate::wire_format::{
    field_type_size, field_type_wire_type, spec_field_type_size, spec_field_type_wire_type,
    spec_tag_size, spec_wire_type_name, tag_size, wire_type_name, WireType,
};
use crate::writer::{
    concat_map, indent_step, indented_line, lemma_concat_map_all, lemma_concat_map_step, line_of,
    spec_case_block, spec_case_expr_text, spec_comment_text, spec_def_fn, spec_expr_block,
    spec_field_text, spec_for_stmt, spec_if_stmt, spec_impl_block, spec_impl_for_block,
    spec_match_block, spec_match_expr, spec_pub_fn, spec_while_block, text_of, fits, IndentWriter,
    VecWriter,
};

verus! {

/// A field as a parsed message holds it: its descriptor is one that the
/// generator accepts, and its type and wire type are the descriptor's.
pub open spec fn field_view_ok(f: FieldView) -> bool {
    &&& field_ok(f.proto)
    &&& f.field_type == f.proto.field_type.unwrap()
    &&& f.wire_type == spec_field_type_wire_type(f.field_type)
}

/// Reading a descriptor that `field_ok` accepts gives a field that
/// `field_view_ok` accepts.
pub proof fn lemma_parsed_field_ok(f: FieldDescriptorProto, pkg: Seq<char>)
    requires
        field_ok(f),
    ensures
        field_view_ok(spec_parse_field(f, pkg)),
{
}

// ---------------------------------------------------------------------------
// Reading one field in `merge_from`
// ---------------------------------------------------------------------------

/// How `merge_from` reads a field: a repeated field of a length-delimited
/// type one value per tag, another repeated field packed or not, a single
/// field by itself.
pub open spec fn merge_repeat_mode(f: FieldView) -> RepeatMode {
    if f.repeated {
        if spec_field_type_wire_type(f.field_type) == WireType::WireTypeLengthDelimited {
            RepeatMode::RepeatRegular
        } else {
            RepeatMode::RepeatPacked
        }
    } else {
        RepeatMode::Single
    }
}

/// The expression that reads one value of a field that is not a message.
pub open spec fn spec_read_proc(f: FieldView) -> Seq<char> {
    if f.field_type == FieldDescriptorProtoType::TypeEnum {
        f.rust_type + "::new(is.read_int32())"@
    } else {
        "is.read_"@ + spec_protobuf_name(f.field_type) + "()"@
    }
}

/// The lines of `merge_from` that read a packed field: a length-delimited
/// run of values, or a single value with its own tag.
pub open spec fn merge_packed_lines(f: FieldView, ind: Seq<char>) -> Seq<Seq<char>> {
    let wt = spec_wire_type_name(spec_field_type_wire_type(f.field_type));
    let ind2 = ind + indent_step();
    line_of(
        ind,
        "if wire_type == wire_format::"@ + spec_wire_type_name(WireType::WireTypeLengthDelimited)
            + " {"@,
    ) + line_of(ind2, "let len = is.read_raw_varint32();"@) + line_of(
        ind2,
        "let old_limit = is.push_limit(len);"@,
    ) + spec_while_block(
        ind2,
        "!is.eof()"@,
        line_of(ind2 + indent_step(), "self."@ + f.name + ".push("@ + spec_read_proc(f) + ");"@),
    ) + line_of(ind2, "is.pop_limit(old_limit);"@) + line_of(ind, "} else {"@) + line_of(
        ind2,
        "assert_eq!(wire_format::"@ + wt + ", wire_type);"@,
    ) + line_of(ind2, "self."@ + f.name + ".push("@ + spec_read_proc(f) + ");"@) + line_of(
        ind,
        "}"@,
    )
}

/// The lines of `merge_from` that read one value of a field and store it.
pub open spec fn merge_value_lines(f: FieldView, ind: Seq<char>) -> Seq<Seq<char>> {
    let wt = spec_wire_type_name(spec_field_type_wire_type(f.field_type));
    line_of(ind, "assert_eq!(wire_format::"@ + wt + ", wire_type);"@) + (
    if f.field_type == FieldDescriptorProtoType::TypeMessage {
        line_of(ind, "let mut tmp = "@ + f.rust_type + "::new();"@) + line_of(
            ind,
            "is.merge_message(&mut tmp);"@,
        )
    } else {
        line_of(ind, "let tmp = "@ + spec_read_proc(f) + ";"@)
    }) + (if merge_repeat_mode(f) == RepeatMode::Single {
        line_of(ind, "self."@ + f.name + " = Some(tmp);"@)
    } else {
        line_of(ind, "self."@ + f.name + ".push(tmp);"@)
    })
}

/// The lines of `merge_from` that read a field whose tag was just read.
pub open spec fn merge_field_lines(f: FieldView, ind: Seq<char>) -> Seq<Seq<char>> {
    if merge_repeat_mode(f) == RepeatMode::RepeatPacked {
        merge_packed_lines(f, ind)
    } else {
        merge_value_lines(f, ind)
    }
}

/// The expression that reads one value of `field`, for fields that are not
/// messages.
fn read_proc(field: &Field) -> (r: Option<String>)
    requires
        field.field_type != FieldDescriptorProtoType::TypeGroup,
    ensures
        field.field_type == FieldDescriptorProtoType::TypeMessage ==> r is None,
        field.field_type != FieldDescriptorProtoType::TypeMessage ==> (r matches Some(s) && s@
            == spec_read_proc(field@)),
{
    match field.field_type {
        FieldDescriptorProtoType::TypeMessage => None,
        FieldDescriptorProtoType::TypeEnum => Some(
            cat2(field.rust_type.as_str(), "::new(is.read_int32())"),
        ),
        t => Some(cat3("is.read_", protobuf_name(t), "()")),
    }
}

#[verifier::spinoff_prover]
#[verifier::rlimit(50)]
fn write_merge_packed(field: &Field, w: &IndentWriter, out: &mut VecWriter)
    requires
        fits(old(out).base(), w.indent@),
        field.field_type != FieldDescriptorProtoType::TypeGroup,
        spec_field_type_wire_type(field.field_type) != WireType::WireTypeLengthDelimited,
    ensures
        final(out).base() == old(out).base(),
        final(out)@ == old(out)@ + merge_packed_lines(field@, w.indent@),
{
    let read = read_proc(field);
    let rp = match &read {
        Some(s) => s.as_str(),
        None => "",
    };
    let wt = wire_type_name(field_type_wire_type(field.field_type));
    let name = field.name.as_str();
    let w2 = w.indent();
    let w3 = w2.indent();
    w.write_line(
        out,
        cat3("if wire_type == wire_format::", wire_type_name(WireType::WireTypeLengthDelimited), " {").as_str(),
    );
    w2.write_line(out, "let len = is.read_raw_varint32();");
    w2.write_line(out, "let old_limit = is.push_limit(len);");
    let mut body = w2.body();
    w3.write_line(&mut body, cat5("self.", name, ".push(", rp, ");").as_str());
    w2.while_block(out, "!is.eof()", body);
    w2.write_line(out, "is.pop_limit(old_limit);");
    w.write_line(out, "} else {");
    w2.write_line(out, cat3("assert_eq!(wire_format::", wt, ", wire_type);").as_str());
    w2.write_line(out, cat5("self.", name, ".push(", rp, ");").as_str());
    w.write_line(out, "}");
    assert(out@ =~= old(out)@ + merge_packed_lines(field@, w.indent@));
}

#[verifier::spinoff_prover]
fn write_merge_value(field: &Field, w: &IndentWriter, out: &mut VecWriter)
    requires
        fits(old(out).base(), w.indent@),
        field.field_type != FieldDescriptorProtoType::TypeGroup,
    ensures
        final(out).base() == old(out).base(),
        final(out)@ == old(out)@ + merge_value_lines(field@, w.indent@),
{
    let read = read_proc(field);
    let wt = wire_type_name(field_type_wire_type(field.field_type));
    let name = field.name.as_str();
    w.write_line(out, cat3("assert_eq!(wire_format::", wt, ", wire_type);").as_str());
    match &read {
        None => {
            w.write_line(out, cat3("let mut tmp = ", field.rust_type.as_str(), "::new();").as_str());
            w.write_line(out, "is.merge_message(&mut tmp);");
        },
        Some(rp) => {
            w.write_line(out, cat3("let tmp = ", rp.as_str(), ";").as_str());
        },
    }
    if !field.repeated {
        w.write_line(out, cat3("self.", name, " = Some(tmp);").as_str());
    } else {
        w.write_line(out, cat3("self.", name, ".push(tmp);").as_str());
    }
    assert(out@ =~= old(out)@ + merge_value_lines(field@, w.indent@));
}

/// Writes the lines of `merge_from` that read `field` after its tag.
pub fn write_merge_from_field(field: &Field, w: &IndentWriter, out: &mut VecWriter)
    requires
        fits(old(out).base(), w.indent@),
        field.field_type != FieldDescriptorProtoType::TypeGroup,
    ensures
        final(out).base() == old(out).base(),
        final(out)@ == old(out)@ + merge_field_lines(field@, w.indent@),
{
    let wire_type = field_type_wire_type(field.field_type);
    let repeat_mode = if field.repeated {
        if wire_type == WireType::WireTypeLengthDelimited {
            RepeatMode::RepeatRegular
        } else {
            RepeatMode::RepeatPacked
        }
    } else {
        RepeatMode::Single
    };
    match repeat_mode {
        RepeatMode::RepeatPacked => write_merge_packed(field, w, out),
        _ => write_merge_value(field, w, out),
    }
}

// ---------------------------------------------------------------------------
// Enums
// ---------------------------------------------------------------------------

/// The variant line of an enum value.
pub open spec fn enum_variant_lines(ind: Seq<char>) -> spec_fn(EnumValueDescriptorProto) -> Seq<Seq<char>> {
    |v: EnumValueDescriptorProto|
        line_of(ind, "    "@ + v.name.unwrap()@ + " = "@ + int_decimal(v.number.unwrap() as int) + ","@)
}

/// The match arm of `new` for an enum value.
pub open spec fn enum_arm_lines(ind: Seq<char>) -> spec_fn(EnumValueDescriptorProto) -> Seq<Seq<char>> {
    |v: EnumValueDescriptorProto|
        line_of(ind, int_decimal(v.number.unwrap() as int) + " => "@ + v.name.unwrap()@ + ","@)
}

/// The lines of the Rust enum generated for an enum type whose Rust name is
/// `prefix` followed by its name.
pub open spec fn enum_lines(prefix: Seq<char>, e: EnumDescriptorProto, ind: Seq<char>) -> Seq<Seq<char>> {
    let name = prefix + e.name.unwrap()@;
    let j = ind + indent_step();
    let k = j + indent_step();
    let l = k + indent_step();
    line_of(ind, "#[deriving(Clone,Eq)]"@) + line_of(ind, "pub enum "@ + name + " {"@) + concat_map(
        e.value@,
        enum_variant_lines(ind),
    ) + line_of(ind, "}"@) + line_of(ind, ""@) + spec_impl_block(
        ind,
        name,
        spec_pub_fn(
            j,
            "new(value: i32) -> "@ + name,
            spec_match_expr(
                k,
                "value"@,
                concat_map(e.value@, enum_arm_lines(l)) + line_of(l, "_ => fail!()"@),
            ),
        ),
    ) + line_of(ind, ""@) + spec_impl_for_block(
        ind,
        "ProtobufEnum"@,
        name,
        spec_pub_fn(j, "value(&self) -> i32"@, line_of(k, "*self as i32"@)),
    )
}

/// Writes the Rust enum for `enum_type`, named `prefix` followed by its name,
/// with `new` from a number and `value` back to it.
pub fn write_enum(prefix: &str, w: &IndentWriter, out: &mut VecWriter, enum_type: &EnumDescriptorProto)
    requires
        fits(old(out).base(), w.indent@),
        enum_ok(*enum_type),
    ensures
        final(out).base() == old(out).base(),
        final(out)@ == old(out)@ + enum_lines(prefix@, *enum_type, w.indent@),
{
    let ename = match &enum_type.name {
        Some(n) => n.as_str(),
        None => "",
    };
    let enum_type_name = cat2(prefix, ename);
    let name = enum_type_name.as_str();
    w.write_line(out, "#[deriving(Clone,Eq)]");
    w.write_line(out, cat3("pub enum ", name, " {").as_str());
    let n = enum_type.value.len();
    let ghost start = out@;
    let mut i: usize = 0;
    while i < n
        invariant
            fits(out.base(),
            w.indent@),
            out.base() == old(out).base(),
            n == enum_type.value@.len(),
            i <= n,
            enum_ok(*enum_type),
            out@ == start + concat_map(enum_type.value@.take(i as int), enum_variant_lines(w.indent@)),
        decreases n - i,
    {
        let value = &enum_type.value[i];
        assert(enum_type.value@[i as int].name is Some);
        let vname = match &value.name {
            Some(s) => s.as_str(),
            None => "",
        };
        let num = int_to_decimal(value.number.unwrap() as i64);
        w.write_line(out, cat5("    ", vname, " = ", num.as_str(), ",").as_str());
        proof {
            lemma_concat_map_step(enum_type.value@, enum_variant_lines(w.indent@), i as int);
        }
        i = i + 1;
    }
    proof {
        lemma_concat_map_all(enum_type.value@, enum_variant_lines(w.indent@));
    }
    w.write_line(out, "}");
    w.write_line(out, "");

    let j = w.indent();
    let k = j.indent();
    let l = k.indent();
    let mut arms = k.body();
    let mut i: usize = 0;
    while i < n
        invariant
            arms.base() == k.indent@ + indent_step(),
            fits(arms.base(),
            l.indent@),
            n == enum_type.value@.len(),
            i <= n,
            enum_ok(*enum_type),
            arms@ == concat_map(enum_type.value@.take(i as int), enum_arm_lines(l.indent@)),
        decreases n - i,
    {
        let value = &enum_type.value[i];
        assert(enum_type.value@[i as int].name is Some);
        let vname = match &value.name {
            Some(s) => s.as_str(),
            None => "",
        };
        let num = int_to_decimal(value.number.unwrap() as i64);
        l.write_line(&mut arms, cat4(num.as_str(), " => ", vname, ",").as_str());
        proof {
            lemma_concat_map_step(enum_type.value@, enum_arm_lines(l.indent@), i as int);
        }
        i = i + 1;
    }
    proof {
        lemma_concat_map_all(enum_type.value@, enum_arm_lines(l.indent@));
    }
    l.write_line(&mut arms, "_ => fail!()");
    let mut new_body = j.body();
    k.match_expr(&mut new_body, "value", arms);
    let mut impl_body = w.body();
    j.pub_fn(&mut impl_body, cat2("new(value: i32) -> ", name).as_str(), new_body);
    w.impl_block(out, name, impl_body);
    w.write_line(out, "");
    let mut value_body = j.body();
    k.write_line(&mut value_body, "*self as i32");
    let mut trait_body = w.body();
    j.pub_fn(&mut trait_body, "value(&self) -> i32", value_body);
    w.impl_for_block(out, "ProtobufEnum", name, trait_body);
    assert(out@ =~= old(out)@ + enum_lines(prefix@, *enum_type, w.indent@));
}

// ---------------------------------------------------------------------------
// The struct of a message and its inherent impl
// ---------------------------------------------------------------------------

/// Every field of the message is one that `field_view_ok` accepts.
pub open spec fn fields_ok(fields: Seq<FieldView>) -> bool {
    forall|i: int| 0 <= i < fields.len() ==> field_view_ok(#[trigger] fields[i])
}

/// Whether some field holds a message.
pub open spec fn has_message_field(fields: Seq<FieldView>) -> bool {
    exists|i: int|
        0 <= i < fields.len() && (#[trigger] fields[i]).field_type == FieldDescriptorProtoType::TypeMessage
}

/// The Rust type of the struct member for a field: a vector when it is
/// repeated, an option otherwise.
pub open spec fn full_type(f: FieldView) -> Seq<char> {
    if f.repeated {
        "~["@ + f.rust_type + "]"@
    } else {
        "Option<"@ + f.rust_type + ">"@
    }
}

/// The struct member of a field; a field whose type name holds a `.` has none.
pub open spec fn struct_field_lines(ind: Seq<char>) -> spec_fn(FieldView) -> Seq<Seq<char>> {
    |f: FieldView|
        if f.rust_type.contains('.') {
            Seq::empty()
        } else {
            line_of(ind, spec_field_text(f.name, full_type(f)))
        }
}

/// A struct without fields gets a placeholder member.
pub open spec fn dummy_lines(fields: Seq<FieldView>, ind: Seq<char>, value: Seq<char>) -> Seq<Seq<char>> {
    if fields.len() == 0 {
        line_of(ind, spec_field_text("dummy"@, value))
    } else {
        Seq::empty()
    }
}

/// The struct of a message.
pub open spec fn struct_lines(m: MessageView, ind: Seq<char>) -> Seq<Seq<char>> {
    let j = ind + indent_step();
    spec_expr_block(
        ind,
        "pub struct "@ + m.rust_type,
        concat_map(m.fields, struct_field_lines(j)) + dummy_lines(m.fields, j, "bool"@),
    )
}

/// Writes the struct of a message.
fn write_struct(msg: &Message, w: &IndentWriter, out: &mut VecWriter)
    requires
        fits(old(out).base(), w.indent@),
    ensures
        final(out).base() == old(out).base(),
        final(out)@ == old(out)@ + struct_lines(msg@, w.indent@),
{
    proof {
        reveal_strlit(".");
    }
    let inner = w.indent();
    let mut body = w.body();
    let n = msg.fields.len();
    let mut i: usize = 0;
    while i < n
        invariant
            body.base() == w.indent@ + indent_step(),
            fits(body.base(),
            inner.indent@),
            n == msg@.fields.len(),
            i <= n,
            body@ == concat_map(msg@.fields.take(i as int), struct_field_lines(inner.indent@)),
        decreases n - i,
    {
        let field = &msg.fields[i];
        assert(msg@.fields[i as int] == field@);
        if !crate::text::contains_char(field.rust_type.as_str(), '.') {
            let full_type = if field.repeated {
                cat3("~[", field.rust_type.as_str(), "]")
            } else {
                cat3("Option<", field.rust_type.as_str(), ">")
            };
            inner.field(&mut body, field.name.as_str(), full_type.as_str());
        }
        proof {
            lemma_concat_map_step(msg@.fields, struct_field_lines(inner.indent@), i as int);
        }
        i = i + 1;
    }
    proof {
        lemma_concat_map_all(msg@.fields, struct_field_lines(inner.indent@));
    }
    if n == 0 {
        inner.field(&mut body, "dummy", "bool");
    }
    w.pub_struct(out, msg.rust_type.as_str(), body);
}

/// The initializer of a field in `new`: an empty vector or `None`.
pub open spec fn new_field_lines(ind: Seq<char>) -> spec_fn(FieldView) -> Seq<Seq<char>> {
    |f: FieldView|
        line_of(
            ind,
            spec_field_text(
                f.name,
                if f.repeated {
                    "~[]"@
                } else {
                    "None"@
                },
            ),
        )
}

/// The inherent `new` of a message, with every field empty.
pub open spec fn new_fn_lines(m: MessageView, j: Seq<char>) -> Seq<Seq<char>> {
    let k = j + indent_step();
    let l = k + indent_step();
    spec_pub_fn(
        j,
        "new() -> "@ + m.rust_type,
        spec_expr_block(
            k,
            m.rust_type,
            concat_map(m.fields, new_field_lines(l)) + dummy_lines(m.fields, l, "false"@),
        ),
    )
}

/// The name of a field's value in generated code, after `Some(ref v)` or
/// `|v|`: messages by reference, enums as their number.
pub open spec fn value_expr(t: FieldDescriptorProtoType) -> Seq<char> {
    if t == FieldDescriptorProtoType::TypeMessage {
        "v"@
    } else if t == FieldDescriptorProtoType::TypeEnum {
        "*v as i32"@
    } else {
        "*v"@
    }
}

/// The suffix of the output stream's method that writes a value of a type.
pub open spec fn write_suffix(t: FieldDescriptorProtoType) -> Seq<char> {
    if t == FieldDescriptorProtoType::TypeMessage {
        "message"@
    } else if t == FieldDescriptorProtoType::TypeEnum {
        "enum"@
    } else {
        spec_protobuf_name(t)
    }
}

/// The statements that write one value `v` of a field with its tag; a
/// message goes with its precomputed size.
pub open spec fn write_value_texts(f: FieldView) -> Seq<Seq<char>> {
    let num = int_decimal(f.proto.number.unwrap() as int);
    if f.field_type == FieldDescriptorProtoType::TypeMessage {
        seq![
            "os.write_tag("@ + num + ", wire_format::"@ + spec_wire_type_name(WireType::WireTypeLengthDelimited) + ");"@,
            "os.write_raw_varint32(sizes[*sizes_pos]);"@,
            "*sizes_pos += 1;"@,
            "v.write_to_with_computed_sizes(os, sizes, sizes_pos);"@,
        ]
    } else {
        seq!["os.write_"@ + write_suffix(f.field_type) + "("@ + num + ", "@ + value_expr(f.field_type) + ");"@]
    }
}

/// Lines written with one indentation.
pub open spec fn indent_all(ind: Seq<char>, texts: Seq<Seq<char>>) -> Seq<Seq<char>> {
    texts.map_values(|t: Seq<char>| indented_line(ind, t))
}

/// The statements of `write_to_with_computed_sizes` for a single field:
/// write the value when it is present.
pub open spec fn single_writer_lines(f: FieldView, k: Seq<char>) -> Seq<Seq<char>> {
    let l = k + indent_step();
    let m = l + indent_step();
    spec_match_block(
        k,
        "self."@ + f.name,
        spec_case_block(l, "Some(ref v)"@, indent_all(m, write_value_texts(f))) + line_of(
            l,
            spec_case_expr_text("None"@, "{}"@),
        ),
    )
}

/// The statements of `write_to_with_computed_sizes` for a packed field:
/// when it has values, one tag, the size of the run, and the values.
pub open spec fn packed_writer_lines(f: FieldView, k: Seq<char>) -> Seq<Seq<char>> {
    let l = k + indent_step();
    let m = l + indent_step();
    let num = int_decimal(f.proto.number.unwrap() as int);
    spec_if_stmt(
        k,
        "!self."@ + f.name + ".is_empty()"@,
        line_of(
            l,
            "os.write_tag("@ + num + ", wire_format::"@ + (spec_wire_type_name(
                WireType::WireTypeLengthDelimited,
            ) + ");"@),
        ) + line_of(
            l,
            "os.write_raw_varint32(rt::vec_packed_data_size(self."@ + f.name + ", wire_format::"@
                + spec_wire_type_name(spec_field_type_wire_type(f.field_type)) + "));"@,
        ) + spec_for_stmt(
            l,
            "self."@ + f.name + ".iter().advance"@,
            "v"@,
            line_of(
                m,
                "os.write_"@ + write_suffix(f.field_type) + "_no_tag("@ + value_expr(f.field_type)
                    + ");"@,
            ),
        ),
    )
}

/// The statements of `write_to_with_computed_sizes` for a repeated field
/// that is not packed: each value with its tag.
pub open spec fn regular_writer_lines(f: FieldView, k: Seq<char>) -> Seq<Seq<char>> {
    spec_for_stmt(
        k,
        "self."@ + f.name + ".iter().advance"@,
        "v"@,
        indent_all(k + indent_step(), write_value_texts(f)),
    )
}

/// The statements of `write_to_with_computed_sizes` that write a field.
pub open spec fn field_writer_lines(f: FieldView, k: Seq<char>) -> Seq<Seq<char>> {
    if f.repeat_mode == RepeatMode::Single {
        single_writer_lines(f, k)
    } else if f.repeat_mode == RepeatMode::RepeatPacked {
        packed_writer_lines(f, k)
    } else {
        regular_writer_lines(f, k)
    }
}

/// `field_writer_lines` for each field.
pub open spec fn write_field_lines(k: Seq<char>) -> spec_fn(FieldView) -> Seq<Seq<char>> {
    |f: FieldView| field_writer_lines(f, k)
}

/// The text of the signature of `write_to_with_computed_sizes`.
pub open spec fn write_sizes_sig() -> Seq<char> {
    "write_to_with_computed_sizes(&self, os: &mut CodedOutputStream, sizes: &[u32], sizes_pos: &mut uint)"@
}

/// The `clear_` method of a field, after an empty line.
pub open spec fn clear_fn_lines(j: Seq<char>) -> spec_fn(FieldView) -> Seq<Seq<char>> {
    |f: FieldView|
        line_of(j, ""@) + spec_pub_fn(
            j,
            "clear_"@ + f.name + "(&mut self)"@,
            line_of(
                j + indent_step(),
                if f.repeated {
                    "self."@ + f.name + ".clear();"@
                } else {
                    "self."@ + f.name + " = None;"@
                },
            ),
        )
}

/// The inherent impl of a message: `new`, `write_to_with_computed_sizes`
/// (marked as allowed to leave `sizes` unused when no field is a message),
/// and one `clear_` method per field.
pub open spec fn impl_lines(m: MessageView, ind: Seq<char>) -> Seq<Seq<char>> {
    let j = ind + indent_step();
    let k = j + indent_step();
    spec_impl_block(
        ind,
        m.rust_type,
        new_fn_lines(m, j) + line_of(j, ""@) + (if has_message_field(m.fields) {
            Seq::empty()
        } else {
            line_of(j, "#[allow(unused_variable)]"@)
        }) + spec_pub_fn(j, write_sizes_sig(), concat_map(m.fields, write_field_lines(k)))
            + concat_map(m.fields, clear_fn_lines(j)),
    )
}

/// Writes the inherent `new` of a message.
fn write_new_fn(msg: &Message, j: &IndentWriter, out: &mut VecWriter)
    requires
        fits(old(out).base(), j.indent@),
    ensures
        final(out).base() == old(out).base(),
        final(out)@ == old(out)@ + new_fn_lines(msg@, j.indent@),
{
    let k = j.indent();
    let l = k.indent();
    let mut inits = k.body();
    let n = msg.fields.len();
    let mut i: usize = 0;
    while i < n
        invariant
            inits.base() == k.indent@ + indent_step(),
            fits(inits.base(),
            l.indent@),
            n == msg@.fields.len(),
            i <= n,
            inits@ == concat_map(msg@.fields.take(i as int), new_field_lines(l.indent@)),
        decreases n - i,
    {
        let field = &msg.fields[i];
        assert(msg@.fields[i as int] == field@);
        let init = if field.repeated {
            "~[]"
        } else {
            "None"
        };
        l.field(&mut inits, field.name.as_str(), init);
        proof {
            lemma_concat_map_step(msg@.fields, new_field_lines(l.indent@), i as int);
        }
        i = i + 1;
    }
    proof {
        lemma_concat_map_all(msg@.fields, new_field_lines(l.indent@));
    }
    if n == 0 {
        l.field(&mut inits, "dummy", "false");
    }
    let mut body = j.body();
    k.expr_block(&mut body, msg.rust_type.as_str(), inits);
    j.pub_fn(out, cat2("new() -> ", msg.rust_type.as_str()).as_str(), body);
}

/// The statements that write one value `v` of `field` with its tag.
fn write_value_lines(field: &Field) -> (r: Vec<String>)
    requires
        field_view_ok(field@),
    ensures
        r@.map_values(|l: String| l@) == write_value_texts(field@),
{
    let num = int_to_decimal(field.proto_field.number.unwrap() as i64);
    let mut r: Vec<String> = Vec::new();
    if field.field_type == FieldDescriptorProtoType::TypeMessage {
        r.push(
            cat4(
                "os.write_tag(",
                num.as_str(),
                ", wire_format::",
                wire_type_name(WireType::WireTypeLengthDelimited),
            ),
        );
        r.set(0, cat2(r[0].as_str(), ");"));
        r.push(owned("os.write_raw_varint32(sizes[*sizes_pos]);"));
        r.push(owned("*sizes_pos += 1;"));
        r.push(owned("v.write_to_with_computed_sizes(os, sizes, sizes_pos);"));
    } else {
        let suffix = if field.field_type == FieldDescriptorProtoType::TypeEnum {
            "enum"
        } else {
            protobuf_name(field.field_type)
        };
        let vv = if field.field_type == FieldDescriptorProtoType::TypeEnum {
            "*v as i32"
        } else {
            "*v"
        };
        let head = cat5("os.write_", suffix, "(", num.as_str(), ", ");
        r.push(cat3(head.as_str(), vv, ");"));
    }
    assert(r@.map_values(|l: String| l@) =~= write_value_texts(field@));
    r
}

/// Writes the statements of `write_to_with_computed_sizes` for one field.
fn write_field_writer(field: &Field, k: &IndentWriter, out: &mut VecWriter)
    requires
        fits(old(out).base(), k.indent@),
        field_view_ok(field@),
    ensures
        final(out).base() == old(out).base(),
        final(out)@ == old(out)@ + field_writer_lines(field@, k.indent@),
{
    let l = k.indent();
    let m = l.indent();
    let name = field.name.as_str();
    match field.repeat_mode {
        RepeatMode::Single => {
            let texts = write_value_lines(field);
            let mut values = l.body();
            m.write_lines(&mut values, &texts);
            assert(values@ =~= indent_all(m.indent@, write_value_texts(field@)));
            let mut arms = k.body();
            l.case_block(&mut arms, "Some(ref v)", values);
            l.case_expr(&mut arms, "None", "{}");
            k.match_block(out, cat2("self.", name).as_str(), arms);
        },
        RepeatMode::RepeatPacked => {
            write_packed_writer(field, k, out);
        },
        RepeatMode::RepeatRegular => {
            let texts = write_value_lines(field);
            let mut values = k.body();
            l.write_lines(&mut values, &texts);
            assert(values@ =~= indent_all(l.indent@, write_value_texts(field@)));
            k.for_stmt(out, cat3("self.", name, ".iter().advance").as_str(), "v", values);
        },
    }
}

#[verifier::spinoff_prover]
fn write_packed_writer(field: &Field, k: &IndentWriter, out: &mut VecWriter)
    requires
        fits(old(out).base(), k.indent@),
        field_view_ok(field@),
    ensures
        final(out).base() == old(out).base(),
        final(out)@ == old(out)@ + packed_writer_lines(field@, k.indent@),
{
    let l = k.indent();
    let m = l.indent();
    let num = int_to_decimal(field.proto_field.number.unwrap() as i64);
    let name = field.name.as_str();
    let suffix = if field.field_type == FieldDescriptorProtoType::TypeMessage {
        "message"
    } else if field.field_type == FieldDescriptorProtoType::TypeEnum {
        "enum"
    } else {
        protobuf_name(field.field_type)
    };
    let vv = if field.field_type == FieldDescriptorProtoType::TypeMessage {
        "v"
    } else if field.field_type == FieldDescriptorProtoType::TypeEnum {
        "*v as i32"
    } else {
        "*v"
    };
    let mut body = k.body();
    l.write_line(
        &mut body,
        cat4(
            "os.write_tag(",
            num.as_str(),
            ", wire_format::",
            cat2(wire_type_name(WireType::WireTypeLengthDelimited), ");").as_str(),
        ).as_str(),
    );
    l.write_line(
        &mut body,
        cat5(
            "os.write_raw_varint32(rt::vec_packed_data_size(self.",
            name,
            ", wire_format::",
            wire_type_name(field_type_wire_type(field.field_type)),
            "));",
        ).as_str(),
    );
    let mut each = l.body();
    m.write_line(&mut each, cat5("os.write_", suffix, "_no_tag(", vv, ");").as_str());
    l.for_stmt(&mut body, cat3("self.", name, ".iter().advance").as_str(), "v", each);
    k.if_stmt(out, cat3("!self.", name, ".is_empty()").as_str(), body);
}

/// Writes the inherent impl of a message.
fn write_impl<'m>(msg: &'m Message<'m>, w: &IndentWriter<'m>, out: &mut VecWriter)
    requires
        fits(old(out).base(), w.indent@),
        fields_ok(msg@.fields),
        w.msg == Some(msg),
    ensures
        final(out).base() == old(out).base(),
        final(out)@ == old(out)@ + impl_lines(msg@, w.indent@),
{
    let j = w.indent();
    let k = j.indent();
    let mut body = w.body();
    write_new_fn(msg, &j, &mut body);
    j.write_line(&mut body, "");
    if !msg.has_any_message_field() {
        j.write_line(&mut body, "#[allow(unused_variable)]");
    }
    let mut writes = j.body();
    let n = msg.fields.len();
    let mut i: usize = 0;
    while i < n
        invariant
            writes.base() == j.indent@ + indent_step(),
            fits(writes.base(),
            k.indent@),
            n == msg@.fields.len(),
            i <= n,
            fields_ok(msg@.fields),
            writes@ == concat_map(msg@.fields.take(i as int), write_field_lines(k.indent@)),
        decreases n - i,
    {
        let field = &msg.fields[i];
        assert(msg@.fields[i as int] == field@);
        write_field_writer(field, &k, &mut writes);
        proof {
            lemma_concat_map_step(msg@.fields, write_field_lines(k.indent@), i as int);
        }
        i = i + 1;
    }
    proof {
        lemma_concat_map_all(msg@.fields, write_field_lines(k.indent@));
    }
    j.pub_fn(
        &mut body,
        "write_to_with_computed_sizes(&self, os: &mut CodedOutputStream, sizes: &[u32], sizes_pos: &mut uint)",
        writes,
    );
    let bound = j;
    let writers = bound.fields();
    let ghost before = body@;
    let mut i: usize = 0;
    while i < n
        invariant
            body.base() == w.indent@ + indent_step(),
            fits(body.base(),
            j.indent@),
            n == msg@.fields.len(),
            n == writers@.len(),
            i <= n,
            bound.msg == Some(msg),
            bound.indent@ == j.indent@,
            forall|t: int|
                0 <= t < writers@.len() ==> (#[trigger] writers@[t]).indent@ == bound.indent@
                    && writers@[t].msg == bound.msg && writers@[t].field == Some(
                    &bound.msg.unwrap().fields@[t],
                ),
            body@ == before + concat_map(msg@.fields.take(i as int), clear_fn_lines(j.indent@)),
        decreases n - i,
    {
        let fw = &writers[i];
        assert(msg@.fields[i as int] == msg.fields@[i as int]@);
        fw.write_line(&mut body, "");
        let fk = fw.indent();
        let mut stmt = fw.body();
        fk.clear_field(&mut stmt);
        let cf = fw.clear_field_func();
        fw.pub_fn(&mut body, cat2(cf.as_str(), "(&mut self)").as_str(), stmt);
        proof {
            lemma_concat_map_step(msg@.fields, clear_fn_lines(j.indent@), i as int);
        }
        i = i + 1;
    }
    proof {
        lemma_concat_map_all(msg@.fields, clear_fn_lines(j.indent@));
    }
    w.impl_block(out, msg.rust_type.as_str(), body);
}

// ---------------------------------------------------------------------------
// The `Message` impl of a message
// ---------------------------------------------------------------------------

/// `Message::new`, which calls the inherent `new`.
pub open spec fn trait_new_lines(m: MessageView, j: Seq<char>) -> Seq<Seq<char>> {
    spec_def_fn(j, "new() -> "@ + m.rust_type, line_of(j + indent_step(), m.rust_type + "::new()"@))
}

/// The call of a field's `clear_` method.
pub open spec fn clear_call_lines(k: Seq<char>) -> spec_fn(FieldView) -> Seq<Seq<char>> {
    |f: FieldView| line_of(k, "self."@ + ("clear_"@ + f.name) + "();"@)
}

/// `Message::clear`, which clears every field.
pub open spec fn clear_lines(m: MessageView, j: Seq<char>) -> Seq<Seq<char>> {
    spec_def_fn(j, "clear(&mut self)"@, concat_map(m.fields, clear_call_lines(j + indent_step())))
}

/// The check that a required field is set.
pub open spec fn required_check_lines(k: Seq<char>) -> spec_fn(FieldView) -> Seq<Seq<char>> {
    |f: FieldView|
        spec_if_stmt(k, "self."@ + f.name + ".is_none()"@, line_of(k + indent_step(), "return false;"@))
}

/// `Message::is_initialized`, which checks every required field.
pub open spec fn is_initialized_lines(m: MessageView, j: Seq<char>) -> Seq<Seq<char>> {
    let k = j + indent_step();
    spec_def_fn(
        j,
        "is_initialized(&self) -> bool"@,
        concat_map(required_fields_of(m.fields), required_check_lines(k)) + line_of(k, "true"@),
    )
}

/// The match arm of `merge_from` for a field, by field number.
pub open spec fn merge_case_lines(mm: Seq<char>) -> spec_fn(FieldView) -> Seq<Seq<char>> {
    |f: FieldView| spec_case_block(mm, int_decimal(f.number as int), merge_field_lines(f, mm + indent_step()))
}

/// `Message::merge_from`: read tags until the end of the input, read the
/// field of each tag, skip unknown fields.
pub open spec fn merge_from_lines(m: MessageView, j: Seq<char>) -> Seq<Seq<char>> {
    let k = j + indent_step();
    let l = k + indent_step();
    let mm = l + indent_step();
    let n = mm + indent_step();
    spec_def_fn(
        j,
        "merge_from(&mut self, is: &mut CodedInputStream)"@,
        spec_while_block(
            k,
            "!is.eof()"@,
            line_of(l, "let (field_number, wire_type) = is.read_tag_unpack();"@) + spec_match_block(
                l,
                "field_number"@,
                concat_map(m.fields, merge_case_lines(mm)) + spec_case_block(
                    mm,
                    "_"@,
                    line_of(n, "// TODO: store in unknown fields"@) + line_of(
                        n,
                        "is.skip_field(wire_type);"@,
                    ),
                ),
            ),
        ),
    )
}

/// The statements of `compute_sizes` that add the size of one value
/// `value` of a field without a fixed size.
pub open spec fn value_size_lines(f: FieldView, l: Seq<char>) -> Seq<Seq<char>> {
    let num = int_decimal(f.number as int);
    if f.field_type == FieldDescriptorProtoType::TypeMessage {
        line_of(l, "let len = value.compute_sizes(sizes);"@) + line_of(
            l,
            "my_size += "@ + int_decimal(spec_tag_size(f.number) as int)
                + " + rt::compute_raw_varint32_size(len) + len;"@,
        )
    } else if f.field_type == FieldDescriptorProtoType::TypeBytes || f.field_type
        == FieldDescriptorProtoType::TypeString {
        line_of(l, "my_size += rt::"@ + spec_protobuf_name(f.field_type) + "_size("@ + num + ", *value);"@)
    } else if f.field_type == FieldDescriptorProtoType::TypeEnum {
        line_of(l, "my_size += rt::enum_size("@ + num + ", *value);"@)
    } else {
        line_of(
            l,
            "my_size += rt::value_size("@ + num + ", *value, wire_format::"@ + spec_wire_type_name(
                f.wire_type,
            ) + ");"@,
        )
    }
}

/// The statements of `compute_sizes` for a field: a packed field in one
/// call; a field of fixed size by its count, the tag included; another field
/// value by value.
pub open spec fn field_size_lines(f: FieldView, k: Seq<char>) -> Seq<Seq<char>> {
    if f.repeat_mode == RepeatMode::RepeatPacked {
        line_of(
            k,
            "my_size += rt::vec_packed_size("@ + int_decimal(f.number as int) + ", self."@ + f.name
                + ", wire_format::"@ + spec_wire_type_name(f.wire_type) + ");"@,
        )
    } else {
        match spec_field_type_size(f.field_type) {
            Some(s) => {
                let sz = int_decimal(s + spec_tag_size(f.number));
                if f.repeated {
                    line_of(k, "my_size += "@ + sz + " * self."@ + f.name + ".len();"@)
                } else {
                    spec_if_stmt(
                        k,
                        "self."@ + f.name + ".is_some()"@,
                        line_of(k + indent_step(), "my_size += "@ + sz + ";"@),
                    )
                }
            },
            None => spec_for_stmt(
                k,
                "self."@ + f.name + ".iter().advance"@,
                "value"@,
                value_size_lines(f, k + indent_step()),
            ),
        }
    }
}

/// `field_size_lines` for each field.
pub open spec fn size_lines(k: Seq<char>) -> spec_fn(FieldView) -> Seq<Seq<char>> {
    |f: FieldView| field_size_lines(f, k)
}

/// `Message::compute_sizes`, after its comment: reserve the message's slot
/// in `sizes`, add up the fields, store and return the sum.
pub open spec fn compute_sizes_lines(m: MessageView, j: Seq<char>) -> Seq<Seq<char>> {
    let k = j + indent_step();
    line_of(j, spec_comment_text("Compute sizes of nested messages"@)) + spec_def_fn(
        j,
        "compute_sizes(&self, sizes: &mut ~[u32]) -> u32"@,
        line_of(k, "let pos = sizes.len();"@) + line_of(k, "sizes.push(0);"@) + line_of(
            k,
            "let mut my_size = 0;"@,
        ) + concat_map(m.fields, size_lines(k)) + line_of(k, "sizes[pos] = my_size;"@) + line_of(
            k,
            spec_comment_text("value is returned for convenience"@),
        ) + line_of(k, "my_size"@),
    )
}

/// `Message::write_to`: compute the sizes, then write.
pub open spec fn write_to_lines(j: Seq<char>) -> Seq<Seq<char>> {
    let k = j + indent_step();
    spec_pub_fn(
        j,
        "write_to(&self, os: &mut CodedOutputStream)"@,
        line_of(k, "self.check_initialized();"@) + line_of(k, "let mut sizes: ~[u32] = ~[];"@)
            + line_of(k, "self.compute_sizes(&mut sizes);"@) + line_of(
            k,
            "let mut sizes_pos = 1; // first element is self"@,
        ) + line_of(k, "self.write_to_with_computed_sizes(os, sizes, &mut sizes_pos);"@) + line_of(
            k,
            "assert_eq!(sizes_pos, sizes.len());"@,
        ),
    )
}

/// The `Message` impl of a message.
pub open spec fn message_impl_lines(m: MessageView, ind: Seq<char>) -> Seq<Seq<char>> {
    let j = ind + indent_step();
    spec_impl_for_block(
        ind,
        "Message"@,
        m.rust_type,
        trait_new_lines(m, j) + line_of(j, ""@) + clear_lines(m, j) + line_of(j, ""@)
            + is_initialized_lines(m, j) + line_of(j, ""@) + merge_from_lines(m, j) + line_of(j, ""@)
            + compute_sizes_lines(m, j) + line_of(j, ""@) + write_to_lines(j),
    )
}

/// Writes `Message::clear`.
fn write_clear<'m>(msg: &'m Message<'m>, j: &IndentWriter<'m>, out: &mut VecWriter)
    requires
        fits(old(out).base(), j.indent@),
        j.msg == Some(msg),
    ensures
        final(out).base() == old(out).base(),
        final(out)@ == old(out)@ + clear_lines(msg@, j.indent@),
{
    let k = j.indent();
    let writers = k.fields();
    let n = writers.len();
    let mut body = j.body();
    let mut i: usize = 0;
    while i < n
        invariant
            body.base() == j.indent@ + indent_step(),
            fits(body.base(),
            k.indent@),
            n == msg@.fields.len(),
            n == writers@.len(),
            i <= n,
            k.msg == Some(msg),
            forall|t: int|
                0 <= t < writers@.len() ==> (#[trigger] writers@[t]).indent@ == k.indent@
                    && writers@[t].msg == k.msg && writers@[t].field == Some(&msg.fields@[t]),
            body@ == concat_map(msg@.fields.take(i as int), clear_call_lines(k.indent@)),
        decreases n - i,
    {
        let fw = &writers[i];
        assert(msg@.fields[i as int] == msg.fields@[i as int]@);
        let cf = fw.clear_field_func();
        fw.write_line(&mut body, cat3("self.", cf.as_str(), "();").as_str());
        proof {
            lemma_concat_map_step(msg@.fields, clear_call_lines(k.indent@), i as int);
        }
        i = i + 1;
    }
    proof {
        lemma_concat_map_all(msg@.fields, clear_call_lines(k.indent@));
    }
    j.def_fn(out, "clear(&mut self)", body);
}

/// Writes `Message::is_initialized`.
fn write_is_initialized(msg: &Message, j: &IndentWriter, out: &mut VecWriter)
    requires
        fits(old(out).base(), j.indent@),
    ensures
        final(out).base() == old(out).base(),
        final(out)@ == old(out)@ + is_initialized_lines(msg@, j.indent@),
{
    let k = j.indent();
    let l = k.indent();
    let required = msg.required_fields();
    let ghost req = required_fields_of(msg@.fields);
    let n = required.len();
    let mut body = j.body();
    let mut i: usize = 0;
    while i < n
        invariant
            body.base() == j.indent@ + indent_step(),
            fits(body.base(),
            k.indent@),
            n == required@.len(),
            required@.map_values(|f: &Field| f@) == req,
            i <= n,
            l.indent@ == k.indent@ + indent_step(),
            body@ == concat_map(req.take(i as int), required_check_lines(k.indent@)),
        decreases n - i,
    {
        let field = required[i];
        assert(req[i as int] == field@);
        let mut ret = k.body();
        l.write_line(&mut ret, "return false;");
        k.if_stmt(&mut body, cat3("self.", field.name.as_str(), ".is_none()").as_str(), ret);
        proof {
            lemma_concat_map_step(req, required_check_lines(k.indent@), i as int);
        }
        i = i + 1;
    }
    proof {
        lemma_concat_map_all(req, required_check_lines(k.indent@));
    }
    k.write_line(&mut body, "true");
    j.def_fn(out, "is_initialized(&self) -> bool", body);
}

/// Writes `Message::merge_from`.
fn write_merge_from(msg: &Message, j: &IndentWriter, out: &mut VecWriter)
    requires
        fits(old(out).base(), j.indent@),
        fields_ok(msg@.fields),
    ensures
        final(out).base() == old(out).base(),
        final(out)@ == old(out)@ + merge_from_lines(msg@, j.indent@),
{
    let k = j.indent();
    let l = k.indent();
    let mm = l.indent();
    let nn = mm.indent();
    let n = msg.fields.len();
    let mut arms = l.body();
    let mut i: usize = 0;
    while i < n
        invariant
            arms.base() == l.indent@ + indent_step(),
            fits(arms.base(),
            mm.indent@),
            n == msg@.fields.len(),
            i <= n,
            fields_ok(msg@.fields),
            arms@ == concat_map(msg@.fields.take(i as int), merge_case_lines(mm.indent@)),
        decreases n - i,
    {
        let field = &msg.fields[i];
        assert(msg@.fields[i as int] == field@);
        assert(field_view_ok(msg@.fields[i as int]));
        let inner = mm.indent();
        let mut read = mm.body();
        write_merge_from_field(field, &inner, &mut read);
        let num = int_to_decimal(field.number as i64);
        mm.case_block(&mut arms, num.as_str(), read);
        proof {
            lemma_concat_map_step(msg@.fields, merge_case_lines(mm.indent@), i as int);
        }
        i = i + 1;
    }
    proof {
        lemma_concat_map_all(msg@.fields, merge_case_lines(mm.indent@));
    }
    let mut unknown = mm.body();
    nn.write_line(&mut unknown, "// TODO: store in unknown fields");
    nn.write_line(&mut unknown, "is.skip_field(wire_type);");
    mm.case_block(&mut arms, "_", unknown);
    let mut loop_body = k.body();
    l.write_line(&mut loop_body, "let (field_number, wire_type) = is.read_tag_unpack();");
    l.match_block(&mut loop_body, "field_number", arms);
    let mut body = j.body();
    k.while_block(&mut body, "!is.eof()", loop_body);
    j.def_fn(out, "merge_from(&mut self, is: &mut CodedInputStream)", body);
}

/// Writes the statements of `compute_sizes` that add one value of a field
/// without a fixed size.
#[verifier::spinoff_prover]
fn write_value_size(field: &Field, l: &IndentWriter, out: &mut VecWriter)
    requires
        fits(old(out).base(), l.indent@),
        field_view_ok(field@),
    ensures
        final(out).base() == old(out).base(),
        final(out)@ == old(out)@ + value_size_lines(field@, l.indent@),
{
    let num = int_to_decimal(field.number as i64);
    match field.field_type {
        FieldDescriptorProtoType::TypeMessage => {
            l.write_line(out, "let len = value.compute_sizes(sizes);");
            let ts = int_to_decimal(tag_size(field.number) as i64);
            l.write_line(
                out,
                cat3("my_size += ", ts.as_str(), " + rt::compute_raw_varint32_size(len) + len;").as_str(),
            );
        },
        FieldDescriptorProtoType::TypeBytes | FieldDescriptorProtoType::TypeString => {
            let pn = protobuf_name(field.field_type);
            l.write_line(
                out,
                cat5("my_size += rt::", pn, "_size(", num.as_str(), ", *value);").as_str(),
            );
        },
        FieldDescriptorProtoType::TypeEnum => {
            l.write_line(out, cat3("my_size += rt::enum_size(", num.as_str(), ", *value);").as_str());
        },
        _ => {
            l.write_line(
                out,
                cat5(
                    "my_size += rt::value_size(",
                    num.as_str(),
                    ", *value, wire_format::",
                    wire_type_name(field.wire_type),
                    ");",
                ).as_str(),
            );
        },
    }
    assert(out@ =~= old(out)@ + value_size_lines(field@, l.indent@));
}

/// Writes the statements of `compute_sizes` for one field.
#[verifier::spinoff_prover]
fn write_field_size(field: &Field, k: &IndentWriter, out: &mut VecWriter)
    requires
        fits(old(out).base(), k.indent@),
        field_view_ok(field@),
    ensures
        final(out).base() == old(out).base(),
        final(out)@ == old(out)@ + field_size_lines(field@, k.indent@),
{
    let name = field.name.as_str();
    match field.repeat_mode {
        RepeatMode::RepeatPacked => {
            let num = int_to_decimal(field.number as i64);
            let head = cat3("my_size += rt::vec_packed_size(", num.as_str(), ", self.");
            k.write_line(
                out,
                cat5(head.as_str(), name, ", wire_format::", wire_type_name(field.wire_type), ");").as_str(),
            );
            assert(out@ =~= old(out)@ + field_size_lines(field@, k.indent@));
        },
        _ => {
            match field_type_size(field.field_type) {
                Some(s) => {
                    let sz = int_to_decimal((s + tag_size(field.number)) as i64);
                    if field.repeated {
                        k.write_line(
                            out,
                            cat5("my_size += ", sz.as_str(), " * self.", name, ".len();").as_str(),
                        );
                    } else {
                        let l = k.indent();
                        let mut body = k.body();
                        l.write_line(&mut body, cat3("my_size += ", sz.as_str(), ";").as_str());
                        k.if_stmt(out, cat3("self.", name, ".is_some()").as_str(), body);
                    }
                    assert(out@ =~= old(out)@ + field_size_lines(field@, k.indent@));
                },
                None => {
                    let l = k.indent();
                    let mut body = k.body();
                    write_value_size(field, &l, &mut body);
                    k.for_stmt(out, cat3("self.", name, ".iter().advance").as_str(), "value", body);
                },
            }
        },
    }
}

/// Writes `Message::compute_sizes` and its comment.
fn write_compute_sizes(msg: &Message, j: &IndentWriter, out: &mut VecWriter)
    requires
        fits(old(out).base(), j.indent@),
        fields_ok(msg@.fields),
    ensures
        final(out).base() == old(out).base(),
        final(out)@ == old(out)@ + compute_sizes_lines(msg@, j.indent@),
{
    let k = j.indent();
    j.comment(out, "Compute sizes of nested messages");
    let mut body = j.body();
    k.write_line(&mut body, "let pos = sizes.len();");
    k.write_line(&mut body, "sizes.push(0);");
    k.write_line(&mut body, "let mut my_size = 0;");
    let ghost start = body@;
    let n = msg.fields.len();
    let mut i: usize = 0;
    while i < n
        invariant
            body.base() == j.indent@ + indent_step(),
            fits(body.base(),
            k.indent@),
            n == msg@.fields.len(),
            i <= n,
            fields_ok(msg@.fields),
            body@ == start + concat_map(msg@.fields.take(i as int), size_lines(k.indent@)),
        decreases n - i,
    {
        let field = &msg.fields[i];
        assert(msg@.fields[i as int] == field@);
        assert(field_view_ok(msg@.fields[i as int]));
        write_field_size(field, &k, &mut body);
        proof {
            lemma_concat_map_step(msg@.fields, size_lines(k.indent@), i as int);
        }
        i = i + 1;
    }
    proof {
        lemma_concat_map_all(msg@.fields, size_lines(k.indent@));
    }
    k.write_line(&mut body, "sizes[pos] = my_size;");
    k.comment(&mut body, "value is returned for convenience");
    k.write_line(&mut body, "my_size");
    j.def_fn(out, "compute_sizes(&self, sizes: &mut ~[u32]) -> u32", body);
}

/// Writes `Message::write_to`.
fn write_write_to(j: &IndentWriter, out: &mut VecWriter)
    requires
        fits(old(out).base(), j.indent@),
    ensures
        final(out).base() == old(out).base(),
        final(out)@ == old(out)@ + write_to_lines(j.indent@),
{
    let k = j.indent();
    let mut body = j.body();
    k.write_line(&mut body, "self.check_initialized();");
    k.write_line(&mut body, "let mut sizes: ~[u32] = ~[];");
    k.write_line(&mut body, "self.compute_sizes(&mut sizes);");
    k.write_line(&mut body, "let mut sizes_pos = 1; // first element is self");
    k.write_line(&mut body, "self.write_to_with_computed_sizes(os, sizes, &mut sizes_pos);");
    k.write_line(&mut body, "assert_eq!(sizes_pos, sizes.len());");
    j.pub_fn(out, "write_to(&self, os: &mut CodedOutputStream)", body);
}

/// Writes the `Message` impl of a message.
fn write_message_impl<'m>(msg: &'m Message<'m>, w: &IndentWriter<'m>, out: &mut VecWriter)
    requires
        fits(old(out).base(), w.indent@),
        fields_ok(msg@.fields),
        w.msg == Some(msg),
    ensures
        final(out).base() == old(out).base(),
        final(out)@ == old(out)@ + message_impl_lines(msg@, w.indent@),
{
    let j = w.indent();
    let k = j.indent();
    let mut body = w.body();
    let mut new_body = j.body();
    k.write_line(&mut new_body, cat2(msg.rust_type.as_str(), "::new()").as_str());
    j.def_fn(&mut body, cat2("new() -> ", msg.rust_type.as_str()).as_str(), new_body);
    j.write_line(&mut body, "");
    write_clear(msg, &j, &mut body);
    j.write_line(&mut body, "");
    write_is_initialized(msg, &j, &mut body);
    j.write_line(&mut body, "");
    write_merge_from(msg, &j, &mut body);
    j.write_line(&mut body, "");
    write_compute_sizes(msg, &j, &mut body);
    j.write_line(&mut body, "");
    write_write_to(&j, &mut body);
    w.impl_for_block(out, "Message", msg.rust_type.as_str(), body);
}

// ---------------------------------------------------------------------------
// Messages and files
// ---------------------------------------------------------------------------

/// An enum nested in a message or declared at the top of a file, after an
/// empty line.
pub open spec fn enum_piece(prefix: Seq<char>, ind: Seq<char>) -> spec_fn(EnumDescriptorProto) -> Seq<Seq<char>> {
    |e: EnumDescriptorProto| line_of(ind, ""@) + enum_lines(prefix, e, ind)
}

/// The code of a message itself: its struct, its inherent impl and its
/// `Message` impl.
#[verifier::opaque]
pub open spec fn message_head_lines(m: MessageView, ind: Seq<char>) -> Seq<Seq<char>> {
    line_of(ind, "#[deriving(Clone,Eq)]"@) + struct_lines(m, ind) + line_of(ind, ""@) + impl_lines(m, ind)
        + line_of(ind, ""@) + message_impl_lines(m, ind)
}

/// Writes the struct, the inherent impl and the `Message` impl of a message.
fn write_message_head<'m>(msg: &'m Message<'m>, w: &IndentWriter<'m>, out: &mut VecWriter)
    requires
        fits(old(out).base(), w.indent@),
        fields_ok(msg@.fields),
        w.msg == Some(msg),
    ensures
        final(out).base() == old(out).base(),
        final(out)@ == old(out)@ + message_head_lines(msg@, w.indent@),
{
    w.write_line(out, "#[deriving(Clone,Eq)]");
    write_struct(msg, w, out);
    w.write_line(out, "");
    write_impl(msg, w, out);
    w.write_line(out, "");
    write_message_impl(msg, w, out);
    reveal(message_head_lines);
    assert(out@ =~= old(out)@ + message_head_lines(msg@, w.indent@));
}

/// The nesting depth of a message: one more than that of its deepest nested
/// message.
pub open spec fn depth(d: DescriptorProto) -> nat
    decreases d, d.nested_type@.len() + 1,
{
    1 + nested_depth(d, d.nested_type@.len() as int)
}

/// The greatest depth of the first `k` messages nested in `d`.
pub open spec fn nested_depth(d: DescriptorProto, k: int) -> nat
    decreases d, k,
{
    if k <= 0 || k > d.nested_type@.len() {
        0
    } else {
        let a = nested_depth(d, k - 1);
        let b = depth(d.nested_type@[k - 1]);
        if a >= b {
            a
        } else {
            b
        }
    }
}

/// A nested message is less deep than the message it is nested in.
pub proof fn lemma_nested_depth(d: DescriptorProto, k: int, i: int)
    requires
        0 <= i < k <= d.nested_type@.len(),
    ensures
        depth(d.nested_type@[i]) <= nested_depth(d, k),
    decreases k,
{
    if i < k - 1 {
        lemma_nested_depth(d, k - 1, i);
    }
}

/// All the code generated for a message of package `pkg` whose Rust name
/// is `prefix` followed by its name: its struct, its inherent impl, its
/// `Message` impl, then its nested messages and enums, whose Rust names are
/// prefixed with the message's Rust name and `_`.
pub open spec fn message_lines(d: DescriptorProto, pkg: Seq<char>, prefix: Seq<char>, ind: Seq<char>) -> Seq<Seq<char>>
    decreases d, d.nested_type@.len() + 1,
{
    let m = spec_parse_message(d, pkg, prefix);
    message_head_lines(m, ind) + nested_lines(
        d,
        d.nested_type@.len() as int,
        pkg,
        m.rust_type + "_"@,
        ind,
    ) + concat_map(d.enum_type@, enum_piece(m.rust_type + "_"@, ind))
}

/// The code of the first `k` messages nested in `d`, each after an empty line.
pub open spec fn nested_lines(d: DescriptorProto, k: int, pkg: Seq<char>, prefix: Seq<char>, ind: Seq<char>) -> Seq<Seq<char>>
    decreases d, k,
{
    if k <= 0 || k > d.nested_type@.len() {
        Seq::empty()
    } else {
        nested_lines(d, k - 1, pkg, prefix, ind) + line_of(ind, ""@) + message_lines(
            d.nested_type@[k - 1],
            pkg,
            prefix,
            ind,
        )
    }
}

/// Writes all the code generated for a message and the messages and enums
/// nested in it.
#[verifier::spinoff_prover]
pub fn write_message(msg: &Message, w: &IndentWriter, out: &mut VecWriter)
    requires
        fits(old(out).base(), w.indent@),
        msg.is_parsed(),
        descriptor_ok(*msg.proto_message),
    ensures
        final(out).base() == old(out).base(),
        final(out)@ == old(out)@ + message_lines(*msg.proto_message, msg.pkg@, msg.prefix@, w.indent@),
    decreases depth(*msg.proto_message),
{
    let d = msg.proto_message;
    proof {
        assert forall|i: int| 0 <= i < msg@.fields.len() implies field_view_ok(#[trigger] msg@.fields[i]) by {
            assert(field_ok(d.field@[i]));
        }
    }
    let bw = w.bind_message(msg);
    write_message_head(msg, &bw, out);
    let ghost start = out@;
    let sub_prefix = cat2(msg.rust_type.as_str(), "_");
    let nn = d.nested_type.len();
    let mut i: usize = 0;
    while i < nn
        invariant
            fits(out.base(),
            bw.indent@),
            out.base() == old(out).base(),
            nn == d.nested_type@.len(),
            d == msg.proto_message,
            i <= nn,
            descriptor_ok(*d),
            bw.indent@ == w.indent@,
            out@ == start + nested_lines(*d, i as int, msg.pkg@, sub_prefix@, bw.indent@),
        decreases nn - i,
    {
        let nested_proto = &d.nested_type[i];
        assert(descriptor_ok(d.nested_type@[i as int]));
        let nested = Message::parse(nested_proto, msg.pkg.as_str(), sub_prefix.as_str());
        bw.write_line(out, "");
        proof {
            lemma_nested_depth(*d, nn as int, i as int);
        }
        assert(*nested.proto_message == d.nested_type@[i as int]);
        assert(depth(*d) == 1 + nested_depth(*d, d.nested_type@.len() as int));
        assert(depth(*nested.proto_message) < depth(*msg.proto_message));
        write_message(&nested, &bw, out);
        assert(out@ =~= start + nested_lines(*d, i + 1, msg.pkg@, sub_prefix@, bw.indent@));
        i = i + 1;
    }
    let ghost mid = out@;
    let ne = d.enum_type.len();
    let mut i: usize = 0;
    while i < ne
        invariant
            fits(out.base(),
            bw.indent@),
            out.base() == old(out).base(),
            ne == d.enum_type@.len(),
            i <= ne,
            descriptor_ok(*d),
            out@ == mid + concat_map(d.enum_type@.take(i as int), enum_piece(sub_prefix@, bw.indent@)),
        decreases ne - i,
    {
        let enum_type = &d.enum_type[i];
        assert(enum_ok(d.enum_type@[i as int]));
        bw.write_line(out, "");
        write_enum(sub_prefix.as_str(), &bw, out, enum_type);
        proof {
            lemma_concat_map_step(d.enum_type@, enum_piece(sub_prefix@, bw.indent@), i as int);
        }
        i = i + 1;
    }
    proof {
        lemma_concat_map_all(d.enum_type@, enum_piece(sub_prefix@, bw.indent@));
    }
    assert(out@ =~= old(out)@ + message_lines(*msg.proto_message, msg.pkg@, msg.prefix@, w.indent@));
}

/// The files that the generator can handle: named after a `.proto` file,
/// depending on `.proto` files, with a package when they declare messages,
/// and with messages and enums that it can handle.
pub open spec fn file_ok(f: FileDescriptorProto) -> bool {
    &&& f.name is Some
    &&& is_proto_path(f.name.unwrap()@)
    &&& forall|i: int| 0 <= i < f.dependency@.len() ==> is_proto_path((#[trigger] f.dependency@[i])@)
    &&& f.message_type@.len() > 0 ==> f.package is Some
    &&& forall|i: int| 0 <= i < f.message_type@.len() ==> descriptor_ok(#[trigger] f.message_type@[i])
    &&& forall|i: int| 0 <= i < f.enum_type@.len() ==> enum_ok(#[trigger] f.enum_type@[i])
}

/// The `use` line for a dependency.
pub open spec fn dependency_lines() -> spec_fn(String) -> Seq<Seq<char>> {
    |dep: String| line_of(Seq::empty(), "use "@ + spec_proto_path_to_rust_base(dep@) + "::*;"@)
}

/// A message declared at the top of a file, after an empty line.
pub open spec fn top_message_piece(pkg: Seq<char>) -> spec_fn(DescriptorProto) -> Seq<Seq<char>> {
    |d: DescriptorProto| line_of(Seq::empty(), ""@) + message_lines(d, pkg, ""@, Seq::empty())
}

/// The lines of the module generated for a `.proto` file: a header, one
/// `use` per dependency, then the code of each message and of each enum.
pub open spec fn file_lines(f: FileDescriptorProto) -> Seq<Seq<char>> {
    let top = Seq::<char>::empty();
    line_of(top, "// This file is generated. Do not edit"@) + line_of(top, ""@) + line_of(
        top,
        "use protobuf::*;"@,
    ) + line_of(top, "use protobuf::rt;"@) + concat_map(f.dependency@, dependency_lines())
        + concat_map(f.message_type@, top_message_piece(f.package.unwrap()@)) + concat_map(
        f.enum_type@,
        enum_piece(""@, top),
    )
}

/// The file name of the module generated for a `.proto` file.
pub open spec fn result_name(f: FileDescriptorProto) -> Seq<char> {
    spec_proto_path_to_rust_base(f.name.unwrap()@) + ".rs"@
}

/// A generated module: its file name and its text in UTF-8.
pub struct GenResult {
    pub name: String,
    pub content: Vec<u8>,
}

/// Options of the generator; there are none yet.
pub struct GenOptions {
    pub dummy: bool,
}

/// Generates the module of one `.proto` file.
fn gen_file(file: &FileDescriptorProto) -> (r: GenResult)
    requires
        file_ok(*file),
    ensures
        r.name@ == result_name(*file),
        r.content@ == vstd::utf8::encode_utf8(text_of(file_lines(*file))),
{
    let file_name = match &file.name {
        Some(n) => n.as_str(),
        None => "",
    };
    let base = proto_path_to_rust_base(file_name);
    let mut out = VecWriter::new();
    let w = IndentWriter::new();
    w.write_line(&mut out, "// This file is generated. Do not edit");
    w.write_line(&mut out, "");
    w.write_line(&mut out, "use protobuf::*;");
    w.write_line(&mut out, "use protobuf::rt;");
    let ghost head = out@;
    let nd = file.dependency.len();
    let mut i: usize = 0;
    while i < nd
        invariant
            fits(out.base(),
            w.indent@),
            nd == file.dependency@.len(),
            i <= nd,
            file_ok(*file),
            w.indent@ == Seq::<char>::empty(),
            out@ == head + concat_map(file.dependency@.take(i as int), dependency_lines()),
        decreases nd - i,
    {
        let dep = &file.dependency[i];
        assert(is_proto_path(file.dependency@[i as int]@));
        w.write_line(&mut out, cat3("use ", proto_path_to_rust_base(dep.as_str()), "::*;").as_str());
        proof {
            lemma_concat_map_step(file.dependency@, dependency_lines(), i as int);
        }
        i = i + 1;
    }
    proof {
        lemma_concat_map_all(file.dependency@, dependency_lines());
    }
    let ghost deps = out@;
    let package = match &file.package {
        Some(p) => p.as_str(),
        None => "",
    };
    let nm = file.message_type.len();
    let mut i: usize = 0;
    while i < nm
        invariant
            fits(out.base(),
            w.indent@),
            nm == file.message_type@.len(),
            i <= nm,
            file_ok(*file),
            nm > 0 ==> package@ == file.package.unwrap()@,
            w.indent@ == Seq::<char>::empty(),
            out@ == deps + concat_map(
                file.message_type@.take(i as int),
                top_message_piece(file.package.unwrap()@),
            ),
        decreases nm - i,
    {
        let proto = &file.message_type[i];
        assert(descriptor_ok(file.message_type@[i as int]));
        w.write_line(&mut out, "");
        let msg = Message::parse(proto, package, "");
        write_message(&msg, &w, &mut out);
        proof {
            lemma_concat_map_step(file.message_type@, top_message_piece(file.package.unwrap()@), i as int);
        }
        i = i + 1;
    }
    proof {
        lemma_concat_map_all(file.message_type@, top_message_piece(file.package.unwrap()@));
    }
    let ghost msgs = out@;
    let ne = file.enum_type.len();
    let mut i: usize = 0;
    while i < ne
        invariant
            fits(out.base(),
            w.indent@),
            ne == file.enum_type@.len(),
            i <= ne,
            file_ok(*file),
            w.indent@ == Seq::<char>::empty(),
            out@ == msgs + concat_map(file.enum_type@.take(i as int), enum_piece(""@, Seq::empty())),
        decreases ne - i,
    {
        let enum_type = &file.enum_type[i];
        assert(enum_ok(file.enum_type@[i as int]));
        w.write_line(&mut out, "");
        write_enum("", &w, &mut out, enum_type);
        proof {
            lemma_concat_map_step(file.enum_type@, enum_piece(""@, Seq::empty()), i as int);
        }
        i = i + 1;
    }
    proof {
        lemma_concat_map_all(file.enum_type@, enum_piece(""@, Seq::empty()));
    }
    assert(out@ =~= file_lines(*file));
    GenResult { name: cat2(base, ".rs"), content: out.to_bytes() }
}

/// Generates one Rust module per `.proto` file, in order: the module's file
/// name is the base name of the `.proto` file with `.rs`, its text the
/// lines of `file_lines` in UTF-8.
pub fn gen(files: &[FileDescriptorProto], _options: &GenOptions) -> (r: Vec<GenResult>)
    requires
        forall|i: int| 0 <= i < files@.len() ==> file_ok(#[trigger] files@[i]),
    ensures
        r@.len() == files@.len(),
        forall|i: int|
            0 <= i < files@.len() ==> (#[trigger] r@[i]).name@ == result_name(files@[i])
                && r@[i].content@ == vstd::utf8::encode_utf8(text_of(file_lines(files@[i]))),
{
    let mut results: Vec<GenResult> = Vec::new();
    let n = files.len();
    let mut i: usize = 0;
    while i < n
        invariant
            n == files@.len(),
            i <= n,
            forall|j: int| 0 <= j < files@.len() ==> file_ok(#[trigger] files@[j]),
            results@.len() == i,
            forall|j: int|
                0 <= j < i ==> (#[trigger] results@[j]).name@ == result_name(files@[j])
                    && results@[j].content@ == vstd::utf8::encode_utf8(text_of(file_lines(files@[j]))),
        decreases n - i,
    {
        let file = &files[i];
        assert(file_ok(files@[i as int]));
        results.push(gen_file(file));
        i = i + 1;
    }
    results
}

} // verus!
