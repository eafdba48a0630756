//! Counting the braces of generated code: the weight of a line is its
//! number of `{` minus its number of `}`, and a run of lines is balanced when
//! its weights add up to zero and no run of its first lines weighs less than
//! zero.
use vstd::prelude::*;
use crate::codegen::{
    clear_call_lines, clear_fn_lines, clear_lines, compute_sizes_lines, dependency_lines,
    dummy_lines, enum_arm_lines, enum_lines, enum_piece, enum_variant_lines, field_view_ok,
    file_lines, file_ok, has_message_field, impl_lines, indent_all, is_initialized_lines,
    lemma_parsed_field_ok, merge_case_lines, merge_field_lines, merge_from_lines,
    message_head_lines, message_impl_lines, message_lines, nested_lines, new_field_lines,
    new_fn_lines, required_check_lines, size_lines, struct_field_lines, struct_lines,
    top_message_piece, trait_new_lines, value_size_lines, write_field_lines, write_sizes_sig,
    write_to_lines, write_value_texts,
};
use crate::descriptor::{
    DescriptorProto, EnumDescriptorProto, FieldDescriptorProto, FieldDescriptorProtoType,
    FileDescriptorProto,
};
use crate::model::{
    descriptor_ok, field_ok, required_fields_of, spec_field_type_name, spec_parse_field,
    spec_parse_message, FieldView, MessageView, RepeatMode,
};
use crate::names::{
    is_composite, is_proto_path, spec_proto_path_to_rust_base, spec_protobuf_name, spec_remove_to,
    spec_rust_name,
};
use crate::text::{
    int_decimal, is_prefix, last_index_of, lemma_last_index_of, nat_decimal, replace_char,
};
use crate::wire_format::{spec_field_type_size, spec_tag_size, spec_wire_type_name, WireType};
use crate::writer::{
    block_lines, concat_map, indent_step, indented_line, line_of, spec_case_block,
    spec_comment_text, spec_def_fn, spec_expr_block, spec_for_stmt, spec_if_stmt,
    spec_impl_block, spec_impl_for_block, spec_match_block, spec_match_expr, spec_pub_fn, spec_stmt_block, spec_while_block,
};

verus! {

/// `{` weighs one, `}` minus one, any other character nothing.
pub open spec fn brace_weight(c: char) -> int {
    if c == '{' {
        1
    } else if c == '}' {
        -1
    } else {
        0
    }
}

/// The weight of the first `i` characters of `s`.
pub open spec fn net_upto(s: Seq<char>, i: int) -> int
    decreases i,
{
    if i <= 0 {
        0
    } else {
        net_upto(s, i - 1) + brace_weight(s[i - 1])
    }
}

/// The weight of a line: its number of `{` minus its number of `}`.
pub open spec fn net(s: Seq<char>) -> int {
    net_upto(s, s.len() as int)
}

/// `s` holds neither `{` nor `}`.
pub open spec fn brace_free(s: Seq<char>) -> bool {
    forall|i: int| 0 <= i < s.len() ==> #[trigger] brace_weight(s[i]) == 0
}

/// The first characters of a string without braces weigh nothing.
proof fn lemma_net_upto_brace_free(s: Seq<char>, i: int)
    requires
        brace_free(s),
        0 <= i <= s.len(),
    ensures
        net_upto(s, i) == 0,
    decreases i,
{
    if i > 0 {
        lemma_net_upto_brace_free(s, i - 1);
        assert(brace_weight(s[i - 1]) == 0);
    }
}

/// A line without braces weighs nothing.
pub proof fn lemma_brace_free_net(s: Seq<char>)
    requires
        brace_free(s),
    ensures
        net(s) == 0,
{
    lemma_net_upto_brace_free(s, s.len() as int);
}

/// The first characters of two strings put together weigh what the first
/// string, and the part of the second among them, weigh.
proof fn lemma_net_upto_concat(a: Seq<char>, b: Seq<char>, i: int)
    requires
        0 <= i <= a.len() + b.len(),
    ensures
        i <= a.len() ==> net_upto(a + b, i) == net_upto(a, i),
        i >= a.len() ==> net_upto(a + b, i) == net(a) + net_upto(b, i - a.len()),
    decreases i,
{
    if i > 0 {
        lemma_net_upto_concat(a, b, i - 1);
        if i > a.len() {
            assert((a + b)[i - 1] == b[i - 1 - a.len()]);
        } else {
            assert((a + b)[i - 1] == a[i - 1]);
        }
    }
}

/// The weight of two strings put together is the sum of their weights.
pub broadcast proof fn lemma_net_concat(a: Seq<char>, b: Seq<char>)
    ensures
        #[trigger] net(a + b) == net(a) + net(b),
{
    lemma_net_upto_concat(a, b, (a.len() + b.len()) as int);
    assert((a + b).len() == a.len() + b.len());
}

/// Turning dots into underscores keeps the weight of the first characters.
proof fn lemma_net_upto_replace(s: Seq<char>, i: int)
    requires
        0 <= i <= s.len(),
    ensures
        net_upto(replace_char(s, '.', '_'), i) == net_upto(s, i),
    decreases i,
{
    if i > 0 {
        lemma_net_upto_replace(s, i - 1);
    }
}

/// Turning dots into underscores keeps the weight.
pub broadcast proof fn lemma_net_replace_dots(s: Seq<char>)
    ensures
        #[trigger] net(replace_char(s, '.', '_')) == net(s),
{
    lemma_net_upto_replace(s, s.len() as int);
}

/// A part of a string without braces has none either.
pub proof fn lemma_brace_free_subrange(s: Seq<char>, i: int, j: int)
    requires
        brace_free(s),
        0 <= i <= j <= s.len(),
    ensures
        brace_free(s.subrange(i, j)),
{
    assert forall|k: int| 0 <= k < j - i implies #[trigger] brace_weight(s.subrange(i, j)[k]) == 0 by {
        assert(s.subrange(i, j)[k] == s[i + k]);
    }
}

/// Numbers are written without braces.
pub broadcast proof fn lemma_net_int_decimal(n: int)
    ensures
        #[trigger] net(int_decimal(n)) == 0,
{
    let m: nat = if n < 0 {
        (-n) as nat
    } else {
        n as nat
    };
    crate::laws::law_decimal_is_digits(m);
    let d = nat_decimal(m);
    assert forall|i: int| 0 <= i < d.len() implies #[trigger] brace_weight(d[i]) == 0 by {
        assert('0' <= d[i] <= '9');
    }
    lemma_brace_free_net(d);
    if n < 0 {
        assert(brace_weight(seq!['-'][0]) == 0);
        lemma_brace_free_net(seq!['-']);
        lemma_net_concat(seq!['-'], d);
    }
}

// ---------------------------------------------------------------------------
// Runs of lines
// ---------------------------------------------------------------------------

/// The weight of a run of lines: the sum of the weights of its lines.
pub open spec fn lines_net(ls: Seq<Seq<char>>) -> int
    decreases ls.len(),
{
    if ls.len() == 0 {
        0
    } else {
        lines_net(ls.drop_last()) + net(ls.last())
    }
}

/// The least weight of a run of first lines of `ls`, the empty run included.
pub open spec fn low_point(ls: Seq<Seq<char>>) -> int
    decreases ls.len(),
{
    if ls.len() == 0 {
        0
    } else {
        let a = low_point(ls.drop_last());
        let b = lines_net(ls);
        if a <= b {
            a
        } else {
            b
        }
    }
}

/// A run of lines that closes every brace it opens, and never one that it
/// has not opened.
pub open spec fn balanced(ls: Seq<Seq<char>>) -> bool {
    lines_net(ls) == 0 && low_point(ls) == 0
}

/// A single line weighs what the line weighs.
pub broadcast proof fn lemma_lines_net_single(l: Seq<char>)
    ensures
        #[trigger] lines_net(seq![l]) == net(l),
{
    assert(seq![l].drop_last() =~= Seq::<Seq<char>>::empty());
    assert(lines_net(Seq::<Seq<char>>::empty()) == 0);
}

/// The low point of a single line is its weight when that is negative.
pub broadcast proof fn lemma_low_point_single(l: Seq<char>)
    ensures
        #[trigger] low_point(seq![l]) == if net(l) < 0 { net(l) } else { 0 },
{
    assert(seq![l].drop_last() =~= Seq::<Seq<char>>::empty());
    assert(low_point(Seq::<Seq<char>>::empty()) == 0);
    lemma_lines_net_single(l);
}

/// The weight of two runs put together is the sum of their weights.
pub broadcast proof fn lemma_lines_net_concat(a: Seq<Seq<char>>, b: Seq<Seq<char>>)
    ensures
        #[trigger] lines_net(a + b) == lines_net(a) + lines_net(b),
    decreases b.len(),
{
    if b.len() == 0 {
        assert(a + b =~= a);
    } else {
        lemma_lines_net_concat(a, b.drop_last());
        assert((a + b).drop_last() =~= a + b.drop_last());
    }
}

/// The low point of two runs put together: that of the first, or the
/// weight of the first plus the low point of the second.
pub broadcast proof fn lemma_low_point_concat(a: Seq<Seq<char>>, b: Seq<Seq<char>>)
    ensures
        #[trigger] low_point(a + b) == if low_point(a) <= lines_net(a) + low_point(b) {
            low_point(a)
        } else {
            lines_net(a) + low_point(b)
        },
    decreases b.len(),
{
    if b.len() == 0 {
        assert(a + b =~= a);
        lemma_low_point_nonpositive(a);
    } else {
        lemma_low_point_concat(a, b.drop_last());
        lemma_lines_net_concat(a, b);
        assert((a + b).drop_last() =~= a + b.drop_last());
    }
}

/// The empty run counts, so the low point is never above zero.
pub proof fn lemma_low_point_nonpositive(ls: Seq<Seq<char>>)
    ensures
        low_point(ls) <= 0,
    decreases ls.len(),
{
    if ls.len() > 0 {
        lemma_low_point_nonpositive(ls.drop_last());
    }
}

/// No run of first lines weighs less than the low point.
pub proof fn lemma_low_point_bounds(ls: Seq<Seq<char>>, k: int)
    requires
        0 <= k <= ls.len(),
    ensures
        low_point(ls) <= lines_net(ls.take(k)),
    decreases ls.len(),
{
    if k == ls.len() {
        assert(ls.take(k) =~= ls);
        if ls.len() > 0 {
            lemma_low_point_nonpositive(ls.drop_last());
        }
    } else {
        lemma_low_point_bounds(ls.drop_last(), k);
        assert(ls.drop_last().take(k) =~= ls.take(k));
    }
}

/// The lines that `f` gives for the elements of `s` are balanced when those
/// of each element are.
pub proof fn lemma_concat_map_balanced<A>(s: Seq<A>, f: spec_fn(A) -> Seq<Seq<char>>)
    requires
        forall|i: int| 0 <= i < s.len() ==> balanced(#[trigger] f(s[i])),
    ensures
        balanced(crate::writer::concat_map(s, f)),
    decreases s.len(),
{
    broadcast use lemma_lines_net_concat, lemma_low_point_concat;
    if s.len() > 0 {
        assert forall|i: int| 0 <= i < s.drop_last().len() implies balanced(#[trigger] f(s.drop_last()[i])) by {
            assert(s.drop_last()[i] == s[i]);
        }
        lemma_concat_map_balanced(s.drop_last(), f);
        assert(balanced(f(s[s.len() - 1])));
    }
}

// ---------------------------------------------------------------------------
// The weights of the fixed texts
// ---------------------------------------------------------------------------

/// The weights of the texts that the block helpers write.
proof fn lemma_writer_literals()
    ensures
        net("    "@) == 0,
        net(" {"@) == 1,
        net("}"@) == -1,
        net("};"@) == -1,
        net("impl "@) == 0,
        net(" for "@) == 0,
        net("pub fn "@) == 0,
        net("fn "@) == 0,
        net("while "@) == 0,
        net("if "@) == 0,
        net("for "@) == 0,
        net(" |"@) == 0,
        net("|"@) == 0,
        net("match "@) == 0,
        net(" => {"@) == 1,
        net("},"@) == -1,
        net(": "@) == 0,
        net(","@) == 0,
        net(" => "@) == 0,
        net("//"@) == 0,
        net("// "@) == 0,
{
    reveal_strlit("    ");
    reveal_strlit(" {");
    reveal_strlit("}");
    reveal_strlit("};");
    reveal_strlit("impl ");
    reveal_strlit(" for ");
    reveal_strlit("pub fn ");
    reveal_strlit("fn ");
    reveal_strlit("while ");
    reveal_strlit("if ");
    reveal_strlit("for ");
    reveal_strlit(" |");
    reveal_strlit("|");
    reveal_strlit("match ");
    reveal_strlit(" => {");
    reveal_strlit("},");
    reveal_strlit(": ");
    reveal_strlit(",");
    reveal_strlit(" => ");
    reveal_strlit("//");
    reveal_strlit("// ");
    reveal_with_fuel(net_upto, 11);
}

/// The weights of the names of scalar types and wire types.
proof fn lemma_name_literals()
    ensures
        net("f64"@) == 0,
        net("f32"@) == 0,
        net("i32"@) == 0,
        net("i64"@) == 0,
        net("u32"@) == 0,
        net("u64"@) == 0,
        net("s32"@) == 0,
        net("s64"@) == 0,
        net("bool"@) == 0,
        net("~str"@) == 0,
        net("~[u8]"@) == 0,
        net("double"@) == 0,
        net("float"@) == 0,
        net("int32"@) == 0,
        net("int64"@) == 0,
        net("uint32"@) == 0,
        net("uint64"@) == 0,
        net("sint32"@) == 0,
        net("sint64"@) == 0,
        net("fixed32"@) == 0,
        net("fixed64"@) == 0,
        net("sfixed32"@) == 0,
        net("sfixed64"@) == 0,
        net("string"@) == 0,
        net("bytes"@) == 0,
        net("WireTypeVarint"@) == 0,
        net("WireTypeFixed64"@) == 0,
        net("WireTypeLengthDelimited"@) == 0,
        net("WireTypeStartGroup"@) == 0,
        net("WireTypeEndGroup"@) == 0,
        net("WireTypeFixed32"@) == 0,
        net("field_type"@) == 0,
{
    reveal_strlit("f64");
    reveal_strlit("f32");
    reveal_strlit("i32");
    reveal_strlit("i64");
    reveal_strlit("u32");
    reveal_strlit("u64");
    reveal_strlit("s32");
    reveal_strlit("s64");
    reveal_strlit("bool");
    reveal_strlit("~str");
    reveal_strlit("~[u8]");
    reveal_strlit("double");
    reveal_strlit("float");
    reveal_strlit("int32");
    reveal_strlit("int64");
    reveal_strlit("uint32");
    reveal_strlit("uint64");
    reveal_strlit("sint32");
    reveal_strlit("sint64");
    reveal_strlit("fixed32");
    reveal_strlit("fixed64");
    reveal_strlit("sfixed32");
    reveal_strlit("sfixed64");
    reveal_strlit("string");
    reveal_strlit("bytes");
    reveal_strlit("WireTypeVarint");
    reveal_strlit("WireTypeFixed64");
    reveal_strlit("WireTypeLengthDelimited");
    reveal_strlit("WireTypeStartGroup");
    reveal_strlit("WireTypeEndGroup");
    reveal_strlit("WireTypeFixed32");
    reveal_strlit("field_type");
    reveal_with_fuel(net_upto, 11);
    assert(net_upto("WireTypeVarint"@, 10) == 0);
    assert(net_upto("WireTypeFixed64"@, 10) == 0);
    assert(net_upto("WireTypeLengthDelimited"@, 10) == 0);
    assert(net_upto("WireTypeLengthDelimited"@, 20) == 0);
    assert(net_upto("WireTypeStartGroup"@, 10) == 0);
    assert(net_upto("WireTypeEndGroup"@, 10) == 0);
    assert(net_upto("WireTypeFixed32"@, 10) == 0);
}

/// The Rust name of a scalar type holds no brace.
pub broadcast proof fn lemma_net_rust_name(t: FieldDescriptorProtoType)
    requires
        !is_composite(t),
    ensures
        #[trigger] net(spec_rust_name(t)) == 0,
{
    lemma_name_literals();
}

/// The `.proto` name of a scalar type holds no brace.
pub broadcast proof fn lemma_net_protobuf_name(t: FieldDescriptorProtoType)
    requires
        !is_composite(t),
    ensures
        #[trigger] net(spec_protobuf_name(t)) == 0,
{
    lemma_name_literals();
}

/// The name of a wire type holds no brace.
pub broadcast proof fn lemma_net_wire_type_name(w: WireType)
    ensures
        #[trigger] net(spec_wire_type_name(w)) == 0,
{
    lemma_name_literals();
}

/// The weights of the texts of `merge_from`.
proof fn lemma_merge_literals()
    ensures
        net("::new(is.read_int32())"@) == 0,
        net("is.read_"@) == 0,
        net("()"@) == 0,
        net("if wire_type == wire_format::"@) == 0,
        net(" {"@) == 1,
        net("let len = is.read_raw_varint32();"@) == 0,
        net("let old_limit = is.push_limit(len);"@) == 0,
        net("!is.eof()"@) == 0,
        net("self."@) == 0,
        net(".push("@) == 0,
        net(");"@) == 0,
        net("is.pop_limit(old_limit);"@) == 0,
        net("} else {"@) == 0,
        net("assert_eq!(wire_format::"@) == 0,
        net(", wire_type);"@) == 0,
        net("}"@) == -1,
        net("let mut tmp = "@) == 0,
        net("::new();"@) == 0,
        net("is.merge_message(&mut tmp);"@) == 0,
        net("let tmp = "@) == 0,
        net(";"@) == 0,
        net(" = Some(tmp);"@) == 0,
        net(".push(tmp);"@) == 0,
        net("merge_from(&mut self, is: &mut CodedInputStream)"@) == 0,
        net("let (field_number, wire_type) = is.read_tag_unpack();"@) == 0,
        net("field_number"@) == 0,
        net("_"@) == 0,
        net("// TODO: store in unknown fields"@) == 0,
        net("is.skip_field(wire_type);"@) == 0,
{
    reveal_strlit("::new(is.read_int32())");
    reveal_strlit("is.read_");
    reveal_strlit("()");
    reveal_strlit("if wire_type == wire_format::");
    reveal_strlit(" {");
    reveal_strlit("let len = is.read_raw_varint32();");
    reveal_strlit("let old_limit = is.push_limit(len);");
    reveal_strlit("!is.eof()");
    reveal_strlit("self.");
    reveal_strlit(".push(");
    reveal_strlit(");");
    reveal_strlit("is.pop_limit(old_limit);");
    reveal_strlit("} else {");
    reveal_strlit("assert_eq!(wire_format::");
    reveal_strlit(", wire_type);");
    reveal_strlit("}");
    reveal_strlit("let mut tmp = ");
    reveal_strlit("::new();");
    reveal_strlit("is.merge_message(&mut tmp);");
    reveal_strlit("let tmp = ");
    reveal_strlit(";");
    reveal_strlit(" = Some(tmp);");
    reveal_strlit(".push(tmp);");
    reveal_strlit("merge_from(&mut self, is: &mut CodedInputStream)");
    reveal_strlit("let (field_number, wire_type) = is.read_tag_unpack();");
    reveal_strlit("field_number");
    reveal_strlit("_");
    reveal_strlit("// TODO: store in unknown fields");
    reveal_strlit("is.skip_field(wire_type);");
    reveal_with_fuel(net_upto, 11);
    assert(net_upto("::new(is.read_int32())"@, 10) == 0);
    assert(net_upto("::new(is.read_int32())"@, 20) == 0);
    assert(net_upto("if wire_type == wire_format::"@, 10) == 0);
    assert(net_upto("if wire_type == wire_format::"@, 20) == 0);
    assert(net_upto("let len = is.read_raw_varint32();"@, 10) == 0);
    assert(net_upto("let len = is.read_raw_varint32();"@, 20) == 0);
    assert(net_upto("let len = is.read_raw_varint32();"@, 30) == 0);
    assert(net_upto("let old_limit = is.push_limit(len);"@, 10) == 0);
    assert(net_upto("let old_limit = is.push_limit(len);"@, 20) == 0);
    assert(net_upto("let old_limit = is.push_limit(len);"@, 30) == 0);
    assert(net_upto("is.pop_limit(old_limit);"@, 10) == 0);
    assert(net_upto("is.pop_limit(old_limit);"@, 20) == 0);
    assert(net_upto("assert_eq!(wire_format::"@, 10) == 0);
    assert(net_upto("assert_eq!(wire_format::"@, 20) == 0);
    assert(net_upto(", wire_type);"@, 10) == 0);
    assert(net_upto("let mut tmp = "@, 10) == 0);
    assert(net_upto("is.merge_message(&mut tmp);"@, 10) == 0);
    assert(net_upto("is.merge_message(&mut tmp);"@, 20) == 0);
    assert(net_upto(" = Some(tmp);"@, 10) == 0);
    assert(net_upto(".push(tmp);"@, 10) == 0);
    assert(net_upto("merge_from(&mut self, is: &mut CodedInputStream)"@, 10) == 0);
    assert(net_upto("merge_from(&mut self, is: &mut CodedInputStream)"@, 20) == 0);
    assert(net_upto("merge_from(&mut self, is: &mut CodedInputStream)"@, 30) == 0);
    assert(net_upto("merge_from(&mut self, is: &mut CodedInputStream)"@, 40) == 0);
    assert(net_upto("let (field_number, wire_type) = is.read_tag_unpack();"@, 10) == 0);
    assert(net_upto("let (field_number, wire_type) = is.read_tag_unpack();"@, 20) == 0);
    assert(net_upto("let (field_number, wire_type) = is.read_tag_unpack();"@, 30) == 0);
    assert(net_upto("let (field_number, wire_type) = is.read_tag_unpack();"@, 40) == 0);
    assert(net_upto("let (field_number, wire_type) = is.read_tag_unpack();"@, 50) == 0);
    assert(net_upto("field_number"@, 10) == 0);
    assert(net_upto("// TODO: store in unknown fields"@, 10) == 0);
    assert(net_upto("// TODO: store in unknown fields"@, 20) == 0);
    assert(net_upto("// TODO: store in unknown fields"@, 30) == 0);
    assert(net_upto("is.skip_field(wire_type);"@, 10) == 0);
    assert(net_upto("is.skip_field(wire_type);"@, 20) == 0);
}

/// A field of a kind that the generator accepts, whose Rust name and Rust
/// type hold no brace.
pub open spec fn field_weightless(f: FieldView) -> bool {
    &&& field_view_ok(f)
    &&& net(f.name) == 0
    &&& net(f.rust_type) == 0
}

/// The lines that read a field in `merge_from` are balanced.
#[verifier::rlimit(50)]
proof fn lemma_merge_field_balanced(f: FieldView, ind: Seq<char>)
    requires
        field_weightless(f),
        net(ind) == 0,
    ensures
        balanced(merge_field_lines(f, ind)),
{
    broadcast use lemma_net_concat, lemma_lines_net_concat, lemma_low_point_concat,
        lemma_lines_net_single, lemma_low_point_single, lemma_net_protobuf_name,
        lemma_net_wire_type_name;

    lemma_writer_literals();
    lemma_merge_literals();
}

/// The weights of the texts of the struct and of its inherent impl.
proof fn lemma_struct_impl_literals()
    ensures
        net("~["@) == 0,
        net("]"@) == 0,
        net("Option<"@) == 0,
        net(">"@) == 0,
        net("dummy"@) == 0,
        net("pub struct "@) == 0,
        net("bool"@) == 0,
        net("~[]"@) == 0,
        net("None"@) == 0,
        net("new() -> "@) == 0,
        net("false"@) == 0,
        net(""@) == 0,
        net("clear_"@) == 0,
        net("(&mut self)"@) == 0,
        net("self."@) == 0,
        net(".clear();"@) == 0,
        net(" = None;"@) == 0,
        net("#[allow(unused_variable)]"@) == 0,
        net("v"@) == 0,
        net("*v as i32"@) == 0,
        net("*v"@) == 0,
        net("message"@) == 0,
        net("enum"@) == 0,
        net("os.write_tag("@) == 0,
        net(", wire_format::"@) == 0,
        net(");"@) == 0,
        net("os.write_raw_varint32(sizes[*sizes_pos]);"@) == 0,
        net("*sizes_pos += 1;"@) == 0,
        net("v.write_to_with_computed_sizes(os, sizes, sizes_pos);"@) == 0,
        net("os.write_"@) == 0,
        net("("@) == 0,
        net(", "@) == 0,
        net("Some(ref v)"@) == 0,
        net("{}"@) == 0,
        net("!self."@) == 0,
        net(".is_empty()"@) == 0,
        net("os.write_raw_varint32(rt::vec_packed_data_size(self."@) == 0,
        net("));"@) == 0,
        net(".iter().advance"@) == 0,
        net("_no_tag("@) == 0,
        net("write_to_with_computed_sizes(&self, os: &mut CodedOutputStream, sizes: &[u32], sizes_pos: &mut uint)"@) == 0,
{
    reveal_strlit("~[");
    reveal_strlit("]");
    reveal_strlit("Option<");
    reveal_strlit(">");
    reveal_strlit("dummy");
    reveal_strlit("pub struct ");
    reveal_strlit("bool");
    reveal_strlit("~[]");
    reveal_strlit("None");
    reveal_strlit("new() -> ");
    reveal_strlit("false");
    reveal_strlit("");
    reveal_strlit("clear_");
    reveal_strlit("(&mut self)");
    reveal_strlit("self.");
    reveal_strlit(".clear();");
    reveal_strlit(" = None;");
    reveal_strlit("#[allow(unused_variable)]");
    reveal_strlit("v");
    reveal_strlit("*v as i32");
    reveal_strlit("*v");
    reveal_strlit("message");
    reveal_strlit("enum");
    reveal_strlit("os.write_tag(");
    reveal_strlit(", wire_format::");
    reveal_strlit(");");
    reveal_strlit("os.write_raw_varint32(sizes[*sizes_pos]);");
    reveal_strlit("*sizes_pos += 1;");
    reveal_strlit("v.write_to_with_computed_sizes(os, sizes, sizes_pos);");
    reveal_strlit("os.write_");
    reveal_strlit("(");
    reveal_strlit(", ");
    reveal_strlit("Some(ref v)");
    reveal_strlit("{}");
    reveal_strlit("!self.");
    reveal_strlit(".is_empty()");
    reveal_strlit("os.write_raw_varint32(rt::vec_packed_data_size(self.");
    reveal_strlit("));");
    reveal_strlit(".iter().advance");
    reveal_strlit("_no_tag(");
    reveal_strlit("write_to_with_computed_sizes(&self, os: &mut CodedOutputStream, sizes: &[u32], sizes_pos: &mut uint)");
    reveal_with_fuel(net_upto, 11);
    assert(net_upto("pub struct "@, 10) == 0);
    assert(net_upto("(&mut self)"@, 10) == 0);
    assert(net_upto("#[allow(unused_variable)]"@, 10) == 0);
    assert(net_upto("#[allow(unused_variable)]"@, 20) == 0);
    assert(net_upto("os.write_tag("@, 10) == 0);
    assert(net_upto(", wire_format::"@, 10) == 0);
    assert(net_upto("os.write_raw_varint32(sizes[*sizes_pos]);"@, 10) == 0);
    assert(net_upto("os.write_raw_varint32(sizes[*sizes_pos]);"@, 20) == 0);
    assert(net_upto("os.write_raw_varint32(sizes[*sizes_pos]);"@, 30) == 0);
    assert(net_upto("os.write_raw_varint32(sizes[*sizes_pos]);"@, 40) == 0);
    assert(net_upto("*sizes_pos += 1;"@, 10) == 0);
    assert(net_upto("v.write_to_with_computed_sizes(os, sizes, sizes_pos);"@, 10) == 0);
    assert(net_upto("v.write_to_with_computed_sizes(os, sizes, sizes_pos);"@, 20) == 0);
    assert(net_upto("v.write_to_with_computed_sizes(os, sizes, sizes_pos);"@, 30) == 0);
    assert(net_upto("v.write_to_with_computed_sizes(os, sizes, sizes_pos);"@, 40) == 0);
    assert(net_upto("v.write_to_with_computed_sizes(os, sizes, sizes_pos);"@, 50) == 0);
    assert(net_upto("Some(ref v)"@, 10) == 0);
    assert(net_upto(".is_empty()"@, 10) == 0);
    assert(net_upto("os.write_raw_varint32(rt::vec_packed_data_size(self."@, 10) == 0);
    assert(net_upto("os.write_raw_varint32(rt::vec_packed_data_size(self."@, 20) == 0);
    assert(net_upto("os.write_raw_varint32(rt::vec_packed_data_size(self."@, 30) == 0);
    assert(net_upto("os.write_raw_varint32(rt::vec_packed_data_size(self."@, 40) == 0);
    assert(net_upto("os.write_raw_varint32(rt::vec_packed_data_size(self."@, 50) == 0);
    assert(net_upto(".iter().advance"@, 10) == 0);
    assert(net_upto("write_to_with_computed_sizes(&self, os: &mut CodedOutputStream, sizes: &[u32], sizes_pos: &mut uint)"@, 10) == 0);
    assert(net_upto("write_to_with_computed_sizes(&self, os: &mut CodedOutputStream, sizes: &[u32], sizes_pos: &mut uint)"@, 20) == 0);
    assert(net_upto("write_to_with_computed_sizes(&self, os: &mut CodedOutputStream, sizes: &[u32], sizes_pos: &mut uint)"@, 30) == 0);
    assert(net_upto("write_to_with_computed_sizes(&self, os: &mut CodedOutputStream, sizes: &[u32], sizes_pos: &mut uint)"@, 40) == 0);
    assert(net_upto("write_to_with_computed_sizes(&self, os: &mut CodedOutputStream, sizes: &[u32], sizes_pos: &mut uint)"@, 50) == 0);
    assert(net_upto("write_to_with_computed_sizes(&self, os: &mut CodedOutputStream, sizes: &[u32], sizes_pos: &mut uint)"@, 60) == 0);
    assert(net_upto("write_to_with_computed_sizes(&self, os: &mut CodedOutputStream, sizes: &[u32], sizes_pos: &mut uint)"@, 70) == 0);
    assert(net_upto("write_to_with_computed_sizes(&self, os: &mut CodedOutputStream, sizes: &[u32], sizes_pos: &mut uint)"@, 80) == 0);
    assert(net_upto("write_to_with_computed_sizes(&self, os: &mut CodedOutputStream, sizes: &[u32], sizes_pos: &mut uint)"@, 90) == 0);
}

/// The weights of the texts of the `Message` impl.
proof fn lemma_message_impl_literals()
    ensures
        net("::new()"@) == 0,
        net("();"@) == 0,
        net("clear(&mut self)"@) == 0,
        net(".is_none()"@) == 0,
        net("return false;"@) == 0,
        net("is_initialized(&self) -> bool"@) == 0,
        net("true"@) == 0,
        net("let len = value.compute_sizes(sizes);"@) == 0,
        net("my_size += "@) == 0,
        net(" + rt::compute_raw_varint32_size(len) + len;"@) == 0,
        net("my_size += rt::"@) == 0,
        net("_size("@) == 0,
        net(", *value);"@) == 0,
        net("my_size += rt::enum_size("@) == 0,
        net("my_size += rt::value_size("@) == 0,
        net(", *value, wire_format::"@) == 0,
        net("my_size += rt::vec_packed_size("@) == 0,
        net(", self."@) == 0,
        net(" * self."@) == 0,
        net(".len();"@) == 0,
        net(".is_some()"@) == 0,
        net(";"@) == 0,
        net("value"@) == 0,
        net("Compute sizes of nested messages"@) == 0,
        net("compute_sizes(&self, sizes: &mut ~[u32]) -> u32"@) == 0,
        net("let pos = sizes.len();"@) == 0,
        net("sizes.push(0);"@) == 0,
        net("let mut my_size = 0;"@) == 0,
        net("sizes[pos] = my_size;"@) == 0,
        net("value is returned for convenience"@) == 0,
        net("my_size"@) == 0,
        net("write_to(&self, os: &mut CodedOutputStream)"@) == 0,
        net("self.check_initialized();"@) == 0,
        net("let mut sizes: ~[u32] = ~[];"@) == 0,
        net("self.compute_sizes(&mut sizes);"@) == 0,
        net("let mut sizes_pos = 1; // first element is self"@) == 0,
        net("self.write_to_with_computed_sizes(os, sizes, &mut sizes_pos);"@) == 0,
        net("assert_eq!(sizes_pos, sizes.len());"@) == 0,
        net("Message"@) == 0,
{
    reveal_strlit("::new()");
    reveal_strlit("();");
    reveal_strlit("clear(&mut self)");
    reveal_strlit(".is_none()");
    reveal_strlit("return false;");
    reveal_strlit("is_initialized(&self) -> bool");
    reveal_strlit("true");
    reveal_strlit("let len = value.compute_sizes(sizes);");
    reveal_strlit("my_size += ");
    reveal_strlit(" + rt::compute_raw_varint32_size(len) + len;");
    reveal_strlit("my_size += rt::");
    reveal_strlit("_size(");
    reveal_strlit(", *value);");
    reveal_strlit("my_size += rt::enum_size(");
    reveal_strlit("my_size += rt::value_size(");
    reveal_strlit(", *value, wire_format::");
    reveal_strlit("my_size += rt::vec_packed_size(");
    reveal_strlit(", self.");
    reveal_strlit(" * self.");
    reveal_strlit(".len();");
    reveal_strlit(".is_some()");
    reveal_strlit(";");
    reveal_strlit("value");
    reveal_strlit("Compute sizes of nested messages");
    reveal_strlit("compute_sizes(&self, sizes: &mut ~[u32]) -> u32");
    reveal_strlit("let pos = sizes.len();");
    reveal_strlit("sizes.push(0);");
    reveal_strlit("let mut my_size = 0;");
    reveal_strlit("sizes[pos] = my_size;");
    reveal_strlit("value is returned for convenience");
    reveal_strlit("my_size");
    reveal_strlit("write_to(&self, os: &mut CodedOutputStream)");
    reveal_strlit("self.check_initialized();");
    reveal_strlit("let mut sizes: ~[u32] = ~[];");
    reveal_strlit("self.compute_sizes(&mut sizes);");
    reveal_strlit("let mut sizes_pos = 1; // first element is self");
    reveal_strlit("self.write_to_with_computed_sizes(os, sizes, &mut sizes_pos);");
    reveal_strlit("assert_eq!(sizes_pos, sizes.len());");
    reveal_strlit("Message");
    reveal_with_fuel(net_upto, 11);
    assert(net_upto("clear(&mut self)"@, 10) == 0);
    assert(net_upto("return false;"@, 10) == 0);
    assert(net_upto("is_initialized(&self) -> bool"@, 10) == 0);
    assert(net_upto("is_initialized(&self) -> bool"@, 20) == 0);
    assert(net_upto("let len = value.compute_sizes(sizes);"@, 10) == 0);
    assert(net_upto("let len = value.compute_sizes(sizes);"@, 20) == 0);
    assert(net_upto("let len = value.compute_sizes(sizes);"@, 30) == 0);
    assert(net_upto("my_size += "@, 10) == 0);
    assert(net_upto(" + rt::compute_raw_varint32_size(len) + len;"@, 10) == 0);
    assert(net_upto(" + rt::compute_raw_varint32_size(len) + len;"@, 20) == 0);
    assert(net_upto(" + rt::compute_raw_varint32_size(len) + len;"@, 30) == 0);
    assert(net_upto(" + rt::compute_raw_varint32_size(len) + len;"@, 40) == 0);
    assert(net_upto("my_size += rt::"@, 10) == 0);
    assert(net_upto("my_size += rt::enum_size("@, 10) == 0);
    assert(net_upto("my_size += rt::enum_size("@, 20) == 0);
    assert(net_upto("my_size += rt::value_size("@, 10) == 0);
    assert(net_upto("my_size += rt::value_size("@, 20) == 0);
    assert(net_upto(", *value, wire_format::"@, 10) == 0);
    assert(net_upto(", *value, wire_format::"@, 20) == 0);
    assert(net_upto("my_size += rt::vec_packed_size("@, 10) == 0);
    assert(net_upto("my_size += rt::vec_packed_size("@, 20) == 0);
    assert(net_upto("my_size += rt::vec_packed_size("@, 30) == 0);
    assert(net_upto("Compute sizes of nested messages"@, 10) == 0);
    assert(net_upto("Compute sizes of nested messages"@, 20) == 0);
    assert(net_upto("Compute sizes of nested messages"@, 30) == 0);
    assert(net_upto("compute_sizes(&self, sizes: &mut ~[u32]) -> u32"@, 10) == 0);
    assert(net_upto("compute_sizes(&self, sizes: &mut ~[u32]) -> u32"@, 20) == 0);
    assert(net_upto("compute_sizes(&self, sizes: &mut ~[u32]) -> u32"@, 30) == 0);
    assert(net_upto("compute_sizes(&self, sizes: &mut ~[u32]) -> u32"@, 40) == 0);
    assert(net_upto("let pos = sizes.len();"@, 10) == 0);
    assert(net_upto("let pos = sizes.len();"@, 20) == 0);
    assert(net_upto("sizes.push(0);"@, 10) == 0);
    assert(net_upto("let mut my_size = 0;"@, 10) == 0);
    assert(net_upto("sizes[pos] = my_size;"@, 10) == 0);
    assert(net_upto("sizes[pos] = my_size;"@, 20) == 0);
    assert(net_upto("value is returned for convenience"@, 10) == 0);
    assert(net_upto("value is returned for convenience"@, 20) == 0);
    assert(net_upto("value is returned for convenience"@, 30) == 0);
    assert(net_upto("write_to(&self, os: &mut CodedOutputStream)"@, 10) == 0);
    assert(net_upto("write_to(&self, os: &mut CodedOutputStream)"@, 20) == 0);
    assert(net_upto("write_to(&self, os: &mut CodedOutputStream)"@, 30) == 0);
    assert(net_upto("write_to(&self, os: &mut CodedOutputStream)"@, 40) == 0);
    assert(net_upto("self.check_initialized();"@, 10) == 0);
    assert(net_upto("self.check_initialized();"@, 20) == 0);
    assert(net_upto("let mut sizes: ~[u32] = ~[];"@, 10) == 0);
    assert(net_upto("let mut sizes: ~[u32] = ~[];"@, 20) == 0);
    assert(net_upto("self.compute_sizes(&mut sizes);"@, 10) == 0);
    assert(net_upto("self.compute_sizes(&mut sizes);"@, 20) == 0);
    assert(net_upto("self.compute_sizes(&mut sizes);"@, 30) == 0);
    assert(net_upto("let mut sizes_pos = 1; // first element is self"@, 10) == 0);
    assert(net_upto("let mut sizes_pos = 1; // first element is self"@, 20) == 0);
    assert(net_upto("let mut sizes_pos = 1; // first element is self"@, 30) == 0);
    assert(net_upto("let mut sizes_pos = 1; // first element is self"@, 40) == 0);
    assert(net_upto("self.write_to_with_computed_sizes(os, sizes, &mut sizes_pos);"@, 10) == 0);
    assert(net_upto("self.write_to_with_computed_sizes(os, sizes, &mut sizes_pos);"@, 20) == 0);
    assert(net_upto("self.write_to_with_computed_sizes(os, sizes, &mut sizes_pos);"@, 30) == 0);
    assert(net_upto("self.write_to_with_computed_sizes(os, sizes, &mut sizes_pos);"@, 40) == 0);
    assert(net_upto("self.write_to_with_computed_sizes(os, sizes, &mut sizes_pos);"@, 50) == 0);
    assert(net_upto("self.write_to_with_computed_sizes(os, sizes, &mut sizes_pos);"@, 60) == 0);
    assert(net_upto("assert_eq!(sizes_pos, sizes.len());"@, 10) == 0);
    assert(net_upto("assert_eq!(sizes_pos, sizes.len());"@, 20) == 0);
    assert(net_upto("assert_eq!(sizes_pos, sizes.len());"@, 30) == 0);
}

/// The facts that work out the weight and the low point of generated lines.
pub broadcast group group_brace_weights {
    lemma_net_concat,
    lemma_lines_net_concat,
    lemma_low_point_concat,
    lemma_lines_net_single,
    lemma_low_point_single,
    lemma_net_protobuf_name,
    lemma_net_wire_type_name,
    lemma_net_int_decimal,
}

/// The lines of a field in the struct, in `new`, in its `clear_` method, in
/// `clear` and in `is_initialized` are balanced.
proof fn lemma_struct_field_balanced(f: FieldView, ind: Seq<char>)
    requires
        field_weightless(f),
        net(ind) == 0,
    ensures
        balanced(struct_field_lines(ind)(f)),
        balanced(new_field_lines(ind)(f)),
        balanced(clear_fn_lines(ind)(f)),
        balanced(clear_call_lines(ind)(f)),
        balanced(required_check_lines(ind)(f)),
{
    broadcast use group_brace_weights;

    lemma_writer_literals();
    lemma_struct_impl_literals();
    lemma_message_impl_literals();
    assert(balanced(Seq::<Seq<char>>::empty()));
}

/// The statements that write one value of a field are balanced.
proof fn lemma_write_value_texts(f: FieldView, ind: Seq<char>)
    requires
        field_weightless(f),
        net(ind) == 0,
    ensures
        balanced(indent_all(ind, write_value_texts(f))),
{
    broadcast use group_brace_weights;

    lemma_writer_literals();
    lemma_struct_impl_literals();
    let t = write_value_texts(f);
    if f.field_type == FieldDescriptorProtoType::TypeMessage {
        assert(indent_all(ind, t) =~= seq![indented_line(ind, t[0])] + seq![indented_line(ind, t[1])]
            + seq![indented_line(ind, t[2])] + seq![indented_line(ind, t[3])]);
    } else {
        assert(indent_all(ind, t) =~= seq![indented_line(ind, t[0])]);
    }
}

/// The statements of `write_to_with_computed_sizes` for a field are balanced.
#[verifier::rlimit(50)]
proof fn lemma_field_writer_balanced(f: FieldView, k: Seq<char>)
    requires
        field_weightless(f),
        net(k) == 0,
    ensures
        balanced(write_field_lines(k)(f)),
{
    broadcast use group_brace_weights;

    lemma_writer_literals();
    lemma_struct_impl_literals();
    lemma_write_value_texts(f, k + indent_step());
    lemma_write_value_texts(f, k + indent_step() + indent_step());
}

/// The weights of the texts of an enum.
proof fn lemma_enum_literals()
    ensures
        net("    "@) == 0,
        net(" = "@) == 0,
        net(","@) == 0,
        net(" => "@) == 0,
        net("#[deriving(Clone,Eq)]"@) == 0,
        net("pub enum "@) == 0,
        net(" {"@) == 1,
        net("}"@) == -1,
        net(""@) == 0,
        net("new(value: i32) -> "@) == 0,
        net("value"@) == 0,
        net("_ => fail!()"@) == 0,
        net("ProtobufEnum"@) == 0,
        net("value(&self) -> i32"@) == 0,
        net("*self as i32"@) == 0,
{
    reveal_strlit("    ");
    reveal_strlit(" = ");
    reveal_strlit(",");
    reveal_strlit(" => ");
    reveal_strlit("#[deriving(Clone,Eq)]");
    reveal_strlit("pub enum ");
    reveal_strlit(" {");
    reveal_strlit("}");
    reveal_strlit("");
    reveal_strlit("new(value: i32) -> ");
    reveal_strlit("value");
    reveal_strlit("_ => fail!()");
    reveal_strlit("ProtobufEnum");
    reveal_strlit("value(&self) -> i32");
    reveal_strlit("*self as i32");
    reveal_with_fuel(net_upto, 11);
    assert(net_upto("#[deriving(Clone,Eq)]"@, 10) == 0);
    assert(net_upto("#[deriving(Clone,Eq)]"@, 20) == 0);
    assert(net_upto("new(value: i32) -> "@, 10) == 0);
    assert(net_upto("_ => fail!()"@, 10) == 0);
    assert(net_upto("ProtobufEnum"@, 10) == 0);
    assert(net_upto("value(&self) -> i32"@, 10) == 0);
    assert(net_upto("*self as i32"@, 10) == 0);
}

/// The match arm of `merge_from` for a field is balanced.
proof fn lemma_merge_case_balanced(f: FieldView, mm: Seq<char>)
    requires
        field_weightless(f),
        net(mm) == 0,
    ensures
        balanced(merge_case_lines(mm)(f)),
{
    broadcast use group_brace_weights;

    lemma_writer_literals();
    lemma_merge_field_balanced(f, mm + indent_step());
}

/// The statements that add the size of one value are balanced.
proof fn lemma_value_size_balanced(f: FieldView, l: Seq<char>)
    requires
        field_weightless(f),
        net(l) == 0,
    ensures
        balanced(value_size_lines(f, l)),
{
    broadcast use group_brace_weights;

    lemma_struct_impl_literals();
    lemma_message_impl_literals();
    if f.field_type == FieldDescriptorProtoType::TypeBytes || f.field_type
        == FieldDescriptorProtoType::TypeString {
        assert(net(spec_protobuf_name(f.field_type)) == 0);
    }
}

/// The statements of `compute_sizes` for a field are balanced.
#[verifier::rlimit(50)]
proof fn lemma_field_size_balanced(f: FieldView, k: Seq<char>)
    requires
        field_weightless(f),
        net(k) == 0,
    ensures
        balanced(size_lines(k)(f)),
{
    broadcast use group_brace_weights;

    lemma_writer_literals();
    lemma_struct_impl_literals();
    lemma_message_impl_literals();
    lemma_value_size_balanced(f, k + indent_step());
    if f.repeat_mode != RepeatMode::RepeatPacked {
        match spec_field_type_size(f.field_type) {
            Some(sz) => {
                assert(net(int_decimal(sz + spec_tag_size(f.number))) == 0);
            },
            None => {},
        }
    }
}

/// An enum whose name, and the names of whose values, hold no brace.
pub open spec fn enum_weightless(e: EnumDescriptorProto) -> bool {
    &&& net(e.name.unwrap()@) == 0
    &&& forall|i: int| 0 <= i < e.value@.len() ==> net((#[trigger] e.value@[i]).name.unwrap()@) == 0
}

/// The code of an enum is balanced, with or without the empty line before it.
pub proof fn lemma_enum_balanced(prefix: Seq<char>, e: EnumDescriptorProto, ind: Seq<char>)
    requires
        enum_weightless(e),
        net(prefix) == 0,
        net(ind) == 0,
    ensures
        balanced(enum_lines(prefix, e, ind)),
        balanced(enum_piece(prefix, ind)(e)),
{
    broadcast use group_brace_weights;

    lemma_writer_literals();
    lemma_enum_literals();
    let l = ind + indent_step() + indent_step() + indent_step();
    assert forall|i: int| 0 <= i < e.value@.len() implies balanced(#[trigger] enum_variant_lines(ind)(e.value@[i])) by {
        assert(net(e.value@[i].name.unwrap()@) == 0);
    }
    assert forall|i: int| 0 <= i < e.value@.len() implies balanced(#[trigger] enum_arm_lines(l)(e.value@[i])) by {
        assert(net(e.value@[i].name.unwrap()@) == 0);
    }
    lemma_concat_map_balanced(e.value@, enum_variant_lines(ind));
    lemma_concat_map_balanced(e.value@, enum_arm_lines(l));
}

// ---------------------------------------------------------------------------
// Composing balanced runs
// ---------------------------------------------------------------------------

/// Two balanced runs put together are balanced.
pub proof fn lemma_balanced_concat(a: Seq<Seq<char>>, b: Seq<Seq<char>>)
    requires
        balanced(a),
        balanced(b),
    ensures
        balanced(a + b),
{
    lemma_lines_net_concat(a, b);
    lemma_low_point_concat(a, b);
}

/// A line that weighs nothing is a balanced run.
pub proof fn lemma_line_balanced(ind: Seq<char>, t: Seq<char>)
    requires
        net(ind) == 0,
        net(t) == 0,
    ensures
        balanced(line_of(ind, t)),
{
    broadcast use group_brace_weights;

    assert(net(Seq::<char>::empty()) == 0);
}

/// A block whose first line opens a brace, whose last line closes one and
/// whose body is balanced is balanced.
pub proof fn lemma_block_balanced(ind: Seq<char>, first: Seq<char>, body: Seq<Seq<char>>, last: Seq<char>)
    requires
        net(ind) == 0,
        net(first) == 1,
        net(last) == -1,
        balanced(body),
    ensures
        balanced(block_lines(ind, first, body, last)),
{
    broadcast use group_brace_weights;

    assert(net(Seq::<char>::empty()) == 0);
}

/// The empty run is balanced.
pub proof fn lemma_empty_balanced()
    ensures
        balanced(Seq::<Seq<char>>::empty()),
{
}

// ---------------------------------------------------------------------------
// Messages
// ---------------------------------------------------------------------------

/// A message whose Rust type holds no brace, with fields that
/// `field_weightless` accepts.
pub open spec fn message_weightless(m: MessageView) -> bool {
    &&& net(m.rust_type) == 0
    &&& forall|i: int| 0 <= i < m.fields.len() ==> field_weightless(#[trigger] m.fields[i])
}

/// The required fields are among the fields, so they weigh nothing either.
proof fn lemma_required_weightless(fs: Seq<FieldView>)
    requires
        forall|i: int| 0 <= i < fs.len() ==> field_weightless(#[trigger] fs[i]),
    ensures
        forall|i: int|
            0 <= i < required_fields_of(fs).len() ==> field_weightless(#[trigger] required_fields_of(fs)[i]),
    decreases fs.len(),
{
    if fs.len() > 0 {
        let init = fs.drop_last();
        assert forall|i: int| 0 <= i < init.len() implies field_weightless(#[trigger] init[i]) by {
            assert(init[i] == fs[i]);
        }
        lemma_required_weightless(init);
        let rest = required_fields_of(init);
        assert(field_weightless(fs[fs.len() - 1]));
        assert forall|i: int| 0 <= i < required_fields_of(fs).len() implies field_weightless(
            #[trigger] required_fields_of(fs)[i],
        ) by {
            if i < rest.len() {
                assert(required_fields_of(fs)[i] == rest[i]);
            } else {
                assert(required_fields_of(fs)[i] == fs.last());
            }
        }
    }
}

/// The lines that each template writes per field, for all the fields of a
/// message, are balanced.
proof fn lemma_field_pieces_balanced(m: MessageView, ind: Seq<char>)
    requires
        message_weightless(m),
        net(ind) == 0,
    ensures
        balanced(concat_map(m.fields, struct_field_lines(ind))),
        balanced(concat_map(m.fields, new_field_lines(ind))),
        balanced(concat_map(m.fields, clear_fn_lines(ind))),
        balanced(concat_map(m.fields, clear_call_lines(ind))),
        balanced(concat_map(required_fields_of(m.fields), required_check_lines(ind))),
        balanced(concat_map(m.fields, write_field_lines(ind))),
        balanced(concat_map(m.fields, merge_case_lines(ind))),
        balanced(concat_map(m.fields, size_lines(ind))),
{
    let fs = m.fields;
    assert forall|i: int| 0 <= i < fs.len() implies balanced(#[trigger] struct_field_lines(ind)(fs[i])) by {
        lemma_struct_field_balanced(fs[i], ind);
    }
    assert forall|i: int| 0 <= i < fs.len() implies balanced(#[trigger] new_field_lines(ind)(fs[i])) by {
        lemma_struct_field_balanced(fs[i], ind);
    }
    assert forall|i: int| 0 <= i < fs.len() implies balanced(#[trigger] clear_fn_lines(ind)(fs[i])) by {
        lemma_struct_field_balanced(fs[i], ind);
    }
    assert forall|i: int| 0 <= i < fs.len() implies balanced(#[trigger] clear_call_lines(ind)(fs[i])) by {
        lemma_struct_field_balanced(fs[i], ind);
    }
    assert forall|i: int| 0 <= i < fs.len() implies balanced(#[trigger] write_field_lines(ind)(fs[i])) by {
        lemma_field_writer_balanced(fs[i], ind);
    }
    assert forall|i: int| 0 <= i < fs.len() implies balanced(#[trigger] merge_case_lines(ind)(fs[i])) by {
        lemma_merge_case_balanced(fs[i], ind);
    }
    assert forall|i: int| 0 <= i < fs.len() implies balanced(#[trigger] size_lines(ind)(fs[i])) by {
        lemma_field_size_balanced(fs[i], ind);
    }
    lemma_concat_map_balanced(fs, struct_field_lines(ind));
    lemma_concat_map_balanced(fs, new_field_lines(ind));
    lemma_concat_map_balanced(fs, clear_fn_lines(ind));
    lemma_concat_map_balanced(fs, clear_call_lines(ind));
    lemma_concat_map_balanced(fs, write_field_lines(ind));
    lemma_concat_map_balanced(fs, merge_case_lines(ind));
    lemma_concat_map_balanced(fs, size_lines(ind));
    let req = required_fields_of(fs);
    lemma_required_weightless(fs);
    assert forall|i: int| 0 <= i < req.len() implies balanced(#[trigger] required_check_lines(ind)(req[i])) by {
        lemma_struct_field_balanced(req[i], ind);
    }
    lemma_concat_map_balanced(req, required_check_lines(ind));
}

/// The placeholder member of a struct without fields is balanced.
proof fn lemma_dummy_balanced(fields: Seq<FieldView>, ind: Seq<char>, value: Seq<char>)
    requires
        net(ind) == 0,
        net(value) == 0,
    ensures
        balanced(dummy_lines(fields, ind, value)),
{
    broadcast use group_brace_weights;

    lemma_writer_literals();
    lemma_struct_impl_literals();
}

/// Every block helper of the writer gives a balanced run when its texts
/// hold no brace and its body is balanced.
pub proof fn lemma_blocks_balanced(ind: Seq<char>, a: Seq<char>, b: Seq<char>, body: Seq<Seq<char>>)
    requires
        net(ind) == 0,
        net(a) == 0,
        net(b) == 0,
        balanced(body),
    ensures
        balanced(spec_expr_block(ind, a, body)),
        balanced(spec_stmt_block(ind, a, body)),
        balanced(spec_impl_block(ind, a, body)),
        balanced(spec_impl_for_block(ind, a, b, body)),
        balanced(spec_pub_fn(ind, a, body)),
        balanced(spec_def_fn(ind, a, body)),
        balanced(spec_while_block(ind, a, body)),
        balanced(spec_if_stmt(ind, a, body)),
        balanced(spec_for_stmt(ind, a, b, body)),
        balanced(spec_match_block(ind, a, body)),
        balanced(spec_match_expr(ind, a, body)),
        balanced(spec_case_block(ind, a, body)),
{
    broadcast use lemma_net_concat;

    lemma_writer_literals();
    lemma_block_balanced(ind, "impl "@ + a + " {"@, body, "}"@);
    lemma_block_balanced(ind, "impl "@ + a + " for "@ + b + " {"@, body, "}"@);
    lemma_block_balanced(ind, "pub fn "@ + a + " {"@, body, "}"@);
    lemma_block_balanced(ind, "fn "@ + a + " {"@, body, "}"@);
    lemma_block_balanced(ind, "while "@ + a + " {"@, body, "}"@);
    lemma_block_balanced(ind, "if "@ + a + " {"@, body, "};"@);
    lemma_block_balanced(ind, "for "@ + a + " |"@ + b + "|"@ + " {"@, body, "};"@);
    lemma_block_balanced(ind, "match "@ + a + " {"@, body, "};"@);
    lemma_block_balanced(ind, "match "@ + a + " {"@, body, "}"@);
    lemma_block_balanced(ind, a + " {"@, body, "}"@);
    lemma_block_balanced(ind, a + " {"@, body, "};"@);
    lemma_block_balanced(ind, a + " => {"@, body, "},"@);
}

/// The struct of a message is balanced.
proof fn lemma_struct_balanced(m: MessageView, ind: Seq<char>)
    requires
        message_weightless(m),
        net(ind) == 0,
    ensures
        balanced(struct_lines(m, ind)),
{
    broadcast use lemma_net_concat;

    lemma_writer_literals();
    lemma_struct_impl_literals();
    let j = ind + indent_step();
    lemma_field_pieces_balanced(m, j);
    lemma_dummy_balanced(m.fields, j, "bool"@);
    let body = concat_map(m.fields, struct_field_lines(j)) + dummy_lines(m.fields, j, "bool"@);
    lemma_balanced_concat(concat_map(m.fields, struct_field_lines(j)), dummy_lines(m.fields, j, "bool"@));
    lemma_blocks_balanced(ind, "pub struct "@ + m.rust_type, ""@, body);
}

/// The inherent impl of a message is balanced.
proof fn lemma_impl_balanced(m: MessageView, ind: Seq<char>)
    requires
        message_weightless(m),
        net(ind) == 0,
    ensures
        balanced(impl_lines(m, ind)),
{
    broadcast use lemma_net_concat;

    lemma_writer_literals();
    lemma_struct_impl_literals();
    let j = ind + indent_step();
    let k = j + indent_step();
    let l = k + indent_step();
    let rt = m.rust_type;
    let fs = m.fields;
    lemma_field_pieces_balanced(m, j);
    lemma_field_pieces_balanced(m, k);
    lemma_field_pieces_balanced(m, l);
    lemma_dummy_balanced(fs, l, "false"@);
    let inits = concat_map(fs, new_field_lines(l)) + dummy_lines(fs, l, "false"@);
    lemma_balanced_concat(concat_map(fs, new_field_lines(l)), dummy_lines(fs, l, "false"@));
    lemma_blocks_balanced(k, rt, rt, inits);
    lemma_blocks_balanced(j, "new() -> "@ + rt, rt, spec_expr_block(k, rt, inits));
    let a = new_fn_lines(m, j);
    let b = line_of(j, ""@);
    lemma_line_balanced(j, ""@);
    let c = if has_message_field(fs) {
        Seq::<Seq<char>>::empty()
    } else {
        line_of(j, "#[allow(unused_variable)]"@)
    };
    if has_message_field(fs) {
        lemma_empty_balanced();
    } else {
        lemma_line_balanced(j, "#[allow(unused_variable)]"@);
    }
    lemma_blocks_balanced(j, write_sizes_sig(), rt, concat_map(fs, write_field_lines(k)));
    let d = spec_pub_fn(j, write_sizes_sig(), concat_map(fs, write_field_lines(k)));
    let e = concat_map(fs, clear_fn_lines(j));
    lemma_balanced_concat(a, b);
    lemma_balanced_concat(a + b, c);
    lemma_balanced_concat(a + b + c, d);
    lemma_balanced_concat(a + b + c + d, e);
    lemma_blocks_balanced(ind, rt, rt, a + b + c + d + e);
}

/// `Message::merge_from` is balanced.
proof fn lemma_merge_from_balanced(m: MessageView, j: Seq<char>)
    requires
        message_weightless(m),
        net(j) == 0,
    ensures
        balanced(merge_from_lines(m, j)),
{
    broadcast use lemma_net_concat;

    lemma_writer_literals();
    lemma_merge_literals();
    let k = j + indent_step();
    let l = k + indent_step();
    let mm = l + indent_step();
    let n = mm + indent_step();
    lemma_field_pieces_balanced(m, mm);
    lemma_line_balanced(n, "// TODO: store in unknown fields"@);
    lemma_line_balanced(n, "is.skip_field(wire_type);"@);
    let skip = line_of(n, "// TODO: store in unknown fields"@) + line_of(n, "is.skip_field(wire_type);"@);
    lemma_balanced_concat(line_of(n, "// TODO: store in unknown fields"@), line_of(n, "is.skip_field(wire_type);"@));
    lemma_blocks_balanced(mm, "_"@, "_"@, skip);
    let cases = concat_map(m.fields, merge_case_lines(mm));
    lemma_balanced_concat(cases, spec_case_block(mm, "_"@, skip));
    let arms = cases + spec_case_block(mm, "_"@, skip);
    lemma_blocks_balanced(l, "field_number"@, "_"@, arms);
    lemma_line_balanced(l, "let (field_number, wire_type) = is.read_tag_unpack();"@);
    let body = line_of(l, "let (field_number, wire_type) = is.read_tag_unpack();"@) + spec_match_block(
        l,
        "field_number"@,
        arms,
    );
    lemma_balanced_concat(
        line_of(l, "let (field_number, wire_type) = is.read_tag_unpack();"@),
        spec_match_block(l, "field_number"@, arms),
    );
    lemma_blocks_balanced(k, "!is.eof()"@, "_"@, body);
    lemma_blocks_balanced(
        j,
        "merge_from(&mut self, is: &mut CodedInputStream)"@,
        "_"@,
        spec_while_block(k, "!is.eof()"@, body),
    );
}

/// `Message::compute_sizes` and its comment are balanced.
proof fn lemma_compute_sizes_balanced(m: MessageView, j: Seq<char>)
    requires
        message_weightless(m),
        net(j) == 0,
    ensures
        balanced(compute_sizes_lines(m, j)),
{
    broadcast use lemma_net_concat;

    lemma_writer_literals();
    lemma_message_impl_literals();
    let k = j + indent_step();
    lemma_field_pieces_balanced(m, k);
    let a = line_of(k, "let pos = sizes.len();"@);
    let b = line_of(k, "sizes.push(0);"@);
    let c = line_of(k, "let mut my_size = 0;"@);
    let d = concat_map(m.fields, size_lines(k));
    let e = line_of(k, "sizes[pos] = my_size;"@);
    let f = line_of(k, spec_comment_text("value is returned for convenience"@));
    let g = line_of(k, "my_size"@);
    lemma_line_balanced(k, "let pos = sizes.len();"@);
    lemma_line_balanced(k, "sizes.push(0);"@);
    lemma_line_balanced(k, "let mut my_size = 0;"@);
    lemma_line_balanced(k, "sizes[pos] = my_size;"@);
    lemma_line_balanced(k, spec_comment_text("value is returned for convenience"@));
    lemma_line_balanced(k, "my_size"@);
    lemma_balanced_concat(a, b);
    lemma_balanced_concat(a + b, c);
    lemma_balanced_concat(a + b + c, d);
    lemma_balanced_concat(a + b + c + d, e);
    lemma_balanced_concat(a + b + c + d + e, f);
    lemma_balanced_concat(a + b + c + d + e + f, g);
    lemma_blocks_balanced(j, "compute_sizes(&self, sizes: &mut ~[u32]) -> u32"@, "my_size"@, a + b + c + d + e + f + g);
    lemma_line_balanced(j, spec_comment_text("Compute sizes of nested messages"@));
    lemma_balanced_concat(
        line_of(j, spec_comment_text("Compute sizes of nested messages"@)),
        spec_def_fn(j, "compute_sizes(&self, sizes: &mut ~[u32]) -> u32"@, a + b + c + d + e + f + g),
    );
}

/// `Message::write_to` is balanced.
proof fn lemma_write_to_balanced(j: Seq<char>)
    requires
        net(j) == 0,
    ensures
        balanced(write_to_lines(j)),
{
    broadcast use lemma_net_concat;

    lemma_writer_literals();
    lemma_message_impl_literals();
    let k = j + indent_step();
    let a = line_of(k, "self.check_initialized();"@);
    let b = line_of(k, "let mut sizes: ~[u32] = ~[];"@);
    let c = line_of(k, "self.compute_sizes(&mut sizes);"@);
    let d = line_of(k, "let mut sizes_pos = 1; // first element is self"@);
    let e = line_of(k, "self.write_to_with_computed_sizes(os, sizes, &mut sizes_pos);"@);
    let f = line_of(k, "assert_eq!(sizes_pos, sizes.len());"@);
    lemma_line_balanced(k, "self.check_initialized();"@);
    lemma_line_balanced(k, "let mut sizes: ~[u32] = ~[];"@);
    lemma_line_balanced(k, "self.compute_sizes(&mut sizes);"@);
    lemma_line_balanced(k, "let mut sizes_pos = 1; // first element is self"@);
    lemma_line_balanced(k, "self.write_to_with_computed_sizes(os, sizes, &mut sizes_pos);"@);
    lemma_line_balanced(k, "assert_eq!(sizes_pos, sizes.len());"@);
    lemma_balanced_concat(a, b);
    lemma_balanced_concat(a + b, c);
    lemma_balanced_concat(a + b + c, d);
    lemma_balanced_concat(a + b + c + d, e);
    lemma_balanced_concat(a + b + c + d + e, f);
    lemma_blocks_balanced(j, "write_to(&self, os: &mut CodedOutputStream)"@, "self.check_initialized();"@, a + b + c + d + e + f);
}

/// The `Message` impl of a message is balanced.
proof fn lemma_message_impl_balanced(m: MessageView, ind: Seq<char>)
    requires
        message_weightless(m),
        net(ind) == 0,
    ensures
        balanced(message_impl_lines(m, ind)),
{
    broadcast use lemma_net_concat;

    lemma_writer_literals();
    lemma_struct_impl_literals();
    lemma_message_impl_literals();
    let j = ind + indent_step();
    let k = j + indent_step();
    let rt = m.rust_type;
    lemma_field_pieces_balanced(m, k);
    lemma_line_balanced(k, rt + "::new()"@);
    lemma_blocks_balanced(j, "new() -> "@ + rt, rt, line_of(k, rt + "::new()"@));
    lemma_blocks_balanced(j, "clear(&mut self)"@, rt, concat_map(m.fields, clear_call_lines(k)));
    let req = concat_map(required_fields_of(m.fields), required_check_lines(k)) + line_of(k, "true"@);
    lemma_line_balanced(k, "true"@);
    lemma_balanced_concat(concat_map(required_fields_of(m.fields), required_check_lines(k)), line_of(k, "true"@));
    lemma_blocks_balanced(j, "is_initialized(&self) -> bool"@, rt, req);
    lemma_merge_from_balanced(m, j);
    lemma_compute_sizes_balanced(m, j);
    lemma_write_to_balanced(j);
    let sep = line_of(j, ""@);
    lemma_line_balanced(j, ""@);
    let a = trait_new_lines(m, j);
    let b = clear_lines(m, j);
    let c = is_initialized_lines(m, j);
    let d = merge_from_lines(m, j);
    let e = compute_sizes_lines(m, j);
    let f = write_to_lines(j);
    assert(balanced(a));
    assert(balanced(b));
    assert(balanced(c));
    lemma_balanced_concat(a, sep);
    lemma_balanced_concat(a + sep, b);
    lemma_balanced_concat(a + sep + b, sep);
    lemma_balanced_concat(a + sep + b + sep, c);
    lemma_balanced_concat(a + sep + b + sep + c, sep);
    lemma_balanced_concat(a + sep + b + sep + c + sep, d);
    lemma_balanced_concat(a + sep + b + sep + c + sep + d, sep);
    lemma_balanced_concat(a + sep + b + sep + c + sep + d + sep, e);
    lemma_balanced_concat(a + sep + b + sep + c + sep + d + sep + e, sep);
    lemma_balanced_concat(a + sep + b + sep + c + sep + d + sep + e + sep, f);
    lemma_blocks_balanced(ind, "Message"@, rt, a + sep + b + sep + c + sep + d + sep + e + sep + f);
}

/// The weights of the texts around messages and at the top of a file.
proof fn lemma_file_literals()
    ensures
        net("#[deriving(Clone,Eq)]"@) == 0,
        net(""@) == 0,
        net("_"@) == 0,
        net("use "@) == 0,
        net("::*;"@) == 0,
        net("// This file is generated. Do not edit"@) == 0,
        net("use protobuf::*;"@) == 0,
        net("use protobuf::rt;"@) == 0,
{
    reveal_strlit("#[deriving(Clone,Eq)]");
    reveal_strlit("");
    reveal_strlit("_");
    reveal_strlit("use ");
    reveal_strlit("::*;");
    reveal_strlit("// This file is generated. Do not edit");
    reveal_strlit("use protobuf::*;");
    reveal_strlit("use protobuf::rt;");
    reveal_with_fuel(net_upto, 11);
    assert(net_upto("#[deriving(Clone,Eq)]"@, 10) == 0);
    assert(net_upto("#[deriving(Clone,Eq)]"@, 20) == 0);
    assert(net_upto("// This file is generated. Do not edit"@, 10) == 0);
    assert(net_upto("// This file is generated. Do not edit"@, 20) == 0);
    assert(net_upto("// This file is generated. Do not edit"@, 30) == 0);
    assert(net_upto("use protobuf::*;"@, 10) == 0);
    assert(net_upto("use protobuf::rt;"@, 10) == 0);
}

/// The struct, the inherent impl and the `Message` impl of a message are
/// balanced.
proof fn lemma_message_head_balanced(m: MessageView, ind: Seq<char>)
    requires
        message_weightless(m),
        net(ind) == 0,
    ensures
        balanced(message_head_lines(m, ind)),
{
    reveal(message_head_lines);
    lemma_file_literals();
    lemma_line_balanced(ind, "#[deriving(Clone,Eq)]"@);
    lemma_line_balanced(ind, ""@);
    lemma_struct_balanced(m, ind);
    lemma_impl_balanced(m, ind);
    lemma_message_impl_balanced(m, ind);
    let a = line_of(ind, "#[deriving(Clone,Eq)]"@);
    let b = struct_lines(m, ind);
    let sep = line_of(ind, ""@);
    let c = impl_lines(m, ind);
    let d = message_impl_lines(m, ind);
    lemma_balanced_concat(a, b);
    lemma_balanced_concat(a + b, sep);
    lemma_balanced_concat(a + b + sep, c);
    lemma_balanced_concat(a + b + sep + c, sep);
    lemma_balanced_concat(a + b + sep + c + sep, d);
}

/// Neither the name of a field nor the type it names holds a brace.
pub open spec fn field_brace_free(f: FieldDescriptorProto) -> bool {
    &&& brace_free(f.name.unwrap()@)
    &&& f.type_path matches Some(tp) ==> brace_free(tp@)
}

/// Neither the name of an enum nor that of any of its values holds a brace.
pub open spec fn enum_brace_free(e: EnumDescriptorProto) -> bool {
    &&& brace_free(e.name.unwrap()@)
    &&& forall|i: int| 0 <= i < e.value@.len() ==> brace_free((#[trigger] e.value@[i]).name.unwrap()@)
}

/// No name in a message holds a brace: not its own, not those of its fields
/// and of the types they name, not those of its enums, and none in the
/// messages nested in it.
pub open spec fn descriptor_brace_free(d: DescriptorProto) -> bool
    decreases d,
{
    &&& brace_free(d.name.unwrap()@)
    &&& forall|i: int| 0 <= i < d.field@.len() ==> field_brace_free(#[trigger] d.field@[i])
    &&& forall|i: int| 0 <= i < d.enum_type@.len() ==> enum_brace_free(#[trigger] d.enum_type@[i])
    &&& forall|i: int| 0 <= i < d.nested_type@.len() ==> descriptor_brace_free(#[trigger] d.nested_type@[i])
}

/// A field read from a descriptor without braces in its names weighs nothing.
proof fn lemma_field_weightless(f: FieldDescriptorProto, pkg: Seq<char>)
    requires
        field_ok(f),
        field_brace_free(f),
    ensures
        field_weightless(spec_parse_field(f, pkg)),
{
    lemma_parsed_field_ok(f, pkg);
    lemma_name_literals();
    lemma_brace_free_net(f.name.unwrap()@);
    lemma_net_replace_dots(spec_field_type_name(f, pkg));
    match f.type_path {
        Some(tp) => {
            let s = tp@;
            let pre = "."@ + pkg + "."@;
            if is_prefix(pre, s) {
                lemma_brace_free_subrange(s, pre.len() as int, s.len() as int);
                lemma_brace_free_net(s.subrange(pre.len() as int, s.len() as int));
            } else {
                lemma_last_index_of(s, '.');
                match last_index_of(s, '.') {
                    Some(i) => {
                        lemma_brace_free_subrange(s, i + 1, s.len() as int);
                        lemma_brace_free_net(s.subrange(i + 1, s.len() as int));
                    },
                    None => {
                        lemma_brace_free_net(s);
                    },
                }
            }
        },
        None => {
            lemma_net_rust_name(f.field_type.unwrap());
        },
    }
}

/// An enum without braces in its names weighs nothing.
pub proof fn lemma_enum_weightless(e: EnumDescriptorProto)
    requires
        enum_brace_free(e),
    ensures
        enum_weightless(e),
{
    lemma_brace_free_net(e.name.unwrap()@);
    assert forall|i: int| 0 <= i < e.value@.len() implies net((#[trigger] e.value@[i]).name.unwrap()@) == 0 by {
        lemma_brace_free_net(e.value@[i].name.unwrap()@);
    }
}

/// A message read from a descriptor without braces in its names, under a
/// prefix that weighs nothing, weighs nothing.
proof fn lemma_parsed_message_weightless(d: DescriptorProto, pkg: Seq<char>, prefix: Seq<char>)
    requires
        descriptor_ok(d),
        descriptor_brace_free(d),
        net(prefix) == 0,
    ensures
        message_weightless(spec_parse_message(d, pkg, prefix)),
{
    let m = spec_parse_message(d, pkg, prefix);
    lemma_brace_free_net(d.name.unwrap()@);
    lemma_net_concat(prefix, d.name.unwrap()@);
    assert forall|i: int| 0 <= i < m.fields.len() implies field_weightless(#[trigger] m.fields[i]) by {
        assert(m.fields[i] == spec_parse_field(d.field@[i], pkg));
        assert(field_ok(d.field@[i]));
        assert(field_brace_free(d.field@[i]));
        lemma_field_weightless(d.field@[i], pkg);
    }
}

/// All the code of a message, its nested messages and enums included, is
/// balanced.
pub proof fn lemma_message_lines_balanced(d: DescriptorProto, pkg: Seq<char>, prefix: Seq<char>, ind: Seq<char>)
    requires
        descriptor_ok(d),
        descriptor_brace_free(d),
        net(prefix) == 0,
        net(ind) == 0,
    ensures
        balanced(message_lines(d, pkg, prefix, ind)),
    decreases d, d.nested_type@.len() + 1,
{
    let m = spec_parse_message(d, pkg, prefix);
    let sub = m.rust_type + "_"@;
    lemma_file_literals();
    lemma_parsed_message_weightless(d, pkg, prefix);
    lemma_net_concat(m.rust_type, "_"@);
    lemma_message_head_balanced(m, ind);
    lemma_nested_lines_balanced(d, d.nested_type@.len() as int, pkg, sub, ind);
    assert forall|i: int| 0 <= i < d.enum_type@.len() implies balanced(#[trigger] enum_piece(sub, ind)(d.enum_type@[i])) by {
        assert(enum_brace_free(d.enum_type@[i]));
        lemma_enum_weightless(d.enum_type@[i]);
        lemma_enum_balanced(sub, d.enum_type@[i], ind);
    }
    lemma_concat_map_balanced(d.enum_type@, enum_piece(sub, ind));
    let a = message_head_lines(m, ind);
    let b = nested_lines(d, d.nested_type@.len() as int, pkg, sub, ind);
    let c = concat_map(d.enum_type@, enum_piece(sub, ind));
    lemma_balanced_concat(a, b);
    lemma_balanced_concat(a + b, c);
}

/// The code of the first `k` messages nested in `d` is balanced.
pub proof fn lemma_nested_lines_balanced(d: DescriptorProto, k: int, pkg: Seq<char>, prefix: Seq<char>, ind: Seq<char>)
    requires
        descriptor_ok(d),
        descriptor_brace_free(d),
        net(prefix) == 0,
        net(ind) == 0,
    ensures
        balanced(nested_lines(d, k, pkg, prefix, ind)),
    decreases d, k,
{
    if k <= 0 || k > d.nested_type@.len() {
        lemma_empty_balanced();
    } else {
        lemma_file_literals();
        lemma_nested_lines_balanced(d, k - 1, pkg, prefix, ind);
        assert(descriptor_ok(d.nested_type@[k - 1]));
        assert(descriptor_brace_free(d.nested_type@[k - 1]));
        lemma_message_lines_balanced(d.nested_type@[k - 1], pkg, prefix, ind);
        lemma_line_balanced(ind, ""@);
        let a = nested_lines(d, k - 1, pkg, prefix, ind);
        let b = line_of(ind, ""@);
        let c = message_lines(d.nested_type@[k - 1], pkg, prefix, ind);
        lemma_balanced_concat(a, b);
        lemma_balanced_concat(a + b, c);
    }
}

/// No dependency path, and no name in the messages and enums of a file,
/// holds a brace.
pub open spec fn file_brace_free(f: FileDescriptorProto) -> bool {
    &&& forall|i: int| 0 <= i < f.dependency@.len() ==> brace_free((#[trigger] f.dependency@[i])@)
    &&& forall|i: int| 0 <= i < f.message_type@.len() ==> descriptor_brace_free(#[trigger] f.message_type@[i])
    &&& forall|i: int| 0 <= i < f.enum_type@.len() ==> enum_brace_free(#[trigger] f.enum_type@[i])
}

/// The module name of a `.proto` path without braces weighs nothing.
proof fn lemma_rust_base_weightless(path: Seq<char>)
    requires
        is_proto_path(path),
        brace_free(path),
    ensures
        net(spec_proto_path_to_rust_base(path)) == 0,
{
    lemma_last_index_of(path, '/');
    let r = spec_remove_to(path, '/');
    match last_index_of(path, '/') {
        Some(i) => {
            lemma_brace_free_subrange(path, i + 1, path.len() as int);
        },
        None => {},
    }
    assert(brace_free(r));
    lemma_brace_free_subrange(r, 0, r.len() - ".proto"@.len());
    lemma_brace_free_net(r.subrange(0, r.len() - ".proto"@.len()));
}

/// The whole module generated for a file is balanced.
pub proof fn lemma_file_lines_balanced(f: FileDescriptorProto)
    requires
        file_ok(f),
        file_brace_free(f),
    ensures
        balanced(file_lines(f)),
{
    broadcast use lemma_net_concat;

    lemma_file_literals();
    let top = Seq::<char>::empty();
    assert(net(top) == 0);
    assert forall|i: int| 0 <= i < f.dependency@.len() implies balanced(
        #[trigger] dependency_lines()(f.dependency@[i]),
    ) by {
        let dep = f.dependency@[i]@;
        assert(is_proto_path(dep));
        lemma_rust_base_weightless(dep);
        lemma_line_balanced(top, "use "@ + spec_proto_path_to_rust_base(dep) + "::*;"@);
    }
    lemma_concat_map_balanced(f.dependency@, dependency_lines());
    let pkg = f.package.unwrap()@;
    assert forall|i: int| 0 <= i < f.message_type@.len() implies balanced(
        #[trigger] top_message_piece(pkg)(f.message_type@[i]),
    ) by {
        let d = f.message_type@[i];
        assert(descriptor_ok(d));
        assert(descriptor_brace_free(d));
        lemma_message_lines_balanced(d, pkg, ""@, top);
        lemma_line_balanced(top, ""@);
        lemma_balanced_concat(line_of(top, ""@), message_lines(d, pkg, ""@, top));
    }
    lemma_concat_map_balanced(f.message_type@, top_message_piece(pkg));
    assert forall|i: int| 0 <= i < f.enum_type@.len() implies balanced(
        #[trigger] enum_piece(""@, top)(f.enum_type@[i]),
    ) by {
        assert(enum_brace_free(f.enum_type@[i]));
        lemma_enum_weightless(f.enum_type@[i]);
        lemma_enum_balanced(""@, f.enum_type@[i], top);
    }
    lemma_concat_map_balanced(f.enum_type@, enum_piece(""@, top));
    let a = line_of(top, "// This file is generated. Do not edit"@);
    let b = line_of(top, ""@);
    let c = line_of(top, "use protobuf::*;"@);
    let d = line_of(top, "use protobuf::rt;"@);
    let e = concat_map(f.dependency@, dependency_lines());
    let g = concat_map(f.message_type@, top_message_piece(pkg));
    let h = concat_map(f.enum_type@, enum_piece(""@, top));
    lemma_line_balanced(top, "// This file is generated. Do not edit"@);
    lemma_line_balanced(top, ""@);
    lemma_line_balanced(top, "use protobuf::*;"@);
    lemma_line_balanced(top, "use protobuf::rt;"@);
    lemma_balanced_concat(a, b);
    lemma_balanced_concat(a + b, c);
    lemma_balanced_concat(a + b + c, d);
    lemma_balanced_concat(a + b + c + d, e);
    lemma_balanced_concat(a + b + c + d + e, g);
    lemma_balanced_concat(a + b + c + d + e + g, h);
}

} // verus!
