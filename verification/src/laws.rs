//! Properties of the naming rules and of the generated code that hold for
//! every input.
use vstd::prelude::*;
use crate::braces::{
    balanced, brace_free, descriptor_brace_free, enum_brace_free, file_brace_free,
    lemma_brace_free_net, lemma_enum_balanced, lemma_enum_weightless, lemma_file_lines_balanced,
    lemma_low_point_bounds, lemma_message_lines_balanced, lines_net,
};
use crate::codegen::{
    clear_fn_lines, dependency_lines, dummy_lines, enum_lines, enum_piece, file_lines, file_ok,
    full_type, impl_lines, message_head_lines, message_impl_lines, message_lines, nested_lines,
    struct_field_lines, struct_lines, top_message_piece,
};
use crate::descriptor::{DescriptorProto, EnumDescriptorProto, FileDescriptorProto};
use crate::descriptor::{FieldDescriptorProto, FieldDescriptorProtoLabel, FieldDescriptorProtoType};
use crate::model::{
    descriptor_ok, enum_ok, required_fields_of, spec_field_name, spec_field_type_name,
    spec_parse_field, spec_parse_message, FieldView,
};
use crate::wire_format::{spec_field_type_size, spec_field_type_wire_type, WireType};
use crate::names::{
    is_composite, spec_protobuf_name, spec_rust_name,
    spec_proto_path_to_rust_base, spec_remove_from, spec_remove_prefix, spec_remove_suffix,
    spec_remove_to,
};
use crate::text::{
    digit_char, first_index_of, is_prefix, is_suffix, last_index_of, lemma_first_index_of,
    lemma_last_index_of, nat_decimal, replace_char,
};
use crate::writer::{
    block_lines, concat_map, indent_step, indented_line, lemma_fits_extend, lemma_fits_refl,
    lemma_fits_trans, line_fits, line_of, lines_fit, spec_field_text, text_of,
};

verus! {

/// Removing a prefix that was just put in front gives back the string.
pub proof fn law_remove_prefix_undoes_concat(p: Seq<char>, s: Seq<char>)
    ensures
        is_prefix(p, p + s),
        spec_remove_prefix(p + s, p) == s,
{
    assert((p + s).subrange(0, p.len() as int) =~= p);
    assert((p + s).subrange(p.len() as int, (p + s).len() as int) =~= s);
}

/// Removing a suffix that was just put behind gives back the string.
pub proof fn law_remove_suffix_undoes_concat(s: Seq<char>, p: Seq<char>)
    ensures
        is_suffix(p, s + p),
        spec_remove_suffix(s + p, p) == s,
{
    assert((s + p).subrange(s.len() as int, (s + p).len() as int) =~= p);
    assert((s + p).subrange(0, s.len() as int) =~= s);
}

/// What `remove_to` keeps is the end of the string and holds no separator.
pub proof fn law_remove_to_is_separator_free_suffix(s: Seq<char>, c: char)
    ensures
        is_suffix(spec_remove_to(s, c), s),
        !spec_remove_to(s, c).contains(c),
{
    lemma_last_index_of(s, c);
    let r = spec_remove_to(s, c);
    match last_index_of(s, c) {
        Some(i) => {
            assert(s.subrange(s.len() - r.len(), s.len() as int) =~= r);
            assert forall|j: int| 0 <= j < r.len() implies r[j] != c by {
                assert(r[j] == s[i + 1 + j]);
            }
        },
        None => {
            assert(s.subrange(0, s.len() as int) =~= s);
        },
    }
}

/// What `remove_from` keeps is the start of the string and holds no separator.
pub proof fn law_remove_from_is_separator_free_prefix(s: Seq<char>, c: char)
    ensures
        is_prefix(spec_remove_from(s, c), s),
        !spec_remove_from(s, c).contains(c),
{
    lemma_first_index_of(s, c);
    let r = spec_remove_from(s, c);
    match first_index_of(s, c) {
        Some(i) => {
            assert(s.subrange(0, r.len() as int) =~= r);
            assert forall|j: int| 0 <= j < r.len() implies r[j] != c by {
                assert(r[j] == s[j]);
            }
        },
        None => {
            assert(s.subrange(0, s.len() as int) =~= s);
        },
    }
}

/// The generated module of `dir/base.proto` is named `base`, whatever the
/// directory, when `base` holds no `/`.
pub proof fn law_rust_base_of_proto_path(dir: Seq<char>, base: Seq<char>)
    requires
        dir.len() == 0 || dir.last() == '/',
        !base.contains('/'),
    ensures
        spec_proto_path_to_rust_base(dir + base + ".proto"@) == base,
{
    reveal_strlit(".proto");
    let path = dir + base + ".proto"@;
    let tail = base + ".proto"@;
    lemma_last_index_of(path, '/');
    assert forall|j: int| dir.len() <= j < path.len() implies path[j] != '/' by {
        if j < dir.len() + base.len() {
            assert(path[j] == base[j - dir.len()]);
        } else {
            assert(path[j] == ".proto"@[j - dir.len() - base.len()]);
        }
    }
    if dir.len() == 0 {
        assert(path =~= tail);
        assert(last_index_of(path, '/') is None);
    } else {
        assert(path[dir.len() - 1] == '/');
        assert(last_index_of(path, '/') == Some(dir.len() - 1));
        assert(spec_remove_to(path, '/') =~= tail);
    }
    assert(spec_remove_to(path, '/') =~= tail);
    law_remove_suffix_undoes_concat(base, ".proto"@);
}

/// Replacing a character by another leaves none of it, keeps the length and
/// every other character.
pub proof fn law_replace_char(s: Seq<char>, from: char, to: char)
    requires
        from != to,
    ensures
        !replace_char(s, from, to).contains(from),
        replace_char(s, from, to).len() == s.len(),
        forall|i: int|
            0 <= i < s.len() && s[i] != from ==> #[trigger] replace_char(s, from, to)[i] == s[i],
{
}

/// A decimal notation is never empty and ends with the last digit.
pub proof fn lemma_nat_decimal_shape(n: nat)
    ensures
        nat_decimal(n).len() >= 1,
        nat_decimal(n).last() == digit_char((n % 10) as int),
        n >= 10 ==> nat_decimal(n).len() >= 2,
        n >= 10 ==> nat_decimal(n).drop_last() == nat_decimal(n / 10),
    decreases n,
{
    if n >= 10 {
        lemma_nat_decimal_shape(n / 10);
        assert(nat_decimal(n).drop_last() =~= nat_decimal(n / 10));
    }
}

/// Different numbers have different decimal notations, so the match arms
/// that `merge_from` generates for fields of different numbers differ.
pub proof fn law_decimal_injective(a: nat, b: nat)
    requires
        nat_decimal(a) == nat_decimal(b),
    ensures
        a == b,
    decreases a,
{
    lemma_nat_decimal_shape(a);
    lemma_nat_decimal_shape(b);
    assert(digit_char((a % 10) as int) == digit_char((b % 10) as int));
    assert((48 + (a % 10)) as char == (48 + (b % 10)) as char);
    assert(a % 10 == b % 10);
    if a >= 10 && b >= 10 {
        law_decimal_injective(a / 10, b / 10);
    } else if a >= 10 || b >= 10 {
        assert(nat_decimal(a).len() != nat_decimal(b).len());
    }
}

/// A field is never named `type`, a Rust keyword.
pub proof fn law_field_name_is_not_keyword(name: Seq<char>)
    ensures
        spec_field_name(name) != "type"@,
{
    reveal_strlit("type");
    reveal_strlit("field_type");
    if name == "type"@ {
        assert(spec_field_name(name).len() != "type"@.len());
    }
}

/// The Rust type name of a read field holds no `.`.
pub proof fn law_field_type_has_no_dot(f: FieldDescriptorProto, pkg: Seq<char>)
    ensures
        !spec_parse_field(f, pkg).rust_type.contains('.'),
{
    let t = crate::model::spec_field_type_name(f, pkg);
    law_replace_char(t, '.', '_');
}

/// Every field read from a descriptor gets a member of the struct, and one
/// `clear_` method, in field order.
pub proof fn law_struct_has_a_member_per_field(fs: Seq<FieldDescriptorProto>, pkg: Seq<char>, ind: Seq<char>)
    ensures
        ({
            let fields = fs.map_values(|f: FieldDescriptorProto| spec_parse_field(f, pkg));
            &&& concat_map(fields, struct_field_lines(ind)).len() == fields.len()
            &&& concat_map(fields, clear_fn_lines(ind)).len() == 4 * fields.len()
        }),
    decreases fs.len(),
{
    let fields = fs.map_values(|f: FieldDescriptorProto| spec_parse_field(f, pkg));
    if fs.len() > 0 {
        law_struct_has_a_member_per_field(fs.drop_last(), pkg, ind);
        assert(fields.drop_last() =~= fs.drop_last().map_values(
            |f: FieldDescriptorProto| spec_parse_field(f, pkg),
        ));
        law_field_type_has_no_dot(fs.last(), pkg);
        assert(fields.last() == spec_parse_field(fs.last(), pkg));
    }
}

/// Decimal notation uses digits only.
pub proof fn law_decimal_is_digits(n: nat)
    ensures
        forall|i: int|
            0 <= i < nat_decimal(n).len() ==> '0' <= #[trigger] nat_decimal(n)[i] <= '9',
    decreases n,
{
    if n >= 10 {
        law_decimal_is_digits(n / 10);
        let d = nat_decimal(n / 10);
        assert forall|i: int| 0 <= i < nat_decimal(n).len() implies '0' <= #[trigger] nat_decimal(n)[i]
            <= '9' by {
            if i < d.len() {
                assert(nat_decimal(n)[i] == d[i]);
            }
        }
    }
}

/// The text of two runs of lines is the text of the first, then that of the
/// second: each line keeps its own newline.
pub proof fn law_text_of_concat(a: Seq<Seq<char>>, b: Seq<Seq<char>>)
    ensures
        text_of(a + b) == text_of(a) + text_of(b),
    decreases b.len(),
{
    if b.len() == 0 {
        assert(a + b =~= a);
    } else {
        law_text_of_concat(a, b.drop_last());
        assert((a + b).drop_last() =~= a + b.drop_last());
        assert((a + b).last() == b.last());
    }
}

/// Every line of a block whose body fits the indentation one step further
/// fits the indentation of the writer that opens it.
pub proof fn law_block_lines_fit(
    ind: Seq<char>,
    first: Seq<char>,
    body: Seq<Seq<char>>,
    last: Seq<char>,
)
    requires
        lines_fit(body, ind + indent_step()),
    ensures
        lines_fit(block_lines(ind, first, body, last), ind),
{
    let all = block_lines(ind, first, body, last);
    lemma_fits_refl(ind);
    assert forall|i: int| 0 <= i < all.len() implies line_fits(ind, #[trigger] all[i]) by {
        if i == 0 || i == all.len() - 1 {
            let l = if i == 0 {
                first
            } else {
                last
            };
            assert(all[i] == indented_line(ind, l));
            if l.len() > 0 {
                lemma_fits_extend(ind, ind, l);
            }
        } else {
            assert(all[i] == body[i - 1]);
            if body[i - 1].len() > 0 {
                lemma_fits_refl(ind);
                lemma_fits_extend(ind, ind, indent_step());
                lemma_fits_trans(ind, ind + indent_step(), body[i - 1]);
            }
        }
    }
}

/// The braces of a run of lines match: the lines hold as many `{` as `}`,
/// and no run of first lines holds more `}` than `{`.
pub open spec fn braces_balanced(lines: Seq<Seq<char>>) -> bool {
    &&& lines_net(lines) == 0
    &&& forall|k: int| 0 <= k <= lines.len() ==> lines_net(#[trigger] lines.take(k)) >= 0
}

proof fn lemma_balanced_braces(lines: Seq<Seq<char>>)
    requires
        balanced(lines),
    ensures
        braces_balanced(lines),
{
    assert forall|k: int| 0 <= k <= lines.len() implies lines_net(#[trigger] lines.take(k)) >= 0 by {
        lemma_low_point_bounds(lines, k);
    }
}

/// When no name in a message holds a brace, nor the Rust prefix and the
/// indentation it is written with, the braces of all the code generated for
/// it, nested messages and enums included, match.
pub proof fn law_message_braces_balanced(
    d: DescriptorProto,
    pkg: Seq<char>,
    prefix: Seq<char>,
    ind: Seq<char>,
)
    requires
        descriptor_ok(d),
        descriptor_brace_free(d),
        brace_free(prefix),
        brace_free(ind),
    ensures
        braces_balanced(message_lines(d, pkg, prefix, ind)),
{
    lemma_brace_free_net(prefix);
    lemma_brace_free_net(ind);
    lemma_message_lines_balanced(d, pkg, prefix, ind);
    lemma_balanced_braces(message_lines(d, pkg, prefix, ind));
}

/// When neither an enum's name nor those of its values hold a brace, nor the
/// Rust prefix and the indentation it is written with, the braces of the
/// code generated for it match.
pub proof fn law_enum_braces_balanced(prefix: Seq<char>, e: EnumDescriptorProto, ind: Seq<char>)
    requires
        enum_ok(e),
        enum_brace_free(e),
        brace_free(prefix),
        brace_free(ind),
    ensures
        braces_balanced(enum_lines(prefix, e, ind)),
{
    lemma_brace_free_net(prefix);
    lemma_brace_free_net(ind);
    lemma_enum_weightless(e);
    lemma_enum_balanced(prefix, e, ind);
    lemma_balanced_braces(enum_lines(prefix, e, ind));
}

/// When no dependency path and no name in the messages and enums of a file
/// holds a brace, the braces of the module generated for it match.
pub proof fn law_file_braces_balanced(f: FileDescriptorProto)
    requires
        file_ok(f),
        file_brace_free(f),
    ensures
        braces_balanced(file_lines(f)),
{
    lemma_file_lines_balanced(f);
    lemma_balanced_braces(file_lines(f));
}

// ---------------------------------------------------------------------------
// Scalar types: sizes, wire types, names
// ---------------------------------------------------------------------------

/// The scalar types whose values are numbers: the integers and the floats.
pub open spec fn is_numeric_scalar(t: FieldDescriptorProtoType) -> bool {
    &&& !is_composite(t)
    &&& t != FieldDescriptorProtoType::TypeBool
    &&& t != FieldDescriptorProtoType::TypeString
    &&& t != FieldDescriptorProtoType::TypeBytes
}

/// The integer types whose values have no sign.
pub open spec fn is_unsigned_scalar(t: FieldDescriptorProtoType) -> bool {
    t == FieldDescriptorProtoType::TypeUint32 || t == FieldDescriptorProtoType::TypeUint64
        || t == FieldDescriptorProtoType::TypeFixed32 || t == FieldDescriptorProtoType::TypeFixed64
}

/// The floating-point types.
pub open spec fn is_float_scalar(t: FieldDescriptorProtoType) -> bool {
    t == FieldDescriptorProtoType::TypeFloat || t == FieldDescriptorProtoType::TypeDouble
}

/// The numeric types that are encoded in a fixed number of bytes rather
/// than as a varint.
pub open spec fn is_fixed_width_scalar(t: FieldDescriptorProtoType) -> bool {
    t == FieldDescriptorProtoType::TypeFixed32 || t == FieldDescriptorProtoType::TypeFixed64
        || t == FieldDescriptorProtoType::TypeSfixed32 || t == FieldDescriptorProtoType::TypeSfixed64
        || is_float_scalar(t)
}

/// The number of bits of a value of a numeric type.
pub open spec fn scalar_bits(t: FieldDescriptorProtoType) -> nat {
    if t == FieldDescriptorProtoType::TypeInt64 || t == FieldDescriptorProtoType::TypeUint64 || t
        == FieldDescriptorProtoType::TypeSint64 || t == FieldDescriptorProtoType::TypeFixed64 || t
        == FieldDescriptorProtoType::TypeSfixed64 || t == FieldDescriptorProtoType::TypeDouble {
        64
    } else {
        32
    }
}

/// A numeric type is encoded as a varint unless it has a fixed width; a
/// fixed-width type of 32 bits has the 32-bit wire type, one of 64 bits the
/// 64-bit wire type.
pub proof fn law_wire_type_of_numbers(t: FieldDescriptorProtoType)
    requires
        is_numeric_scalar(t),
    ensures
        (spec_field_type_wire_type(t) == WireType::WireTypeVarint) == !is_fixed_width_scalar(t),
        is_fixed_width_scalar(t) ==> ((spec_field_type_wire_type(t) == WireType::WireTypeFixed32)
            == (scalar_bits(t) == 32)),
        is_fixed_width_scalar(t) ==> ((spec_field_type_wire_type(t) == WireType::WireTypeFixed64)
            == (scalar_bits(t) == 64)),
{
}

/// The types of fixed encoded size are `bool`, one byte, and the
/// fixed-width numbers, whose size is their number of bits over eight.
pub proof fn law_fixed_size_is_the_width(t: FieldDescriptorProtoType)
    requires
        t != FieldDescriptorProtoType::TypeGroup,
    ensures
        spec_field_type_size(t) is Some <==> (t == FieldDescriptorProtoType::TypeBool || (
        is_numeric_scalar(t) && is_fixed_width_scalar(t))),
        t == FieldDescriptorProtoType::TypeBool ==> spec_field_type_size(t) == Some(1u32),
        is_numeric_scalar(t) && is_fixed_width_scalar(t) ==> 8 * spec_field_type_size(t).unwrap()
            == scalar_bits(t),
{
}

/// Apart from `bool`, a type has a fixed size of four bytes exactly when it
/// has the 32-bit wire type, and of eight bytes exactly when it has the
/// 64-bit wire type.
pub proof fn law_fixed_size_follows_wire_type(t: FieldDescriptorProtoType)
    requires
        t != FieldDescriptorProtoType::TypeGroup,
        t != FieldDescriptorProtoType::TypeBool,
    ensures
        (spec_field_type_size(t) == Some(4u32)) == (spec_field_type_wire_type(t)
            == WireType::WireTypeFixed32),
        (spec_field_type_size(t) == Some(8u32)) == (spec_field_type_wire_type(t)
            == WireType::WireTypeFixed64),
{
}

/// The Rust type of a number is a letter followed by its number of bits; the
/// letter is `u` exactly for the unsigned integers and `f` exactly for the
/// floats.
pub proof fn law_rust_name_of_numbers(t: FieldDescriptorProtoType)
    requires
        is_numeric_scalar(t),
    ensures
        spec_rust_name(t).len() == 3,
        spec_rust_name(t).drop_first() == nat_decimal(scalar_bits(t)),
        (spec_rust_name(t)[0] == 'u') == is_unsigned_scalar(t),
        (spec_rust_name(t)[0] == 'f') == is_float_scalar(t),
{
    reveal_strlit("f64");
    reveal_strlit("f32");
    reveal_strlit("i32");
    reveal_strlit("i64");
    reveal_strlit("u32");
    reveal_strlit("u64");
    reveal_strlit("s32");
    reveal_strlit("s64");
    reveal_with_fuel(nat_decimal, 3);
    assert(nat_decimal(32) =~= seq!['3', '2']);
    assert(nat_decimal(64) =~= seq!['6', '4']);
    assert(spec_rust_name(t).drop_first() =~= nat_decimal(scalar_bits(t)));
}

/// Different scalar types have different `.proto` names, so each field is
/// read and written with the encoding of its own type.
pub proof fn law_protobuf_name_injective(a: FieldDescriptorProtoType, b: FieldDescriptorProtoType)
    requires
        !is_composite(a),
        !is_composite(b),
        spec_protobuf_name(a) == spec_protobuf_name(b),
    ensures
        a == b,
{
    reveal_strlit("double");
    reveal_strlit("float");
    reveal_strlit("int32");
    reveal_strlit("int64");
    reveal_strlit("uint32");
    reveal_strlit("uint64");
    reveal_strlit("sint32");
    reveal_strlit("sint64");
    reveal_strlit("fixed32");
    reveal_strlit("fixed64");
    reveal_strlit("sfixed32");
    reveal_strlit("sfixed64");
    reveal_strlit("bool");
    reveal_strlit("string");
    reveal_strlit("bytes");
    let n = spec_protobuf_name(a);
    let m = spec_protobuf_name(b);
    assert(n.len() == m.len() && n.len() >= 4);
    assert(n[0] == m[0]);
    assert(n[1] == m[1]);
    assert(n[n.len() - 2] == m[m.len() - 2]);
}

/// The integer types encoded with zigzag or as fixed-width signed values,
/// whose `.proto` names start with `s`.
pub open spec fn is_explicitly_signed_scalar(t: FieldDescriptorProtoType) -> bool {
    t == FieldDescriptorProtoType::TypeSint32 || t == FieldDescriptorProtoType::TypeSint64
        || t == FieldDescriptorProtoType::TypeSfixed32 || t == FieldDescriptorProtoType::TypeSfixed64
}

/// The `.proto` name of an integer type ends with its number of bits, starts
/// with `s` exactly for the zigzag and signed fixed-width encodings, with `u`
/// exactly for the unsigned varints, and holds `fixed` exactly for the
/// fixed-width integers.
pub proof fn law_protobuf_name_of_integers(t: FieldDescriptorProtoType)
    requires
        is_numeric_scalar(t),
        !is_float_scalar(t),
    ensures
        ({
            let n = spec_protobuf_name(t);
            let d = nat_decimal(scalar_bits(t));
            &&& n.len() >= 5
            &&& n.subrange(n.len() - 2, n.len() as int) == d
            &&& (n[0] == 's') == is_explicitly_signed_scalar(t)
            &&& (n[0] == 'u') == (is_unsigned_scalar(t) && !is_fixed_width_scalar(t))
            &&& (n.len() >= 7 && n.subrange(n.len() - 7, n.len() - 2) == "fixed"@)
                == is_fixed_width_scalar(t)
        }),
{
    reveal_strlit("int32");
    reveal_strlit("int64");
    reveal_strlit("uint32");
    reveal_strlit("uint64");
    reveal_strlit("sint32");
    reveal_strlit("sint64");
    reveal_strlit("fixed32");
    reveal_strlit("fixed64");
    reveal_strlit("sfixed32");
    reveal_strlit("sfixed64");
    reveal_strlit("fixed");
    reveal_with_fuel(nat_decimal, 3);
    assert(nat_decimal(32) =~= seq!['3', '2']);
    assert(nat_decimal(64) =~= seq!['6', '4']);
    let n = spec_protobuf_name(t);
    assert(n.subrange(n.len() - 2, n.len() as int) =~= nat_decimal(scalar_bits(t)));
    if is_fixed_width_scalar(t) {
        assert(n.subrange(n.len() - 7, n.len() - 2) =~= "fixed"@);
    }
}

// ---------------------------------------------------------------------------
// Required fields
// ---------------------------------------------------------------------------

/// The label of a required field.
pub open spec fn is_required(f: FieldView) -> bool {
    f.proto.label == Some(FieldDescriptorProtoLabel::LabelRequired)
}

/// The required fields are the fields labelled `required`, all of them and
/// only them, in the order of the message.
pub proof fn law_required_fields_are_the_required_ones(fs: Seq<FieldView>)
    ensures
        required_fields_of(fs) == fs.filter(|f: FieldView| is_required(f)),
        forall|i: int| 0 <= i < required_fields_of(fs).len() ==> is_required(#[trigger] required_fields_of(fs)[i]),
        forall|i: int| 0 <= i < fs.len() && is_required(fs[i]) ==> #[trigger] required_fields_of(fs).contains(fs[i]),
    decreases fs.len(),
{
    broadcast use vstd::seq_lib::group_filter_ensures;
    reveal(Seq::filter);
    if fs.len() > 0 {
        law_required_fields_are_the_required_ones(fs.drop_last());
    }
    assert(required_fields_of(fs) =~= fs.filter(|f: FieldView| is_required(f)));
}

// ---------------------------------------------------------------------------
// Types named inside the file's package
// ---------------------------------------------------------------------------

/// A line of `f(s[i])` is a line of `concat_map(s, f)`.
pub proof fn lemma_concat_map_contains<A>(s: Seq<A>, f: spec_fn(A) -> Seq<Seq<char>>, i: int, x: Seq<char>)
    requires
        0 <= i < s.len(),
        f(s[i]).contains(x),
    ensures
        concat_map(s, f).contains(x),
    decreases s.len(),
{
    let a = concat_map(s.drop_last(), f);
    let b = f(s.last());
    if i == s.len() - 1 {
        let k = choose|k: int| 0 <= k < b.len() && b[k] == x;
        assert((a + b)[a.len() + k] == x);
    } else {
        assert(s.drop_last()[i] == s[i]);
        lemma_concat_map_contains(s.drop_last(), f, i, x);
        let k = choose|k: int| 0 <= k < a.len() && a[k] == x;
        assert((a + b)[k] == x);
    }
}

/// A line of `a` or of `b` is a line of `a + b`.
pub proof fn lemma_concat_contains(a: Seq<Seq<char>>, b: Seq<Seq<char>>, x: Seq<char>)
    requires
        a.contains(x) || b.contains(x),
    ensures
        (a + b).contains(x),
{
    if a.contains(x) {
        let k = choose|k: int| 0 <= k < a.len() && a[k] == x;
        assert((a + b)[k] == x);
    } else {
        let k = choose|k: int| 0 <= k < b.len() && b[k] == x;
        assert((a + b)[a.len() + k] == x);
    }
}

/// In the module generated for a file, a single field of a top-level message
/// whose type is named by its full path in the file's package becomes a
/// struct member whose Rust type is that path inside the package, with its
/// dots turned into underscores.
pub proof fn law_file_member_of_package_type(f: FileDescriptorProto, i: int, j: int, rest: Seq<char>)
    requires
        file_ok(f),
        0 <= i < f.message_type@.len(),
        0 <= j < f.message_type@[i].field@.len(),
        f.message_type@[i].field@[j].type_path matches Some(tp) && tp@ == "."@ + f.package.unwrap()@
            + "."@ + rest,
        f.message_type@[i].field@[j].label != Some(FieldDescriptorProtoLabel::LabelRepeated),
    ensures
        file_lines(f).contains(
            "    "@ + spec_field_name(f.message_type@[i].field@[j].name.unwrap()@) + ": Option<"@
                + replace_char(rest, '.', '_') + ">,"@,
        ),
{
    let pkg = f.package.unwrap()@;
    let d = f.message_type@[i];
    let fd = d.field@[j];
    let top = Seq::<char>::empty();
    let m = spec_parse_message(d, pkg, ""@);
    let ind = top + indent_step();
    let fv = m.fields[j];
    let pre = "."@ + pkg + "."@;
    law_remove_prefix_undoes_concat(pre, rest);
    assert(fv == spec_parse_field(fd, pkg));
    assert(spec_field_type_name(fd, pkg) == rest);
    law_field_type_has_no_dot(fd, pkg);
    reveal_strlit("Option<");
    reveal_strlit(">");
    reveal_strlit(": ");
    reveal_strlit(",");
    reveal_strlit(">,");
    reveal_strlit(": Option<");
    reveal_strlit("    ");
    let text = spec_field_text(fv.name, full_type(fv));
    let line = "    "@ + spec_field_name(fd.name.unwrap()@) + ": Option<"@ + replace_char(rest, '.', '_')
        + ">,"@;
    assert(ind =~= "    "@);
    assert(indented_line(ind, text) =~= line);
    assert(struct_field_lines(ind)(m.fields[j]) =~= seq![line]);
    assert(seq![line][0] == line);
    lemma_concat_map_contains(m.fields, struct_field_lines(ind), j, line);
    let body = concat_map(m.fields, struct_field_lines(ind)) + dummy_lines(m.fields, ind, "bool"@);
    lemma_concat_contains(concat_map(m.fields, struct_field_lines(ind)), dummy_lines(m.fields, ind, "bool"@), line);
    let first = seq![indented_line(top, "pub struct "@ + m.rust_type + " {"@)];
    lemma_concat_contains(first, body, line);
    lemma_concat_contains(first + body, seq![indented_line(top, "}"@)], line);
    assert(struct_lines(m, top).contains(line));
    reveal(message_head_lines);
    let h0 = line_of(top, "#[deriving(Clone,Eq)]"@);
    lemma_concat_contains(h0, struct_lines(m, top), line);
    let h1 = h0 + struct_lines(m, top);
    lemma_concat_contains(h1, line_of(top, ""@), line);
    lemma_concat_contains(h1 + line_of(top, ""@), impl_lines(m, top), line);
    let h2 = h1 + line_of(top, ""@) + impl_lines(m, top);
    lemma_concat_contains(h2, line_of(top, ""@), line);
    lemma_concat_contains(h2 + line_of(top, ""@), message_impl_lines(m, top), line);
    assert(message_head_lines(m, top).contains(line));
    let nested = nested_lines(d, d.nested_type@.len() as int, pkg, m.rust_type + "_"@, top);
    let enums = concat_map(d.enum_type@, enum_piece(m.rust_type + "_"@, top));
    lemma_concat_contains(message_head_lines(m, top), nested, line);
    lemma_concat_contains(message_head_lines(m, top) + nested, enums, line);
    assert(message_lines(d, pkg, ""@, top).contains(line));
    lemma_concat_contains(line_of(top, ""@), message_lines(d, pkg, ""@, top), line);
    assert(top_message_piece(pkg)(d).contains(line));
    lemma_concat_map_contains(f.message_type@, top_message_piece(pkg), i, line);
    let head = line_of(top, "// This file is generated. Do not edit"@) + line_of(top, ""@) + line_of(
        top,
        "use protobuf::*;"@,
    ) + line_of(top, "use protobuf::rt;"@) + concat_map(f.dependency@, dependency_lines());
    let msgs = concat_map(f.message_type@, top_message_piece(pkg));
    lemma_concat_contains(head, msgs, line);
    lemma_concat_contains(head + msgs, concat_map(f.enum_type@, enum_piece(""@, top)), line);
}

} // verus!
