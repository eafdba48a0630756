use lib::descriptor::{
    DescriptorProto, FieldDescriptorProto, FieldDescriptorProtoLabel, FieldDescriptorProtoType,
};
use lib::model::{Field, Message};
use lib::names::{
    proto_path_to_rust_base, remove_from, remove_prefix, remove_suffix, remove_to,
};
use lib::text::{cat2, int_to_decimal, replace_char_str};
use lib::writer::{IndentWriter, VecWriter};

fn lines_of(w: &VecWriter) -> Vec<String> {
    (0..w.len()).map(|i| w.line(i).to_string()).collect()
}

fn simple_field(name: &str, number: i32, repeated: bool, type_path: Option<&str>) -> FieldDescriptorProto {
    FieldDescriptorProto {
        name: Some(name.to_string()),
        number: Some(number),
        label: Some(if repeated {
            FieldDescriptorProtoLabel::LabelRepeated
        } else {
            FieldDescriptorProtoLabel::LabelOptional
        }),
        field_type: Some(if type_path.is_some() {
            FieldDescriptorProtoType::TypeMessage
        } else {
            FieldDescriptorProtoType::TypeInt32
        }),
        type_path: type_path.map(|s| s.to_string()),
        options: None,
    }
}

#[test]
fn removing_a_prefix_or_suffix_undoes_it() {
    let joined = cat2(".pkg.", "Msg");
    assert_eq!(remove_prefix(&joined, ".pkg."), "Msg");
    let joined = cat2("name", ".proto");
    assert_eq!(remove_suffix(&joined, ".proto"), "name");
}

#[test]
fn trimmed_names_hold_no_separator() {
    let r = remove_to("a/b/c.d", '/');
    assert_eq!(r, "c.d");
    assert!(!r.contains('/'));
    assert!("a/b/c.d".ends_with(r));
    let r = remove_from("a.b.c", '.');
    assert_eq!(r, "a");
    assert!(!r.contains('.'));
}

#[test]
fn rust_base_ignores_the_directory() {
    assert_eq!(proto_path_to_rust_base("x/y/msgs.proto"), "msgs");
    assert_eq!(proto_path_to_rust_base("msgs.proto"), "msgs");
    assert_eq!(proto_path_to_rust_base("/msgs.proto"), "msgs");
}

#[test]
fn replacing_dots_keeps_everything_else() {
    let r = replace_char_str("a.bc.d", '.', "_");
    assert_eq!(r, "a_bc_d");
    assert!(!r.contains('.'));
    assert_eq!(r.chars().count(), 6);
}

#[test]
fn decimal_is_digits_and_tells_numbers_apart() {
    let texts: Vec<String> = (0..200).map(|n| int_to_decimal(n)).collect();
    for (i, a) in texts.iter().enumerate() {
        assert!(a.chars().all(|c| c.is_ascii_digit()));
        for b in texts.iter().skip(i + 1) {
            assert_ne!(a, b);
        }
    }
}

#[test]
fn fields_named_type_are_renamed_and_type_names_lose_dots() {
    let f = simple_field("type", 1, false, Some(".q.A.B.C"));
    let parsed = Field::parse(&f, "p").unwrap();
    assert_eq!(parsed.name, "field_type");
    assert_eq!(parsed.rust_type, "C");
    let g = simple_field("x", 2, false, Some(".p.A.B.C"));
    let parsed = Field::parse(&g, "p").unwrap();
    assert_eq!(parsed.rust_type, "A_B_C");
    assert!(!parsed.rust_type.contains('.'));
}

#[test]
fn every_field_gets_a_member_and_a_clear_method() {
    let d = DescriptorProto {
        name: Some("M".to_string()),
        field: vec![
            simple_field("a", 1, false, None),
            simple_field("b", 2, true, Some(".p.X.Y")),
            simple_field("c", 3, true, None),
        ],
        nested_type: Vec::new(),
        enum_type: Vec::new(),
    };
    let m = Message::parse(&d, "p", "");
    let mut out = VecWriter::new();
    lib::codegen::write_message(&m, &IndentWriter::new(), &mut out);
    let lines = lines_of(&out);
    let start = lines.iter().position(|l| l == "pub struct M {").unwrap();
    assert_eq!(lines[start + 1], "    a: Option<i32>,");
    assert_eq!(lines[start + 2], "    b: ~[X_Y],");
    assert_eq!(lines[start + 3], "    c: ~[i32],");
    assert_eq!(lines[start + 4], "}");
    let clears = lines.iter().filter(|l| l.starts_with("    pub fn clear_")).count();
    assert_eq!(clears, 3);
}

#[test]
fn text_of_appended_buffers_is_the_concatenation() {
    let mut a = VecWriter::new();
    a.write_line("one");
    a.write_line("");
    let mut b = VecWriter::new();
    b.write_line("two");
    let ta = a.to_text();
    let tb = b.to_text();
    a.append(b);
    assert_eq!(a.to_text(), format!("{}{}", ta, tb));
    assert_eq!(a.to_text(), "one\n\ntwo\n");
    assert_eq!(a.to_bytes(), b"one\n\ntwo\n".to_vec());
    assert_eq!(a.len(), 3);
}

#[test]
fn indent_writer_lines() {
    let w = IndentWriter::new();
    let i = w.indent();
    let mut out = VecWriter::new();
    i.write_line(&mut out, "x");
    i.write_line(&mut out, "");
    i.field(&mut out, "name", "value");
    i.fail(&mut out);
    i.todo(&mut out);
    i.comment(&mut out, "");
    i.comment(&mut out, "note");
    i.case_expr(&mut out, "None", "{}");
    let c = i.commented();
    c.write_line(&mut out, "hidden");
    i.write_lines(&mut out, &vec!["p".to_string(), "".to_string()]);
    assert_eq!(
        lines_of(&out),
        vec![
            "    x",
            "",
            "    name: value,",
            "    fail!()",
            "    fail!(\"TODO\");",
            "    //",
            "    // note",
            "    None => {},",
            "//     hidden",
            "    p",
            "",
        ]
    );
}

#[test]
fn indent_writer_blocks() {
    let w = IndentWriter::new();
    let inner = w.indent();
    let body = || {
        let mut b = w.body();
        inner.write_line(&mut b, "body;");
        b
    };
    let mut out = VecWriter::new();
    w.block(&mut out, "first", "last", body());
    w.expr_block(&mut out, "loop", body());
    w.stmt_block(&mut out, "unsafe", body());
    w.impl_block(&mut out, "T", body());
    w.impl_for_block(&mut out, "Tr", "T", body());
    w.pub_struct(&mut out, "S", body());
    w.def_struct(&mut out, "S", body());
    w.def_mod(&mut out, "m", body());
    w.pub_fn(&mut out, "f()", body());
    w.def_fn(&mut out, "g()", body());
    w.while_block(&mut out, "c", body());
    w.if_stmt(&mut out, "c", body());
    w.for_stmt(&mut out, "xs.iter().advance", "x", body());
    w.match_block(&mut out, "v", body());
    w.match_expr(&mut out, "v", body());
    w.case_block(&mut out, "1", body());
    w.indented(&mut out, body());
    let heads: Vec<String> = lines_of(&out).into_iter().filter(|l| !l.starts_with("    ")).collect();
    assert_eq!(
        heads,
        vec![
            "first", "last",
            "loop {", "}",
            "unsafe {", "};",
            "impl T {", "}",
            "impl Tr for T {", "}",
            "pub struct S {", "}",
            "struct S {", "}",
            "mod m {", "}",
            "pub fn f() {", "}",
            "fn g() {", "}",
            "while c {", "}",
            "if c {", "};",
            "for xs.iter().advance |x| {", "};",
            "match v {", "};",
            "match v {", "}",
            "1 => {", "},",
        ]
    );
    assert_eq!(out.len(), 17 * 3 - 2);
}

#[test]
fn writers_bound_to_messages_and_fields() {
    let d = DescriptorProto {
        name: Some("M".to_string()),
        field: vec![simple_field("a", 1, false, None), simple_field("b", 2, true, None)],
        nested_type: Vec::new(),
        enum_type: Vec::new(),
    };
    let m = Message::parse(&d, "p", "");
    let w = IndentWriter::new().indent();
    let bound = w.bind_message(&m);
    let writers = bound.fields();
    assert_eq!(writers.len(), 2);
    assert_eq!(writers[0].clear_field_func(), "clear_a");
    assert_eq!(writers[1].clear_field_func(), "clear_b");
    let mut out = VecWriter::new();
    writers[0].clear_field(&mut out);
    writers[1].clear_field(&mut out);
    let direct = bound.bind_field(&m.fields[1]);
    direct.clear_field(&mut out);
    assert_eq!(
        lines_of(&out),
        vec!["    self.a = None;", "    self.b.clear();", "    self.b.clear();"]
    );
}

#[test]
fn block_bodies_are_one_step_further_indented() {
    let w = IndentWriter::new().indent();
    let inner = w.indent();
    let mut body = w.body();
    inner.write_line(&mut body, "a;");
    inner.indent().write_line(&mut body, "b;");
    inner.commented().write_line(&mut body, "c;");
    inner.write_line(&mut body, "");
    let mut out = VecWriter::new();
    w.def_mod(&mut out, "m", body);
    assert_eq!(
        lines_of(&out),
        vec!["    mod m {", "        a;", "            b;", "//         c;", "", "    }"]
    );
}
