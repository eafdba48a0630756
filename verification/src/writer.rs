//! The output of the generator: a buffer of lines, and a writer that indents
//! the lines it writes and knows the message and field it is writing for.
//!
//! A block (`impl X {` ... `}`) is written in two steps: its body goes into
//! the buffer that `body` opens for it, through the writer returned by
//! `indent` and the writers derived from it, then the block method writes
//! the opening line, the body and the closing line. A buffer only takes lines
//! that fit its indentation, so a block's body is always one step further
//! indented than the block.
use vstd::prelude::*;
use crate::model::{Field, Message};
use crate::text::{cat2, cat3, cat4, cat5, is_prefix, owned};

verus! {

/// The unit of indentation.
pub open spec fn indent_step() -> Seq<char> {
    "    "@
}

/// A line as a writer with the given indentation writes it: empty lines stay
/// empty.
pub open spec fn indented_line(indent: Seq<char>, line: Seq<char>) -> Seq<char> {
    if line.len() == 0 {
        Seq::empty()
    } else {
        indent + line
    }
}

/// The lines of a block: the first line, the body, the last line.
pub open spec fn block_lines(
    indent: Seq<char>,
    first: Seq<char>,
    body: Seq<Seq<char>>,
    last: Seq<char>,
) -> Seq<Seq<char>> {
    seq![indented_line(indent, first)] + body + seq![indented_line(indent, last)]
}

/// A single line, written with the given indentation.
pub open spec fn line_of(indent: Seq<char>, line: Seq<char>) -> Seq<Seq<char>> {
    seq![indented_line(indent, line)]
}

/// A block `prefix {` ... `}`.
pub open spec fn spec_expr_block(indent: Seq<char>, prefix: Seq<char>, body: Seq<Seq<char>>) -> Seq<Seq<char>> {
    block_lines(indent, prefix + " {"@, body, "}"@)
}

/// A block `prefix {` ... `};`.
pub open spec fn spec_stmt_block(indent: Seq<char>, prefix: Seq<char>, body: Seq<Seq<char>>) -> Seq<Seq<char>> {
    block_lines(indent, prefix + " {"@, body, "};"@)
}

/// An `impl name` block.
pub open spec fn spec_impl_block(indent: Seq<char>, name: Seq<char>, body: Seq<Seq<char>>) -> Seq<Seq<char>> {
    spec_expr_block(indent, "impl "@ + name, body)
}

/// An `impl tr for ty` block.
pub open spec fn spec_impl_for_block(
    indent: Seq<char>,
    tr: Seq<char>,
    ty: Seq<char>,
    body: Seq<Seq<char>>,
) -> Seq<Seq<char>> {
    spec_expr_block(indent, "impl "@ + tr + " for "@ + ty, body)
}

/// A `pub fn sig` block.
pub open spec fn spec_pub_fn(indent: Seq<char>, sig: Seq<char>, body: Seq<Seq<char>>) -> Seq<Seq<char>> {
    spec_expr_block(indent, "pub fn "@ + sig, body)
}

/// A `fn sig` block.
pub open spec fn spec_def_fn(indent: Seq<char>, sig: Seq<char>, body: Seq<Seq<char>>) -> Seq<Seq<char>> {
    spec_expr_block(indent, "fn "@ + sig, body)
}

/// A `while cond` block.
pub open spec fn spec_while_block(indent: Seq<char>, cond: Seq<char>, body: Seq<Seq<char>>) -> Seq<Seq<char>> {
    spec_expr_block(indent, "while "@ + cond, body)
}

/// An `if cond` statement.
pub open spec fn spec_if_stmt(indent: Seq<char>, cond: Seq<char>, body: Seq<Seq<char>>) -> Seq<Seq<char>> {
    spec_stmt_block(indent, "if "@ + cond, body)
}

/// A `for over |varn|` statement.
pub open spec fn spec_for_stmt(
    indent: Seq<char>,
    over: Seq<char>,
    varn: Seq<char>,
    body: Seq<Seq<char>>,
) -> Seq<Seq<char>> {
    spec_stmt_block(indent, "for "@ + over + " |"@ + varn + "|"@, body)
}

/// A `match value` statement.
pub open spec fn spec_match_block(indent: Seq<char>, value: Seq<char>, body: Seq<Seq<char>>) -> Seq<Seq<char>> {
    spec_stmt_block(indent, "match "@ + value, body)
}

/// A `match value` expression.
pub open spec fn spec_match_expr(indent: Seq<char>, value: Seq<char>, body: Seq<Seq<char>>) -> Seq<Seq<char>> {
    spec_expr_block(indent, "match "@ + value, body)
}

/// A match arm `cond => {` ... `},`.
pub open spec fn spec_case_block(indent: Seq<char>, cond: Seq<char>, body: Seq<Seq<char>>) -> Seq<Seq<char>> {
    block_lines(indent, cond + " => {"@, body, "},"@)
}

/// The text of a struct field or initializer `name: value,`.
pub open spec fn spec_field_text(name: Seq<char>, value: Seq<char>) -> Seq<char> {
    name + ": "@ + value + ","@
}

/// The text of a one-line match arm `cond => body,`.
pub open spec fn spec_case_expr_text(cond: Seq<char>, body: Seq<char>) -> Seq<char> {
    cond + " => "@ + body + ","@
}

/// The text of a comment line; an empty comment is a bare `//`.
pub open spec fn spec_comment_text(comment: Seq<char>) -> Seq<char> {
    if comment.len() == 0 {
        "//"@
    } else {
        "// "@ + comment
    }
}

/// The lines that `f` gives for each element of `s`, one after the other.
pub open spec fn concat_map<A>(s: Seq<A>, f: spec_fn(A) -> Seq<Seq<char>>) -> Seq<Seq<char>>
    decreases s.len(),
{
    if s.len() == 0 {
        Seq::empty()
    } else {
        concat_map(s.drop_last(), f) + f(s.last())
    }
}

/// One more element of a prefix adds its lines at the end.
pub proof fn lemma_concat_map_step<A>(s: Seq<A>, f: spec_fn(A) -> Seq<Seq<char>>, i: int)
    requires
        0 <= i < s.len(),
    ensures
        concat_map(s.take(i + 1), f) == concat_map(s.take(i), f) + f(s[i]),
{
    assert(s.take(i + 1).drop_last() =~= s.take(i));
    assert(s.take(i + 1).last() == s[i]);
}

/// The whole sequence is its longest prefix.
pub proof fn lemma_concat_map_all<A>(s: Seq<A>, f: spec_fn(A) -> Seq<Seq<char>>)
    ensures
        concat_map(s.take(s.len() as int), f) == concat_map(s, f),
{
    assert(s.take(s.len() as int) =~= s);
}

/// The text of a sequence of lines: each line followed by a newline.
pub open spec fn text_of(lines: Seq<Seq<char>>) -> Seq<char>
    decreases lines.len(),
{
    if lines.len() == 0 {
        Seq::empty()
    } else {
        text_of(lines.drop_last()) + lines.last() + seq!['\n']
    }
}

/// `k` comment markers `// `, as a writer that comments out its lines puts
/// them before its indentation.
pub open spec fn comment_marks(k: nat) -> Seq<char>
    decreases k,
{
    if k == 0 {
        Seq::empty()
    } else {
        "// "@ + comment_marks((k - 1) as nat)
    }
}

/// `ind` is the indentation of a writer derived from one indented by `base`:
/// `base` further indented, after some comment markers.
pub open spec fn fits(base: Seq<char>, ind: Seq<char>) -> bool {
    exists|k: nat| is_prefix(#[trigger] comment_marks(k) + base, ind)
}

/// A line that a writer derived from one indented by `base` can write:
/// empty, or starting with such a writer's indentation.
pub open spec fn line_fits(base: Seq<char>, line: Seq<char>) -> bool {
    line.len() == 0 || fits(base, line)
}

/// Every line fits `base`.
pub open spec fn lines_fit(lines: Seq<Seq<char>>, base: Seq<char>) -> bool {
    forall|i: int| 0 <= i < lines.len() ==> line_fits(base, #[trigger] lines[i])
}

/// Any indentation fits the empty one.
pub proof fn lemma_fits_empty(ind: Seq<char>)
    ensures
        fits(Seq::empty(), ind),
{
    assert(comment_marks(0) + Seq::<char>::empty() =~= Seq::<char>::empty());
    assert(ind.subrange(0, 0) =~= Seq::<char>::empty());
    assert(is_prefix(comment_marks(0) + Seq::<char>::empty(), ind));
}

/// An indentation fits itself.
pub proof fn lemma_fits_refl(ind: Seq<char>)
    ensures
        fits(ind, ind),
{
    assert(comment_marks(0) + ind =~= ind);
    assert(ind.subrange(0, ind.len() as int) =~= ind);
    assert(is_prefix(comment_marks(0) + ind, ind));
}

/// Indenting further keeps the fit.
pub proof fn lemma_fits_extend(base: Seq<char>, ind: Seq<char>, more: Seq<char>)
    requires
        fits(base, ind),
    ensures
        fits(base, ind + more),
{
    let k = choose|k: nat| is_prefix(#[trigger] comment_marks(k) + base, ind);
    let p = comment_marks(k) + base;
    assert((ind + more).subrange(0, p.len() as int) =~= ind.subrange(0, p.len() as int));
    assert(is_prefix(comment_marks(k) + base, ind + more));
}

/// Commenting out keeps the fit.
pub proof fn lemma_fits_comment(base: Seq<char>, ind: Seq<char>)
    requires
        fits(base, ind),
    ensures
        fits(base, "// "@ + ind),
{
    let k = choose|k: nat| is_prefix(#[trigger] comment_marks(k) + base, ind);
    let p = comment_marks(k) + base;
    assert(comment_marks(k + 1) + base =~= "// "@ + p);
    assert(("// "@ + ind).subrange(0, ("// "@ + p).len() as int) =~= "// "@ + ind.subrange(
        0,
        p.len() as int,
    ));
    assert(is_prefix(comment_marks(k + 1) + base, "// "@ + ind));
}

/// Comment markers add up.
pub proof fn lemma_comment_marks_add(a: nat, b: nat)
    ensures
        comment_marks(a) + comment_marks(b) == comment_marks(a + b),
    decreases a,
{
    if a == 0 {
        assert(comment_marks(a) + comment_marks(b) =~= comment_marks(b));
    } else {
        lemma_comment_marks_add((a - 1) as nat, b);
        assert(comment_marks(a) + comment_marks(b) =~= "// "@ + (comment_marks((a - 1) as nat)
            + comment_marks(b)));
        assert(comment_marks(a + b) == "// "@ + comment_marks((a + b - 1) as nat));
    }
}

/// Fitting is transitive.
pub proof fn lemma_fits_trans(a: Seq<char>, b: Seq<char>, c: Seq<char>)
    requires
        fits(a, b),
        fits(b, c),
    ensures
        fits(a, c),
{
    let k1 = choose|k: nat| is_prefix(#[trigger] comment_marks(k) + a, b);
    let k2 = choose|k: nat| is_prefix(#[trigger] comment_marks(k) + b, c);
    lemma_comment_marks_add(k2, k1);
    let p1 = comment_marks(k1) + a;
    let p2 = comment_marks(k2) + b;
    let p = comment_marks(k2 + k1) + a;
    assert(p =~= comment_marks(k2) + p1);
    assert forall|i: int| 0 <= i < p.len() implies p[i] == c[i] by {
        if i < comment_marks(k2).len() {
            assert(p[i] == p2[i]);
            assert(c.subrange(0, p2.len() as int)[i] == p2[i]);
        } else {
            let j = i - comment_marks(k2).len();
            assert(p[i] == p1[j]);
            assert(b.subrange(0, p1.len() as int)[j] == p1[j]);
            assert(p2[i] == b[j]);
            assert(c.subrange(0, p2.len() as int)[i] == p2[i]);
        }
    }
    assert(c.subrange(0, p.len() as int) =~= p);
    assert(is_prefix(comment_marks(k2 + k1) + a, c));
}

/// A growing buffer of lines.
pub struct VecWriter {
    lines: Vec<String>,
    base: Ghost<Seq<char>>,
}

impl View for VecWriter {
    type V = Seq<Seq<char>>;

    closed spec fn view(&self) -> Seq<Seq<char>> {
        self.lines@.map_values(|l: String| l@)
    }
}

impl VecWriter {
    /// The indentation that every line of the buffer fits: the buffer takes
    /// the lines of writers derived from one indented by it.
    pub closed spec fn base(&self) -> Seq<char> {
        self.base@
    }

    #[verifier::type_invariant]
    spec fn lines_fit_base(&self) -> bool {
        lines_fit(self@, self.base@)
    }

    /// An empty buffer, for lines at any indentation.
    pub fn new() -> (r: VecWriter)
        ensures
            r@ == Seq::<Seq<char>>::empty(),
            r.base() == Seq::<char>::empty(),
            forall|ind: Seq<char>| #[trigger] fits(r.base(), ind),
    {
        let r = VecWriter { lines: Vec::new(), base: Ghost(Seq::empty()) };
        assert(r@ =~= Seq::<Seq<char>>::empty());
        assert forall|ind: Seq<char>| #[trigger] fits(r.base(), ind) by {
            lemma_fits_empty(ind);
        }
        r
    }

    /// Adds a line, which must fit the buffer's indentation.
    pub fn write_line(&mut self, line: &str)
        requires
            line_fits(old(self).base(), line@),
        ensures
            final(self)@ == old(self)@.push(line@),
            final(self).base() == old(self).base(),
    {
        proof {
            use_type_invariant(&*self);
        }
        let mut taken = VecWriter::new();
        std::mem::swap(self, &mut taken);
        let VecWriter { lines, base } = taken;
        let mut lines = lines;
        lines.push(owned(line));
        let ghost pushed = lines@.map_values(|l: String| l@);
        assert(pushed =~= old(self)@.push(line@));
        assert forall|i: int| 0 <= i < pushed.len() implies line_fits(base@, #[trigger] pushed[i]) by {
            if i < old(self)@.len() {
                assert(pushed[i] == old(self)@[i]);
            }
        }
        *self = VecWriter { lines, base };
    }

    /// Adds all lines of another buffer, whose indentation fits this one's.
    pub fn append(&mut self, other: VecWriter)
        requires
            fits(old(self).base(), other.base()),
        ensures
            final(self)@ == old(self)@ + other@,
            final(self).base() == old(self).base(),
    {
        proof {
            use_type_invariant(&*self);
            use_type_invariant(&other);
        }
        let ghost added = other@;
        let ghost other_base = other.base();
        let mut taken = VecWriter::new();
        std::mem::swap(self, &mut taken);
        let VecWriter { lines, base } = taken;
        let VecWriter { lines: more, base: _ } = other;
        let mut lines = lines;
        let mut more = more;
        lines.append(&mut more);
        let ghost joined = lines@.map_values(|l: String| l@);
        assert(joined =~= old(self)@ + added);
        assert forall|i: int| 0 <= i < joined.len() implies line_fits(base@, #[trigger] joined[i]) by {
            if i >= old(self)@.len() {
                let line = added[i - old(self)@.len()];
                assert(line_fits(other_base, line));
                if line.len() > 0 {
                    lemma_fits_trans(base@, other_base, line);
                }
            } else {
                assert(joined[i] == old(self)@[i]);
            }
        }
        *self = VecWriter { lines, base };
    }

    /// Number of lines.
    pub fn len(&self) -> (r: usize)
        ensures
            r == self@.len(),
    {
        self.lines.len()
    }

    /// The line at position `i`.
    pub fn line(&self, i: usize) -> (r: &str)
        requires
            i < self@.len(),
        ensures
            r@ == self@[i as int],
    {
        self.lines[i].as_str()
    }

    /// The text of the buffer: each line followed by a newline.
    pub fn to_text(&self) -> (r: String)
        ensures
            r@ == text_of(self@),
    {
        let mut r = owned("");
        proof {
            reveal_strlit("");
            reveal_strlit("\n");
        }
        let n = self.lines.len();
        let mut i: usize = 0;
        while i < n
            invariant
                n == self@.len(),
                n == self.lines@.len(),
                i <= n,
                r@ == text_of(self@.take(i as int)),
            decreases n - i,
        {
            let ghost before = r@;
            proof {
                reveal_strlit("\n");
            }
            r.append(self.lines[i].as_str());
            r.append("\n");
            assert(self@.take(i + 1).drop_last() =~= self@.take(i as int));
            assert(self@.take(i + 1).last() == self.lines@[i as int]@);
            assert(r@ =~= before + self.lines@[i as int]@ + seq!['\n']);
            i = i + 1;
        }
        assert(self@.take(n as int) =~= self@);
        r
    }

    /// The bytes of the buffer's text, in UTF-8.
    pub fn to_bytes(&self) -> (r: Vec<u8>)
        ensures
            r@ == vstd::utf8::encode_utf8(text_of(self@)),
    {
        let text = self.to_text();
        vstd::slice::slice_to_vec(text.as_str().as_bytes())
    }
}

/// Writes indented lines, for the message and field it is bound to.
pub struct IndentWriter<'a> {
    pub indent: String,
    pub msg: Option<&'a Message<'a>>,
    pub field: Option<&'a Field<'a>>,
}

impl<'a> IndentWriter<'a> {
    /// A writer without indentation, bound to nothing.
    pub fn new() -> (r: IndentWriter<'a>)
        ensures
            r.indent@ == Seq::<char>::empty(),
            r.msg is None,
            r.field is None,
    {
        proof {
            reveal_strlit("");
        }
        IndentWriter { indent: owned(""), msg: None, field: None }
    }

    /// A writer with the same indentation, bound to `msg`.
    pub fn bind_message<'b>(&self, msg: &'b Message<'b>) -> (r: IndentWriter<'b>)
        ensures
            r.indent@ == self.indent@,
            r.msg == Some(msg),
            r.field is None,
    {
        IndentWriter { indent: owned(self.indent.as_str()), msg: Some(msg), field: None }
    }

    /// A writer with the same indentation and message, bound to `field`.
    pub fn bind_field(&self, field: &'a Field<'a>) -> (r: IndentWriter<'a>)
        ensures
            r.indent@ == self.indent@,
            r.msg == self.msg,
            r.field == Some(field),
    {
        IndentWriter { indent: owned(self.indent.as_str()), msg: self.msg, field: Some(field) }
    }

    /// One writer per field of the bound message, in order, each bound to
    /// its field.
    pub fn fields(&self) -> (r: Vec<IndentWriter<'a>>)
        requires
            self.msg is Some,
        ensures
            r@.len() == self.msg.unwrap().fields@.len(),
            forall|i: int|
                0 <= i < r@.len() ==> (#[trigger] r@[i]).indent@ == self.indent@ && r@[i].msg
                    == self.msg && r@[i].field == Some(&self.msg.unwrap().fields@[i]),
    {
        let msg = self.msg.unwrap();
        let mut r: Vec<IndentWriter<'a>> = Vec::new();
        let n = msg.fields.len();
        let mut i: usize = 0;
        while i < n
            invariant
                self.msg == Some(msg),
                n == msg.fields@.len(),
                i <= n,
                r@.len() == i,
                forall|j: int|
                    0 <= j < i ==> (#[trigger] r@[j]).indent@ == self.indent@ && r@[j].msg
                        == self.msg && r@[j].field == Some(&msg.fields@[j]),
            decreases n - i,
        {
            r.push(self.bind_field(&msg.fields[i]));
            i = i + 1;
        }
        r
    }

    /// Writes a line with the writer's indentation; an empty line stays empty.
    pub fn write_line(&self, out: &mut VecWriter, line: &str)
        requires
            fits(old(out).base(), self.indent@),
        ensures
            final(out).base() == old(out).base(),
            final(out)@ == old(out)@.push(indented_line(self.indent@, line@)),
    {
        if line.unicode_len() == 0 {
            proof {
                reveal_strlit("");
            }
            assert(""@ =~= Seq::<char>::empty());
            out.write_line("");
        } else {
            let l = cat2(self.indent.as_str(), line);
            proof {
                lemma_fits_extend(out.base(), self.indent@, line@);
            }
            out.write_line(l.as_str());
        }
    }

    /// Writes each of `lines`, in order.
    pub fn write_lines(&self, out: &mut VecWriter, lines: &Vec<String>)
        requires
            fits(old(out).base(), self.indent@),
        ensures
            final(out).base() == old(out).base(),
            final(out)@ == old(out)@ + lines@.map_values(|l: String| indented_line(self.indent@, l@)),
    {
        let n = lines.len();
        let mut i: usize = 0;
        while i < n
            invariant
                n == lines@.len(),
                i <= n,
                fits(out.base(), self.indent@),
                out.base() == old(out).base(),
                out@ == old(out)@ + lines@.take(i as int).map_values(
                    |l: String| indented_line(self.indent@, l@),
                ),
            decreases n - i,
        {
            self.write_line(out, lines[i].as_str());
            assert(lines@.take(i + 1).map_values(|l: String| indented_line(self.indent@, l@))
                =~= lines@.take(i as int).map_values(|l: String| indented_line(self.indent@, l@)).push(
                indented_line(self.indent@, lines@[i as int]@),
            ));
            i = i + 1;
        }
        assert(lines@.take(n as int) =~= lines@);
    }

    /// A writer one step further indented, bound to the same message and field.
    pub fn indent(&self) -> (r: IndentWriter<'a>)
        ensures
            r.indent@ == self.indent@ + indent_step(),
            r.msg == self.msg,
            r.field == self.field,
            forall|b: Seq<char>| fits(b, self.indent@) ==> #[trigger] fits(b, r.indent@),
    {
        let r = IndentWriter { indent: cat2(self.indent.as_str(), "    "), msg: self.msg, field: self.field };
        proof {
            assert forall|b: Seq<char>| fits(b, self.indent@) implies #[trigger] fits(b, r.indent@) by {
                lemma_fits_extend(b, self.indent@, indent_step());
            }
        }
        r
    }

    /// A writer whose lines are commented out, bound to the same message and field.
    pub fn commented(&self) -> (r: IndentWriter<'a>)
        ensures
            r.indent@ == "// "@ + self.indent@,
            r.msg == self.msg,
            r.field == self.field,
            forall|b: Seq<char>| fits(b, self.indent@) ==> #[trigger] fits(b, r.indent@),
    {
        let r = IndentWriter { indent: cat2("// ", self.indent.as_str()), msg: self.msg, field: self.field };
        proof {
            assert forall|b: Seq<char>| fits(b, self.indent@) implies #[trigger] fits(b, r.indent@) by {
                lemma_fits_comment(b, self.indent@);
            }
        }
        r
    }

    /// An empty buffer for the body of a block that this writer opens: it
    /// takes the lines of `self.indent()` and of the writers derived from it.
    pub fn body(&self) -> (r: VecWriter)
        ensures
            r@ == Seq::<Seq<char>>::empty(),
            r.base() == self.indent@ + indent_step(),
            fits(r.base(), self.indent@ + indent_step()),
    {
        let r = VecWriter::new();
        let VecWriter { lines, base: _ } = r;
        let base = Ghost(self.indent@ + indent_step());
        proof {
            lemma_fits_refl(self.indent@ + indent_step());
        }
        let r = VecWriter { lines, base };
        assert(r@ =~= Seq::<Seq<char>>::empty());
        r
    }

    /// Writes the lines of `body`, written one step further indented (by the
    /// writer that `indent` returns).
    pub fn indented(&self, out: &mut VecWriter, body: VecWriter)
        requires
            fits(old(out).base(), self.indent@),
            body.base() == self.indent@ + indent_step(),
        ensures
            final(out).base() == old(out).base(),
            final(out)@ == old(out)@ + body@,
    {
        proof {
            lemma_fits_extend(out.base(), self.indent@, indent_step());
        }
        out.append(body);
    }

    /// Writes `first_line`, the lines of `body`, and `last_line`.
    pub fn block(&self, out: &mut VecWriter, first_line: &str, last_line: &str, body: VecWriter)
        requires
            fits(old(out).base(), self.indent@),
            body.base() == self.indent@ + indent_step(),
        ensures
            final(out).base() == old(out).base(),
            final(out)@ == old(out)@ + block_lines(self.indent@, first_line@, body@, last_line@),
    {
        self.write_line(out, first_line);
        self.indented(out, body);
        self.write_line(out, last_line);
        assert(out@ =~= old(out)@ + block_lines(self.indent@, first_line@, body@, last_line@));
    }

    /// A block `prefix {` ... `}`.
    pub fn expr_block(&self, out: &mut VecWriter, prefix: &str, body: VecWriter)
        requires
            fits(old(out).base(), self.indent@),
            body.base() == self.indent@ + indent_step(),
        ensures
            final(out).base() == old(out).base(),
            final(out)@ == old(out)@ + spec_expr_block(self.indent@, prefix@, body@),
    {
        let first = cat2(prefix, " {");
        self.block(out, first.as_str(), "}", body);
    }

    /// A block `prefix {` ... `};`.
    pub fn stmt_block(&self, out: &mut VecWriter, prefix: &str, body: VecWriter)
        requires
            fits(old(out).base(), self.indent@),
            body.base() == self.indent@ + indent_step(),
        ensures
            final(out).base() == old(out).base(),
            final(out)@ == old(out)@ + spec_stmt_block(self.indent@, prefix@, body@),
    {
        let first = cat2(prefix, " {");
        self.block(out, first.as_str(), "};", body);
    }

    /// An `impl name` block.
    pub fn impl_block(&self, out: &mut VecWriter, name: &str, body: VecWriter)
        requires
            fits(old(out).base(), self.indent@),
            body.base() == self.indent@ + indent_step(),
        ensures
            final(out).base() == old(out).base(),
            final(out)@ == old(out)@ + spec_impl_block(self.indent@, name@, body@),
    {
        let prefix = cat2("impl ", name);
        self.expr_block(out, prefix.as_str(), body);
    }

    /// An `impl tr for ty` block.
    pub fn impl_for_block(&self, out: &mut VecWriter, tr: &str, ty: &str, body: VecWriter)
        requires
            fits(old(out).base(), self.indent@),
            body.base() == self.indent@ + indent_step(),
        ensures
            final(out).base() == old(out).base(),
            final(out)@ == old(out)@ + spec_impl_for_block(self.indent@, tr@, ty@, body@),
    {
        let prefix = cat4("impl ", tr, " for ", ty);
        self.expr_block(out, prefix.as_str(), body);
    }

    /// A `pub struct name` block.
    pub fn pub_struct(&self, out: &mut VecWriter, name: &str, body: VecWriter)
        requires
            fits(old(out).base(), self.indent@),
            body.base() == self.indent@ + indent_step(),
        ensures
            final(out).base() == old(out).base(),
            final(out)@ == old(out)@ + spec_expr_block(self.indent@, "pub struct "@ + name@, body@),
    {
        let prefix = cat2("pub struct ", name);
        self.expr_block(out, prefix.as_str(), body);
    }

    /// A `struct name` block.
    pub fn def_struct(&self, out: &mut VecWriter, name: &str, body: VecWriter)
        requires
            fits(old(out).base(), self.indent@),
            body.base() == self.indent@ + indent_step(),
        ensures
            final(out).base() == old(out).base(),
            final(out)@ == old(out)@ + spec_expr_block(self.indent@, "struct "@ + name@, body@),
    {
        let prefix = cat2("struct ", name);
        self.expr_block(out, prefix.as_str(), body);
    }

    /// A `mod name` block.
    pub fn def_mod(&self, out: &mut VecWriter, name: &str, body: VecWriter)
        requires
            fits(old(out).base(), self.indent@),
            body.base() == self.indent@ + indent_step(),
        ensures
            final(out).base() == old(out).base(),
            final(out)@ == old(out)@ + spec_expr_block(self.indent@, "mod "@ + name@, body@),
    {
        let prefix = cat2("mod ", name);
        self.expr_block(out, prefix.as_str(), body);
    }

    /// A struct field or initializer `name: value,`.
    pub fn field(&self, out: &mut VecWriter, name: &str, value: &str)
        requires
            fits(old(out).base(), self.indent@),
        ensures
            final(out).base() == old(out).base(),
            final(out)@ == old(out)@.push(indented_line(self.indent@, spec_field_text(name@, value@))),
    {
        let line = cat4(name, ": ", value, ",");
        self.write_line(out, line.as_str());
    }

    /// The statement `fail!()`.
    pub fn fail(&self, out: &mut VecWriter)
        requires
            fits(old(out).base(), self.indent@),
        ensures
            final(out).base() == old(out).base(),
            final(out)@ == old(out)@.push(indented_line(self.indent@, "fail!()"@)),
    {
        self.write_line(out, "fail!()");
    }

    /// The statement `fail!("TODO");`.
    pub fn todo(&self, out: &mut VecWriter)
        requires
            fits(old(out).base(), self.indent@),
        ensures
            final(out).base() == old(out).base(),
            final(out)@ == old(out)@.push(indented_line(self.indent@, "fail!(\"TODO\");"@)),
    {
        self.write_line(out, "fail!(\"TODO\");");
    }

    /// A comment line; an empty comment is a bare `//`.
    pub fn comment(&self, out: &mut VecWriter, comment: &str)
        requires
            fits(old(out).base(), self.indent@),
        ensures
            final(out).base() == old(out).base(),
            final(out)@ == old(out)@.push(indented_line(self.indent@, spec_comment_text(comment@))),
    {
        if comment.unicode_len() == 0 {
            self.write_line(out, "//");
        } else {
            let line = cat2("// ", comment);
            self.write_line(out, line.as_str());
        }
    }

    /// A `pub fn sig` block.
    pub fn pub_fn(&self, out: &mut VecWriter, sig: &str, body: VecWriter)
        requires
            fits(old(out).base(), self.indent@),
            body.base() == self.indent@ + indent_step(),
        ensures
            final(out).base() == old(out).base(),
            final(out)@ == old(out)@ + spec_pub_fn(self.indent@, sig@, body@),
    {
        let prefix = cat2("pub fn ", sig);
        self.expr_block(out, prefix.as_str(), body);
    }

    /// A `fn sig` block.
    pub fn def_fn(&self, out: &mut VecWriter, sig: &str, body: VecWriter)
        requires
            fits(old(out).base(), self.indent@),
            body.base() == self.indent@ + indent_step(),
        ensures
            final(out).base() == old(out).base(),
            final(out)@ == old(out)@ + spec_def_fn(self.indent@, sig@, body@),
    {
        let prefix = cat2("fn ", sig);
        self.expr_block(out, prefix.as_str(), body);
    }

    /// A `while cond` block.
    pub fn while_block(&self, out: &mut VecWriter, cond: &str, body: VecWriter)
        requires
            fits(old(out).base(), self.indent@),
            body.base() == self.indent@ + indent_step(),
        ensures
            final(out).base() == old(out).base(),
            final(out)@ == old(out)@ + spec_while_block(self.indent@, cond@, body@),
    {
        let prefix = cat2("while ", cond);
        self.expr_block(out, prefix.as_str(), body);
    }

    /// An `if cond` statement.
    pub fn if_stmt(&self, out: &mut VecWriter, cond: &str, body: VecWriter)
        requires
            fits(old(out).base(), self.indent@),
            body.base() == self.indent@ + indent_step(),
        ensures
            final(out).base() == old(out).base(),
            final(out)@ == old(out)@ + spec_if_stmt(self.indent@, cond@, body@),
    {
        let prefix = cat2("if ", cond);
        self.stmt_block(out, prefix.as_str(), body);
    }

    /// A `for over |varn|` statement.
    pub fn for_stmt(&self, out: &mut VecWriter, over: &str, varn: &str, body: VecWriter)
        requires
            fits(old(out).base(), self.indent@),
            body.base() == self.indent@ + indent_step(),
        ensures
            final(out).base() == old(out).base(),
            final(out)@ == old(out)@ + spec_for_stmt(self.indent@, over@, varn@, body@),
    {
        let prefix = cat5("for ", over, " |", varn, "|");
        self.stmt_block(out, prefix.as_str(), body);
    }

    /// A `match value` statement.
    pub fn match_block(&self, out: &mut VecWriter, value: &str, body: VecWriter)
        requires
            fits(old(out).base(), self.indent@),
            body.base() == self.indent@ + indent_step(),
        ensures
            final(out).base() == old(out).base(),
            final(out)@ == old(out)@ + spec_match_block(self.indent@, value@, body@),
    {
        let prefix = cat2("match ", value);
        self.stmt_block(out, prefix.as_str(), body);
    }

    /// A `match value` expression.
    pub fn match_expr(&self, out: &mut VecWriter, value: &str, body: VecWriter)
        requires
            fits(old(out).base(), self.indent@),
            body.base() == self.indent@ + indent_step(),
        ensures
            final(out).base() == old(out).base(),
            final(out)@ == old(out)@ + spec_match_expr(self.indent@, value@, body@),
    {
        let prefix = cat2("match ", value);
        self.expr_block(out, prefix.as_str(), body);
    }

    /// A match arm `cond => {` ... `},`.
    pub fn case_block(&self, out: &mut VecWriter, cond: &str, body: VecWriter)
        requires
            fits(old(out).base(), self.indent@),
            body.base() == self.indent@ + indent_step(),
        ensures
            final(out).base() == old(out).base(),
            final(out)@ == old(out)@ + spec_case_block(self.indent@, cond@, body@),
    {
        let first = cat2(cond, " => {");
        self.block(out, first.as_str(), "},", body);
    }

    /// A match arm `cond => body,` on one line.
    pub fn case_expr(&self, out: &mut VecWriter, cond: &str, body: &str)
        requires
            fits(old(out).base(), self.indent@),
        ensures
            final(out).base() == old(out).base(),
            final(out)@ == old(out)@.push(indented_line(self.indent@, spec_case_expr_text(cond@, body@))),
    {
        let line = cat4(cond, " => ", body, ",");
        self.write_line(out, line.as_str());
    }

    /// The name of the method that clears the bound field.
    pub fn clear_field_func(&self) -> (r: String)
        requires
            self.field is Some,
        ensures
            r@ == "clear_"@ + self.field.unwrap().name@,
    {
        let field = self.field.unwrap();
        cat2("clear_", field.name.as_str())
    }

    /// The statement that clears the bound field: a repeated field is
    /// emptied, another one set to `None`.
    pub fn clear_field(&self, out: &mut VecWriter)
        requires
            fits(old(out).base(), self.indent@),
            self.field is Some,
        ensures
            final(out).base() == old(out).base(),
            final(out)@ == old(out)@.push(
                indented_line(
                    self.indent@,
                    if self.field.unwrap().repeated {
                        "self."@ + self.field.unwrap().name@ + ".clear();"@
                    } else {
                        "self."@ + self.field.unwrap().name@ + " = None;"@
                    },
                ),
            ),
    {
        let field = self.field.unwrap();
        if field.repeated {
            let line = cat3("self.", field.name.as_str(), ".clear();");
            self.write_line(out, line.as_str());
        } else {
            let line = cat3("self.", field.name.as_str(), " = None;");
            self.write_line(out, line.as_str());
        }
    }
}

} // verus!
