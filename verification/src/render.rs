//! The executable renderer. Every function appends to a growing `String`
//! sink and is proved to append exactly the text given by the spec
//! functions in [`crate::text`]. Writing the finished text to an actual
//! byte sink is the caller's concern.

use vstd::prelude::*;
use vstd::string::StrSliceExecFns;
use vstd::string::StringExecFns;

use crate::model::{Example, Field, Struct, Type, TypeName};
use crate::text::{
    example_adoc, examples_adoc, field_adoc, fields_adoc, para_breaks_to_adoc, struct_adoc,
    type_adoc, type_list_adoc, typename_adoc,
};

verus! {

/// Anything that can render itself as AsciiDoc text: `adoc` is the text,
/// `write_adoc` appends exactly that text to the sink.
pub trait ToAdoc {
    spec fn adoc(&self) -> Seq<char>;

    fn write_adoc(&self, out: &mut String)
        ensures
            final(out)@ == old(out)@ + self.adoc(),
    ;
}

/// Appends the text of a leaf type name: the map aliasing for primitives,
/// the double-angle-bracket anchor for links.
pub fn write_typename(t: &TypeName, out: &mut String)
    ensures
        final(out)@ == old(out)@ + typename_adoc(*t),
{
    match t {
        TypeName::Primitive(name) => {
            let hash_map: String = String::from_str("HashMap");
            let btree_map: String = String::from_str("BTreeMap");
            if *name == hash_map || *name == btree_map {
                out.append("Map");
            } else {
                out.append(name.as_str());
            }
        },
        TypeName::Link(name) => {
            out.append("<<");
            out.append(name.as_str());
            out.append(">>");
            assert(out@ =~= old(out)@ + typename_adoc(*t));
        },
    }
}

/// Appends the text of one example: block title, tagged source-block
/// opener, the content verbatim, and the closing fence.
pub fn write_example(e: &Example, out: &mut String)
    ensures
        final(out)@ == old(out)@ + example_adoc(*e),
{
    out.append(".Example\n[source,");
    out.append(e.lang.as_str());
    out.append("]\n----\n");
    out.append(e.content.as_str());
    out.append("\n----\n");
    assert(out@ =~= old(out)@ + example_adoc(*e));
}

/// Appends the text of a type expression, recursing into the arguments of
/// a generic container and separating them with a comma and a space.
#[verifier::loop_isolation(false)]
pub fn write_type(t: &Type, out: &mut String)
    ensures
        final(out)@ == old(out)@ + type_adoc(*t),
    decreases *t,
{
    match t {
        Type::Flat(name) => {
            write_typename(name, out);
        },
        Type::Nested { container_name, nested } => {
            write_typename(container_name, out);
            out.append("<");
            let ghost base = out@;
            let mut i: usize = 0;
            while i < nested.len()
                invariant
                    i <= nested.len(),
                    out@ == base + type_list_adoc(nested@.take(i as int)),
                decreases nested.len() - i,
            {
                if i > 0 {
                    out.append(", ");
                }
                write_type(&nested[i], out);
                proof {
                    assert(nested@.take(i as int + 1).drop_last() =~= nested@.take(i as int));
                    assert(nested@.take(i as int + 1).last() == nested@[i as int]);
                    assert(out@ =~= base + type_list_adoc(nested@.take(i as int + 1)));
                }
                i = i + 1;
            }
            proof {
                assert(nested@.take(nested@.len() as int) =~= nested@);
            }
            out.append(">");
            assert(out@ =~= old(out)@ + type_adoc(*t));
        },
    }
}

/// Returns the documentation text with every blank-line paragraph break
/// rewritten to a line holding only `+`, leaving single newlines untouched.
#[verifier::loop_isolation(false)]
fn para_breaks(docs: &str) -> (out: String)
    ensures
        out@ == para_breaks_to_adoc(docs@),
{
    let n = docs.unicode_len();
    let mut out = String::new();
    let mut i: usize = 0;
    proof {
        assert(docs@.skip(0) =~= docs@);
        assert(out@ + para_breaks_to_adoc(docs@) =~= para_breaks_to_adoc(docs@));
    }
    while i < n
        invariant
            i <= n,
            para_breaks_to_adoc(docs@) == out@ + para_breaks_to_adoc(docs@.skip(i as int)),
        decreases n - i,
    {
        let c = docs.get_char(i);
        if c == '\n' && i + 1 < n && docs.get_char(i + 1) == '\n' {
            out.append("\n+\n");
            proof {
                assert(docs@.skip(i as int).skip(2) =~= docs@.skip(i as int + 2));
                assert(out@ + para_breaks_to_adoc(docs@.skip(i as int + 2)) =~= para_breaks_to_adoc(
                    docs@,
                ));
            }
            i = i + 2;
        } else {
            let piece = docs.substring_char(i, i + 1);
            out.append(piece);
            proof {
                assert(piece@ =~= seq![docs@[i as int]]);
                assert(docs@.skip(i as int).skip(1) =~= docs@.skip(i as int + 1));
                assert(out@ + para_breaks_to_adoc(docs@.skip(i as int + 1)) =~= para_breaks_to_adoc(
                    docs@,
                ));
            }
            i = i + 1;
        }
    }
    proof {
        assert(docs@.skip(n as int) =~= Seq::<char>::empty());
    }
    out
}

/// Appends the text of one field: the bullet line with the name and the
/// required/optional annotation, the `Type:` line, then the normalized
/// documentation block and the examples block when present.
#[verifier::loop_isolation(false)]
#[verifier::rlimit(50)]
pub fn write_field(f: &Field, out: &mut String)
    ensures
        final(out)@ == old(out)@ + field_adoc(*f),
{
    out.append("* `");
    out.append(f.name.as_str());
    out.append("`");
    if f.required {
        out.append(" _(required)_");
    } else {
        out.append(" _(optional)_");
    }
    out.append("\n+\nType: `");
    write_type(&f.ty, out);
    out.append("`\n");
    if !f.docs.as_str().is_empty() {
        out.append("+\n");
        let d = para_breaks(f.docs.as_str());
        out.append(d.as_str());
    }
    if f.examples.len() > 0 {
        out.append("+\n");
        let ghost base = out@;
        let mut i: usize = 0;
        while i < f.examples.len()
            invariant
                i <= f.examples@.len(),
                out@ == base + examples_adoc(f.examples@.take(i as int), Seq::<char>::empty()),
            decreases f.examples@.len() - i,
        {
            write_example(&f.examples[i], out);
            proof {
                assert(f.examples@.take(i as int + 1).drop_last() =~= f.examples@.take(i as int));
                assert(out@ =~= base + examples_adoc(
                    f.examples@.take(i as int + 1),
                    Seq::<char>::empty(),
                ));
            }
            i = i + 1;
        }
        proof {
            assert(f.examples@.take(f.examples@.len() as int) =~= f.examples@);
        }
        out.append("\n");
    }
    assert(out@ =~= old(out)@ + field_adoc(*f));
}

/// Appends the complete document for one structure: title, description,
/// top-level examples, the `.Fields` block title when there are fields,
/// each field in order, and a trailing blank line.
#[verifier::loop_isolation(false)]
#[verifier::rlimit(50)]
pub fn write_struct(s: &Struct, out: &mut String)
    ensures
        final(out)@ == old(out)@ + struct_adoc(*s),
{
    out.append("= ");
    out.append(s.name.as_str());
    out.append("\n\n");
    out.append(s.docs.as_str());
    out.append("\n\n");
    let ghost base_examples = out@;
    let mut i: usize = 0;
    while i < s.examples.len()
        invariant
            i <= s.examples@.len(),
            out@ == base_examples + examples_adoc(s.examples@.take(i as int), "\n"@),
        decreases s.examples@.len() - i,
    {
        write_example(&s.examples[i], out);
        out.append("\n");
        proof {
            assert(s.examples@.take(i as int + 1).drop_last() =~= s.examples@.take(i as int));
            assert(out@ =~= base_examples + examples_adoc(s.examples@.take(i as int + 1), "\n"@));
        }
        i = i + 1;
    }
    proof {
        assert(s.examples@.take(s.examples@.len() as int) =~= s.examples@);
    }
    if s.fields.len() > 0 {
        out.append(".Fields\n");
    }
    let ghost base_fields = out@;
    let mut j: usize = 0;
    while j < s.fields.len()
        invariant
            j <= s.fields@.len(),
            out@ == base_fields + fields_adoc(s.fields@.take(j as int)),
        decreases s.fields@.len() - j,
    {
        write_field(&s.fields[j], out);
        proof {
            assert(s.fields@.take(j as int + 1).drop_last() =~= s.fields@.take(j as int));
            assert(out@ =~= base_fields + fields_adoc(s.fields@.take(j as int + 1)));
        }
        j = j + 1;
    }
    proof {
        assert(s.fields@.take(s.fields@.len() as int) =~= s.fields@);
    }
    out.append("\n");
    assert(out@ =~= old(out)@ + struct_adoc(*s));
}

/// Renders a structure to a fresh sink and returns the finished document.
/// The result depends on the structure value alone.
pub fn render_struct(s: &Struct) -> (r: String)
    ensures
        r@ == struct_adoc(*s),
{
    let mut out = String::new();
    write_struct(s, &mut out);
    out
}

impl ToAdoc for TypeName {
    open spec fn adoc(&self) -> Seq<char> {
        typename_adoc(*self)
    }

    fn write_adoc(&self, out: &mut String) {
        write_typename(self, out);
    }
}

impl ToAdoc for Example {
    open spec fn adoc(&self) -> Seq<char> {
        example_adoc(*self)
    }

    fn write_adoc(&self, out: &mut String) {
        write_example(self, out);
    }
}

impl ToAdoc for Type {
    open spec fn adoc(&self) -> Seq<char> {
        type_adoc(*self)
    }

    fn write_adoc(&self, out: &mut String) {
        write_type(self, out);
    }
}

impl ToAdoc for Field {
    open spec fn adoc(&self) -> Seq<char> {
        field_adoc(*self)
    }

    fn write_adoc(&self, out: &mut String) {
        write_field(self, out);
    }
}

impl ToAdoc for Struct {
    open spec fn adoc(&self) -> Seq<char> {
        struct_adoc(*self)
    }

    fn write_adoc(&self, out: &mut String) {
        write_struct(self, out);
    }
}

} // verus!
