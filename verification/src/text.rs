//! Spec functions giving the exact AsciiDoc text that each model entity
//! renders to, as a sequence of characters. The executable renderer in
//! [`crate::render`] is proved to append precisely these sequences.

use vstd::prelude::*;

use crate::model::{Example, Field, Struct, Type, TypeName};

verus! {

/// The text of a leaf type name. The two standard key-value-map names are
/// aliased to the single label `Map`; every other primitive name passes
/// through unchanged. A link renders as a double-angle-bracket anchor
/// reference.
pub open spec fn typename_adoc(t: TypeName) -> Seq<char> {
    match t {
        TypeName::Primitive(name) => if name@ == "HashMap"@ || name@ == "BTreeMap"@ {
            "Map"@
        } else {
            name@
        },
        TypeName::Link(name) => "<<"@ + name@ + ">>"@,
    }
}

/// The text of a type expression: a leaf delegates to [`typename_adoc`];
/// a generic container renders its name followed by the angle-bracketed,
/// comma-separated list of its arguments. An empty argument list renders
/// as an empty bracket pair.
pub open spec fn type_adoc(t: Type) -> Seq<char>
    decreases t,
{
    match t {
        Type::Flat(name) => typename_adoc(name),
        Type::Nested { container_name, nested } => typename_adoc(container_name) + "<"@
            + type_list_adoc(nested@) + ">"@,
    }
}

/// The comma-and-space separated rendering of a sequence of type
/// expressions: no separator before the first, none after the last.
pub open spec fn type_list_adoc(ts: Seq<Type>) -> Seq<char>
    decreases ts,
{
    if ts.len() == 0 {
        Seq::<char>::empty()
    } else if ts.len() == 1 {
        type_adoc(ts[0])
    } else {
        type_list_adoc(ts.drop_last()) + ", "@ + type_adoc(ts.last())
    }
}

/// The text of one example: a block title, a source-block opener tagged
/// with the language, and the content verbatim between fences.
pub open spec fn example_adoc(e: Example) -> Seq<char> {
    ".Example\n[source,"@ + e.lang@ + "]\n----\n"@ + e.content@ + "\n----\n"@
}

/// The concatenated rendering of a sequence of examples, each followed by
/// `after_each` (a blank line at struct level, nothing at field level).
pub open spec fn examples_adoc(es: Seq<Example>, after_each: Seq<char>) -> Seq<char>
    decreases es,
{
    if es.len() == 0 {
        Seq::<char>::empty()
    } else {
        examples_adoc(es.drop_last(), after_each) + example_adoc(es.last()) + after_each
    }
}

/// The emphasis-styled required/optional annotation every field carries.
pub open spec fn required_marker(required: bool) -> Seq<char> {
    if required {
        " _(required)_"@
    } else {
        " _(optional)_"@
    }
}

/// Field documentation with every blank-line paragraph break (a double
/// newline) rewritten to a line holding only `+`, so the prose stays inside
/// one list item. Single newlines are left untouched; replacement is
/// leftmost and non-overlapping.
pub open spec fn para_breaks_to_adoc(s: Seq<char>) -> Seq<char>
    decreases s.len(),
{
    if s.len() >= 2 && s[0] == '\n' && s[1] == '\n' {
        "\n+\n"@ + para_breaks_to_adoc(s.skip(2))
    } else if s.len() >= 1 {
        seq![s[0]] + para_breaks_to_adoc(s.skip(1))
    } else {
        Seq::<char>::empty()
    }
}

/// The text of one field: bullet with the name in inline code, the
/// required/optional annotation, a continuation marker, the `Type:` label
/// with the rendered type in inline code, then the normalized docs block
/// (if any) and the examples block (if any), each attached with a
/// continuation marker.
pub open spec fn field_adoc(f: Field) -> Seq<char> {
    "* `"@ + f.name@ + "`"@ + required_marker(f.required) + "\n+\nType: `"@ + type_adoc(f.ty)
        + "`\n"@ + (if f.docs@.len() > 0 {
        "+\n"@ + para_breaks_to_adoc(f.docs@)
    } else {
        Seq::<char>::empty()
    }) + (if f.examples@.len() > 0 {
        "+\n"@ + examples_adoc(f.examples@, Seq::<char>::empty()) + "\n"@
    } else {
        Seq::<char>::empty()
    })
}

/// The concatenated rendering of a sequence of fields, in order.
pub open spec fn fields_adoc(fs: Seq<Field>) -> Seq<char>
    decreases fs,
{
    if fs.len() == 0 {
        Seq::<char>::empty()
    } else {
        fields_adoc(fs.drop_last()) + field_adoc(fs.last())
    }
}

/// The complete document for one structure: the level-1 title, the prose
/// description between blank lines, the top-level examples each followed by
/// a blank line, the `.Fields` block title (omitted when there are no
/// fields), the fields in order, and a trailing blank line.
pub open spec fn struct_adoc(s: Struct) -> Seq<char> {
    "= "@ + s.name@ + "\n\n"@ + s.docs@ + "\n\n"@ + examples_adoc(s.examples@, "\n"@) + (if s
        .fields@.len() > 0 {
        ".Fields\n"@
    } else {
        Seq::<char>::empty()
    }) + fields_adoc(s.fields@) + "\n"@
}

} // verus!
