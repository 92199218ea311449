//! General properties of the rendered text, proved once and for all:
//! angle brackets in a rendered type are balanced and nest exactly as
//! deeply as the type tree, every field carries its required/optional
//! annotation, a structure without fields renders without the `.Fields`
//! block title, and rendering is deterministic.

use vstd::prelude::*;

use crate::model::{Example, Field, Struct, Type, TypeName};
use crate::text::{
    example_adoc, examples_adoc, field_adoc, fields_adoc, para_breaks_to_adoc, required_marker,
    struct_adoc, type_adoc, type_list_adoc, typename_adoc,
};

verus! {

/// The number of occurrences of `c` in `s`.
pub open spec fn count_char(s: Seq<char>, c: char) -> int
    decreases s.len(),
{
    if s.len() == 0 {
        0
    } else {
        count_char(s.drop_last(), c) + if s.last() == c {
            1int
        } else {
            0int
        }
    }
}

/// The contribution of one character to bracket nesting: one deeper on an
/// opening angle bracket, one shallower on a closing one.
pub open spec fn bracket_delta(c: char) -> int {
    if c == '<' {
        1
    } else if c == '>' {
        -1
    } else {
        0
    }
}

/// Opening minus closing angle brackets over the whole of `s`: the nesting
/// level reached after scanning `s` left to right.
pub open spec fn net_depth(s: Seq<char>) -> int
    decreases s.len(),
{
    if s.len() == 0 {
        0
    } else {
        net_depth(s.drop_last()) + bracket_delta(s.last())
    }
}

/// The deepest bracket nesting level reached at any point while scanning
/// `s` left to right.
pub open spec fn peak_depth(s: Seq<char>) -> int
    decreases s.len(),
{
    if s.len() == 0 {
        0
    } else {
        vstd::math::max(peak_depth(s.drop_last()), net_depth(s))
    }
}

/// `s` holds no angle bracket of its own.
pub open spec fn no_brackets(s: Seq<char>) -> bool {
    forall|k: int| 0 <= k < s.len() ==> bracket_delta(#[trigger] s[k]) == 0
}

/// The name inside a leaf holds no angle bracket of its own.
pub open spec fn typename_plain(t: TypeName) -> bool {
    match t {
        TypeName::Primitive(name) => no_brackets(name@),
        TypeName::Link(name) => no_brackets(name@),
    }
}

/// Every name anywhere in the type tree holds no angle bracket of its own.
pub open spec fn type_names_plain(t: Type) -> bool
    decreases t,
{
    match t {
        Type::Flat(name) => typename_plain(name),
        Type::Nested { container_name, nested } => typename_plain(container_name)
            && type_list_names_plain(nested@),
    }
}

/// Every name anywhere in a sequence of type trees holds no angle bracket.
pub open spec fn type_list_names_plain(ts: Seq<Type>) -> bool
    decreases ts,
{
    if ts.len() == 0 {
        true
    } else {
        type_list_names_plain(ts.drop_last()) && type_names_plain(ts.last())
    }
}

/// No leaf of the type tree is a cross-reference link (a link leaf emits
/// its own angle brackets, which are anchors, not nesting).
pub open spec fn type_link_free(t: Type) -> bool
    decreases t,
{
    match t {
        Type::Flat(name) => name is Primitive,
        Type::Nested { container_name, nested } => container_name is Primitive
            && type_list_link_free(nested@),
    }
}

/// No leaf anywhere in a sequence of type trees is a cross-reference link.
pub open spec fn type_list_link_free(ts: Seq<Type>) -> bool
    decreases ts,
{
    if ts.len() == 0 {
        true
    } else {
        type_list_link_free(ts.drop_last()) && type_link_free(ts.last())
    }
}

/// The nesting depth of a type tree: a leaf is flat, a container is one
/// deeper than its deepest argument (one even with no arguments, since it
/// still emits a bracket pair).
pub open spec fn type_depth(t: Type) -> int
    decreases t,
{
    match t {
        Type::Flat(_) => 0,
        Type::Nested { container_name: _, nested } => 1 + type_list_depth(nested@),
    }
}

/// The deepest nesting depth among a sequence of type trees.
pub open spec fn type_list_depth(ts: Seq<Type>) -> int
    decreases ts,
{
    if ts.len() == 0 {
        0
    } else {
        vstd::math::max(type_list_depth(ts.drop_last()), type_depth(ts.last()))
    }
}

/// `pat` occurs somewhere in `s` as a contiguous substring.
pub open spec fn contains_seq(s: Seq<char>, pat: Seq<char>) -> bool {
    exists|k: int|
        0 <= k && k + pat.len() <= s.len() && #[trigger] s.subrange(k, k + pat.len()) == pat
}

proof fn lemma_net_depth_concat(a: Seq<char>, b: Seq<char>)
    ensures
        net_depth(a + b) == net_depth(a) + net_depth(b),
    decreases b.len(),
{
    if b.len() == 0 {
        assert(a + b =~= a);
    } else {
        lemma_net_depth_concat(a, b.drop_last());
        assert((a + b).drop_last() =~= a + b.drop_last());
    }
}

proof fn lemma_peak_depth_bounds(s: Seq<char>)
    ensures
        peak_depth(s) >= 0,
        peak_depth(s) >= net_depth(s),
    decreases s.len(),
{
    if s.len() > 0 {
        lemma_peak_depth_bounds(s.drop_last());
    }
}

proof fn lemma_peak_depth_concat(a: Seq<char>, b: Seq<char>)
    ensures
        peak_depth(a + b) == vstd::math::max(peak_depth(a), net_depth(a) + peak_depth(b)),
    decreases b.len(),
{
    if b.len() == 0 {
        assert(a + b =~= a);
        lemma_peak_depth_bounds(a);
    } else {
        lemma_peak_depth_concat(a, b.drop_last());
        assert((a + b).drop_last() =~= a + b.drop_last());
        lemma_net_depth_concat(a, b);
    }
}

proof fn lemma_net_is_count_diff(s: Seq<char>)
    ensures
        net_depth(s) == count_char(s, '<') - count_char(s, '>'),
    decreases s.len(),
{
    if s.len() > 0 {
        lemma_net_is_count_diff(s.drop_last());
    }
}

proof fn lemma_no_brackets_flat(s: Seq<char>)
    requires
        no_brackets(s),
    ensures
        net_depth(s) == 0,
        peak_depth(s) == 0,
        count_char(s, '<') == 0,
        count_char(s, '>') == 0,
    decreases s.len(),
{
    if s.len() > 0 {
        assert(no_brackets(s.drop_last())) by {
            assert(forall|k: int|
                0 <= k < s.len() - 1 ==> s.drop_last()[k] == #[trigger] s[k]);
        }
        lemma_no_brackets_flat(s.drop_last());
        assert(bracket_delta(s.last()) == 0);
    }
}

/// The text of a plain primitive leaf (aliased or not) holds no brackets.
proof fn lemma_primitive_text_no_brackets(t: TypeName)
    requires
        typename_plain(t),
        t is Primitive,
    ensures
        no_brackets(typename_adoc(t)),
{
    reveal_strlit("Map");
    reveal_strlit("HashMap");
    reveal_strlit("BTreeMap");
}

proof fn lemma_typename_net(t: TypeName)
    requires
        typename_plain(t),
    ensures
        net_depth(typename_adoc(t)) == 0,
{
    match t {
        TypeName::Primitive(_) => {
            lemma_primitive_text_no_brackets(t);
            lemma_no_brackets_flat(typename_adoc(t));
        },
        TypeName::Link(name) => {
            reveal_strlit("<<");
            reveal_strlit(">>");
            let open_anchor = "<<"@;
            let close_anchor = ">>"@;
            assert(net_depth(open_anchor) == 2) by {
                reveal_with_fuel(net_depth, 3);
                assert(open_anchor.drop_last() =~= seq!['<']);
                assert(seq!['<'].drop_last() =~= Seq::<char>::empty());
            }
            assert(net_depth(close_anchor) == -2) by {
                reveal_with_fuel(net_depth, 3);
                assert(close_anchor.drop_last() =~= seq!['>']);
                assert(seq!['>'].drop_last() =~= Seq::<char>::empty());
            }
            lemma_no_brackets_flat(name@);
            lemma_net_depth_concat(open_anchor, name@);
            lemma_net_depth_concat(open_anchor + name@, close_anchor);
        },
    }
}

proof fn lemma_type_net(t: Type)
    requires
        type_names_plain(t),
    ensures
        net_depth(type_adoc(t)) == 0,
    decreases t,
{
    match t {
        Type::Flat(name) => {
            lemma_typename_net(name);
        },
        Type::Nested { container_name, nested } => {
            assert(decreases_to!(t => t->Nested_nested));
            lemma_typename_net(container_name);
            lemma_type_list_net(nested@);
            reveal_strlit("<");
            reveal_strlit(">");
            assert(net_depth("<"@) == 1) by {
                reveal_with_fuel(net_depth, 2);
                assert("<"@.drop_last() =~= Seq::<char>::empty());
            }
            assert(net_depth(">"@) == -1) by {
                reveal_with_fuel(net_depth, 2);
                assert(">"@.drop_last() =~= Seq::<char>::empty());
            }
            let tn = typename_adoc(container_name);
            lemma_net_depth_concat(tn, "<"@);
            lemma_net_depth_concat(tn + "<"@, type_list_adoc(nested@));
            lemma_net_depth_concat(tn + "<"@ + type_list_adoc(nested@), ">"@);
        },
    }
}

proof fn lemma_type_list_net(ts: Seq<Type>)
    requires
        type_list_names_plain(ts),
    ensures
        net_depth(type_list_adoc(ts)) == 0,
    decreases ts,
{
    if ts.len() == 0 {
    } else if ts.len() == 1 {
        assert(ts[0] == ts.last());
        lemma_type_net(ts[0]);
    } else {
        lemma_type_list_net(ts.drop_last());
        lemma_type_net(ts.last());
        reveal_strlit(", ");
        assert(no_brackets(", "@));
        lemma_no_brackets_flat(", "@);
        lemma_net_depth_concat(type_list_adoc(ts.drop_last()), ", "@);
        lemma_net_depth_concat(type_list_adoc(ts.drop_last()) + ", "@, type_adoc(ts.last()));
    }
}

/// The angle brackets of a rendered type are balanced: as many opening as
/// closing brackets, provided the names themselves carry none. (A name
/// such as `"<"` would unbalance the text; nothing else can.)
pub proof fn lemma_type_brackets_balanced(t: Type)
    requires
        type_names_plain(t),
    ensures
        count_char(type_adoc(t), '<') == count_char(type_adoc(t), '>'),
{
    lemma_type_net(t);
    lemma_net_is_count_diff(type_adoc(t));
}

proof fn lemma_type_peak(t: Type)
    requires
        type_names_plain(t),
        type_link_free(t),
    ensures
        peak_depth(type_adoc(t)) == type_depth(t),
        net_depth(type_adoc(t)) == 0,
    decreases t,
{
    lemma_type_net(t);
    match t {
        Type::Flat(name) => {
            lemma_primitive_text_no_brackets(name);
            lemma_no_brackets_flat(typename_adoc(name));
        },
        Type::Nested { container_name, nested } => {
            assert(decreases_to!(t => t->Nested_nested));
            lemma_primitive_text_no_brackets(container_name);
            lemma_no_brackets_flat(typename_adoc(container_name));
            lemma_type_list_peak(nested@);
            lemma_type_list_net(nested@);
            reveal_strlit("<");
            reveal_strlit(">");
            assert(net_depth("<"@) == 1 && peak_depth("<"@) == 1) by {
                reveal_with_fuel(net_depth, 2);
                reveal_with_fuel(peak_depth, 2);
                assert("<"@.drop_last() =~= Seq::<char>::empty());
            }
            assert(net_depth(">"@) == -1 && peak_depth(">"@) == 0) by {
                reveal_with_fuel(net_depth, 2);
                reveal_with_fuel(peak_depth, 2);
                assert(">"@.drop_last() =~= Seq::<char>::empty());
            }
            let tn = typename_adoc(container_name);
            let lst = type_list_adoc(nested@);
            lemma_peak_depth_bounds(lst);
            lemma_net_depth_concat(tn, "<"@);
            lemma_net_depth_concat(tn + "<"@, lst);
            lemma_peak_depth_concat(tn, "<"@);
            lemma_peak_depth_concat(tn + "<"@, lst);
            lemma_peak_depth_concat(tn + "<"@ + lst, ">"@);
        },
    }
}

proof fn lemma_type_list_peak(ts: Seq<Type>)
    requires
        type_list_names_plain(ts),
        type_list_link_free(ts),
    ensures
        peak_depth(type_list_adoc(ts)) == type_list_depth(ts),
        net_depth(type_list_adoc(ts)) == 0,
        type_list_depth(ts) >= 0,
    decreases ts,
{
    lemma_type_list_net(ts);
    if ts.len() == 0 {
    } else if ts.len() == 1 {
        assert(ts[0] == ts.last());
        lemma_type_peak(ts[0]);
        lemma_peak_depth_bounds(type_adoc(ts[0]));
        assert(type_list_depth(ts) == type_depth(ts[0])) by {
            reveal_with_fuel(type_list_depth, 2);
            assert(ts.drop_last() =~= Seq::<Type>::empty());
        }
    } else {
        lemma_type_list_peak(ts.drop_last());
        lemma_type_peak(ts.last());
        lemma_peak_depth_bounds(type_adoc(ts.last()));
        reveal_strlit(", ");
        assert(no_brackets(", "@));
        lemma_no_brackets_flat(", "@);
        let front = type_list_adoc(ts.drop_last());
        lemma_net_depth_concat(front, ", "@);
        lemma_peak_depth_concat(front, ", "@);
        lemma_peak_depth_concat(front + ", "@, type_adoc(ts.last()));
    }
}

/// The bracket nesting depth of a rendered type equals the nesting depth
/// of the type tree itself, provided the names carry no brackets of their
/// own and no leaf is a link (a link's anchor syntax adds two bracket
/// levels at a leaf).
pub proof fn lemma_type_bracket_depth(t: Type)
    requires
        type_names_plain(t),
        type_link_free(t),
    ensures
        peak_depth(type_adoc(t)) == type_depth(t),
{
    lemma_type_peak(t);
}

/// Every rendered field carries exactly the annotation its `required`
/// flag calls for: `_(required)_` when it is set, `_(optional)_` when it
/// is not, right after the backquoted name.
pub proof fn lemma_field_has_marker(f: Field)
    ensures
        f.required ==> contains_seq(field_adoc(f), " _(required)_"@),
        !f.required ==> contains_seq(field_adoc(f), " _(optional)_"@),
{
    let s = field_adoc(f);
    let pre = "* `"@ + f.name@ + "`"@;
    let pat = required_marker(f.required);
    let k = pre.len() as int;
    assert(s.subrange(k, k + pat.len()) =~= pat);
    assert(0 <= k && k + pat.len() <= s.len());
    assert(contains_seq(s, pat));
}

/// No character of `s` is `c`.
pub open spec fn char_free(s: Seq<char>, c: char) -> bool {
    forall|k: int| 0 <= k < s.len() ==> #[trigger] s[k] != c
}

/// The name inside a leaf holds no parenthesis.
pub open spec fn typename_paren_free(t: TypeName) -> bool {
    match t {
        TypeName::Primitive(name) => char_free(name@, '('),
        TypeName::Link(name) => char_free(name@, '('),
    }
}

/// No name anywhere in the type tree holds a parenthesis.
pub open spec fn type_paren_free(t: Type) -> bool
    decreases t,
{
    match t {
        Type::Flat(name) => typename_paren_free(name),
        Type::Nested { container_name, nested } => typename_paren_free(container_name)
            && type_list_paren_free(nested@),
    }
}

/// No name anywhere in a sequence of type trees holds a parenthesis.
pub open spec fn type_list_paren_free(ts: Seq<Type>) -> bool
    decreases ts,
{
    if ts.len() == 0 {
        true
    } else {
        type_list_paren_free(ts.drop_last()) && type_paren_free(ts.last())
    }
}

/// Neither the language tag nor the content of the example holds a
/// parenthesis.
pub open spec fn example_paren_free(e: Example) -> bool {
    char_free(e.lang@, '(') && char_free(e.content@, '(')
}

/// No example in the sequence holds a parenthesis.
pub open spec fn examples_paren_free(es: Seq<Example>) -> bool
    decreases es,
{
    if es.len() == 0 {
        true
    } else {
        examples_paren_free(es.drop_last()) && example_paren_free(es.last())
    }
}

proof fn lemma_char_free_concat(a: Seq<char>, b: Seq<char>, c: char)
    requires
        char_free(a, c),
        char_free(b, c),
    ensures
        char_free(a + b, c),
{
    assert forall|k: int| 0 <= k < (a + b).len() implies (a + b)[k] != c by {
        if k < a.len() {
            assert((a + b)[k] == a[k]);
        } else {
            assert((a + b)[k] == b[k - a.len()]);
        }
    }
}

proof fn lemma_char_free_skip(s: Seq<char>, c: char, i: int)
    requires
        char_free(s, c),
        0 <= i <= s.len(),
    ensures
        char_free(s.skip(i), c),
{
    assert forall|k: int| 0 <= k < s.skip(i).len() implies s.skip(i)[k] != c by {
        assert(s.skip(i)[k] == s[k + i]);
    }
}

proof fn lemma_para_breaks_paren_free(s: Seq<char>)
    requires
        char_free(s, '('),
    ensures
        char_free(para_breaks_to_adoc(s), '('),
    decreases s.len(),
{
    reveal_strlit("\n+\n");
    if s.len() >= 2 && s[0] == '\n' && s[1] == '\n' {
        lemma_char_free_skip(s, '(', 2);
        lemma_para_breaks_paren_free(s.skip(2));
        lemma_char_free_concat("\n+\n"@, para_breaks_to_adoc(s.skip(2)), '(');
    } else if s.len() >= 1 {
        lemma_char_free_skip(s, '(', 1);
        lemma_para_breaks_paren_free(s.skip(1));
        assert(char_free(seq![s[0]], '(')) by {
            assert(s[0] != '(');
        }
        lemma_char_free_concat(seq![s[0]], para_breaks_to_adoc(s.skip(1)), '(');
    }
}

proof fn lemma_typename_text_paren_free(t: TypeName)
    requires
        typename_paren_free(t),
    ensures
        char_free(typename_adoc(t), '('),
{
    reveal_strlit("Map");
    reveal_strlit("<<");
    reveal_strlit(">>");
    match t {
        TypeName::Primitive(_) => {
        },
        TypeName::Link(name) => {
            lemma_char_free_concat("<<"@, name@, '(');
            lemma_char_free_concat("<<"@ + name@, ">>"@, '(');
        },
    }
}

proof fn lemma_type_text_paren_free(t: Type)
    requires
        type_paren_free(t),
    ensures
        char_free(type_adoc(t), '('),
    decreases t,
{
    match t {
        Type::Flat(name) => {
            lemma_typename_text_paren_free(name);
        },
        Type::Nested { container_name, nested } => {
            assert(decreases_to!(t => t->Nested_nested));
            lemma_typename_text_paren_free(container_name);
            lemma_type_list_text_paren_free(nested@);
            reveal_strlit("<");
            reveal_strlit(">");
            let tn = typename_adoc(container_name);
            lemma_char_free_concat(tn, "<"@, '(');
            lemma_char_free_concat(tn + "<"@, type_list_adoc(nested@), '(');
            lemma_char_free_concat(tn + "<"@ + type_list_adoc(nested@), ">"@, '(');
        },
    }
}

proof fn lemma_type_list_text_paren_free(ts: Seq<Type>)
    requires
        type_list_paren_free(ts),
    ensures
        char_free(type_list_adoc(ts), '('),
    decreases ts,
{
    if ts.len() == 0 {
    } else if ts.len() == 1 {
        assert(ts[0] == ts.last());
        lemma_type_text_paren_free(ts[0]);
    } else {
        lemma_type_list_text_paren_free(ts.drop_last());
        lemma_type_text_paren_free(ts.last());
        reveal_strlit(", ");
        lemma_char_free_concat(type_list_adoc(ts.drop_last()), ", "@, '(');
        lemma_char_free_concat(type_list_adoc(ts.drop_last()) + ", "@, type_adoc(ts.last()), '(');
    }
}

proof fn lemma_example_text_paren_free(e: Example)
    requires
        example_paren_free(e),
    ensures
        char_free(example_adoc(e), '('),
{
    reveal_strlit(".Example\n[source,");
    reveal_strlit("]\n----\n");
    reveal_strlit("\n----\n");
    lemma_char_free_concat(".Example\n[source,"@, e.lang@, '(');
    lemma_char_free_concat(".Example\n[source,"@ + e.lang@, "]\n----\n"@, '(');
    lemma_char_free_concat(".Example\n[source,"@ + e.lang@ + "]\n----\n"@, e.content@, '(');
    lemma_char_free_concat(
        ".Example\n[source,"@ + e.lang@ + "]\n----\n"@ + e.content@,
        "\n----\n"@,
        '(',
    );
}

proof fn lemma_examples_text_paren_free(es: Seq<Example>, after_each: Seq<char>)
    requires
        examples_paren_free(es),
        char_free(after_each, '('),
    ensures
        char_free(examples_adoc(es, after_each), '('),
    decreases es,
{
    if es.len() > 0 {
        lemma_examples_text_paren_free(es.drop_last(), after_each);
        lemma_example_text_paren_free(es.last());
        lemma_char_free_concat(
            examples_adoc(es.drop_last(), after_each),
            example_adoc(es.last()),
            '(',
        );
        lemma_char_free_concat(
            examples_adoc(es.drop_last(), after_each) + example_adoc(es.last()),
            after_each,
            '(',
        );
    }
}

proof fn lemma_marker_shape()
    ensures
        " _(required)_"@.len() == 13,
        " _(optional)_"@.len() == 13,
        " _(required)_"@[2] == '(',
        " _(optional)_"@[2] == '(',
        " _(required)_"@[3] == 'r',
        " _(optional)_"@[3] == 'o',
        forall|j: int| 0 <= j < 13 && j != 2 ==> #[trigger] " _(required)_"@[j] != '(',
        forall|j: int| 0 <= j < 13 && j != 2 ==> #[trigger] " _(optional)_"@[j] != '(',
{
    reveal_strlit(" _(required)_");
    reveal_strlit(" _(optional)_");
}

/// The two annotations are mutually exclusive: a field whose own strings
/// (name, docs, type names, example tags and contents) hold no parenthesis
/// renders with the one marker its `required` flag calls for and never
/// with the other. (A parenthesis elsewhere could spell the other marker
/// out — a field named `x _(required)_ y` would carry both.)
pub proof fn lemma_field_marker_exclusive(f: Field)
    requires
        char_free(f.name@, '('),
        char_free(f.docs@, '('),
        type_paren_free(f.ty),
        examples_paren_free(f.examples@),
    ensures
        f.required ==> !contains_seq(field_adoc(f), " _(optional)_"@),
        !f.required ==> !contains_seq(field_adoc(f), " _(required)_"@),
{
    lemma_marker_shape();
    reveal_strlit("* `");
    reveal_strlit("`");
    reveal_strlit("\n+\nType: `");
    reveal_strlit("`\n");
    reveal_strlit("+\n");
    reveal_strlit("\n");
    let s = field_adoc(f);
    let a = "* `"@ + f.name@ + "`"@;
    let m = required_marker(f.required);
    let other = if f.required {
        " _(optional)_"@
    } else {
        " _(required)_"@
    };
    let docs_part = if f.docs@.len() > 0 {
        "+\n"@ + para_breaks_to_adoc(f.docs@)
    } else {
        Seq::<char>::empty()
    };
    let ex_part = if f.examples@.len() > 0 {
        "+\n"@ + examples_adoc(f.examples@, Seq::<char>::empty()) + "\n"@
    } else {
        Seq::<char>::empty()
    };
    let b = "\n+\nType: `"@ + type_adoc(f.ty) + "`\n"@ + docs_part + ex_part;
    assert(s =~= a + m + b);
    assert(char_free(a, '(')) by {
        lemma_char_free_concat("* `"@, f.name@, '(');
        lemma_char_free_concat("* `"@ + f.name@, "`"@, '(');
    }
    assert(char_free(b, '(')) by {
        lemma_type_text_paren_free(f.ty);
        if f.docs@.len() > 0 {
            lemma_para_breaks_paren_free(f.docs@);
            lemma_char_free_concat("+\n"@, para_breaks_to_adoc(f.docs@), '(');
        }
        if f.examples@.len() > 0 {
            lemma_examples_text_paren_free(f.examples@, Seq::<char>::empty());
            lemma_char_free_concat("+\n"@, examples_adoc(f.examples@, Seq::<char>::empty()), '(');
            lemma_char_free_concat(
                "+\n"@ + examples_adoc(f.examples@, Seq::<char>::empty()),
                "\n"@,
                '(',
            );
        }
        lemma_char_free_concat("\n+\nType: `"@, type_adoc(f.ty), '(');
        lemma_char_free_concat("\n+\nType: `"@ + type_adoc(f.ty), "`\n"@, '(');
        lemma_char_free_concat("\n+\nType: `"@ + type_adoc(f.ty) + "`\n"@, docs_part, '(');
        lemma_char_free_concat(
            "\n+\nType: `"@ + type_adoc(f.ty) + "`\n"@ + docs_part,
            ex_part,
            '(',
        );
    }
    assert forall|p: int| 0 <= p < s.len() && #[trigger] s[p] == '(' implies p == a.len() + 2 by {
        if p < a.len() {
            assert(s[p] == a[p]);
        } else if p < a.len() + m.len() {
            assert(s[p] == m[p - a.len()]);
        } else {
            assert(s[p] == b[p - a.len() - m.len()]);
        }
    }
    if contains_seq(s, other) {
        let k = choose|k: int|
            0 <= k && k + other.len() <= s.len() && #[trigger] s.subrange(k, k + other.len())
                == other;
        assert(s[k + 2] == s.subrange(k, k + other.len())[2]);
        assert(s[k + 2] == '(');
        assert(k == a.len());
        assert(s[k + 3] == s.subrange(k, k + other.len())[3]);
        assert(s[a.len() as int + 3] == m[3]);
        assert(false);
    }
}

/// A structure without fields renders without the `.Fields` block title:
/// the document is exactly the title, the description, the examples, and
/// the trailing blank line.
pub proof fn lemma_no_fields_no_title(s: Struct)
    requires
        s.fields@.len() == 0,
    ensures
        struct_adoc(s) == "= "@ + s.name@ + "\n\n"@ + s.docs@ + "\n\n"@ + examples_adoc(
            s.examples@,
            "\n"@,
        ) + "\n"@,
{
    assert(struct_adoc(s) =~= "= "@ + s.name@ + "\n\n"@ + s.docs@ + "\n\n"@ + examples_adoc(
        s.examples@,
        "\n"@,
    ) + "\n"@);
}

/// Rendering is deterministic: the text is a function of the structure
/// value alone, so rendering the same value into two separate sinks
/// appends byte-identical text both times.
pub proof fn lemma_render_deterministic(s: Struct, first: Seq<char>, second: Seq<char>)
    requires
        first == struct_adoc(s),
        second == struct_adoc(s),
    ensures
        first == second,
{
}

} // verus!
