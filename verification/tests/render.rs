use adoc_render::model::{Example, Field, Struct, Type, TypeName};
use adoc_render::render::{render_struct, write_example, write_field, write_type, write_typename, ToAdoc};

fn prim(name: &str) -> TypeName {
    TypeName::Primitive(name.to_string())
}

fn flat(name: &str) -> Type {
    Type::Flat(prim(name))
}

fn render_type(t: &Type) -> String {
    let mut out = String::new();
    write_type(t, &mut out);
    out
}

fn field(name: &str, required: bool, ty: Type, docs: &str, examples: Vec<Example>) -> Field {
    Field { name: name.to_string(), required, ty, docs: docs.to_string(), examples }
}

#[test]
fn hash_map_is_aliased() {
    assert_eq!(render_type(&flat("HashMap")), "Map");
}

#[test]
fn btree_map_is_aliased() {
    assert_eq!(render_type(&flat("BTreeMap")), "Map");
}

#[test]
fn other_primitives_pass_through() {
    assert_eq!(render_type(&flat("String")), "String");
    assert_eq!(render_type(&flat("hashmap")), "hashmap");
}

#[test]
fn link_renders_as_anchor() {
    assert_eq!(render_type(&Type::Flat(TypeName::Link("Foo".to_string()))), "<<Foo>>");
}

#[test]
fn nested_map_inside_vec() {
    let t = Type::Nested { container_name: prim("Vec"), nested: vec![flat("HashMap")] };
    assert_eq!(render_type(&t), "Vec<Map>");
}

#[test]
fn nested_arguments_are_comma_separated() {
    let t = Type::Nested {
        container_name: prim("HashMap"),
        nested: vec![flat("String"), flat("u32")],
    };
    assert_eq!(render_type(&t), "Map<String, u32>");
}

#[test]
fn empty_argument_list_renders_empty_brackets() {
    let t = Type::Nested { container_name: prim("Vec"), nested: vec![] };
    assert_eq!(render_type(&t), "Vec<>");
}

#[test]
fn brackets_balance_and_nest_with_the_tree() {
    let deep = Type::Nested {
        container_name: prim("Outer"),
        nested: vec![
            Type::Nested {
                container_name: prim("Mid"),
                nested: vec![Type::Nested { container_name: prim("Inner"), nested: vec![flat("u8")] }],
            },
            flat("bool"),
        ],
    };
    let text = render_type(&deep);
    assert_eq!(text, "Outer<Mid<Inner<u8>>, bool>");
    let opens = text.chars().filter(|c| *c == '<').count();
    let closes = text.chars().filter(|c| *c == '>').count();
    assert_eq!(opens, closes);
    let mut depth = 0i64;
    let mut peak = 0i64;
    for c in text.chars() {
        if c == '<' {
            depth += 1;
        }
        if c == '>' {
            depth -= 1;
        }
        if depth > peak {
            peak = depth;
        }
    }
    assert_eq!(depth, 0);
    assert_eq!(peak, 3);
}

#[test]
fn example_renders_as_fenced_block() {
    let e = Example { lang: "toml".to_string(), content: "x = 1".to_string() };
    let mut out = String::new();
    write_example(&e, &mut out);
    assert_eq!(out, ".Example\n[source,toml]\n----\nx = 1\n----\n");
}

#[test]
fn paragraph_breaks_become_continuation_lines() {
    let f = field("x", false, flat("u32"), "para one\n\npara two", vec![]);
    let mut out = String::new();
    write_field(&f, &mut out);
    assert_eq!(out, "* `x` _(optional)_\n+\nType: `u32`\n+\npara one\n+\npara two");
    // the blank line is gone and no other blank line appears
    assert!(!out.contains("\n\n"));
    assert!(out.contains("para one\n+\npara two"));
}

#[test]
fn single_newlines_in_docs_are_kept() {
    let f = field("x", true, flat("u32"), "line one\nline two", vec![]);
    let mut out = String::new();
    write_field(&f, &mut out);
    assert!(out.contains("line one\nline two"));
}

#[test]
fn required_field_is_marked_required() {
    let f = field("x", true, flat("u32"), "", vec![]);
    let mut out = String::new();
    write_field(&f, &mut out);
    assert!(out.contains("_(required)_"));
    assert!(!out.contains("_(optional)_"));
}

#[test]
fn optional_field_is_marked_optional() {
    let f = field("x", false, flat("u32"), "", vec![]);
    let mut out = String::new();
    write_field(&f, &mut out);
    assert!(out.contains("_(optional)_"));
    assert!(!out.contains("_(required)_"));
}

#[test]
fn field_examples_attach_to_the_item() {
    let e = Example { lang: "json".to_string(), content: "{}".to_string() };
    let f = field("x", true, flat("u32"), "", vec![e]);
    let mut out = String::new();
    write_field(&f, &mut out);
    assert_eq!(
        out,
        "* `x` _(required)_\n+\nType: `u32`\n+\n.Example\n[source,json]\n----\n{}\n----\n\n"
    );
}

#[test]
fn struct_without_fields_omits_the_fields_title() {
    let s = Struct {
        name: "Empty".to_string(),
        docs: "Nothing here.".to_string(),
        examples: vec![],
        fields: vec![],
    };
    let text = render_struct(&s);
    assert!(!text.contains(".Fields"));
    assert_eq!(text, "= Empty\n\nNothing here.\n\n\n");
}

#[test]
fn struct_examples_come_before_the_fields() {
    let e = Example { lang: "yaml".to_string(), content: "a: 1".to_string() };
    let s = Struct {
        name: "WithExample".to_string(),
        docs: "Doc.".to_string(),
        examples: vec![e],
        fields: vec![field("a", true, flat("u32"), "", vec![])],
    };
    let text = render_struct(&s);
    assert_eq!(
        text,
        "= WithExample\n\nDoc.\n\n.Example\n[source,yaml]\n----\na: 1\n----\n\n\
         .Fields\n* `a` _(required)_\n+\nType: `u32`\n\n"
    );
}

#[test]
fn rendering_twice_is_byte_identical() {
    let s = Struct {
        name: "Twice".to_string(),
        docs: "Same either way.".to_string(),
        examples: vec![Example { lang: "sh".to_string(), content: "true".to_string() }],
        fields: vec![field("a", false, flat("String"), "doc\n\nmore", vec![])],
    };
    let mut first = String::new();
    let mut second = String::new();
    s.write_adoc(&mut first);
    s.write_adoc(&mut second);
    assert_eq!(first, second);
}

#[test]
fn write_adoc_appends_to_the_sink() {
    let mut out = String::new();
    prim("u8").write_adoc(&mut out);
    flat("u16").write_adoc(&mut out);
    assert_eq!(out, "u8u16");
}

#[test]
fn config_document_end_to_end() {
    let s = Struct {
        name: "Config".to_string(),
        docs: "A config.".to_string(),
        examples: vec![],
        fields: vec![field("path", true, flat("String"), "", vec![])],
    };
    let text = render_struct(&s);
    assert_eq!(text, "= Config\n\nA config.\n\n.Fields\n* `path` _(required)_\n+\nType: `String`\n\n");
    let title_at = text.find("= Config").unwrap();
    let docs_at = text.find("A config.").unwrap();
    let fields_at = text.find(".Fields").unwrap();
    let bullet_at = text.find("* `path` _(required)_").unwrap();
    let type_at = text.find("+\nType: `String`").unwrap();
    assert!(title_at < docs_at && docs_at < fields_at && fields_at < bullet_at && bullet_at < type_at);
}

#[test]
fn empty_docs_add_no_docs_block() {
    let f = field("x", true, flat("u32"), "", vec![]);
    let mut out = String::new();
    write_field(&f, &mut out);
    assert_eq!(out, "* `x` _(required)_\n+\nType: `u32`\n");
}

#[test]
fn typename_writer_matches_type_writer_on_leaves() {
    let mut a = String::new();
    let mut b = String::new();
    write_typename(&prim("BTreeMap"), &mut a);
    write_type(&flat("BTreeMap"), &mut b);
    assert_eq!(a, b);
    assert_eq!(a, "Map");
}
