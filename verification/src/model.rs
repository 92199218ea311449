//! The documentation model: a structure, its fields, their types, and
//! attached code examples. All values are built once by the caller and are
//! only read during rendering.

use vstd::prelude::*;

verus! {

/// A leaf type identifier: either a bare type name (subject to display
/// aliasing) or a cross-reference to another documented structure.
pub enum TypeName {
    Primitive(String),
    Link(String),
}

/// A possibly-generic type expression: a leaf, or a container name wrapping
/// an ordered sequence of type arguments, each itself a full `Type`.
pub enum Type {
    Flat(TypeName),
    Nested { container_name: TypeName, nested: Vec<Type> },
}

/// A labeled literal code sample: a language tag and verbatim content.
pub struct Example {
    pub lang: String,
    pub content: String,
}

/// One named member of a `Struct`, with its type, prose documentation
/// (possibly several blank-line-separated paragraphs), and examples.
pub struct Field {
    pub name: String,
    pub required: bool,
    pub ty: Type,
    pub docs: String,
    pub examples: Vec<Example>,
}

/// The top-level documented entity: name, prose description, top-level
/// examples, and the ordered list of fields. Field order is meaningful and
/// is preserved by rendering.
pub struct Struct {
    pub name: String,
    pub docs: String,
    pub examples: Vec<Example>,
    pub fields: Vec<Field>,
}

} // verus!
