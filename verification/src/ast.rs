//! The library's own model of schema and query documents.
//!
//! Schema side: a document is an ordered list of type definitions; only
//! object types carry structure the validator consults (name and fields),
//! every other kind of definition is opaque.  A field's declared type is a
//! named type under zero or more list / non-null wrapper layers.
//!
//! Query side: a document is an ordered list of definitions, each an
//! operation (query, mutation or subscription with a root selection set) or
//! a named fragment definition.  A selection is a field with a nested
//! selection set, an inline fragment, or a spread of a named fragment.

use vstd::prelude::*;

verus! {

/// A type reference as written in a schema field declaration: a bare named
/// type, or a type reference under a list or non-null wrapper.
#[derive(Debug)]
pub enum TypeRef {
    Named(String),
    List(Box<TypeRef>),
    NonNull(Box<TypeRef>),
}

impl TypeRef {
    /// The bare named type at the bottom of the wrapper layers.
    pub open spec fn base(self) -> Seq<char>
        decreases self,
    {
        match self {
            TypeRef::Named(n) => n@,
            TypeRef::List(inner) => (*inner).base(),
            TypeRef::NonNull(inner) => (*inner).base(),
        }
    }
}

/// A field declaration of an object type: its name and its declared type.
#[derive(Debug)]
pub struct FieldDef {
    pub name: String,
    pub ty: TypeRef,
}

/// An object type definition: its name and its ordered field declarations.
#[derive(Debug)]
pub struct SchemaObject {
    pub name: String,
    pub fields: Vec<FieldDef>,
}

/// One definition of a schema document.  Only object types are consulted by
/// the validator; every other kind (scalar, enum, interface, union, input
/// object, extensions, directive and schema declarations) is opaque.
#[derive(Debug)]
pub enum SchemaDef {
    Object(SchemaObject),
    Other,
}

/// A parsed schema document: its definitions in order.
#[derive(Debug)]
pub struct SchemaDoc {
    pub defs: Vec<SchemaDef>,
}

/// The kind of an operation definition.
#[derive(Debug, Clone, Copy, PartialEq, Eq, Structural)]
pub enum OpKind {
    Query,
    Mutation,
    Subscription,
}

/// One selection of a selection set.
#[derive(Debug)]
pub enum SelectionItem {
    /// A field selection: field name and nested selection set (possibly empty).
    Field { name: String, sub: Vec<SelectionItem> },
    /// An inline fragment: optional type condition and nested selection set.
    Inline { cond: Option<String>, sub: Vec<SelectionItem> },
    /// A spread of a named fragment, by name.
    Spread { name: String },
}

/// One definition of a query document.
#[derive(Debug)]
pub enum QueryDef {
    /// An operation with its root selection set.
    Operation { kind: OpKind, sel: Vec<SelectionItem> },
    /// A named fragment definition with its type condition and body.
    Fragment { name: String, cond: String, sel: Vec<SelectionItem> },
}

/// A parsed query document: its definitions in order.
#[derive(Debug)]
pub struct QueryDoc {
    pub defs: Vec<QueryDef>,
}

} // verus!
