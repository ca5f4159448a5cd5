//! Parsing of query and schema text, through the graphql-parser crate.
//!
//! The parser's abstract syntax trees are converted, field for field, into
//! the library's own model: an operation or fragment definition into
//! [`QueryDef`](crate::ast::QueryDef), a selection into
//! [`SelectionItem`](crate::ast::SelectionItem), an object type definition
//! into [`SchemaObject`](crate::ast::SchemaObject) and every other kind of
//! schema definition into [`SchemaDef::Other`](crate::ast::SchemaDef).
//! Aliases, arguments, directives and variable definitions carry no weight
//! in field-selection containment and are not represented.
//!
//! The parsed nodes pass between the conversion steps inside opaque holder
//! structs: their generic parameters carry a bound on the parser's own text
//! trait, which cannot be declared here.
//!
//! What a parse returns is a function of the text alone; the contracts name
//! the two results `parsed_query` and `parsed_schema`, and the validator's
//! own contracts are stated over the parsed documents themselves.

use vstd::prelude::*;

use crate::ast::{
    FieldDef, OpKind, QueryDef, QueryDoc, SchemaDef, SchemaDoc, SchemaObject, SelectionItem,
    TypeRef,
};
use graphql_parser::query::{OperationDefinition, TypeCondition};

verus! {

/// Holds one parsed query definition of graphql_parser.
#[verifier::external_body]
struct RawDef {
    inner: graphql_parser::query::Definition<'static, String>,
}

/// Holds one parsed operation definition of graphql_parser.
#[verifier::external_body]
struct RawOp {
    inner: OperationDefinition<'static, String>,
}

/// Holds one parsed selection of graphql_parser.
#[verifier::external_body]
struct RawSel {
    inner: graphql_parser::query::Selection<'static, String>,
}

/// Holds one parsed selection set of graphql_parser.
#[verifier::external_body]
struct RawSels {
    inner: graphql_parser::query::SelectionSet<'static, String>,
}

/// Holds one parsed type reference of graphql_parser.
#[verifier::external_body]
struct RawTy {
    inner: graphql_parser::query::Type<'static, String>,
}

/// Holds one parsed schema definition of graphql_parser.
#[verifier::external_body]
struct RawSchemaDef {
    inner: graphql_parser::schema::Definition<'static, String>,
}

/// Holds one parsed schema field declaration of graphql_parser.
#[verifier::external_body]
struct RawSchemaField {
    inner: graphql_parser::schema::Field<'static, String>,
}

/// Moves graphql_parser's type reference into the library's form, wrapper
/// layer by wrapper layer.
#[verifier::external_body]
fn conv_type(t: RawTy) -> TypeRef {
    match t.inner {
        graphql_parser::query::Type::NamedType(n) => TypeRef::Named(n),
        graphql_parser::query::Type::ListType(b) => TypeRef::List(
            Box::new(conv_type(RawTy { inner: *b })),
        ),
        graphql_parser::query::Type::NonNullType(b) => TypeRef::NonNull(
            Box::new(conv_type(RawTy { inner: *b })),
        ),
    }
}

/// Moves graphql_parser's field declaration into the library's form: its
/// name and its declared type.
#[verifier::external_body]
fn conv_schema_field(f: RawSchemaField) -> FieldDef {
    FieldDef { name: f.inner.name, ty: conv_type(RawTy { inner: f.inner.field_type }) }
}

/// Moves graphql_parser's schema definition into the library's form: an
/// object type keeps its name and fields, every other kind is opaque.
#[verifier::external_body]
fn conv_schema_def(d: RawSchemaDef) -> SchemaDef {
    match d.inner {
        graphql_parser::schema::Definition::TypeDefinition(
            graphql_parser::schema::TypeDefinition::Object(o),
        ) => SchemaDef::Object(SchemaObject {
            name: o.name,
            fields: o.fields.into_iter().map(
                |f| conv_schema_field(RawSchemaField { inner: f }),
            ).collect(),
        }),
        _ => SchemaDef::Other,
    }
}

/// Moves graphql_parser's selection set into the library's form, item by
/// item.
#[verifier::external_body]
fn conv_selection_set(ss: RawSels) -> Vec<SelectionItem> {
    ss.inner.items.into_iter().map(|s| conv_selection(RawSel { inner: s })).collect()
}

/// Moves graphql_parser's selection into the library's form: a field keeps
/// its name and nested selections, an inline fragment its optional type
/// condition, a fragment spread the fragment's name.
#[verifier::external_body]
fn conv_selection(s: RawSel) -> SelectionItem {
    match s.inner {
        graphql_parser::query::Selection::Field(f) => SelectionItem::Field {
            name: f.name,
            sub: conv_selection_set(RawSels { inner: f.selection_set }),
        },
        graphql_parser::query::Selection::FragmentSpread(sp) => SelectionItem::Spread {
            name: sp.fragment_name,
        },
        graphql_parser::query::Selection::InlineFragment(inf) => SelectionItem::Inline {
            cond: inf.type_condition.map(|TypeCondition::On(t)| t),
            sub: conv_selection_set(RawSels { inner: inf.selection_set }),
        },
    }
}

/// Moves graphql_parser's operation definition into the library's form:
/// each operation kind keeps its root selection set (a bare selection set
/// is a query).
#[verifier::external_body]
fn conv_operation(op: RawOp) -> QueryDef {
    let (kind, ss) = match op.inner {
        OperationDefinition::SelectionSet(s) => (OpKind::Query, s),
        OperationDefinition::Query(q) => (OpKind::Query, q.selection_set),
        OperationDefinition::Mutation(m) => (OpKind::Mutation, m.selection_set),
        OperationDefinition::Subscription(s) => (OpKind::Subscription, s.selection_set),
    };
    QueryDef::Operation { kind, sel: conv_selection_set(RawSels { inner: ss }) }
}

/// Moves graphql_parser's query definition into the library's form: an
/// operation through its kind, a fragment definition with its name, type
/// condition and body.
#[verifier::external_body]
fn conv_definition(d: RawDef) -> QueryDef {
    match d.inner {
        graphql_parser::query::Definition::Operation(op) => conv_operation(RawOp { inner: op }),
        graphql_parser::query::Definition::Fragment(f) => QueryDef::Fragment {
            name: f.name,
            cond: match f.type_condition { TypeCondition::On(t) => t },
            sel: conv_selection_set(RawSels { inner: f.selection_set }),
        },
    }
}

/// The query document that parsing yields on the text `s`, converted to the
/// library's model, or `None` on malformed text.  A pure function of the
/// text.
pub uninterp spec fn parsed_query(s: Seq<char>) -> Option<QueryDoc>;

/// The schema document that parsing yields on the text `s`, converted to the
/// library's model, or `None` on malformed text.  A pure function of the
/// text.
pub uninterp spec fn parsed_schema(s: Seq<char>) -> Option<SchemaDoc>;

/// Relies on graphql_parser::parse_query: parses the query text, or returns
/// an error on malformed text; the result depends on the text alone.
#[verifier::external_body]
fn parse_query_raw(text: &str) -> (r: Option<QueryDoc>)
    ensures
        r == parsed_query(text@),
{
    match graphql_parser::parse_query::<String>(text) {
        Ok(d) => Some(QueryDoc {
            defs: d.into_static().definitions.into_iter().map(
                |x| conv_definition(RawDef { inner: x }),
            ).collect(),
        }),
        Err(_) => None,
    }
}

/// Relies on graphql_parser::parse_schema: parses the schema text, or
/// returns an error on malformed text; the result depends on the text alone.
#[verifier::external_body]
fn parse_schema_raw(text: &str) -> (r: Option<SchemaDoc>)
    ensures
        r == parsed_schema(text@),
{
    match graphql_parser::parse_schema::<String>(text) {
        Ok(d) => Some(SchemaDoc {
            defs: d.into_static().definitions.into_iter().map(
                |x| conv_schema_def(RawSchemaDef { inner: x }),
            ).collect(),
        }),
        Err(_) => None,
    }
}

/// The query document parsed from `text`, or `None` on malformed text.
pub fn parse_query_doc(text: &str) -> (r: Option<QueryDoc>)
    ensures
        r == parsed_query(text@),
{
    parse_query_raw(text)
}

/// The schema document parsed from `text`, or `None` on malformed text.
pub fn parse_schema_doc(text: &str) -> (r: Option<SchemaDoc>)
    ensures
        r == parsed_schema(text@),
{
    parse_schema_raw(text)
}

} // verus!
