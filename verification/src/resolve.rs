//! The type resolver: given a schema document, a parent type name and a field
//! name, the declared result type of that field with list / non-null wrapper
//! layers removed.  A pure lookup; `None` when the parent type is not an
//! object type of the schema or has no field of that name.

use vstd::prelude::*;

use crate::ast::{FieldDef, SchemaDef, SchemaDoc, TypeRef};
use crate::strutil::str_eq;

verus! {

/// The declared type of the first field named `field` in `fields`, if any.
pub open spec fn field_type_in(fields: Seq<FieldDef>, field: Seq<char>) -> Option<TypeRef>
    decreases fields.len(),
{
    if fields.len() == 0 {
        None
    } else if fields[0].name@ == field {
        Some(fields[0].ty)
    } else {
        field_type_in(fields.drop_first(), field)
    }
}

/// The bare result type of `field` on the object type `parent`, scanning the
/// schema definitions in order.  An object type named `parent` without such a
/// field does not end the scan: a later definition may still supply it.
pub open spec fn resolve_in(defs: Seq<SchemaDef>, parent: Seq<char>, field: Seq<char>) -> Option<
    Seq<char>,
>
    decreases defs.len(),
{
    if defs.len() == 0 {
        None
    } else {
        match defs[0] {
            SchemaDef::Object(obj) => {
                if obj.name@ == parent {
                    match field_type_in(obj.fields@, field) {
                        Some(ty) => Some(ty.base()),
                        None => resolve_in(defs.drop_first(), parent, field),
                    }
                } else {
                    resolve_in(defs.drop_first(), parent, field)
                }
            },
            SchemaDef::Other => resolve_in(defs.drop_first(), parent, field),
        }
    }
}

/// The bare result type of `field` on `parent` in `schema`, if the schema
/// declares it.
pub open spec fn spec_field_type(schema: SchemaDoc, parent: Seq<char>, field: Seq<char>) -> Option<
    Seq<char>,
> {
    resolve_in(schema.defs@, parent, field)
}

/// The named type at the bottom of the wrapper layers of `t`.
pub fn type_base_name(t: &TypeRef) -> (r: &String)
    ensures
        r@ == t.base(),
    decreases t,
{
    match t {
        TypeRef::Named(n) => n,
        TypeRef::List(inner) => type_base_name(&**inner),
        TypeRef::NonNull(inner) => type_base_name(&**inner),
    }
}

/// The declared type of the first field named `field` in `fields`, if any.
fn field_lookup<'a>(fields: &'a Vec<FieldDef>, field: &str) -> (r: Option<&'a TypeRef>)
    ensures
        match r {
            Some(ty) => field_type_in(fields@, field@) == Some(*ty),
            None => field_type_in(fields@, field@) is None,
        },
{
    let n = fields.len();
    proof {
        assert(fields@.skip(0) =~= fields@);
    }
    for i in 0..n
        invariant
            n == fields@.len(),
            field_type_in(fields@, field@) == field_type_in(fields@.skip(i as int), field@),
    {
        proof {
            assert(fields@.skip(i as int)[0] == fields@[i as int]);
        }
        if str_eq(fields[i].name.as_str(), field) {
            return Some(&fields[i].ty);
        }
        proof {
            assert(fields@.skip(i as int).drop_first() =~= fields@.skip(i + 1));
        }
    }
    None
}

/// The field's bare result type on `parent_type`, looked up in `schema_doc`:
/// the first object type named `parent_type` that declares `field_name`
/// supplies the type, with wrapper layers removed.
pub fn get_field_type(field_name: &str, schema_doc: &SchemaDoc, parent_type: &str) -> (r: Option<
    String,
>)
    ensures
        match r {
            Some(s) => spec_field_type(*schema_doc, parent_type@, field_name@) == Some(s@),
            None => spec_field_type(*schema_doc, parent_type@, field_name@) is None,
        },
{
    let n = schema_doc.defs.len();
    proof {
        assert(schema_doc.defs@.skip(0) =~= schema_doc.defs@);
    }
    for i in 0..n
        invariant
            n == schema_doc.defs@.len(),
            resolve_in(schema_doc.defs@, parent_type@, field_name@) == resolve_in(
                schema_doc.defs@.skip(i as int),
                parent_type@,
                field_name@,
            ),
    {
        proof {
            assert(schema_doc.defs@.skip(i as int)[0] == schema_doc.defs@[i as int]);
            assert(schema_doc.defs@.skip(i as int).drop_first() =~= schema_doc.defs@.skip(i + 1));
        }
        match &schema_doc.defs[i] {
            SchemaDef::Object(obj) => {
                if str_eq(obj.name.as_str(), parent_type) {
                    match field_lookup(&obj.fields, field_name) {
                        Some(ty) => {
                            return Some(type_base_name(ty).clone());
                        },
                        None => {},
                    }
                }
            },
            SchemaDef::Other => {},
        }
    }
    None
}

} // verus!
