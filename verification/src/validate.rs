//! The selection validator: checks a query's selection sets against the
//! allow-list, descending into nested object types through the type resolver.
//!
//! Per selection:
//! - the meta-field `__typename` is permitted on every type; it settles this
//!   one selection only, and the walk continues with its siblings;
//! - any other field requires an allow-list entry for the parent type, and
//!   either the wildcard marker or the field's own name in that entry; its
//!   nested selection set is validated against the field's resolved type;
//!   a field listed by name must exist in the schema, leaf or not; under the
//!   wildcard marker a leaf field is accepted without consulting the schema,
//!   while a field with a nested selection set must still resolve, so the
//!   wildcard does not bypass existence where the walk must descend;
//! - an inline fragment is validated under its type condition, or under the
//!   enclosing parent type when it carries none;
//! - a fragment spread is resolved among the document's fragment definitions
//!   and validated under the fragment's own type condition; an unresolved
//!   spread is rejected.
//!
//! Nesting is bounded: each descent into a nested selection set consumes one
//! unit of the given depth budget, and a walk past the budget is rejected
//! with a distinct error.  The budget also bounds fragment spreads, so a
//! cyclic chain of fragments terminates in a rejection rather than looping.
//!
//! At the document level, every operation and every top-level fragment
//! definition must independently pass: a query operation is validated under
//! the root type `Query`, a mutation under `Mutation`, and a fragment
//! definition under its own type condition.  Subscriptions are not validated
//! and pass through; this is a known gap, kept deliberately.

use vstd::prelude::*;

use crate::allowlist::{
    entry_allows, field_list_contains, has_entry, lookup_entry, wildcard, AllowList,
};
use crate::ast::{OpKind, QueryDef, QueryDoc, SchemaDoc, SelectionItem};
use crate::resolve::{get_field_type, spec_field_type};
use crate::strutil::str_eq;

verus! {

/// Why a query document was not accepted.
#[derive(Debug, Clone, Copy, PartialEq, Eq, Structural)]
pub enum ValidationError {
    /// A selected field is not permitted by the allow-list for its parent type.
    NotAllowed,
    /// A field's type could not be resolved against the schema, or a fragment
    /// spread names no fragment definition of the document.
    LookupFailed,
    /// The selection nesting walked past the depth budget.
    TooDeep,
}

/// The type condition and body of the first fragment definition named `name`.
pub open spec fn spec_find_fragment(defs: Seq<QueryDef>, name: Seq<char>) -> Option<
    (Seq<char>, Seq<SelectionItem>),
>
    decreases defs.len(),
{
    if defs.len() == 0 {
        None
    } else {
        match defs[0] {
            QueryDef::Fragment { name: n, cond, sel } => {
                if n@ == name {
                    Some((cond@, sel@))
                } else {
                    spec_find_fragment(defs.drop_first(), name)
                }
            },
            QueryDef::Operation { .. } => spec_find_fragment(defs.drop_first(), name),
        }
    }
}

/// Whether one selection is permitted under `parent`, with `depth` units of
/// nesting budget left for its nested selection sets.
pub open spec fn sel_ok(
    al: AllowList,
    sel: SelectionItem,
    parent: Seq<char>,
    schema: SchemaDoc,
    doc: QueryDoc,
    depth: u64,
) -> Result<(), ValidationError>
    decreases depth, 0int, 0int,
{
    match sel {
        SelectionItem::Field { name, sub } => {
            if name@ == "__typename"@ {
                Ok(())
            } else if !has_entry(al, parent) {
                Err(ValidationError::NotAllowed)
            } else if wildcard(al, parent) {
                if sub@.len() == 0 {
                    Ok(())
                } else {
                    match spec_field_type(schema, parent, name@) {
                        None => Err(ValidationError::LookupFailed),
                        Some(t) => if depth == 0 {
                            Err(ValidationError::TooDeep)
                        } else {
                            set_ok(al, sub@, t, schema, doc, (depth - 1) as u64)
                        },
                    }
                }
            } else if !entry_allows(al, parent, name@) {
                Err(ValidationError::NotAllowed)
            } else {
                match spec_field_type(schema, parent, name@) {
                    None => Err(ValidationError::LookupFailed),
                    Some(t) => if sub@.len() == 0 {
                        Ok(())
                    } else if depth == 0 {
                        Err(ValidationError::TooDeep)
                    } else {
                        set_ok(al, sub@, t, schema, doc, (depth - 1) as u64)
                    },
                }
            }
        },
        SelectionItem::Inline { cond, sub } => {
            let p = match cond {
                Some(c) => c@,
                None => parent,
            };
            if sub@.len() == 0 {
                Ok(())
            } else if depth == 0 {
                Err(ValidationError::TooDeep)
            } else {
                set_ok(al, sub@, p, schema, doc, (depth - 1) as u64)
            }
        },
        SelectionItem::Spread { name } => {
            match spec_find_fragment(doc.defs@, name@) {
                None => Err(ValidationError::LookupFailed),
                Some((c, fsub)) => if fsub.len() == 0 {
                    Ok(())
                } else if depth == 0 {
                    Err(ValidationError::TooDeep)
                } else {
                    set_ok(al, fsub, c, schema, doc, (depth - 1) as u64)
                },
            }
        },
    }
}

/// Whether every selection of `sels` is permitted under `parent`: the first
/// rejection settles the set, an empty set is permitted.
pub open spec fn set_ok(
    al: AllowList,
    sels: Seq<SelectionItem>,
    parent: Seq<char>,
    schema: SchemaDoc,
    doc: QueryDoc,
    depth: u64,
) -> Result<(), ValidationError>
    decreases depth, sels.len(), 1int,
{
    if sels.len() == 0 {
        Ok(())
    } else {
        match sel_ok(al, sels[0], parent, schema, doc, depth) {
            Err(e) => Err(e),
            Ok(_) => set_ok(al, sels.drop_first(), parent, schema, doc, depth),
        }
    }
}

/// Whether one document definition passes: an operation under its root type,
/// a fragment definition under its own type condition, a subscription
/// unconditionally.
pub open spec fn def_ok(
    al: AllowList,
    d: QueryDef,
    schema: SchemaDoc,
    doc: QueryDoc,
    depth: u64,
) -> Result<(), ValidationError> {
    match d {
        QueryDef::Operation { kind, sel } => match kind {
            OpKind::Query => set_ok(al, sel@, "Query"@, schema, doc, depth),
            OpKind::Mutation => set_ok(al, sel@, "Mutation"@, schema, doc, depth),
            OpKind::Subscription => Ok(()),
        },
        QueryDef::Fragment { name: _, cond, sel } => set_ok(al, sel@, cond@, schema, doc, depth),
    }
}

/// Whether every definition of `defs` passes; the first rejection settles it.
pub open spec fn defs_ok(
    al: AllowList,
    defs: Seq<QueryDef>,
    schema: SchemaDoc,
    doc: QueryDoc,
    depth: u64,
) -> Result<(), ValidationError>
    decreases defs.len(),
{
    if defs.len() == 0 {
        Ok(())
    } else {
        match def_ok(al, defs[0], schema, doc, depth) {
            Err(e) => Err(e),
            Ok(_) => defs_ok(al, defs.drop_first(), schema, doc, depth),
        }
    }
}

/// Whether the whole query document passes validation.
pub open spec fn spec_document_ok(
    al: AllowList,
    doc: QueryDoc,
    schema: SchemaDoc,
    depth: u64,
) -> Result<(), ValidationError> {
    defs_ok(al, doc.defs@, schema, doc, depth)
}

/// The type condition and body of the first fragment definition named
/// `name`, or `None`.
fn find_fragment<'a>(defs: &'a Vec<QueryDef>, name: &str) -> (r: Option<
    (&'a String, &'a Vec<SelectionItem>),
>)
    ensures
        match r {
            Some((c, fsub)) => spec_find_fragment(defs@, name@) == Some((c@, fsub@)),
            None => spec_find_fragment(defs@, name@) is None,
        },
{
    let n = defs.len();
    proof {
        assert(defs@.skip(0) =~= defs@);
    }
    for i in 0..n
        invariant
            n == defs@.len(),
            spec_find_fragment(defs@, name@) == spec_find_fragment(defs@.skip(i as int), name@),
    {
        proof {
            assert(defs@.skip(i as int)[0] == defs@[i as int]);
            assert(defs@.skip(i as int).drop_first() =~= defs@.skip(i + 1));
        }
        match &defs[i] {
            QueryDef::Fragment { name: n2, cond, sel } => {
                if str_eq(n2.as_str(), name) {
                    return Some((cond, sel));
                }
            },
            QueryDef::Operation { .. } => {},
        }
    }
    None
}

/// Whether one selection is permitted under `parent_type`.
fn check_selection(
    field_map: &AllowList,
    sel: &SelectionItem,
    parent_type: &str,
    schema_doc: &SchemaDoc,
    query_doc: &QueryDoc,
    depth: u64,
) -> (r: Result<(), ValidationError>)
    ensures
        r == sel_ok(*field_map, *sel, parent_type@, *schema_doc, *query_doc, depth),
    decreases depth, 0int,
{
    match sel {
        SelectionItem::Field { name, sub } => {
            if str_eq(name.as_str(), "__typename") {
                return Ok(());
            }
            let fs = match lookup_entry(field_map, parent_type) {
                None => {
                    return Err(ValidationError::NotAllowed);
                },
                Some(fs) => fs,
            };
            if field_list_contains(fs, "*") {
                if sub.len() == 0 {
                    return Ok(());
                }
                match get_field_type(name.as_str(), schema_doc, parent_type) {
                    None => Err(ValidationError::LookupFailed),
                    Some(t) => {
                        if depth == 0 {
                            return Err(ValidationError::TooDeep);
                        }
                        check_fields_allowed(
                            field_map,
                            sub,
                            t.as_str(),
                            schema_doc,
                            query_doc,
                            depth - 1,
                        )
                    },
                }
            } else if !field_list_contains(fs, name.as_str()) {
                Err(ValidationError::NotAllowed)
            } else {
                match get_field_type(name.as_str(), schema_doc, parent_type) {
                    None => Err(ValidationError::LookupFailed),
                    Some(t) => {
                        if sub.len() == 0 {
                            return Ok(());
                        }
                        if depth == 0 {
                            return Err(ValidationError::TooDeep);
                        }
                        check_fields_allowed(
                            field_map,
                            sub,
                            t.as_str(),
                            schema_doc,
                            query_doc,
                            depth - 1,
                        )
                    },
                }
            }
        },
        SelectionItem::Inline { cond, sub } => {
            if sub.len() == 0 {
                return Ok(());
            }
            if depth == 0 {
                return Err(ValidationError::TooDeep);
            }
            let p = match cond {
                Some(c) => c.as_str(),
                None => parent_type,
            };
            check_fields_allowed(field_map, sub, p, schema_doc, query_doc, depth - 1)
        },
        SelectionItem::Spread { name } => {
            match find_fragment(&query_doc.defs, name.as_str()) {
                None => Err(ValidationError::LookupFailed),
                Some((c, fsub)) => {
                    if fsub.len() == 0 {
                        return Ok(());
                    }
                    if depth == 0 {
                        return Err(ValidationError::TooDeep);
                    }
                    check_fields_allowed(field_map, fsub, c.as_str(), schema_doc, query_doc, depth - 1)
                },
            }
        },
    }
}

/// Whether every selection of `sel_set` is permitted under `parent_type`,
/// descending into nested selection sets with one unit of `depth` each.
pub fn check_fields_allowed(
    field_map: &AllowList,
    sel_set: &Vec<SelectionItem>,
    parent_type: &str,
    schema_doc: &SchemaDoc,
    query_doc: &QueryDoc,
    depth: u64,
) -> (r: Result<(), ValidationError>)
    ensures
        r == set_ok(*field_map, sel_set@, parent_type@, *schema_doc, *query_doc, depth),
    decreases depth, 1int,
{
    let n = sel_set.len();
    proof {
        assert(sel_set@.skip(0) =~= sel_set@);
    }
    for i in 0..n
        invariant
            n == sel_set@.len(),
            set_ok(*field_map, sel_set@, parent_type@, *schema_doc, *query_doc, depth) == set_ok(
                *field_map,
                sel_set@.skip(i as int),
                parent_type@,
                *schema_doc,
                *query_doc,
                depth,
            ),
    {
        proof {
            assert(sel_set@.skip(i as int)[0] == sel_set@[i as int]);
            assert(sel_set@.skip(i as int).drop_first() =~= sel_set@.skip(i + 1));
        }
        match check_selection(field_map, &sel_set[i], parent_type, schema_doc, query_doc, depth) {
            Ok(_) => {},
            Err(e) => {
                return Err(e);
            },
        }
    }
    proof {
        assert(sel_set@.skip(n as int).len() == 0);
    }
    Ok(())
}

/// Whether the whole query document passes validation: every operation under
/// its root type and every top-level fragment definition under its own type
/// condition, each independently.
pub fn schema_validator(
    query_ast: &QueryDoc,
    schema_ast: &SchemaDoc,
    allow_list: &AllowList,
    depth: u64,
) -> (r: Result<(), ValidationError>)
    ensures
        r == spec_document_ok(*allow_list, *query_ast, *schema_ast, depth),
{
    let n = query_ast.defs.len();
    proof {
        assert(query_ast.defs@.skip(0) =~= query_ast.defs@);
    }
    for i in 0..n
        invariant
            n == query_ast.defs@.len(),
            defs_ok(*allow_list, query_ast.defs@, *schema_ast, *query_ast, depth) == defs_ok(
                *allow_list,
                query_ast.defs@.skip(i as int),
                *schema_ast,
                *query_ast,
                depth,
            ),
    {
        proof {
            assert(query_ast.defs@.skip(i as int)[0] == query_ast.defs@[i as int]);
            assert(query_ast.defs@.skip(i as int).drop_first() =~= query_ast.defs@.skip(i + 1));
        }
        let r = match &query_ast.defs[i] {
            QueryDef::Operation { kind, sel } => match kind {
                OpKind::Query => check_fields_allowed(
                    allow_list,
                    sel,
                    "Query",
                    schema_ast,
                    query_ast,
                    depth,
                ),
                OpKind::Mutation => check_fields_allowed(
                    allow_list,
                    sel,
                    "Mutation",
                    schema_ast,
                    query_ast,
                    depth,
                ),
                OpKind::Subscription => Ok(()),
            },
            QueryDef::Fragment { name: _, cond, sel } => check_fields_allowed(
                allow_list,
                sel,
                cond.as_str(),
                schema_ast,
                query_ast,
                depth,
            ),
        };
        match r {
            Ok(_) => {},
            Err(e) => {
                return Err(e);
            },
        }
    }
    proof {
        assert(query_ast.defs@.skip(n as int).len() == 0);
    }
    Ok(())
}

} // verus!
