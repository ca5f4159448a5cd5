//! Laws of the validator, each proved against the spec functions that the
//! executable functions' contracts are stated over.

use vstd::prelude::*;

use crate::allowlist::{entry_allows, has_entry, wildcard, AllowList};
use crate::ast::{QueryDef, QueryDoc, SchemaDoc, SelectionItem};
use crate::resolve::spec_field_type;
use crate::validate::{
    def_ok, defs_ok, sel_ok, set_ok, spec_document_ok, spec_find_fragment, ValidationError,
};

verus! {

/// Whether `sel` is a selection of the meta-field `__typename`.
pub open spec fn is_typename_field(sel: SelectionItem) -> bool {
    sel matches SelectionItem::Field { name, .. } && name@ == "__typename"@
}

/// Law: a selection set that selects only the meta-field `__typename` is
/// accepted under every allow-list, every parent type, every schema and
/// every depth budget.
pub proof fn lemma_typename_only_accepted(
    al: AllowList,
    sels: Seq<SelectionItem>,
    parent: Seq<char>,
    schema: SchemaDoc,
    doc: QueryDoc,
    depth: u64,
)
    requires
        forall|i: int| 0 <= i < sels.len() ==> is_typename_field(sels[i]),
    ensures
        set_ok(al, sels, parent, schema, doc, depth) == Ok::<(), ValidationError>(()),
    decreases sels.len(),
{
    if sels.len() > 0 {
        assert(is_typename_field(sels[0]));
        assert(sel_ok(al, sels[0], parent, schema, doc, depth) == Ok::<(), ValidationError>(()));
        assert forall|i: int| 0 <= i < sels.drop_first().len() implies is_typename_field(
            sels.drop_first()[i],
        ) by {
            assert(sels.drop_first()[i] == sels[i + 1]);
        }
        lemma_typename_only_accepted(al, sels.drop_first(), parent, schema, doc, depth);
    }
}

/// Whether every selection of `d`'s root selection set is a selection of
/// the meta-field `__typename`.
pub open spec fn typename_only_def(d: QueryDef) -> bool {
    match d {
        QueryDef::Operation { kind: _, sel } => forall|i: int|
            0 <= i < sel@.len() ==> is_typename_field(sel@[i]),
        QueryDef::Fragment { name: _, cond: _, sel } => forall|i: int|
            0 <= i < sel@.len() ==> is_typename_field(sel@[i]),
    }
}

/// Law: a query document whose definitions select only the meta-field
/// `__typename` is accepted under every allow-list, every schema and every
/// depth budget.
pub proof fn lemma_typename_only_document(
    al: AllowList,
    doc: QueryDoc,
    schema: SchemaDoc,
    depth: u64,
)
    requires
        forall|i: int| 0 <= i < doc.defs@.len() ==> typename_only_def(doc.defs@[i]),
    ensures
        spec_document_ok(al, doc, schema, depth) == Ok::<(), ValidationError>(()),
{
    lemma_typename_only_defs(al, doc.defs@, schema, doc, depth);
}

/// Law: a list of document definitions that select only the meta-field
/// `__typename` is accepted.
pub proof fn lemma_typename_only_defs(
    al: AllowList,
    defs: Seq<QueryDef>,
    schema: SchemaDoc,
    doc: QueryDoc,
    depth: u64,
)
    requires
        forall|i: int| 0 <= i < defs.len() ==> typename_only_def(defs[i]),
    ensures
        defs_ok(al, defs, schema, doc, depth) == Ok::<(), ValidationError>(()),
    decreases defs.len(),
{
    if defs.len() > 0 {
        assert(typename_only_def(defs[0]));
        match defs[0] {
            QueryDef::Operation { kind, sel } => {
                lemma_typename_only_accepted(al, sel@, "Query"@, schema, doc, depth);
                lemma_typename_only_accepted(al, sel@, "Mutation"@, schema, doc, depth);
            },
            QueryDef::Fragment { name: _, cond, sel } => {
                lemma_typename_only_accepted(al, sel@, cond@, schema, doc, depth);
            },
        }
        assert(def_ok(al, defs[0], schema, doc, depth) == Ok::<(), ValidationError>(()));
        assert forall|i: int| 0 <= i < defs.drop_first().len() implies typename_only_def(
            defs.drop_first()[i],
        ) by {
            assert(defs.drop_first()[i] == defs[i + 1]);
        }
        lemma_typename_only_defs(al, defs.drop_first(), schema, doc, depth);
    }
}

/// Law: under a wildcard entry for the parent type, a field selection with
/// an empty nested selection set is accepted, whatever its name — whether or
/// not the schema declares the field.
pub proof fn lemma_wildcard_leaf_accepted(
    al: AllowList,
    name: String,
    sub: Vec<SelectionItem>,
    parent: Seq<char>,
    schema: SchemaDoc,
    doc: QueryDoc,
    depth: u64,
)
    requires
        wildcard(al, parent),
        sub@.len() == 0,
    ensures
        sel_ok(al, SelectionItem::Field { name, sub }, parent, schema, doc, depth) == Ok::<
            (),
            ValidationError,
        >(()),
{
}

/// Law: under a wildcard entry for the parent type, a field that the schema
/// declares is never itself rejected — no allow-list check and no schema
/// lookup failure applies to it — and its fate is exactly the fate of its
/// nested selection set under the field's resolved type, within the depth
/// budget.
pub proof fn lemma_wildcard_field_no_lookup_failure(
    al: AllowList,
    name: String,
    sub: Vec<SelectionItem>,
    parent: Seq<char>,
    schema: SchemaDoc,
    doc: QueryDoc,
    depth: u64,
    t: Seq<char>,
)
    requires
        wildcard(al, parent),
        name@ != "__typename"@,
        spec_field_type(schema, parent, name@) == Some(t),
    ensures
        sel_ok(al, SelectionItem::Field { name, sub }, parent, schema, doc, depth) == (if sub@.len()
            == 0 {
            Ok::<(), ValidationError>(())
        } else if depth == 0 {
            Err::<(), ValidationError>(ValidationError::TooDeep)
        } else {
            set_ok(al, sub@, t, schema, doc, (depth - 1) as u64)
        }),
{
}

/// Law: validation is a pure function of its inputs — any two results that
/// meet the validator's contract on the same query document, schema,
/// allow-list and depth budget are equal, so repeated validation of the same
/// triple yields the same outcome.
pub proof fn lemma_validation_deterministic(
    r1: Result<(), ValidationError>,
    r2: Result<(), ValidationError>,
    al: AllowList,
    doc: QueryDoc,
    schema: SchemaDoc,
    depth: u64,
)
    requires
        r1 == spec_document_ok(al, doc, schema, depth),
        r2 == spec_document_ok(al, doc, schema, depth),
    ensures
        r1 == r2,
{
}

/// Whether allow-list `a` permits at most what allow-list `b` permits:
/// every type with an entry in `a` has an entry in `b`, and every field
/// name listed for a type in `a` — the wildcard marker included — is listed
/// for that type in `b`.  Removing a field name from an entry shrinks the
/// list in exactly this sense.
pub open spec fn allow_leq(a: AllowList, b: AllowList) -> bool {
    (forall|t: Seq<char>| #[trigger] has_entry(a, t) ==> has_entry(b, t)) && (forall|
        t: Seq<char>,
        f: Seq<char>,
    | #[trigger] entry_allows(a, t, f) ==> entry_allows(b, t, f))
}

/// Law: acceptance of one selection is monotone in the allow-list — growing
/// the allow-list never turns an accepted selection into a rejected one, so
/// removing a field can only turn an acceptance into a rejection, never the
/// reverse.
pub proof fn lemma_sel_monotone(
    a: AllowList,
    b: AllowList,
    sel: SelectionItem,
    parent: Seq<char>,
    schema: SchemaDoc,
    doc: QueryDoc,
    depth: u64,
)
    requires
        allow_leq(a, b),
        sel_ok(a, sel, parent, schema, doc, depth) is Ok,
    ensures
        sel_ok(b, sel, parent, schema, doc, depth) is Ok,
    decreases depth, 0int, 0int,
{
    match sel {
        SelectionItem::Field { name, sub } => {
            if name@ != "__typename"@ {
                assert(has_entry(a, parent));
                assert(has_entry(b, parent));
                if wildcard(a, parent) {
                    assert(entry_allows(a, parent, "*"@));
                    assert(entry_allows(b, parent, "*"@));
                    if sub@.len() > 0 {
                        match spec_field_type(schema, parent, name@) {
                            None => {},
                            Some(t) => {
                                lemma_set_monotone(
                                    a,
                                    b,
                                    sub@,
                                    t,
                                    schema,
                                    doc,
                                    (depth - 1) as u64,
                                );
                            },
                        }
                    }
                } else {
                    assert(entry_allows(a, parent, name@));
                    assert(entry_allows(b, parent, name@));
                    if sub@.len() > 0 {
                        match spec_field_type(schema, parent, name@) {
                            None => {},
                            Some(t) => {
                                lemma_set_monotone(
                                    a,
                                    b,
                                    sub@,
                                    t,
                                    schema,
                                    doc,
                                    (depth - 1) as u64,
                                );
                            },
                        }
                    }
                }
            }
        },
        SelectionItem::Inline { cond, sub } => {
            if sub@.len() > 0 {
                let p = match cond {
                    Some(c) => c@,
                    None => parent,
                };
                lemma_set_monotone(a, b, sub@, p, schema, doc, (depth - 1) as u64);
            }
        },
        SelectionItem::Spread { name } => {
            match spec_find_fragment(doc.defs@, name@) {
                None => {},
                Some((c, fsub)) => {
                    if fsub.len() > 0 {
                        lemma_set_monotone(a, b, fsub, c, schema, doc, (depth - 1) as u64);
                    }
                },
            }
        },
    }
}

/// Law: acceptance of a selection set is monotone in the allow-list.
pub proof fn lemma_set_monotone(
    a: AllowList,
    b: AllowList,
    sels: Seq<SelectionItem>,
    parent: Seq<char>,
    schema: SchemaDoc,
    doc: QueryDoc,
    depth: u64,
)
    requires
        allow_leq(a, b),
        set_ok(a, sels, parent, schema, doc, depth) is Ok,
    ensures
        set_ok(b, sels, parent, schema, doc, depth) is Ok,
    decreases depth, sels.len(), 1int,
{
    if sels.len() > 0 {
        assert(set_ok(a, sels, parent, schema, doc, depth) == (match sel_ok(
            a,
            sels[0],
            parent,
            schema,
            doc,
            depth,
        ) {
            Err(e) => Err(e),
            Ok(_) => set_ok(a, sels.drop_first(), parent, schema, doc, depth),
        }));
        lemma_sel_monotone(a, b, sels[0], parent, schema, doc, depth);
        lemma_set_monotone(a, b, sels.drop_first(), parent, schema, doc, depth);
        assert(set_ok(b, sels, parent, schema, doc, depth) == (match sel_ok(
            b,
            sels[0],
            parent,
            schema,
            doc,
            depth,
        ) {
            Err(e) => Err(e),
            Ok(_) => set_ok(b, sels.drop_first(), parent, schema, doc, depth),
        }));
    }
}

/// Law: acceptance of a whole query document is monotone in the allow-list:
/// removing a field from the allow-list can only turn an acceptance into a
/// rejection, never a rejection into an acceptance.
pub proof fn lemma_document_monotone(
    a: AllowList,
    b: AllowList,
    doc: QueryDoc,
    schema: SchemaDoc,
    depth: u64,
)
    requires
        allow_leq(a, b),
        spec_document_ok(a, doc, schema, depth) is Ok,
    ensures
        spec_document_ok(b, doc, schema, depth) is Ok,
{
    lemma_defs_monotone(a, b, doc.defs@, schema, doc, depth);
}

/// Law: acceptance of a list of document definitions is monotone in the
/// allow-list.
pub proof fn lemma_defs_monotone(
    a: AllowList,
    b: AllowList,
    defs: Seq<QueryDef>,
    schema: SchemaDoc,
    doc: QueryDoc,
    depth: u64,
)
    requires
        allow_leq(a, b),
        defs_ok(a, defs, schema, doc, depth) is Ok,
    ensures
        defs_ok(b, defs, schema, doc, depth) is Ok,
    decreases defs.len(),
{
    if defs.len() > 0 {
        assert(defs_ok(a, defs, schema, doc, depth) == (match def_ok(a, defs[0], schema, doc, depth) {
            Err(e) => Err(e),
            Ok(_) => defs_ok(a, defs.drop_first(), schema, doc, depth),
        }));
        assert(def_ok(a, defs[0], schema, doc, depth) is Ok);
        match defs[0] {
            QueryDef::Operation { kind, sel } => {
                match kind {
                    crate::ast::OpKind::Query => {
                        lemma_set_monotone(a, b, sel@, "Query"@, schema, doc, depth);
                    },
                    crate::ast::OpKind::Mutation => {
                        lemma_set_monotone(a, b, sel@, "Mutation"@, schema, doc, depth);
                    },
                    crate::ast::OpKind::Subscription => {},
                }
            },
            QueryDef::Fragment { name: _, cond, sel } => {
                lemma_set_monotone(a, b, sel@, cond@, schema, doc, depth);
            },
        }
        lemma_defs_monotone(a, b, defs.drop_first(), schema, doc, depth);
        assert(defs_ok(b, defs, schema, doc, depth) == (match def_ok(b, defs[0], schema, doc, depth) {
            Err(e) => Err(e),
            Ok(_) => defs_ok(b, defs.drop_first(), schema, doc, depth),
        }));
    }
}

} // verus!
