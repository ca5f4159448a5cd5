//! The per-type allow-list: for each type name, the field names that may be
//! selected on that type.  The entry value `"*"` is the wildcard marker and
//! permits every field of the type.
//!
//! Lookup follows map semantics over the entry list: the first entry whose
//! type name matches is the one consulted.

use vstd::prelude::*;

verus! {

/// The permitted field names of one type.
#[derive(Debug)]
pub struct AllowEntry {
    pub name: String,
    pub fields: Vec<String>,
}

/// A mapping from type name to permitted field names.
#[derive(Debug)]
pub struct AllowList {
    pub entries: Vec<AllowEntry>,
}

/// The field list of the first entry for type `t`, if any entry matches.
pub open spec fn entry_fields(entries: Seq<AllowEntry>, t: Seq<char>) -> Option<Seq<String>>
    decreases entries.len(),
{
    if entries.len() == 0 {
        None
    } else if entries[0].name@ == t {
        Some(entries[0].fields@)
    } else {
        entry_fields(entries.drop_first(), t)
    }
}

/// Whether the field list `fields` holds the name `f`.
pub open spec fn field_list_has(fields: Seq<String>, f: Seq<char>) -> bool {
    exists|i: int| 0 <= i < fields.len() && fields[i]@ == f
}

/// Whether the allow-list has an entry for type `t`.
pub open spec fn has_entry(al: AllowList, t: Seq<char>) -> bool {
    entry_fields(al.entries@, t) is Some
}

/// Whether the entry for type `t` lists the name `f` literally.
pub open spec fn entry_allows(al: AllowList, t: Seq<char>, f: Seq<char>) -> bool {
    match entry_fields(al.entries@, t) {
        Some(fs) => field_list_has(fs, f),
        None => false,
    }
}

/// Whether the entry for type `t` holds the wildcard marker.
pub open spec fn wildcard(al: AllowList, t: Seq<char>) -> bool {
    entry_allows(al, t, "*"@)
}

/// The field list of the first entry for type `t`, or `None`.
pub fn lookup_entry<'a>(al: &'a AllowList, t: &str) -> (r: Option<&'a Vec<String>>)
    ensures
        match r {
            Some(fs) => entry_fields(al.entries@, t@) == Some(fs@),
            None => entry_fields(al.entries@, t@) is None,
        },
{
    let n = al.entries.len();
    proof {
        assert(al.entries@.skip(0) =~= al.entries@);
    }
    for i in 0..n
        invariant
            n == al.entries@.len(),
            entry_fields(al.entries@, t@) == entry_fields(al.entries@.skip(i as int), t@),
    {
        let entry = &al.entries[i];
        proof {
            assert(al.entries@.skip(i as int)[0] == al.entries@[i as int]);
        }
        if crate::strutil::str_eq(entry.name.as_str(), t) {
            return Some(&entry.fields);
        }
        proof {
            assert(al.entries@.skip(i as int).drop_first() =~= al.entries@.skip(i + 1));
        }
    }
    None
}

/// Whether `fields` holds the name `f`.
pub fn field_list_contains(fields: &Vec<String>, f: &str) -> (r: bool)
    ensures
        r == field_list_has(fields@, f@),
{
    let n = fields.len();
    for i in 0..n
        invariant
            n == fields@.len(),
            forall|j: int| 0 <= j < i ==> fields@[j]@ != f@,
    {
        if crate::strutil::str_eq(fields[i].as_str(), f) {
            return true;
        }
    }
    false
}

} // verus!
