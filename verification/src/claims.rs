//! The claims role extractor: flattens a provider-specific claims value into
//! a set of role strings.
//!
//! The claims value is modelled as a tagged-union JSON value.  A claims
//! object is inspected under each recognized namespace key — the configured
//! issuer-specific keys, and always the generic key `ext` — and each nested
//! object found there may list roles under `x-hasura-allowed-roles` or under
//! `x-allowed-roles`; every string entry of either array becomes a role.
//! Unknown keys are ignored, duplicates are dropped, and a claims value that
//! is not an object yields the empty role set.

use vstd::prelude::*;

use crate::allowlist::{field_list_contains, field_list_has};
use crate::strutil::str_eq;

verus! {

/// A JSON-like value.  Numbers are carried as signed integers; a number the
/// host cannot represent that way may be supplied as `Null`, since role
/// extraction never reads numbers.
#[derive(Debug)]
pub enum JsonVal {
    Null,
    Bool(bool),
    Num(i64),
    Str(String),
    Arr(Vec<JsonVal>),
    Obj(Vec<(String, JsonVal)>),
}

/// The value under the first key equal to `k`, if any.
pub open spec fn obj_get(entries: Seq<(String, JsonVal)>, k: Seq<char>) -> Option<JsonVal>
    decreases entries.len(),
{
    if entries.len() == 0 {
        None
    } else if entries[0].0@ == k {
        Some(entries[0].1)
    } else {
        obj_get(entries.drop_first(), k)
    }
}

/// Whether `v` is the string `x`.
pub open spec fn is_str(v: JsonVal, x: Seq<char>) -> bool {
    v matches JsonVal::Str(s) && s@ == x
}

/// Whether some entry of `items` is the string `x`.
pub open spec fn arr_has_str(items: Seq<JsonVal>, x: Seq<char>) -> bool
    decreases items.len(),
{
    if items.len() == 0 {
        false
    } else {
        is_str(items[0], x) || arr_has_str(items.drop_first(), x)
    }
}

/// Whether the array under the key `k` of `es` holds the string `x`.
pub open spec fn key_roles(es: Seq<(String, JsonVal)>, k: Seq<char>, x: Seq<char>) -> bool {
    match obj_get(es, k) {
        Some(JsonVal::Arr(a)) => arr_has_str(a@, x),
        _ => false,
    }
}

/// Whether the namespace value `v` lists the role `x`: `v` is an object and
/// one of its two role arrays holds the string `x`.
pub open spec fn roles_under(v: JsonVal, x: Seq<char>) -> bool {
    match v {
        JsonVal::Obj(es) => key_roles(es@, "x-hasura-allowed-roles"@, x) || key_roles(
            es@,
            "x-allowed-roles"@,
            x,
        ),
        _ => false,
    }
}

/// Whether the claims object entries give the role `x` under the key `k`.
pub open spec fn ns_gives_role(es: Seq<(String, JsonVal)>, k: Seq<char>, x: Seq<char>) -> bool {
    match obj_get(es, k) {
        Some(v) => roles_under(v, x),
        None => false,
    }
}

/// Whether some key of `namespaces` gives the role `x` on the claims object
/// entries `es`.
pub open spec fn ns_range_role(
    es: Seq<(String, JsonVal)>,
    namespaces: Seq<String>,
    x: Seq<char>,
) -> bool
    decreases namespaces.len(),
{
    if namespaces.len() == 0 {
        false
    } else {
        ns_gives_role(es, namespaces[0]@, x) || ns_range_role(es, namespaces.drop_first(), x)
    }
}

/// Whether `x` is a role extracted from `claims` under the recognized
/// namespace keys: the configured `namespaces`, and always `ext`.
pub open spec fn is_extracted_role(claims: JsonVal, namespaces: Seq<String>, x: Seq<char>) -> bool {
    match claims {
        JsonVal::Obj(es) => ns_gives_role(es@, "ext"@, x) || ns_range_role(es@, namespaces, x),
        _ => false,
    }
}

/// Whether `rs` holds no role name twice.
pub open spec fn no_dups(rs: Seq<String>) -> bool {
    forall|i: int, j: int| 0 <= i < j < rs.len() ==> rs[i]@ != rs[j]@
}

/// The value under the first key equal to `k`, or `None`.
fn obj_lookup<'a>(entries: &'a Vec<(String, JsonVal)>, k: &str) -> (r: Option<&'a JsonVal>)
    ensures
        match r {
            Some(v) => obj_get(entries@, k@) == Some(*v),
            None => obj_get(entries@, k@) is None,
        },
{
    let n = entries.len();
    proof {
        assert(entries@.skip(0) =~= entries@);
    }
    for i in 0..n
        invariant
            n == entries@.len(),
            obj_get(entries@, k@) == obj_get(entries@.skip(i as int), k@),
    {
        proof {
            assert(entries@.skip(i as int)[0] == entries@[i as int]);
            assert(entries@.skip(i as int).drop_first() =~= entries@.skip(i + 1));
        }
        if str_eq(entries[i].0.as_str(), k) {
            return Some(&entries[i].1);
        }
    }
    None
}

/// The role set `acc` with `s` appended, unless an equal role is already
/// present.
fn push_role(acc: Vec<String>, s: &String) -> (r: Vec<String>)
    requires
        no_dups(acc@),
    ensures
        no_dups(r@),
        forall|x: Seq<char>| #![trigger field_list_has(r@, x)]
            field_list_has(r@, x) <==> (field_list_has(acc@, x) || x == s@),
{
    if field_list_contains(&acc, s.as_str()) {
        acc
    } else {
        let ghost oldseq = acc@;
        let mut r = acc;
        r.push(s.clone());
        proof {
            assert(r@ =~= oldseq.push(*s));
            assert forall|x: Seq<char>| field_list_has(r@, x) implies (field_list_has(oldseq, x)
                || x == s@) by {
                let i = choose|i: int| 0 <= i < r@.len() && r@[i]@ == x;
                if i < oldseq.len() {
                    assert(oldseq[i]@ == x);
                } else {
                    assert(r@[i] == *s);
                }
            }
            assert forall|x: Seq<char>| (field_list_has(oldseq, x) || x == s@) implies
                field_list_has(r@, x) by {
                if field_list_has(oldseq, x) {
                    let i = choose|i: int| 0 <= i < oldseq.len() && oldseq[i]@ == x;
                    assert(r@[i]@ == x);
                } else {
                    assert(r@[oldseq.len() as int]@ == x);
                }
            }
            assert forall|i: int, j: int| 0 <= i < j < r@.len() implies r@[i]@ != r@[j]@ by {
                if j < oldseq.len() {
                } else {
                    assert(r@[j] == *s);
                    assert(!field_list_has(oldseq, s@));
                    assert(oldseq[i]@ != s@);
                }
            }
        }
        r
    }
}

/// The role set `acc` with every string entry of `items` from position
/// `start` on appended, without duplicates.
fn collect_arr_from(acc: Vec<String>, items: &Vec<JsonVal>, start: usize) -> (r: Vec<String>)
    requires
        no_dups(acc@),
        start <= items@.len(),
    ensures
        no_dups(r@),
        forall|x: Seq<char>| #![trigger field_list_has(r@, x)]
            field_list_has(r@, x) <==> (field_list_has(acc@, x) || arr_has_str(
                items@.skip(start as int),
                x,
            )),
    decreases items@.len() - start,
{
    let ghost acc0 = acc@;
    if start == items.len() {
        proof {
            assert(items@.skip(start as int).len() == 0);
        }
        acc
    } else {
        let acc2 = match &items[start] {
            JsonVal::Str(s) => push_role(acc, s),
            _ => acc,
        };
        let ghost mid = acc2@;
        let r = collect_arr_from(acc2, items, start + 1);
        proof {
            assert(items@.skip(start as int)[0] == items@[start as int]);
            assert(items@.skip(start as int).drop_first() =~= items@.skip(start as int + 1));
            assert forall|x: Seq<char>|
                field_list_has(r@, x) <==> (field_list_has(acc0, x) || arr_has_str(
                    items@.skip(start as int),
                    x,
                )) by {
                assert(field_list_has(r@, x) <==> (field_list_has(mid, x) || arr_has_str(
                    items@.skip(start as int + 1),
                    x,
                )));
                assert(field_list_has(mid, x) <==> (field_list_has(acc0, x) || is_str(
                    items@[start as int],
                    x,
                )));
            }
        }
        r
    }
}

/// The role set `acc` with every string of the array under the key `k` of
/// `es` appended, without duplicates.
fn collect_key(acc: Vec<String>, es: &Vec<(String, JsonVal)>, k: &str) -> (r: Vec<String>)
    requires
        no_dups(acc@),
    ensures
        no_dups(r@),
        forall|x: Seq<char>| #![trigger field_list_has(r@, x)]
            field_list_has(r@, x) <==> (field_list_has(acc@, x) || key_roles(es@, k@, x)),
{
    let ghost acc0 = acc@;
    match obj_lookup(es, k) {
        Some(val) => match val {
            JsonVal::Arr(a) => {
                let r = collect_arr_from(acc, a, 0);
                proof {
                    assert(obj_get(es@, k@) == Some(*val));
                    assert(a@.skip(0) =~= a@);
                    assert forall|x: Seq<char>|
                        field_list_has(r@, x) <==> (field_list_has(acc0, x) || key_roles(
                            es@,
                            k@,
                            x,
                        )) by {
                        assert(field_list_has(r@, x) <==> (field_list_has(acc0, x) || arr_has_str(
                            a@.skip(0),
                            x,
                        )));
                        assert(key_roles(es@, k@, x) == arr_has_str(a@, x));
                    }
                }
                r
            },
            _ => {
                proof {
                    assert(obj_get(es@, k@) == Some(*val));
                    assert forall|x: Seq<char>| !key_roles(es@, k@, x) by {}
                }
                acc
            },
        },
        None => {
            proof {
                assert(obj_get(es@, k@) is None);
                assert forall|x: Seq<char>| !key_roles(es@, k@, x) by {}
            }
            acc
        },
    }
}

/// The role set `acc` with every role the namespace value `v` lists
/// appended, without duplicates.
fn collect_ns(acc: Vec<String>, v: &JsonVal) -> (r: Vec<String>)
    requires
        no_dups(acc@),
    ensures
        no_dups(r@),
        forall|x: Seq<char>| #![trigger field_list_has(r@, x)]
            field_list_has(r@, x) <==> (field_list_has(acc@, x) || roles_under(*v, x)),
{
    let ghost acc0 = acc@;
    match v {
        JsonVal::Obj(es) => {
            let mid = collect_key(acc, es, "x-hasura-allowed-roles");
            let ghost midseq = mid@;
            let r = collect_key(mid, es, "x-allowed-roles");
            proof {
                assert forall|x: Seq<char>|
                    field_list_has(r@, x) <==> (field_list_has(acc0, x) || roles_under(
                        *v,
                        x,
                    )) by {
                    assert(field_list_has(r@, x) <==> (field_list_has(midseq, x) || key_roles(
                        es@,
                        "x-allowed-roles"@,
                        x,
                    )));
                    assert(field_list_has(midseq, x) <==> (field_list_has(acc0, x) || key_roles(
                        es@,
                        "x-hasura-allowed-roles"@,
                        x,
                    )));
                }
            }
            r
        },
        _ => acc,
    }
}

/// The role set `acc` with every role given by the namespace keys of
/// `namespaces` from position `start` on appended, without duplicates.
fn collect_namespaces_from(
    acc: Vec<String>,
    es: &Vec<(String, JsonVal)>,
    namespaces: &Vec<String>,
    start: usize,
) -> (r: Vec<String>)
    requires
        no_dups(acc@),
        start <= namespaces@.len(),
    ensures
        no_dups(r@),
        forall|x: Seq<char>| #![trigger field_list_has(r@, x)]
            field_list_has(r@, x) <==> (field_list_has(acc@, x) || ns_range_role(
                es@,
                namespaces@.skip(start as int),
                x,
            )),
    decreases namespaces@.len() - start,
{
    let ghost acc0 = acc@;
    if start == namespaces.len() {
        proof {
            assert(namespaces@.skip(start as int).len() == 0);
        }
        acc
    } else {
        let ghost nsk = namespaces@[start as int]@;
        let acc2 = match obj_lookup(es, namespaces[start].as_str()) {
            Some(v) => {
                let a2 = collect_ns(acc, v);
                proof {
                    assert(obj_get(es@, nsk) == Some(*v));
                    assert forall|x: Seq<char>|
                        field_list_has(a2@, x) <==> (field_list_has(acc0, x) || ns_gives_role(
                            es@,
                            nsk,
                            x,
                        )) by {
                        assert(field_list_has(a2@, x) <==> (field_list_has(acc0, x)
                            || roles_under(*v, x)));
                        assert(ns_gives_role(es@, nsk, x) == roles_under(*v, x));
                    }
                }
                a2
            },
            None => {
                proof {
                    assert(obj_get(es@, nsk) is None);
                    assert forall|x: Seq<char>| !ns_gives_role(es@, nsk, x) by {}
                }
                acc
            },
        };
        let ghost mid = acc2@;
        let r = collect_namespaces_from(acc2, es, namespaces, start + 1);
        proof {
            assert(namespaces@.skip(start as int)[0] == namespaces@[start as int]);
            assert(namespaces@.skip(start as int).drop_first() =~= namespaces@.skip(
                start as int + 1,
            ));
            assert forall|x: Seq<char>|
                field_list_has(r@, x) <==> (field_list_has(acc0, x) || ns_range_role(
                    es@,
                    namespaces@.skip(start as int),
                    x,
                )) by {
                assert(field_list_has(r@, x) <==> (field_list_has(mid, x) || ns_range_role(
                    es@,
                    namespaces@.skip(start as int + 1),
                    x,
                )));
                assert(field_list_has(mid, x) <==> (field_list_has(acc0, x) || ns_gives_role(
                    es@,
                    nsk,
                    x,
                )));
            }
        }
        r
    }
}

/// The set of role strings extracted from `claims` under the recognized
/// namespace keys, without duplicates.
pub fn extract_roles(claims: &JsonVal, namespaces: &Vec<String>) -> (r: Vec<String>)
    ensures
        no_dups(r@),
        forall|x: Seq<char>| #![trigger field_list_has(r@, x)]
            field_list_has(r@, x) <==> is_extracted_role(*claims, namespaces@, x),
{
    let acc: Vec<String> = Vec::new();
    match claims {
        JsonVal::Obj(es) => {
            let mid = match obj_lookup(es, "ext") {
                Some(v) => {
                    let m = collect_ns(acc, v);
                    proof {
                        assert(obj_get(es@, "ext"@) == Some(*v));
                        assert forall|x: Seq<char>|
                            field_list_has(m@, x) <==> ns_gives_role(es@, "ext"@, x) by {
                            assert(field_list_has(m@, x) <==> (field_list_has(
                                Seq::<String>::empty(),
                                x,
                            ) || roles_under(*v, x)));
                            assert(ns_gives_role(es@, "ext"@, x) == roles_under(*v, x));
                        }
                    }
                    m
                },
                None => {
                    proof {
                        assert(obj_get(es@, "ext"@) is None);
                        assert forall|x: Seq<char>| !ns_gives_role(es@, "ext"@, x) by {}
                    }
                    acc
                },
            };
            let ghost midseq = mid@;
            let r = collect_namespaces_from(mid, es, namespaces, 0);
            proof {
                assert(namespaces@.skip(0) =~= namespaces@);
                assert forall|x: Seq<char>|
                    field_list_has(r@, x) <==> is_extracted_role(*claims, namespaces@, x) by {
                    assert(field_list_has(r@, x) <==> (field_list_has(midseq, x) || ns_range_role(
                        es@,
                        namespaces@.skip(0),
                        x,
                    )));
                    assert(field_list_has(midseq, x) <==> ns_gives_role(es@, "ext"@, x));
                }
            }
            r
        },
        _ => acc,
    }
}

/// Whether the extracted role set of `claims` holds the role `role`.
pub fn has_extracted_role(claims: &JsonVal, namespaces: &Vec<String>, role: &str) -> (r: bool)
    ensures
        r == is_extracted_role(*claims, namespaces@, role@),
{
    let roles = extract_roles(claims, namespaces);
    field_list_contains(&roles, role)
}

} // verus!
