use graph_allow_list::allowlist::{AllowEntry, AllowList};
use graph_allow_list::claims::JsonVal;
use graph_allow_list::decide::{authorize, Decision, RejectCode};
use graph_allow_list::parse::parse_schema_doc;

fn allow(entries: &[(&str, &[&str])]) -> AllowList {
    AllowList {
        entries: entries
            .iter()
            .map(|(t, fs)| AllowEntry {
                name: t.to_string(),
                fields: fs.iter().map(|f| f.to_string()).collect(),
            })
            .collect(),
    }
}

fn bypass_claims() -> JsonVal {
    JsonVal::Obj(vec![(
        "ext".to_string(),
        JsonVal::Obj(vec![(
            "x-allowed-roles".to_string(),
            JsonVal::Arr(vec![JsonVal::Str("user".to_string())]),
        )]),
    )])
}

const SCHEMA_A: &str = "type Query { me: User } type User { id: ID! name: String }";

#[test]
fn scenario_c_bypass_role_accepts_anything() {
    let schema = parse_schema_doc(SCHEMA_A).unwrap();
    let empty = allow(&[]);
    let ns = Vec::new();
    let d = authorize(
        &bypass_claims(),
        &ns,
        "user",
        "{ anything { at { all } } }",
        &schema,
        &empty,
        100,
    );
    assert_eq!(d, Decision::Accept);
}

#[test]
fn bypass_skips_parsing_entirely() {
    let schema = parse_schema_doc(SCHEMA_A).unwrap();
    let empty = allow(&[]);
    let ns = Vec::new();
    let d = authorize(&bypass_claims(), &ns, "user", "query {", &schema, &empty, 100);
    assert_eq!(d, Decision::Accept);
}

#[test]
fn scenario_d_empty_roles_enforce_allow_list() {
    let schema = parse_schema_doc(SCHEMA_A).unwrap();
    let empty = allow(&[]);
    let ns = Vec::new();
    let claims = JsonVal::Obj(vec![("foo".to_string(), JsonVal::Str("bar".to_string()))]);
    let d = authorize(&claims, &ns, "user", "{ me }", &schema, &empty, 100);
    assert_eq!(d, Decision::Reject(RejectCode::NotAllowed));
}

#[test]
fn wrong_bypass_role_does_not_bypass() {
    let schema = parse_schema_doc(SCHEMA_A).unwrap();
    let empty = allow(&[]);
    let ns = Vec::new();
    let d = authorize(&bypass_claims(), &ns, "admin", "{ me }", &schema, &empty, 100);
    assert_eq!(d, Decision::Reject(RejectCode::NotAllowed));
}

#[test]
fn valid_query_accepted() {
    let schema = parse_schema_doc(SCHEMA_A).unwrap();
    let al = allow(&[("Query", &["me"]), ("User", &["id"])]);
    let ns = Vec::new();
    let d = authorize(&JsonVal::Null, &ns, "user", "{ me { id } }", &schema, &al, 100);
    assert_eq!(d, Decision::Accept);
}

#[test]
fn scenario_f_malformed_query_is_parse_error() {
    let schema = parse_schema_doc(SCHEMA_A).unwrap();
    let al = allow(&[("Query", &["me"])]);
    let ns = Vec::new();
    let d = authorize(&JsonVal::Null, &ns, "user", "query { unbalanced", &schema, &al, 100);
    assert_eq!(d, Decision::Reject(RejectCode::ParseFailure));
    match d {
        Decision::Reject(code) => {
            assert_eq!(code.status(), 400);
            assert_eq!(code.code_string(), "PARSE_ERROR");
            assert_eq!(code.message(), "could not parse query");
        }
        Decision::Accept => panic!("expected a rejection"),
    }
}

#[test]
fn lookup_failure_surfaces_its_own_code() {
    let schema = parse_schema_doc(SCHEMA_A).unwrap();
    let al = allow(&[("Query", &["ghost"])]);
    let ns = Vec::new();
    let d = authorize(&JsonVal::Null, &ns, "user", "{ ghost }", &schema, &al, 100);
    assert_eq!(d, Decision::Reject(RejectCode::LookupFailed));
    assert_eq!(
        RejectCode::LookupFailed.code_string(),
        "SCHEMA_LOOKUP_FAILURE"
    );
}

#[test]
fn depth_exceeded_surfaces_its_own_code() {
    let schema = parse_schema_doc("type Query { me: User } type User { friend: User }").unwrap();
    let al = allow(&[("Query", &["me"]), ("User", &["friend"])]);
    let ns = Vec::new();
    let d = authorize(
        &JsonVal::Null,
        &ns,
        "user",
        "{ me { friend { friend { friend } } } }",
        &schema,
        &al,
        1,
    );
    assert_eq!(d, Decision::Reject(RejectCode::TooDeep));
    assert_eq!(RejectCode::TooDeep.code_string(), "DEPTH_EXCEEDED");
}

#[test]
fn reject_texts_match_policy_violation() {
    assert_eq!(RejectCode::NotAllowed.code_string(), "ANONYMOUS_OPERATION");
    assert_eq!(RejectCode::NotAllowed.message(), "invalid query");
    assert_eq!(RejectCode::NotAllowed.status(), 400);
}

#[test]
fn authorize_is_idempotent() {
    let schema = parse_schema_doc(SCHEMA_A).unwrap();
    let al = allow(&[("Query", &["me"])]);
    let ns = Vec::new();
    let first = authorize(&JsonVal::Null, &ns, "user", "{ me }", &schema, &al, 100);
    let second = authorize(&JsonVal::Null, &ns, "user", "{ me }", &schema, &al, 100);
    assert_eq!(first, second);
    assert_eq!(first, Decision::Accept);
}

#[test]
fn bypass_through_configured_namespace() {
    let schema = parse_schema_doc(SCHEMA_A).unwrap();
    let empty = allow(&[]);
    let ns_key = "https://example.com/claims";
    let claims = JsonVal::Obj(vec![(
        ns_key.to_string(),
        JsonVal::Obj(vec![(
            "x-hasura-allowed-roles".to_string(),
            JsonVal::Arr(vec![JsonVal::Str("user".to_string())]),
        )]),
    )]);
    let ns = vec![ns_key.to_string()];
    let d = authorize(&claims, &ns, "user", "{ me }", &schema, &empty, 100);
    assert_eq!(d, Decision::Accept);
    let no_ns = Vec::new();
    let d2 = authorize(&claims, &no_ns, "user", "{ me }", &schema, &empty, 100);
    assert_eq!(d2, Decision::Reject(RejectCode::NotAllowed));
}
