use graph_allow_list::allowlist::{AllowEntry, AllowList};
use graph_allow_list::parse::{parse_query_doc, parse_schema_doc};
use graph_allow_list::resolve::get_field_type;
use graph_allow_list::validate::{schema_validator, ValidationError};

fn allow(entries: &[(&str, &[&str])]) -> AllowList {
    AllowList {
        entries: entries
            .iter()
            .map(|(t, fs)| AllowEntry {
                name: t.to_string(),
                fields: fs.iter().map(|f| f.to_string()).collect(),
            })
            .collect(),
    }
}

fn validate(query: &str, schema: &str, al: &AllowList) -> Result<(), ValidationError> {
    let q = parse_query_doc(query).expect("query should parse");
    let s = parse_schema_doc(schema).expect("schema should parse");
    schema_validator(&q, &s, al, 100)
}

const SCHEMA_A: &str = "type Query { me: User } type User { id: ID! name: String }";

#[test]
fn scenario_a_accept() {
    let al = allow(&[("Query", &["me"]), ("User", &["id"])]);
    assert_eq!(validate("{ me { id } }", SCHEMA_A, &al), Ok(()));
}

#[test]
fn scenario_a_reject_extra_field() {
    let al = allow(&[("Query", &["me"]), ("User", &["id"])]);
    assert_eq!(
        validate("{ me { id name } }", SCHEMA_A, &al),
        Err(ValidationError::NotAllowed)
    );
}

#[test]
fn scenario_b_wildcard_root_accepts_any_leaf() {
    let al = allow(&[("Query", &["*"])]);
    assert_eq!(validate("{ foo bar baz }", SCHEMA_A, &al), Ok(()));
}

#[test]
fn wildcard_does_not_extend_to_children() {
    let al = allow(&[("Query", &["*"]), ("User", &["id"])]);
    assert_eq!(
        validate("{ me { name } }", SCHEMA_A, &al),
        Err(ValidationError::NotAllowed)
    );
    assert_eq!(validate("{ me { id } }", SCHEMA_A, &al), Ok(()));
}

#[test]
fn wildcard_nested_field_must_exist_in_schema() {
    let al = allow(&[("Query", &["*"])]);
    assert_eq!(
        validate("{ nosuch { x } }", SCHEMA_A, &al),
        Err(ValidationError::LookupFailed)
    );
}

#[test]
fn typename_always_allowed() {
    let al = allow(&[]);
    assert_eq!(validate("{ __typename }", SCHEMA_A, &al), Ok(()));
}

#[test]
fn typename_does_not_settle_siblings() {
    let al = allow(&[]);
    assert_eq!(
        validate("{ __typename me }", SCHEMA_A, &al),
        Err(ValidationError::NotAllowed)
    );
}

#[test]
fn missing_entry_rejects() {
    let al = allow(&[("User", &["id"])]);
    assert_eq!(
        validate("{ me }", SCHEMA_A, &al),
        Err(ValidationError::NotAllowed)
    );
}

#[test]
fn listed_leaf_field_must_exist_in_schema() {
    let al = allow(&[("Query", &["ghost"])]);
    assert_eq!(
        validate("{ ghost }", SCHEMA_A, &al),
        Err(ValidationError::LookupFailed)
    );
}

#[test]
fn mutation_validated_under_mutation_root() {
    let schema = "type Mutation { createThing: String }";
    let al = allow(&[("Mutation", &["createThing"])]);
    assert_eq!(validate("mutation { createThing }", schema, &al), Ok(()));
    let empty = allow(&[]);
    assert_eq!(
        validate("mutation { createThing }", schema, &empty),
        Err(ValidationError::NotAllowed)
    );
}

#[test]
fn subscription_passes_through() {
    let al = allow(&[]);
    assert_eq!(validate("subscription { anything }", SCHEMA_A, &al), Ok(()));
}

#[test]
fn fragment_spread_resolved_and_validated() {
    let al = allow(&[("Query", &["me"])]);
    assert_eq!(
        validate("query { ...F } fragment F on Query { me }", SCHEMA_A, &al),
        Ok(())
    );
    let empty = allow(&[]);
    assert_eq!(
        validate("query { ...F } fragment F on Query { me }", SCHEMA_A, &empty),
        Err(ValidationError::NotAllowed)
    );
}

#[test]
fn fragment_spread_unresolved_rejects() {
    let al = allow(&[("Query", &["me"])]);
    assert_eq!(
        validate("query { ...G }", SCHEMA_A, &al),
        Err(ValidationError::LookupFailed)
    );
}

#[test]
fn fragment_cycle_hits_depth_budget() {
    let al = allow(&[("Query", &["me"])]);
    assert_eq!(
        validate(
            "query { ...F } fragment F on Query { ...F }",
            SCHEMA_A,
            &al
        ),
        Err(ValidationError::TooDeep)
    );
}

#[test]
fn scenario_e_inline_fragment_condition_not_allowed() {
    let al = allow(&[("Query", &["*"])]);
    assert_eq!(
        validate("{ ... on Admin { secret } }", SCHEMA_A, &al),
        Err(ValidationError::NotAllowed)
    );
}

#[test]
fn inline_fragment_without_condition_uses_parent() {
    let al = allow(&[("Query", &["me"])]);
    assert_eq!(validate("{ ... { me } }", SCHEMA_A, &al), Ok(()));
}

#[test]
fn depth_budget_bounds_nesting() {
    let schema = "type Query { me: User } type User { friend: User id: ID }";
    let al = allow(&[("Query", &["me"]), ("User", &["friend", "id"])]);
    let q = parse_query_doc("{ me { friend { friend { id } } } }").unwrap();
    let s = parse_schema_doc(schema).unwrap();
    assert_eq!(schema_validator(&q, &s, &al, 10), Ok(()));
    assert_eq!(
        schema_validator(&q, &s, &al, 2),
        Err(ValidationError::TooDeep)
    );
}

#[test]
fn get_field_type_unwraps_list_and_non_null() {
    let s = parse_schema_doc("type Query { items: [Thing!]! }").unwrap();
    assert_eq!(
        get_field_type("items", &s, "Query"),
        Some("Thing".to_string())
    );
}

#[test]
fn get_field_type_absent() {
    let s = parse_schema_doc(SCHEMA_A).unwrap();
    assert_eq!(get_field_type("nosuch", &s, "Query"), None);
    assert_eq!(get_field_type("me", &s, "Nope"), None);
}

#[test]
fn get_field_type_scans_later_duplicate_types() {
    let s = parse_schema_doc(
        "type Query { a: Xx } type Query { b: Yy } type Xx { f: ID } type Yy { f: ID }",
    )
    .unwrap();
    assert_eq!(get_field_type("a", &s, "Query"), Some("Xx".to_string()));
    assert_eq!(get_field_type("b", &s, "Query"), Some("Yy".to_string()));
}

#[test]
fn malformed_query_text_does_not_parse() {
    assert!(parse_query_doc("query { unbalanced").is_none());
    assert!(parse_query_doc("").is_none());
}

#[test]
fn validation_is_idempotent() {
    let al = allow(&[("Query", &["me"]), ("User", &["id"])]);
    let q = parse_query_doc("{ me { id name } }").unwrap();
    let s = parse_schema_doc(SCHEMA_A).unwrap();
    let first = schema_validator(&q, &s, &al, 100);
    let second = schema_validator(&q, &s, &al, 100);
    assert_eq!(first, second);
}

#[test]
fn removing_a_field_only_narrows_acceptance() {
    let bigger = allow(&[("Query", &["me"]), ("User", &["id"])]);
    let smaller = allow(&[("Query", &["me"]), ("User", &[])]);
    let ok_query = "{ me { id } }";
    assert_eq!(validate(ok_query, SCHEMA_A, &bigger), Ok(()));
    assert_eq!(
        validate(ok_query, SCHEMA_A, &smaller),
        Err(ValidationError::NotAllowed)
    );
    let still_ok = "{ me }";
    assert_eq!(validate(still_ok, SCHEMA_A, &smaller), Ok(()));
    assert_eq!(validate(still_ok, SCHEMA_A, &bigger), Ok(()));
}

#[test]
fn first_allow_entry_for_a_type_wins() {
    let al = AllowList {
        entries: vec![
            AllowEntry {
                name: "Query".to_string(),
                fields: Vec::new(),
            },
            AllowEntry {
                name: "Query".to_string(),
                fields: vec!["me".to_string()],
            },
        ],
    };
    assert_eq!(
        validate("{ me }", SCHEMA_A, &al),
        Err(ValidationError::NotAllowed)
    );
}
