use graph_allow_list::claims::{extract_roles, has_extracted_role, JsonVal};

fn obj(entries: Vec<(&str, JsonVal)>) -> JsonVal {
    JsonVal::Obj(entries.into_iter().map(|(k, v)| (k.to_string(), v)).collect())
}

fn arr_of_strs(items: &[&str]) -> JsonVal {
    JsonVal::Arr(items.iter().map(|s| JsonVal::Str(s.to_string())).collect())
}

fn no_namespaces() -> Vec<String> {
    Vec::new()
}

#[test]
fn scenario_c_ext_generic_roles() {
    let claims = obj(vec![("ext", obj(vec![("x-allowed-roles", arr_of_strs(&["user"]))]))]);
    let roles = extract_roles(&claims, &no_namespaces());
    assert_eq!(roles, vec!["user".to_string()]);
}

#[test]
fn scenario_d_no_recognized_keys() {
    let claims = obj(vec![("foo", JsonVal::Str("bar".to_string()))]);
    let roles = extract_roles(&claims, &no_namespaces());
    assert!(roles.is_empty());
}

#[test]
fn non_object_claims_yield_empty_set() {
    assert!(extract_roles(&JsonVal::Null, &no_namespaces()).is_empty());
    assert!(extract_roles(&JsonVal::Str("x".to_string()), &no_namespaces()).is_empty());
    assert!(extract_roles(&JsonVal::Num(7), &no_namespaces()).is_empty());
}

#[test]
fn configured_namespace_with_hasura_roles() {
    let ns = "https://hasura.io/jwt/claims";
    let claims = obj(vec![(
        ns,
        obj(vec![("x-hasura-allowed-roles", arr_of_strs(&["admin", "user"]))]),
    )]);
    let namespaces = vec![ns.to_string()];
    let roles = extract_roles(&claims, &namespaces);
    assert_eq!(roles, vec!["admin".to_string(), "user".to_string()]);
}

#[test]
fn unconfigured_namespace_is_ignored() {
    let claims = obj(vec![(
        "https://example.com/claims",
        obj(vec![("x-allowed-roles", arr_of_strs(&["admin"]))]),
    )]);
    assert!(extract_roles(&claims, &no_namespaces()).is_empty());
}

#[test]
fn roles_deduplicated_across_namespaces() {
    let ns = "https://example.com/claims";
    let claims = obj(vec![
        ("ext", obj(vec![("x-allowed-roles", arr_of_strs(&["user", "admin"]))])),
        (ns, obj(vec![("x-hasura-allowed-roles", arr_of_strs(&["user"]))])),
    ]);
    let namespaces = vec![ns.to_string()];
    let roles = extract_roles(&claims, &namespaces);
    assert_eq!(roles, vec!["user".to_string(), "admin".to_string()]);
}

#[test]
fn both_role_keys_of_one_namespace_are_read() {
    let claims = obj(vec![(
        "ext",
        obj(vec![
            ("x-hasura-allowed-roles", arr_of_strs(&["a"])),
            ("x-allowed-roles", arr_of_strs(&["b"])),
        ]),
    )]);
    let roles = extract_roles(&claims, &no_namespaces());
    assert_eq!(roles, vec!["a".to_string(), "b".to_string()]);
}

#[test]
fn non_string_array_entries_are_ignored() {
    let claims = obj(vec![(
        "ext",
        obj(vec![(
            "x-allowed-roles",
            JsonVal::Arr(vec![
                JsonVal::Num(3),
                JsonVal::Str("a".to_string()),
                JsonVal::Null,
                JsonVal::Bool(true),
            ]),
        )]),
    )]);
    assert_eq!(extract_roles(&claims, &no_namespaces()), vec!["a".to_string()]);
}

#[test]
fn role_keys_must_hold_arrays() {
    let claims = obj(vec![(
        "ext",
        obj(vec![("x-allowed-roles", JsonVal::Str("user".to_string()))]),
    )]);
    assert!(extract_roles(&claims, &no_namespaces()).is_empty());
}

#[test]
fn namespace_value_must_be_object() {
    let claims = obj(vec![("ext", arr_of_strs(&["user"]))]);
    assert!(extract_roles(&claims, &no_namespaces()).is_empty());
}

#[test]
fn first_duplicate_key_wins() {
    let claims = obj(vec![
        ("ext", obj(vec![])),
        ("ext", obj(vec![("x-allowed-roles", arr_of_strs(&["user"]))])),
    ]);
    assert!(extract_roles(&claims, &no_namespaces()).is_empty());
}

#[test]
fn has_extracted_role_membership() {
    let claims = obj(vec![("ext", obj(vec![("x-allowed-roles", arr_of_strs(&["user"]))]))]);
    assert!(has_extracted_role(&claims, &no_namespaces(), "user"));
    assert!(!has_extracted_role(&claims, &no_namespaces(), "admin"));
}
