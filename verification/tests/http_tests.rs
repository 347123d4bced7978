use instagram_backend::http::{
    create_user, delete_user, get_all_users, get_user_by_id, health_check, hello_world,
};
use instagram_backend::registry::Registry;

#[test]
fn health_body_is_exact_regardless_of_state() {
    assert_eq!(
        health_check(),
        "{\"status\":\"healthy\",\"service\":\"instagram_backend\"}"
    );
    let mut reg = Registry::new();
    reg.insert("alice".to_string(), "a@x.com".to_string(), None)
        .unwrap();
    assert_eq!(
        health_check(),
        "{\"status\":\"healthy\",\"service\":\"instagram_backend\"}"
    );
}

#[test]
fn root_body_names_service_and_endpoints() {
    let body = hello_world();
    assert_eq!(
        body,
        "{\"message\":\"Welcome to Instagram Backend!\",\"status\":\"running\",\"endpoints\":[\"/users\",\"/users/:id\",\"/health\"]}"
    );
}

#[test]
fn user_scenario_insert_lookup_missing_malformed() {
    let mut reg = Registry::new();
    let resp = create_user(
        &mut reg,
        "alice".to_string(),
        "a@x.com".to_string(),
        None,
    );
    assert_eq!(resp.status, 201);
    assert_eq!(
        resp.body,
        "{\"id\":1,\"username\":\"alice\",\"email\":\"a@x.com\",\"bio\":null}"
    );

    let ok = get_user_by_id(&reg, "1");
    assert_eq!(ok.status, 200);
    assert_eq!(
        ok.body,
        "{\"id\":1,\"username\":\"alice\",\"email\":\"a@x.com\",\"bio\":null}"
    );

    let missing = get_user_by_id(&reg, "99");
    assert_eq!(missing.status, 404);
    assert!(missing.body.contains("not found"));

    let malformed = get_user_by_id(&reg, "abc");
    assert_eq!(malformed.status, 400);
    assert!(malformed.body.contains("invalid"));
}

#[test]
fn listing_is_empty_array_then_all_records() {
    let mut reg = Registry::new();
    assert_eq!(get_all_users(&reg), "[]");
    create_user(&mut reg, "a".to_string(), "a@x".to_string(), None);
    create_user(
        &mut reg,
        "b".to_string(),
        "b@x".to_string(),
        Some("bio".to_string()),
    );
    assert_eq!(
        get_all_users(&reg),
        "[{\"id\":1,\"username\":\"a\",\"email\":\"a@x\",\"bio\":null},{\"id\":2,\"username\":\"b\",\"email\":\"b@x\",\"bio\":\"bio\"}]"
    );
}

#[test]
fn deletion_routes_answer_by_segment_and_presence() {
    let mut reg = Registry::new();
    create_user(&mut reg, "a".to_string(), "a@x".to_string(), None);

    let malformed = delete_user(&mut reg, "one");
    assert_eq!(malformed.status, 400);
    assert_eq!(reg.len(), 1);

    let missing = delete_user(&mut reg, "7");
    assert_eq!(missing.status, 404);
    assert_eq!(reg.len(), 1);

    let done = delete_user(&mut reg, "1");
    assert_eq!(done.status, 200);
    assert_eq!(done.body, "{\"status\":\"deleted\"}");
    assert_eq!(reg.len(), 0);

    let again = delete_user(&mut reg, "1");
    assert_eq!(again.status, 404);
}

#[test]
fn string_fields_are_json_escaped() {
    let mut reg = Registry::new();
    let resp = create_user(
        &mut reg,
        "a\"b\\c\nd".to_string(),
        "tab\there".to_string(),
        Some("ctl\u{1}end".to_string()),
    );
    assert_eq!(resp.status, 201);
    assert_eq!(
        resp.body,
        "{\"id\":1,\"username\":\"a\\\"b\\\\c\\nd\",\"email\":\"tab\\there\",\"bio\":\"ctl\\u0001end\"}"
    );
}

#[test]
fn rendered_json_parses_with_an_independent_parser() {
    let mut reg = Registry::new();
    create_user(
        &mut reg,
        "alice \"the\" admin".to_string(),
        "a@x.com".to_string(),
        None,
    );
    create_user(
        &mut reg,
        "bob".to_string(),
        "b@x.com".to_string(),
        Some("hi\nthere".to_string()),
    );
    let body = get_all_users(&reg);
    let parsed: serde_json::Value = serde_json::from_str(&body).expect("output must be valid JSON");
    let arr = parsed.as_array().expect("output must be a JSON array");
    assert_eq!(arr.len(), 2);
    assert_eq!(arr[0]["id"], 1);
    assert_eq!(arr[0]["username"], "alice \"the\" admin");
    assert!(arr[0]["bio"].is_null());
    assert_eq!(arr[1]["bio"], "hi\nthere");

    let health: serde_json::Value = serde_json::from_str(&health_check()).unwrap();
    assert_eq!(health["status"], "healthy");
    assert_eq!(health["service"], "instagram_backend");
}
