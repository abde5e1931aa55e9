use carina_awscc::json::Json;
use carina_awscc::mock::http::{
    batch_len, check_sequential_status, check_shown_status, check_status, http_plan, request_url, spawn_len, HttpShape,
};
use carina_awscc::mock::process::MockProcessProvider;
use carina_awscc::mock::store::{delay_millis, delete_delay_for, op_log_line, resource_key, MockProvider, Outcome};
use carina_awscc::protocol::types::{Directives, PatchOp as WireOp, PatchOpKind, Resource as WireResource};
use carina_awscc::protocol::value::WireValue;
use carina_awscc::protocol::value as wire;
use carina_awscc::resource::{PatchOp, Resource, ResourceId, State};
use carina_awscc::value::{get, DslValue};

type Store = Vec<(String, Vec<(String, Json)>)>;

fn provider() -> MockProvider {
    MockProvider::from_settings(None, None, &None, None, &None)
}

fn id(name: &str) -> ResourceId {
    ResourceId::with_provider("mock", "test.resource", name)
}

fn text(s: &str) -> DslValue {
    DslValue::String(s.to_string())
}

fn wanted(name: &str, attributes: Vec<(&str, DslValue)>) -> Resource {
    Resource { id: id(name), attributes: attributes.into_iter().map(|(k, v)| (k.to_string(), v)).collect() }
}

fn state_of(o: Outcome) -> State {
    match o {
        Outcome::Success { state } => state,
        Outcome::Partial { state, .. } => state,
    }
}

#[test]
fn required_permissions_returns_empty_vec() {
    let id = ResourceId::with_provider("mock", "foo", "example");
    assert_eq!(provider().required_permissions(&id), Vec::<String>::new());
}

#[test]
fn log_lines_record_keys_and_operations() {
    assert_eq!(resource_key(&id("first")), "test.resource.first");
    assert_eq!(op_log_line("create", &id("web-acl-new")), "create test.resource.web-acl-new");
    assert_eq!(op_log_line("delete", &id("web-acl-new")), "delete test.resource.web-acl-new");
}

#[test]
fn a_read_gives_what_was_created() {
    let p = provider();
    let mut store: Store = Vec::new();
    let r = wanted(
        "web",
        vec![
            ("name", text("web")),
            ("ports", DslValue::List(vec![DslValue::Int(80), DslValue::Bool(true)])),
        ],
    );
    let made = state_of(p.create(&mut store, &id("web"), &r, None, false).unwrap());
    let read = p.read(&store, &id("web"));
    assert!(read.exists);
    assert_eq!(read.identifier.as_deref(), Some("mock-id"));
    assert_eq!(read.attributes, made.attributes);
    assert_eq!(read.attributes, r.attributes);
    assert!(!p.read(&store, &id("other")).exists);
}

#[test]
fn an_update_touches_only_what_the_patch_names() {
    let p = provider();
    let mut store: Store = Vec::new();
    let r = wanted("web", vec![("name", text("web")), ("comment", text("v1")), ("old", text("x"))]);
    let from = state_of(p.create(&mut store, &id("web"), &r, None, false).unwrap());
    let ops = vec![
        PatchOp { kind: PatchOpKind::Replace, key: "comment".to_string(), value: Some(text("v2")) },
        PatchOp { kind: PatchOpKind::Remove, key: "old".to_string(), value: None },
        PatchOp { kind: PatchOpKind::Add, key: "new".to_string(), value: None },
    ];
    p.update(&mut store, &id("web"), &from, &ops).unwrap();
    let read = p.read(&store, &id("web"));
    assert_eq!(get(&read.attributes, "comment"), Some(&text("v2")));
    assert_eq!(get(&read.attributes, "name"), Some(&text("web")));
    assert_eq!(get(&read.attributes, "old"), None);
    assert_eq!(get(&read.attributes, "new"), None);
}

#[test]
fn a_deleted_resource_is_not_found() {
    let p = provider();
    let mut store: Store = Vec::new();
    p.create(&mut store, &id("a"), &wanted("a", vec![]), None, false).unwrap();
    p.create(&mut store, &id("b"), &wanted("b", vec![("k", text("v"))]), None, false).unwrap();
    p.delete(&mut store, &id("a"));
    assert!(!p.read(&store, &id("a")).exists);
    assert_eq!(get(&p.read(&store, &id("b")).attributes, "k"), Some(&text("v")));
}

#[test]
fn a_create_that_is_set_to_fail_stores_nothing() {
    let p = provider();
    let mut store: Store = Vec::new();
    let err = p
        .create(&mut store, &id("blocked"), &wanted("blocked", vec![("name", text("blocked"))]), Some("test.resource.blocked"), false)
        .unwrap_err();
    assert!(
        err.message.contains("CARINA_MOCK_CREATE_FAIL_FOR") && err.message.contains("test.resource.blocked"),
        "create failure should mention env var and resource key, got: {}",
        err.message
    );
    assert!(store.is_empty());
}

#[test]
fn values_without_json_are_refused() {
    let p = provider();
    let mut store: Store = Vec::new();
    let r = wanted("x", vec![("a", text("ok")), ("b", DslValue::List(vec![DslValue::UnresolvedIdent("i".to_string(), None)]))]);
    let err = p.create(&mut store, &id("x"), &r, None, false).unwrap_err();
    assert_eq!(err.message, "Failed to convert value: b");
    assert!(store.is_empty());
}

#[test]
fn resources_that_match_are_made_in_part() {
    let p = provider()
        .with_partial_create_for("test.resource.web".to_string(), vec!["computed".to_string()])
        .with_partial_update_for("*".to_string(), vec!["name".to_string()]);
    let mut store: Store = Vec::new();
    let r = wanted("web", vec![("name", text("web")), ("computed", text("c"))]);
    match p.create(&mut store, &id("web"), &r, None, false).unwrap() {
        Outcome::Partial { state, reason, missing } => {
            assert_eq!(reason, "mock partial create");
            assert_eq!(missing, vec!["computed"]);
            assert_eq!(get(&state.attributes, "computed"), None);
            match p.update(&mut store, &id("web"), &state, &vec![]).unwrap() {
                Outcome::Partial { state, reason, .. } => {
                    assert_eq!(reason, "mock partial update");
                    assert!(state.attributes.is_empty());
                }
                other => panic!("expected a partial update, got {:?}", other),
            }
        }
        other => panic!("expected a partial create, got {:?}", other),
    }
    assert!(matches!(
        p.create(&mut store, &id("other"), &wanted("other", vec![]), None, false),
        Ok(Outcome::Success { .. })
    ));
}

#[test]
fn settings_name_missing_attributes() {
    let p = MockProvider::from_settings(
        Some("s.json".to_string()),
        Some("mock.test.resource.web".to_string()),
        &Some(" a, ,b ,".to_string()),
        Some("*".to_string()),
        &None,
    );
    assert_eq!(p.state_file, "s.json");
    assert_eq!(p.partial_create.as_ref().unwrap().missing_attributes, vec!["a", "b"]);
    assert_eq!(p.partial_update.as_ref().unwrap().missing_attributes, vec!["computed"]);
    let mut store: Store = Vec::new();
    let made = p.create(&mut store, &id("web"), &wanted("web", vec![]), None, false).unwrap();
    assert!(matches!(made, Outcome::Partial { .. }));
    assert_eq!(provider().state_file, ".carina/state.json");
}

#[test]
fn test_resources_get_an_identifier() {
    let p = provider();
    let mut store: Store = Vec::new();
    let made = state_of(p.create(&mut store, &id("web"), &wanted("web", vec![("name", text("n"))]), None, true).unwrap());
    assert_eq!(get(&made.attributes, "identifier"), Some(&text("n-id")));
    let made = state_of(p.create(&mut store, &id("web"), &wanted("web", vec![]), None, true).unwrap());
    assert_eq!(get(&made.attributes, "identifier"), Some(&text("web-id")));
    let given = wanted("web", vec![("identifier", text("own"))]);
    let made = state_of(p.create(&mut store, &id("web"), &given, None, true).unwrap());
    assert_eq!(get(&made.attributes, "identifier"), Some(&text("own")));
}

#[test]
fn delays_are_positive_numbers_for_the_named_resource() {
    assert_eq!(delete_delay_for(&id("slow"), Some("test.resource.slow"), Some("25")), Some(25));
    assert_eq!(delete_delay_for(&id("fast"), Some("test.resource.slow"), Some("25")), None);
    assert_eq!(delete_delay_for(&id("slow"), None, Some("25")), None);
    assert_eq!(delay_millis(Some("+7")), Some(7));
    assert_eq!(delay_millis(Some("0")), None);
    assert_eq!(delay_millis(Some("-3")), None);
    assert_eq!(delay_millis(Some("")), None);
    assert_eq!(delay_millis(Some("18446744073709551615")), Some(18446744073709551615));
    assert_eq!(delay_millis(Some("18446744073709551616")), None);
    assert_eq!(delay_millis(None), None);
}

fn wire_text(s: &str) -> WireValue {
    WireValue::String(s.to_string())
}

fn wire_resource(name: &str, attributes: Vec<(&str, WireValue)>) -> WireResource {
    WireResource {
        id: id(name),
        attributes: attributes.into_iter().map(|(k, v)| (k.to_string(), v)).collect(),
        directives: Directives::default(),
    }
}

#[test]
fn the_process_provider_keeps_resources_in_memory() {
    let mut p = MockProcessProvider::default();
    let r = wire_resource("web", vec![("comment", wire_text("v1"))]);
    let made = p.create(&id("web"), &r);
    assert_eq!(made.attributes, r.attributes);
    assert_eq!(p.read(&id("web")).attributes, r.attributes);
    let ops = vec![
        WireOp { kind: PatchOpKind::Replace, key: "comment".to_string(), value: Some(wire_text("v2")) },
        WireOp { kind: PatchOpKind::Remove, key: "gone".to_string(), value: None },
        WireOp { kind: PatchOpKind::Add, key: "fresh".to_string(), value: Some(WireValue::Int(1)) },
    ];
    let updated = p.update(&id("web"), &made, &ops);
    assert_eq!(wire::get(&updated.attributes, "comment"), Some(&wire_text("v2")));
    assert_eq!(
        wire::get(&updated.attributes, "__mock_patch_ops__"),
        Some(&WireValue::List(vec![wire_text("replace:comment"), wire_text("remove:gone"), wire_text("add:fresh")]))
    );
    assert_eq!(p.read(&id("web")).attributes, updated.attributes);
    p.replace(&id("web"), &r);
    assert_eq!(p.read(&id("web")).attributes, r.attributes);
    p.delete(&id("web"));
    let read = p.read(&id("web"));
    assert!(!read.exists && read.identifier.is_none() && read.attributes.is_empty());
}

#[test]
fn the_process_provider_echoes_what_it_was_asked() {
    let p = MockProcessProvider::default();
    let info = p.info("0.1.0");
    assert_eq!((info.name.as_str(), info.display_name.as_str(), info.version.as_str()), ("mock", "Mock Provider (Process)", "0.1.0"));
    let source = p.read_data_source(&wire_resource("ds", vec![("q", wire_text("x"))]));
    assert_eq!(wire::get(&source.attributes, "q"), Some(&wire_text("x")));
    assert_eq!(wire::get(&source.attributes, "__mock_read_data_source__"), Some(&WireValue::Bool(true)));
    let mut resources = vec![wire_resource("a", vec![]), wire_resource("b", vec![])];
    p.merge_default_tags(&mut resources, &vec![("env".to_string(), wire_text("prod"))]);
    let echoed = WireValue::List(vec![WireValue::Mapping(vec![
        ("k".to_string(), wire_text("env")),
        ("v".to_string(), wire_text("prod")),
    ])]);
    for r in &resources {
        assert_eq!(wire::get(&r.attributes, "__mock_merged_default_tags__"), Some(&echoed));
    }
}

#[test]
fn requests_at_start_follow_the_configuration() {
    let set = |k: &str, v: WireValue| (k.to_string(), v);
    assert!(http_plan(&vec![]).unwrap().is_none());
    let plan = http_plan(&vec![set("__mock_initialize_http_url", wire_text("http://h"))]).unwrap().unwrap();
    assert_eq!((plan.request_count, plan.concurrency, plan.shape), (1, 1, HttpShape::Sequential));
    let plan = http_plan(&vec![
        set("__mock_initialize_http_url", wire_text("http://h")),
        set("__mock_initialize_http_requests", WireValue::Int(5)),
        set("__mock_initialize_http_concurrency", WireValue::Int(2)),
    ])
    .unwrap()
    .unwrap();
    assert_eq!((plan.request_count, plan.concurrency, plan.shape), (5, 2, HttpShape::PollBatch));
    let err = http_plan(&vec![
        set("__mock_initialize_http_url", wire_text("http://h")),
        set("__mock_initialize_http_shape", wire_text("zigzag")),
    ])
    .unwrap_err();
    assert_eq!(err, "unknown __mock_initialize_http_shape: zigzag");
    assert_eq!(request_url("http://h", 12), "http://h?request=12");
    assert_eq!((batch_len(0, 5, 2), batch_len(4, 5, 2)), (2, 1));
    assert_eq!((spawn_len(0, 5, 2), spawn_len(4, 5, 2), spawn_len(0, 5, 1)), (2, 1, 1));
    assert!(check_status(3, 204).is_ok());
    assert_eq!(check_status(3, 503).unwrap_err(), "initialize HTTP request 3 returned status 503");
}

#[test]
fn sequential_requests_name_the_reason_of_a_status() {
    assert_eq!(check_sequential_status(204), Ok(()));
    assert_eq!(
        check_sequential_status(404).unwrap_err(),
        "initialize HTTP request returned status 404 Not Found"
    );
    assert_eq!(check_shown_status(199, "199 x").unwrap_err(), "initialize HTTP request returned status 199 x");
}
