use carina_awscc::json::Json;
use carina_awscc::protocol::jsonrpc::{Notification, Request, Response};
use carina_awscc::protocol::methods::{
    CreateParams, DeleteParams, DeleteResult, HydrateReadStateParams, InitializeParams, MergeDefaultTagsParams,
    NormalizeStateParams, ReadParams, SchemasResult, UpdateParams, ValidateConfigResult,
};
use carina_awscc::protocol::resource_schema::{AttributeSchema, ResourceSchema};
use carina_awscc::protocol::schema::AttributeType;
use carina_awscc::protocol::types::{
    CompletionValue, CreateRequest, DeleteRequest, Directives, OperationConfig, PatchOp, PatchOpKind, ProviderError,
    ProviderErrorKind, ProviderInfo, ProviderInfoEnvelope, ReadRequest, Resource, SchemaKind, State, TypeIdentity,
    UpdatePatch, UpdateRequest,
};
use carina_awscc::protocol::value::WireValue;
use carina_awscc::protocol::wire::id_from_json;
use carina_awscc::provider::cloud_control::parse_resource_properties;

fn json(text: &str) -> Json {
    parse_resource_properties(text).expect("JSON")
}

const ID: &str = r#"{"provider": "mock", "resource_type": "test.resource", "name": "r"}"#;

fn state() -> String {
    format!(r#"{{"id": {}, "identifier": null, "attributes": {{"a": 1}}, "exists": true}}"#, ID)
}

fn resource() -> String {
    format!(
        r#"{{"id": {}, "attributes": {{"a": [true]}},
            "directives": {{"force_delete": true, "create_before_destroy": false, "prevent_destroy": false}}}}"#,
        ID
    )
}

#[test]
fn errors_come_back_and_leave_out_what_they_lack() {
    let mut e = ProviderError::new("broken").with_cause("deep");
    e.status = Some(403);
    e.code = Some("AccessDenied".to_string());
    assert_eq!(
        e.to_json(),
        json(r#"{"cause": "deep", "code": "AccessDenied", "kind": "internal", "message": "broken", "status": 403}"#)
            .reordered(&["kind", "message", "cause", "status", "code"])
    );
    let back = ProviderError::from_json(&e.to_json()).unwrap();
    assert_eq!(back.kind, ProviderErrorKind::Internal);
    assert_eq!((back.message.as_str(), back.cause.as_deref(), back.status), ("broken", Some("deep"), Some(403)));
    assert!(back.resource_id.is_none() && back.request_id.is_none());
    let least = ProviderError::from_json(&json(r#"{"message": "m"}"#)).unwrap();
    assert_eq!(least.kind, ProviderErrorKind::Internal);
    assert!(ProviderError::from_json(&json(r#"{"message": "m", "status": 65536}"#)).is_none());
    assert!(ProviderError::from_json(&json(r#"{"kind": "not_found"}"#)).is_none());
    let timeout = ProviderError::from_json(&json(r#"{"kind": {"timeout": null}, "message": "m"}"#)).unwrap();
    assert_eq!(timeout.kind, ProviderErrorKind::Timeout);
    assert!(ProviderError::from_json(&json(r#"{"kind": "odd", "message": "m"}"#)).is_none());
}

trait Reordered {
    fn reordered(self, keys: &[&str]) -> Json;
}

impl Reordered for Json {
    fn reordered(self, keys: &[&str]) -> Json {
        match self {
            Json::Object(members) => Json::Object(
                keys.iter()
                    .map(|k| {
                        let (key, value) = members.iter().find(|(n, _)| n == k).expect("member");
                        (key.clone(), value.clone())
                    })
                    .collect(),
            ),
            other => other,
        }
    }
}

#[test]
fn resources_and_directives_come_back() {
    let r = Resource::from_json(&json(&resource())).unwrap();
    assert!(r.directives.force_delete && !r.directives.prevent_destroy);
    assert_eq!(r.attributes, vec![("a".to_string(), WireValue::List(vec![WireValue::Bool(true)]))]);
    let again = Resource::from_json(&r.to_json()).unwrap();
    assert_eq!(again.id.name, "r");
    assert!(again.directives == r.directives);
    let plain = Resource::from_json(&json(&format!(r#"{{"id": {}, "attributes": {{}}}}"#, ID))).unwrap();
    assert!(plain.directives == Directives::default());
    assert!(Resource::from_json(&json(r#"{"attributes": {}}"#)).is_none());
    assert!(Directives::from_json(&json("[]")).unwrap() == Directives::default());
    assert!(Directives::from_json(&json("[true, false]")).unwrap().force_delete);
    assert!(Directives::from_json(&json("[true, false, false, false]")).is_none());
}

#[test]
fn patches_and_requests_come_back() {
    let op = PatchOp { kind: PatchOpKind::Remove, key: "k".to_string(), value: None };
    assert_eq!(op.to_json(), json(r#"{"key": "k", "kind": "remove"}"#).reordered(&["kind", "key"]));
    let op = PatchOp::from_json(&json(r#"{"kind": "replace", "key": "k", "value": 3}"#)).unwrap();
    assert_eq!((op.kind, op.value), (PatchOpKind::Replace, Some(WireValue::Int(3))));
    assert!(PatchOp::from_json(&json(r#"{"kind": "move", "key": "k"}"#)).is_none());
    assert_eq!(UpdatePatch::from_json(&json("{}")).unwrap().ops.len(), 0);
    let patch = UpdatePatch::from_json(&json(r#"{"ops": [["add", "x", 1], {"kind": "remove", "key": "y"}]}"#)).unwrap();
    assert_eq!(patch.ops.len(), 2);
    assert_eq!(UpdatePatch::from_json(&patch.to_json()).unwrap().ops.len(), 2);
    assert_eq!(ReadRequest.to_json(), Json::Null);
    assert!(ReadRequest::from_json(&Json::Null).is_some() && ReadRequest::from_json(&json("{}")).is_none());
    let create = CreateRequest::from_json(&json(&format!(r#"{{"resource": {}}}"#, resource()))).unwrap();
    assert_eq!(CreateRequest::from_json(&create.to_json()).unwrap().resource.id.name, "r");
    let update = UpdateRequest::from_json(&json(&format!(r#"{{"from": {}, "patch": {{}}}}"#, state()))).unwrap();
    assert!(UpdateRequest::from_json(&update.to_json()).unwrap().from.exists);
    assert!(DeleteRequest::from_json(&json("{}")).unwrap().directives == Directives::default());
}

#[test]
fn identities_and_completions_come_back() {
    let j = json(r#"{"kind": "Role", "provider": "aws", "segments": ["iam"]}"#);
    let t = TypeIdentity::from_json(&j).unwrap();
    assert_eq!((t.provider.as_str(), t.segments.len(), t.kind.as_str()), ("aws", 1, "Role"));
    assert_eq!(t.to_json(), j.reordered(&["provider", "segments", "kind"]));
    let c = CompletionValue::from_json(&json(r#"["v", "d"]"#)).unwrap();
    assert_eq!(c.to_json(), json(r#"{"description": "d", "value": "v"}"#).reordered(&["value", "description"]));
    assert!(CompletionValue::from_json(&json(r#"["v"]"#)).is_none());
}

#[test]
fn methods_come_back() {
    let p = ReadParams::from_json(&json(&format!(r#"{{"id": {}}}"#, ID))).unwrap();
    assert!(p.identifier.is_none());
    assert!(ReadParams::from_json(&p.to_json()).is_some());
    assert!(ReadParams::from_json(&json(&format!("[{}]", ID))).is_none());
    let p = UpdateParams::from_json(&json(&format!(
        r#"{{"id": {}, "identifier": "i", "from": {}, "to": {}}}"#,
        ID,
        state(),
        resource()
    )))
    .unwrap();
    assert_eq!(UpdateParams::from_json(&p.to_json()).unwrap().identifier, "i");
    let p = DeleteParams::from_json(&json(&format!(
        r#"{{"id": {}, "identifier": "i", "lifecycle": {{"force_delete": true}}}}"#,
        ID
    )))
    .unwrap();
    assert!(p.lifecycle.force_delete && !p.lifecycle.create_before_destroy);
    assert!(DeleteParams::from_json(&p.to_json()).unwrap().lifecycle == p.lifecycle);
    assert!(DeleteResult::from_json(&json(r#"{"ok": true}"#)).unwrap().ok);
    assert!(ValidateConfigResult::from_json(&json("{}")).unwrap().error.is_none());
    assert_eq!(InitializeParams::from_json(&json(r#"{"attributes": {"x": "y"}}"#)).unwrap().attributes.len(), 1);
    assert!(CreateParams::from_json(&json("{}")).is_none());
    let p = NormalizeStateParams::from_json(&json(&format!(r#"{{"states": {{"k": {}}}}}"#, state()))).unwrap();
    assert_eq!(NormalizeStateParams::from_json(&p.to_json()).unwrap().states[0].0, "k");
    assert!(NormalizeStateParams::from_json(&json(r#"{"states": {"k": 1}}"#)).is_none());
    let p = HydrateReadStateParams::from_json(&json(r#"{"states": {}, "saved_attrs": {"k": {"a": 1}}}"#)).unwrap();
    assert_eq!(HydrateReadStateParams::from_json(&p.to_json()).unwrap().saved_attrs, p.saved_attrs);
    let schemas = r#"[{"resource_type": "t", "attributes": {"a": {"name": "a", "attr_type": {"type": "Int"}, "required": true}}}]"#;
    let p = SchemasResult::from_json(&json(&format!(r#"{{"schemas": {}}}"#, schemas))).unwrap();
    assert_eq!(SchemasResult::from_json(&p.to_json()).unwrap().schemas[0].attributes.len(), 1);
    let p = MergeDefaultTagsParams::from_json(&json(&format!(
        r#"{{"resources": [{}], "default_tags": {{"Team": "net"}}, "schemas": {}}}"#,
        resource(),
        schemas
    )))
    .unwrap();
    assert_eq!(MergeDefaultTagsParams::from_json(&p.to_json()).unwrap().resources.len(), 1);
}

#[test]
fn records_are_read_from_lists_of_their_fields() {
    assert_eq!(id_from_json(&json(r#"["p", "t", "n"]"#)).unwrap().name, "n");
    assert!(id_from_json(&json(r#"["p", "t"]"#)).is_none() && id_from_json(&json(r#"["p", "t", "n", 1]"#)).is_none());
    let s = State::from_json(&json(r#"[["p", "t", "n"], null, {"a": 1}, false]"#)).unwrap();
    assert!(!s.exists && s.identifier.is_none());
    assert!(ProviderInfo::from_json(&json(r#"["n", "d", [], "1"]"#)).is_some());
    assert!(ProviderInfoEnvelope::from_json(&json(r#"["n", "d", [], "1"]"#)).is_none());
    let c = OperationConfig::from_json(&json("[5]")).unwrap();
    assert_eq!((c.delete_timeout_secs, c.create_max_retries), (Some(5), None));
    let r = Request::from_json(&json(r#"["2.0", 7, "read"]"#)).unwrap();
    assert!(r.id == 7 && r.params.is_none());
    assert!(Response::from_json(&json(r#"["2.0", 7, null]"#)).is_none());
    let r = Response::from_json(&json(r#"["2.0", 7, null, [-1, "failed", null]]"#)).unwrap();
    assert_eq!(r.error.unwrap().code, -1);
    let a = AttributeSchema::from_json(&json(r#"["a", ["list", {"type": 1}], true]"#)).unwrap();
    assert!(a.required && !a.create_only && a.default.is_none());
    let s = ResourceSchema::from_json(&json(r#"["t", {}, null, {"data_source": null}]"#)).unwrap();
    assert_eq!(s.kind, SchemaKind::DataSource);
}

#[test]
fn tags_are_numbers_only_within_types() {
    assert!(AttributeType::from_json(&json(r#"{"type": 0}"#)).is_none());
    assert!(AttributeType::from_json(&json(r#"["Bool"]"#)).is_some());
    assert!(AttributeType::from_json(&json(r#"["Bool", 1]"#)).is_none());
    assert!(AttributeType::from_json(&json(r#"{"type": "union", "members": [{"type": 12, "name": "N"}, [3]]}"#)).is_some());
    assert!(AttributeType::from_json(&json(r#"{"type": "union", "members": [{"type": 13}]}"#)).is_none());
}

#[test]
fn notifications_come_back() {
    let n = Notification::from_json(&Notification::ready().to_json()).unwrap();
    assert_eq!((n.jsonrpc.as_str(), n.method.as_str()), ("2.0", "ready"));
    assert_eq!(n.params, Some(json(r#"{"protocol_version": 1}"#)));
    assert!(Notification::from_json(&json(r#"["2.0", "m"]"#)).unwrap().params.is_none());
    assert!(Notification::from_json(&json(r#"{"method": "m"}"#)).is_none());
}
