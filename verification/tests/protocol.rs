use carina_awscc::json::{Json, JsonNumber};
use carina_awscc::protocol::jsonrpc::{Notification, Request, Response};
use carina_awscc::protocol::resource_schema::ResourceSchema;
use carina_awscc::protocol::schema::{AttributeType, StructField};
use carina_awscc::protocol::transform::DslTransform;
use carina_awscc::protocol::types::{
    OperationConfig, ProviderInfo, ProviderInfoEnvelope, SchemaKind, State, ValidatorType,
};
use carina_awscc::protocol::value::WireValue;
use carina_awscc::protocol::PROTOCOL_VERSION;
use carina_awscc::provider::cloud_control::parse_resource_properties;
use carina_awscc::resource::ResourceId;
use carina_awscc::value::Float;

fn json(text: &str) -> Json {
    parse_resource_properties(text).expect("JSON")
}

fn string(s: &str) -> String {
    s.to_string()
}

fn field(name: &str, field_type: AttributeType, required: bool) -> StructField {
    StructField {
        name: string(name),
        field_type,
        required,
        description: None,
        block_name: None,
        provider_name: None,
    }
}

fn keys(j: &Json) -> Vec<&str> {
    match j {
        Json::Object(m) => m.iter().map(|(k, _)| k.as_str()).collect(),
        other => panic!("expected an object, got {:?}", other),
    }
}

#[test]
fn test_request_serialization() {
    let req = Request::new(1, "read", json(r#"{"id": "test"}"#));
    let j = req.to_json();
    assert_eq!(j.get("jsonrpc").and_then(|v| v.as_str()), Some("2.0"));
    assert_eq!(j.get("id"), Some(&Json::Number(JsonNumber::PosInt(1))));
    assert_eq!(j.get("method").and_then(|v| v.as_str()), Some("read"));
}

#[test]
fn test_response_success() {
    let resp = Response::success(1, json(r#"{"ok": true}"#));
    let j = resp.to_json();
    assert!(j.get("result").is_some());
    assert!(j.get("error").is_none());
}

#[test]
fn test_response_error() {
    let resp = Response::error(1, -1, "something failed");
    let j = resp.to_json();
    assert!(j.get("error").is_some());
    assert!(j.get("result").is_none());
}

#[test]
fn test_notification_ready() {
    let notif = Notification::ready();
    let j = notif.to_json();
    assert_eq!(j.get("method").and_then(|v| v.as_str()), Some("ready"));
    assert!(j.get("id").is_none());
}

#[test]
fn test_notification_ready_includes_protocol_version() {
    let notif = Notification::ready();
    let j = notif.to_json();
    let params = j.get("params").expect("ready should have params");
    let version = params.get("protocol_version").expect("params should have protocol_version");
    assert_eq!(version, &Json::Number(JsonNumber::PosInt(1)));
}

#[test]
fn messages_come_back_from_their_json() {
    let req = Request::new(7, "create", json(r#"{"a": [1, "x"]}"#));
    let back = Request::from_json(&req.to_json()).unwrap();
    assert_eq!((back.jsonrpc, back.id, back.method, back.params), (req.jsonrpc, req.id, req.method, req.params));
    let resp = Response::error(7, -32601, "no such method");
    let back = Response::from_json(&resp.to_json()).unwrap();
    let e = back.error.unwrap();
    assert_eq!((back.id, e.code, e.message.as_str()), (7, -32601, "no such method"));
    assert!(back.result.is_none());
    assert!(Request::from_json(&json(r#"{"jsonrpc": "2.0", "method": "read"}"#)).is_none());
    assert!(Response::from_json(&json(r#"{"jsonrpc": "2.0", "id": 1, "error": {"code": 1}}"#)).is_none());
}

#[test]
fn test_value_roundtrip() {
    let values = vec![
        WireValue::String(string("hello")),
        WireValue::Int(42),
        WireValue::Float(Float { bits: 2.71f64.to_bits() }),
        WireValue::Bool(true),
        WireValue::List(vec![WireValue::Int(1), WireValue::Int(2)]),
        WireValue::Mapping(vec![(string("key"), WireValue::String(string("val")))]),
    ];

    for value in values {
        let j = value.to_json();
        let back = WireValue::from_json(&j);
        assert_eq!(value, back);
    }
}

#[test]
fn null_is_the_empty_string_and_large_numbers_are_floats() {
    assert_eq!(WireValue::from_json(&Json::Null), WireValue::String(string("")));
    assert_eq!(WireValue::from_json(&json("-5")), WireValue::Int(-5));
    let big = WireValue::from_json(&json("18446744073709551615"));
    assert_eq!(big, WireValue::Float(Float { bits: 18446744073709551615f64.to_bits() }));
    let nan = WireValue::Float(Float { bits: 0x7ff8_0000_0000_0000 });
    assert_eq!(nan.to_json(), Json::Null);
}

#[test]
fn test_state_roundtrip() {
    let state = State {
        id: ResourceId::with_provider("mock", "test.resource", "my-resource"),
        identifier: Some(string("mock-id")),
        attributes: vec![(string("name"), WireValue::String(string("test")))],
        exists: true,
    };

    let back = State::from_json(&state.to_json()).unwrap();
    assert!(state.id.same(&back.id));
    assert_eq!(state.identifier, back.identifier);
    assert_eq!(state.exists, back.exists);
    assert_eq!(state.attributes, back.attributes);
    assert!(State::from_json(&json(r#"{"identifier": null, "attributes": {}, "exists": true}"#)).is_none());
}

#[test]
fn test_attribute_type_roundtrip() {
    let attr = AttributeType::Struct {
        name: string("Config"),
        fields: vec![field("enabled", AttributeType::Bool, true)],
    };

    let j = attr.to_json();
    let back = AttributeType::from_json(&j).unwrap();
    assert_eq!(j, back.to_json());
    assert_eq!(attr, back);
}

#[test]
fn ref_attribute_type_roundtrip() {
    // Cyclic definitions are written as a reference by name, which must come
    // back as one.
    let attr = AttributeType::Ref { name: string("Statement") };
    let j = attr.to_json();
    assert_eq!(
        j,
        Json::Object(vec![
            (string("type"), Json::String(string("ref"))),
            (string("name"), Json::String(string("Statement"))),
        ])
    );
    match AttributeType::from_json(&j) {
        Some(AttributeType::Ref { name }) => assert_eq!(name, "Statement"),
        other => panic!("expected Ref, got {:?}", other),
    }
}

#[test]
fn custom_pattern_and_length_round_trip() {
    let attr = AttributeType::Custom {
        name: string("awscc.wafv2.WebACL.EntityDescription"),
        base: Box::new(AttributeType::String),
        pattern: Some(string("^[a-z]+$")),
        length: Some((Some(1), Some(9))),
    };

    let j = attr.to_json();
    assert!(j.get("pattern").is_some());
    assert!(j.get("length").is_some());
    match AttributeType::from_json(&j) {
        Some(AttributeType::Custom { pattern, length, .. }) => {
            assert_eq!(pattern.as_deref(), Some("^[a-z]+$"));
            assert_eq!(length, Some((Some(1), Some(9))));
        }
        other => panic!("expected Custom, got {:?}", other),
    }
}

fn schema_with(defs: Vec<(String, AttributeType)>) -> ResourceSchema {
    ResourceSchema {
        resource_type: string("awscc.wafv2.WebACL"),
        attributes: vec![],
        description: None,
        kind: SchemaKind::Managed,
        name_attribute: None,
        force_replace: false,
        operation_config: None,
        validators: vec![],
        exclusive_required: vec![],
        defs,
    }
}

#[test]
fn resource_schema_defs_roundtrip() {
    // The definitions carry cyclic structs; they must not be lost on the way.
    let schema = schema_with(vec![(
        string("Statement"),
        AttributeType::Struct {
            name: string("Statement"),
            fields: vec![field(
                "and_statement",
                AttributeType::List {
                    inner: Box::new(AttributeType::Ref { name: string("Statement") }),
                    ordered: true,
                },
                false,
            )],
        },
    )]);
    let back = ResourceSchema::from_json(&schema.to_json()).unwrap();
    assert_eq!(back.defs.len(), 1, "defs map lost during round-trip");
    assert!(back.defs.iter().any(|(name, _)| name == "Statement"));
    assert_eq!(back.defs, schema.defs);
}

#[test]
fn schemas_keep_validators_groups_and_kind() {
    let mut schema = schema_with(vec![]);
    schema.kind = SchemaKind::DataSource;
    schema.validators = vec![ValidatorType::TagsKeyValueCheck];
    schema.exclusive_required = vec![vec![string("a"), string("b")]];
    let j = schema.to_json();
    assert_eq!(j.get("kind").and_then(|v| v.as_str()), Some("data_source"));
    let back = ResourceSchema::from_json(&j).unwrap();
    assert_eq!(back.kind, SchemaKind::DataSource);
    assert_eq!(back.validators, schema.validators);
    assert_eq!(back.exclusive_required, schema.exclusive_required);
    assert!(!keys(&schema_with(vec![]).to_json()).contains(&"validators"));
    assert!(ResourceSchema::from_json(&json(r#"{"resource_type": "x", "attributes": {}, "kind": "odd"}"#)).is_none());
}

#[test]
fn duration_attribute_type_serializes_as_duration_tag() {
    let attr = AttributeType::Duration;
    let j = attr.to_json();
    assert_eq!(j, json(r#"{"type":"Duration"}"#));
    assert!(matches!(AttributeType::from_json(&j), Some(AttributeType::Duration)));
}

#[test]
fn test_provider_info_with_capabilities() {
    let info = ProviderInfo {
        name: string("test"),
        display_name: string("Test Provider"),
        capabilities: vec![string("normalize_desired"), string("normalize_state")],
        version: string("1.2.3"),
    };
    let back = ProviderInfo::from_json(&info.to_json()).unwrap();
    assert_eq!(back.capabilities, vec!["normalize_desired", "normalize_state"]);
}

#[test]
fn test_provider_info_without_capabilities_defaults_to_empty() {
    let j = json(r#"{"name":"old","display_name":"Old Provider","version":"1.0.0"}"#);
    let info = ProviderInfo::from_json(&j).unwrap();
    assert!(info.capabilities.is_empty());
}

#[test]
fn test_provider_info_envelope_flat_roundtrip_and_default_protocol_version() {
    let envelope = ProviderInfoEnvelope {
        info: ProviderInfo {
            name: string("test"),
            display_name: string("Test Provider"),
            capabilities: vec![string("normalize_desired")],
            version: string("1.2.3"),
        },
        protocol_version: PROTOCOL_VERSION,
    };

    let value = envelope.to_json();
    assert_eq!(value.get("name").and_then(|v| v.as_str()), Some("test"));
    assert_eq!(value.get("display_name").and_then(|v| v.as_str()), Some("Test Provider"));
    assert_eq!(value.get("capabilities").unwrap().as_array().unwrap()[0].as_str(), Some("normalize_desired"));
    assert_eq!(value.get("version").and_then(|v| v.as_str()), Some("1.2.3"));
    assert_eq!(value.get("protocol_version"), Some(&Json::Number(JsonNumber::PosInt(PROTOCOL_VERSION as u64))));

    let back = ProviderInfoEnvelope::from_json(&value).unwrap();
    assert_eq!(back.info.name, "test");
    assert_eq!(back.info.display_name, "Test Provider");
    assert_eq!(back.info.capabilities, vec!["normalize_desired"]);
    assert_eq!(back.info.version, "1.2.3");
    assert_eq!(back.protocol_version, PROTOCOL_VERSION);

    let old_json = json(r#"{"name":"old","display_name":"Old Provider","version":"1.0.0"}"#);
    let old = ProviderInfoEnvelope::from_json(&old_json).unwrap();
    assert_eq!(old.info.name, "old");
    assert_eq!(old.protocol_version, 0);
}

#[test]
fn test_union_type_roundtrip() {
    let attr = AttributeType::Union {
        members: vec![
            AttributeType::Struct {
                name: string("IamPolicyPrincipal"),
                fields: vec![field("service", AttributeType::String, false)],
            },
            AttributeType::String,
        ],
    };

    let j = attr.to_json();
    let back = AttributeType::from_json(&j).unwrap();
    assert_eq!(j, back.to_json());
}

#[test]
fn test_operation_config_serialization() {
    let config = OperationConfig {
        delete_timeout_secs: Some(1800),
        delete_max_retries: Some(24),
        create_timeout_secs: None,
        create_max_retries: None,
    };
    let j = config.to_json();
    assert_eq!(j.get("delete_timeout_secs"), Some(&Json::Number(JsonNumber::PosInt(1800))));
    assert!(!keys(&j).contains(&"create_timeout_secs"));

    let back = OperationConfig::from_json(&j).unwrap();
    assert_eq!(back.delete_timeout_secs, Some(1800));
    assert_eq!(back.create_timeout_secs, None);
}

#[test]
fn test_resource_schema_with_operation_config() {
    let j = json(r#"{"resource_type":"ec2.tgw","attributes":{},"operation_config":{"delete_timeout_secs":1800}}"#);
    let schema = ResourceSchema::from_json(&j).unwrap();
    assert_eq!(schema.operation_config.unwrap().delete_timeout_secs, Some(1800));
}

#[test]
fn test_resource_schema_without_operation_config() {
    let j = json(r#"{"resource_type":"ec2.Vpc","attributes":{}}"#);
    let schema = ResourceSchema::from_json(&j).unwrap();
    assert!(schema.operation_config.is_none());
}

/// The spellings of a string enum must reach the host.
#[test]
fn string_enum_dsl_aliases_round_trip() {
    let attr = AttributeType::StringEnum {
        name: string("ObjectOwnership"),
        values: vec![string("ObjectWriter"), string("BucketOwnerEnforced")],
        namespace: Some(string("awscc.s3.Bucket")),
        dsl_aliases: vec![
            (string("ObjectWriter"), string("object_writer")),
            (string("BucketOwnerEnforced"), string("bucket_owner_enforced")),
        ],
    };
    let j = attr.to_json();
    assert!(j.get("dsl_aliases").is_some());
    assert!(format!("{:?}", j).contains("bucket_owner_enforced"));
    match AttributeType::from_json(&j) {
        Some(AttributeType::StringEnum { dsl_aliases: aliases, .. }) => {
            assert_eq!(aliases.len(), 2);
            assert!(
                aliases
                    .iter()
                    .any(|(a, d)| a == "BucketOwnerEnforced" && d == "bucket_owner_enforced"),
                "alias pair lost in round trip: {aliases:?}"
            );
        }
        other => panic!("expected StringEnum, got {other:?}"),
    }
}

#[test]
fn string_enum_without_dsl_aliases_defaults_empty() {
    let j = json(r#"{"type":"string_enum","values":["A","B"],"name":"X"}"#);
    match AttributeType::from_json(&j) {
        Some(AttributeType::StringEnum { dsl_aliases: aliases, .. }) => {
            assert!(aliases.is_empty(), "missing dsl_aliases must deserialize as empty vec");
        }
        other => panic!("expected StringEnum, got {other:?}"),
    }
}

#[test]
fn string_enum_empty_dsl_aliases_skipped_on_serialize() {
    let attr = AttributeType::StringEnum {
        name: string("X"),
        values: vec![string("A")],
        namespace: None,
        dsl_aliases: vec![],
    };
    let j = attr.to_json();
    assert!(!keys(&j).contains(&"dsl_aliases"), "empty dsl_aliases must be omitted, got: {j:?}");
}

#[test]
fn custom_enum_dsl_transform_round_trip() {
    let transforms = [
        DslTransform::Identity,
        DslTransform::HyphenToUnderscore,
        DslTransform::StripSuffix(string(".")),
        DslTransform::ReplaceTable(vec![(string("all"), string("-1"))]),
    ];

    for transform in transforms {
        let attr = AttributeType::CustomEnum {
            name: string("ZoneName"),
            base: Box::new(AttributeType::String),
            namespace: string("aws.AvailabilityZone"),
            dsl_transform: Some(transform.clone()),
        };
        match AttributeType::from_json(&attr.to_json()) {
            Some(AttributeType::CustomEnum { dsl_transform, .. }) => {
                assert_eq!(dsl_transform, Some(transform));
            }
            other => panic!("expected CustomEnum, got {other:?}"),
        }
    }
}

#[test]
fn dsl_transform_replace_table_applies_first_match() {
    let transform = DslTransform::ReplaceTable(vec![
        (string("-1"), string("all")),
        (string("tcp"), string("tcp")),
    ]);
    assert_eq!(transform.apply("-1"), "all");
    assert_eq!(transform.apply("udp"), "udp");
}

#[test]
fn dsl_transforms_spell_values() {
    assert_eq!(DslTransform::Identity.apply("us-east-1"), "us-east-1");
    assert_eq!(DslTransform::HyphenToUnderscore.apply("us-east-1"), "us_east_1");
    assert_eq!(DslTransform::StripSuffix(string(".")).apply("foo.bar."), "foo.bar");
    assert_eq!(DslTransform::StripSuffix(string(".")).apply("foo.bar"), "foo.bar");
}

#[test]
fn dsl_transforms_need_a_tag_and_a_payload() {
    let wrong = |text: &str| DslTransform::from_json(&json(text)).unwrap_err();
    assert_eq!(wrong(r#"{"value": 1}"#), "DslTransform missing string `type` tag");
    assert_eq!(wrong(r#"{"type": "StripSuffix"}"#), "StripSuffix missing `value`");
    assert_eq!(wrong(r#"{"type": "ReplaceTable"}"#), "ReplaceTable missing `value`");
    assert_eq!(wrong(r#"{"type": "StripSuffix", "value": 1}"#), "invalid type: integer `1`, expected a string");
    assert_eq!(wrong(r#"{"type": "StripSuffix", "value": null}"#), "invalid type: null, expected a string");
    assert_eq!(wrong(r#"{"type": "ReplaceTable", "value": "x"}"#), "invalid type: string \"x\", expected a sequence");
    assert_eq!(wrong(r#"{"type": "ReplaceTable", "value": [["a"]]}"#), "invalid length 1, expected a tuple of size 2");
    assert_eq!(wrong(r#"{"type": "ReplaceTable", "value": [["a", 2]]}"#), "invalid type: integer `2`, expected a string");
    assert_eq!(
        wrong(r#"{"type": "StripSuffix", "value": 1.5}"#),
        "invalid type: floating point number, expected a string"
    );
    assert_eq!(wrong(r#"{"type": "StripSuffix", "value": [1.5]}"#), "invalid type: sequence, expected a string");
    assert_eq!(wrong(r#"{"type": "StripSuffix", "value": {"x": 1.5}}"#), "invalid type: map, expected a string");
    assert_eq!(wrong(r#"{"type": "ReplaceTable", "value": {"x": 1.5}}"#), "invalid type: map, expected a sequence");
    assert_eq!(
        wrong(r#"{"type": "ReplaceTable", "value": [["a", "b"], ["c", [1.5]], 2.5]}"#),
        "invalid type: sequence, expected a string"
    );
    assert_eq!(
        wrong(r#"{"type": "ReplaceTable", "value": [["a", "b", 1.5, 2.5]]}"#),
        "invalid length 4, expected fewer elements in array"
    );
    assert_eq!(
        wrong(r#"{"type": "ReplaceTable", "value": [[1, 1.5]]}"#),
        "invalid type: integer `1`, expected a string"
    );
    assert_eq!(
        wrong(r#"{"type": "ReplaceTable", "value": [["a", "b"], 1.5]}"#),
        "invalid type: floating point number, expected a tuple of size 2"
    );
    assert!(DslTransform::from_json(&json(r#"{"type": "ReplaceTable", "value": [["a"]]}"#)).is_err());
}

#[test]
fn dsl_transform_unknown_unit_deserializes_as_identity() {
    let j = json(r#"{"type":"FutureTransform"}"#);
    let transform = DslTransform::from_json(&j).unwrap();
    assert_eq!(transform, DslTransform::Unknown(json(r#"{"type":"FutureTransform"}"#)));
    assert_eq!(transform.apply("foo.bar."), "foo.bar.");
}

#[test]
fn dsl_transform_unknown_sequence_payload_deserializes_as_identity() {
    let j = json(r#"{"type":"FutureTransform","value":[["a","b"]]}"#);
    let transform = DslTransform::from_json(&j).unwrap();
    assert_eq!(
        transform,
        DslTransform::Unknown(json(r#"{"type": "FutureTransform", "value": [["a", "b"]]}"#))
    );
    assert_eq!(transform.apply("foo.bar."), "foo.bar.");
}

#[test]
fn custom_enum_unknown_sequence_payload_deserializes_without_schema_failure() {
    let j = json(
        r#"{
        "type":"custom_enum",
        "name":"ZoneName",
        "base":{"type":"String"},
        "namespace":"aws.AvailabilityZone",
        "dsl_transform":{"type":"FutureTransform","value":[["a","b"]]}
    }"#,
    );
    match AttributeType::from_json(&j) {
        Some(AttributeType::CustomEnum { dsl_transform, .. }) => {
            assert!(matches!(
                dsl_transform,
                Some(DslTransform::Unknown(raw))
                    if raw == json(r#"{"type": "FutureTransform", "value": [["a", "b"]]}"#)
            ));
        }
        other => panic!("expected CustomEnum, got {other:?}"),
    }
}

#[test]
fn custom_enum_unknown_struct_payload_deserializes_without_schema_failure() {
    let j = json(
        r#"{
        "type":"custom_enum",
        "name":"ZoneName",
        "base":{"type":"String"},
        "namespace":"aws.AvailabilityZone",
        "dsl_transform":{"type":"Other","value":{"x":1}}
    }"#,
    );
    match AttributeType::from_json(&j) {
        Some(AttributeType::CustomEnum { dsl_transform, .. }) => {
            assert!(matches!(
                dsl_transform,
                Some(DslTransform::Unknown(raw)) if raw == json(r#"{"type": "Other", "value": {"x": 1}}"#)
            ));
        }
        other => panic!("expected CustomEnum, got {other:?}"),
    }
}

#[test]
fn dsl_transform_unknown_serializes_losslessly() {
    let raw = json(r#"{"type": "FutureTransform", "value": [["a", "b"]]}"#);
    let transform = DslTransform::Unknown(raw.clone());
    assert_eq!(transform.to_json(), raw);
}

#[test]
fn types_without_a_known_tag_are_refused() {
    assert!(AttributeType::from_json(&json(r#"{"type": "tuple"}"#)).is_none());
    assert!(AttributeType::from_json(&json(r#"{"name": "X"}"#)).is_none());
    assert!(AttributeType::from_json(&json(r#"{"type": "list"}"#)).is_none());
    match AttributeType::from_json(&json(r#"{"type": "list", "inner": {"type": "Int"}}"#)) {
        Some(AttributeType::List { inner, ordered }) => {
            assert_eq!(*inner, AttributeType::Int);
            assert!(ordered);
        }
        other => panic!("expected List, got {other:?}"),
    }
    let map = AttributeType::Mapping { inner: Box::new(AttributeType::Float), key: Box::new(AttributeType::String) };
    assert_eq!(AttributeType::from_json(&map.to_json()), Some(map));
}
