use carina_awscc::json::Json;
use carina_awscc::mock::store::{states_of_document, states_of_text, text_of_states, MockProvider};
use carina_awscc::provider::cloud_control::parse_resource_properties;
use carina_awscc::provider::dropped::{
    aws_value_to_dsl_drops, drops_of_read, drops_of_send, dsl_value_to_aws_drops, json_to_value_drops,
    value_to_json_drops, Dropped,
};
use carina_awscc::resource::{Resource, ResourceId};
use carina_awscc::schema::AttributeType;
use carina_awscc::schemas::registry::get_schema_config;
use carina_awscc::value::DslValue;

fn json(text: &str) -> Json {
    parse_resource_properties(text).expect("JSON")
}

fn item(attribute: Option<&str>, index: usize) -> Dropped {
    Dropped::Item { attribute: attribute.map(str::to_string), index }
}

fn entry(attribute: Option<&str>, key: &str) -> Dropped {
    Dropped::Entry { attribute: attribute.map(str::to_string), key: key.to_string() }
}

fn unresolved() -> DslValue {
    DslValue::UnresolvedIdent("x".to_string(), None)
}

#[test]
fn nulls_are_dropped_from_lists_and_maps() {
    assert_eq!(json_to_value_drops(&json(r#"["a", null, [null], {"k": null}]"#)), vec![
        item(None, 1),
        item(None, 0),
        entry(None, "k"),
    ]);
    assert_eq!(json_to_value_drops(&json(r#"{"a": 1, "b": [true]}"#)), vec![]);
    assert_eq!(json_to_value_drops(&Json::Null), vec![]);
}

#[test]
fn unresolved_values_are_dropped_from_lists_and_maps() {
    let v = DslValue::List(vec![DslValue::Int(1), unresolved(), DslValue::Mapping(vec![("k".to_string(), unresolved())])]);
    assert_eq!(value_to_json_drops(&v), vec![item(None, 1), entry(None, "k")]);
}

#[test]
fn typed_conversions_name_the_attribute() {
    let t = AttributeType::list(AttributeType::String);
    assert_eq!(aws_value_to_dsl_drops("names", &json(r#"[null, "x", null]"#), &t, "test.resource"), vec![
        item(Some("names"), 0),
        item(Some("names"), 2),
    ]);
    let v = DslValue::List(vec![unresolved(), DslValue::String("x".to_string())]);
    assert_eq!(dsl_value_to_aws_drops("names", &v, &t, "test.resource"), vec![item(Some("names"), 0)]);
}

#[test]
fn reads_and_sends_tell_what_they_drop() {
    let c = get_schema_config("ec2.vpc_endpoint").unwrap();
    let props = json(r#"{"RouteTableIds": ["rtb-1", null], "Tags": [null], "DnsEntries": [null]}"#);
    let mut drops = drops_of_read(&c, &props, "ec2.vpc_endpoint");
    drops.sort_by_key(|d| format!("{:?}", d));
    assert_eq!(drops, vec![item(Some("dns_entries"), 0), item(Some("route_table_ids"), 1)]);
    let wanted = Resource {
        id: ResourceId::with_provider("awscc", "ec2.vpc_endpoint", "e"),
        attributes: vec![
            ("subnet_ids".to_string(), DslValue::List(vec![unresolved()])),
            ("tags".to_string(), DslValue::List(vec![unresolved()])),
        ],
    };
    assert_eq!(drops_of_send(&c, &wanted), vec![item(Some("subnet_ids"), 0)]);
}

#[test]
fn the_text_of_the_file_gives_the_states() {
    let text = r#"{"test.resource.a": {"name": "a", "n": 1}, "test.resource.b": {}}"#;
    let states = states_of_text(Some(text));
    assert_eq!(states.len(), 2);
    assert_eq!(states[0].0, "test.resource.a");
    let provider = MockProvider::from_settings(None, None, &None, None, &None);
    assert!(provider.read(&states, &ResourceId::with_provider("mock", "test.resource", "b")).exists);
    assert!(!provider.read(&states, &ResourceId::with_provider("mock", "test.resource", "c")).exists);
}

#[test]
fn a_file_that_is_missing_or_malformed_counts_as_empty() {
    assert!(states_of_text(None).is_empty());
    for text in ["", "{", "[]", "null", r#"{"a": {}, "b": 1}"#, r#"{"a": [1]}"#] {
        assert!(states_of_text(Some(text)).is_empty(), "of {}", text);
    }
    assert!(states_of_text(Some(r#"{"a": 1, "a": {}}"#)).is_empty());
    assert_eq!(states_of_text(Some(r#"{"a": {"x": 1}, "a": {"y": 1, "y": 2}}"#)), vec![(
        "a".to_string(),
        vec![("y".to_string(), json("2"))]
    )]);
    assert!(states_of_document(Err("no file".to_string())).is_empty());
    let states = vec![("a".to_string(), vec![("x".to_string(), Json::Null)])];
    assert_eq!(states_of_document(Ok(vec![("a".to_string(), vec![("x".to_string(), Json::Null)])])), states);
}

#[test]
fn the_states_are_read_from_the_text_that_they_are_written_as() {
    let states = vec![
        ("test.resource.b".to_string(), vec![("n".to_string(), json("-3")), ("s".to_string(), json(r#""a\"b\n""#))]),
        ("test.resource.a".to_string(), vec![("l".to_string(), json(r#"[1, null, {"k": true}]"#))]),
    ];
    let text = text_of_states(&states).unwrap();
    assert!(text.ends_with("}\n"));
    let mut read = states_of_text(Some(&text));
    read.sort_by(|a, b| b.0.partial_cmp(&a.0).unwrap());
    assert_eq!(read, states);
    assert_eq!(text_of_states(&vec![]).unwrap(), "{}\n");
    assert_eq!(text_of_states(&vec![("f".to_string(), vec![("x".to_string(), json("1.5"))])]), None);
}

#[test]
fn documents_without_floats_have_a_text() {
    assert_eq!(json(r#"{"b": [1, "x", null], "a": -2}"#).to_text().unwrap(), r#"{"a":-2,"b":[1,"x",null]}"#);
    assert_eq!(json(r#"[{"x": 0.5}]"#).to_text(), None);
    assert_eq!(json(r#"{"a": [1]}"#).to_pretty_text().unwrap(), "{\n  \"a\": [\n    1\n  ]\n}\n");
}
