use carina_awscc::factory::{AwsccProviderFactory, AwsccSchemaExt};
use carina_awscc::json::{Json, JsonNumber};
use carina_awscc::protocol::types::{ProviderErrorKind, ProviderError};
use carina_awscc::provider::cloud_control::{
    fetched_properties, on_create_reply, on_delete_reply, on_operation_end, on_status, parse_resource_properties,
    Backoff, CallStep, OperationStatus, PollStep, Polling, Progress, SdkErrorKind, SdkFailure, VersionEntry,
    VersionsPage,
};
use carina_awscc::provider::convert::{json_to_value, value_to_json};
use carina_awscc::provider::operations::{
    attributes_from_properties, begin_create, begin_delete, begin_read, begin_update, build_desired_state,
    detach_patches, finish_read, plan_update, read_special_attributes, set_default_values, settle, ReadStep,
};
use carina_awscc::provider::update::{build_tags, build_update_patches, parse_tags};
use carina_awscc::resource::{LifecycleConfig, Resource, ResourceId, State};
use carina_awscc::schemas::registry::get_schema_config;
use carina_awscc::value::{get, DslValue, Float};

fn json(text: &str) -> Json {
    parse_resource_properties(text).expect("JSON")
}

fn text(s: &str) -> DslValue {
    DslValue::String(s.to_string())
}

fn entries(list: Vec<(&str, DslValue)>) -> Vec<(String, DslValue)> {
    list.into_iter().map(|(k, v)| (k.to_string(), v)).collect()
}

fn resource(resource_type: &str, name: &str, attributes: Vec<(&str, DslValue)>) -> Resource {
    Resource { id: ResourceId::with_provider("awscc", resource_type, name), attributes: entries(attributes) }
}

fn failure(kind: SdkErrorKind) -> SdkFailure {
    SdkFailure { kind, text: "why".to_string() }
}

fn throttled() -> SdkFailure {
    failure(SdkErrorKind::Service(Some("ThrottlingException".to_string())))
}

#[test]
fn unknown_types_are_refused_by_every_operation() {
    let e = begin_read("ec2.nothing", "x", None).err().unwrap();
    assert_eq!(e.message, "Unknown resource type: ec2.nothing");
    assert_eq!(e.resource_id.unwrap().provider, "awscc");
    let r = resource("ec2.nothing", "x", vec![]);
    assert_eq!(begin_create(&r).err().unwrap().message, "Unknown resource type: ec2.nothing");
    let from = State::not_found(r.id.clone());
    assert_eq!(begin_update(&r.id, &from, &r).err().unwrap().message, "Unknown resource type: ec2.nothing");
    let lifecycle = LifecycleConfig { force_delete: true, create_before_destroy: false };
    assert_eq!(begin_delete(&r.id, &lifecycle).err().unwrap().message, "Unknown resource type: ec2.nothing");
}

#[test]
fn a_read_without_an_identifier_finds_nothing() {
    match begin_read("ec2.vpc", "main", None) {
        Ok(ReadStep::Absent(s)) => assert!(!s.exists && s.attributes.is_empty() && s.id.name == "main"),
        _ => panic!("expected an absent state"),
    }
    match begin_read("ec2.vpc", "main", Some("vpc-1")) {
        Ok(ReadStep::Fetch(c)) => {
            assert_eq!(c.aws_type_name, "AWS::EC2::VPC");
            assert!(!finish_read(&c, "ec2.vpc", "main", "vpc-1", None).exists);
        }
        _ => panic!("expected a fetch"),
    }
}

#[test]
fn properties_become_attributes() {
    let c = get_schema_config("ec2.vpc").unwrap();
    let props = json(
        r#"{"VpcId": "vpc-1", "CidrBlock": "10.0.0.0/16", "InstanceTenancy": "default", "EnableDnsSupport": true,
            "Tags": [{"Key": "Name", "Value": "main"}, {"Key": "odd"}], "Unknown": 1}"#,
    );
    let s = finish_read(&c, "ec2.vpc", "main", "vpc-1", Some(&props));
    assert!(s.exists);
    assert_eq!(s.identifier.as_deref(), Some("vpc-1"));
    assert_eq!(get(&s.attributes, "cidr_block"), Some(&text("10.0.0.0/16")));
    assert_eq!(get(&s.attributes, "instance_tenancy"), Some(&text("awscc.ec2.vpc.InstanceTenancy.default")));
    assert_eq!(get(&s.attributes, "enable_dns_support"), Some(&DslValue::Bool(true)));
    assert_eq!(get(&s.attributes, "tags"), Some(&DslValue::Mapping(entries(vec![("Name", text("main"))]))));
    assert_eq!(s.attributes.len(), 5);
}

#[test]
fn some_types_read_from_elsewhere() {
    let mut attributes = Vec::new();
    read_special_attributes("ec2.internet_gateway", &json(r#"{"Attachments": [{"VpcId": "vpc-9"}]}"#), &mut attributes);
    assert_eq!(get(&attributes, "vpc_id"), Some(&text("vpc-9")));
    let mut attributes = Vec::new();
    read_special_attributes("ec2.vpc_endpoint", &json(r#"{"RouteTableIds": ["rtb-1", 2, "rtb-3"]}"#), &mut attributes);
    assert_eq!(get(&attributes, "route_table_ids"), Some(&DslValue::List(vec![text("rtb-1"), text("rtb-3")])));
    let mut attributes = Vec::new();
    read_special_attributes("ec2.vpc", &json(r#"{"RouteTableIds": ["rtb-1"]}"#), &mut attributes);
    assert!(attributes.is_empty());
}

#[test]
fn attributes_become_properties() {
    let r = resource(
        "ec2.vpc",
        "main",
        vec![
            ("cidr_block", text("10.0.0.0/16")),
            ("instance_tenancy", DslValue::UnresolvedIdent("dedicated".to_string(), None)),
            ("tags", DslValue::Mapping(entries(vec![("Name", text("main")), ("n", DslValue::Int(1))]))),
            ("no_such_attribute", text("x")),
        ],
    );
    let step = begin_create(&r).unwrap();
    assert_eq!(step.config.aws_type_name, "AWS::EC2::VPC");
    assert_eq!(step.desired_state.get("CidrBlock"), Some(&json(r#""10.0.0.0/16""#)));
    assert_eq!(step.desired_state.get("InstanceTenancy"), Some(&json(r#""dedicated""#)));
    assert_eq!(step.desired_state.get("Tags"), Some(&json(r#"[{"Key": "Name", "Value": "main"}]"#)));
    match &step.desired_state {
        Json::Object(m) => assert_eq!(m.len(), 3),
        other => panic!("expected an object, got {:?}", other),
    }
}

#[test]
fn addresses_belong_to_a_vpc_unless_said_otherwise() {
    let c = get_schema_config("ec2.eip").unwrap();
    let j = build_desired_state(&c, &resource("ec2.eip", "ip", vec![]));
    assert_eq!(j.get("Domain"), Some(&json(r#""vpc""#)));
    let mut members = vec![("Domain".to_string(), json(r#""standard""#))];
    set_default_values("ec2.eip", &mut members);
    assert_eq!(members[0].1, json(r#""standard""#));
    let mut members = Vec::new();
    set_default_values("ec2.vpc", &mut members);
    assert!(members.is_empty());
}

#[test]
fn what_a_read_does_not_return_is_carried_forward() {
    let c = get_schema_config("ec2.security_group_egress").unwrap();
    let wanted = resource(
        "ec2.security_group_egress",
        "all",
        vec![("description", text("out")), ("ip_protocol", text("all")), ("stray", text("x"))],
    );
    let mut state = State::existing(wanted.id.clone(), entries(vec![("ip_protocol", text("-1"))]));
    settle(&c, &mut state, &wanted);
    assert_eq!(get(&state.attributes, "description"), Some(&text("out")));
    assert_eq!(get(&state.attributes, "ip_protocol"), Some(&text("-1")));
    assert_eq!(get(&state.attributes, "stray"), None);
}

#[test]
fn types_that_are_only_replaced_refuse_updates() {
    let mut c = get_schema_config("ec2.vpc").unwrap();
    c.schema.force_replace = true;
    let r = resource("ec2.vpc", "main", vec![]);
    let from = State::existing(r.id.clone(), vec![]);
    let e = plan_update(c, &r.id, &from, &r).err().unwrap();
    assert_eq!(e.message, "Update not supported for ec2.vpc, delete and recreate");
    assert!(begin_update(&r.id, &from, &r).unwrap().patches.is_empty());
}

#[test]
fn patches_replace_then_remove_then_tag() {
    let c = get_schema_config("ec2.vpc").unwrap();
    let from = State::existing(
        ResourceId::with_provider("awscc", "ec2.vpc", "main"),
        entries(vec![
            ("enable_dns_support", DslValue::Bool(true)),
            ("enable_dns_hostnames", DslValue::Bool(false)),
            ("tags", DslValue::Mapping(entries(vec![("a", text("1"))]))),
        ]),
    );
    let to = resource(
        "ec2.vpc",
        "main",
        vec![
            ("enable_dns_hostnames", DslValue::Bool(true)),
            ("tags", DslValue::Mapping(entries(vec![("a", text("2"))]))),
        ],
    );
    let patches = build_update_patches(&c, &from, &to);
    assert_eq!(
        patches,
        vec![
            json(r#"{"op": "replace", "path": "/EnableDnsHostnames", "value": true}"#),
            json(r#"{"op": "remove", "path": "/EnableDnsSupport"}"#),
            json(r#"{"op": "replace", "path": "/Tags", "value": [{"Key": "a", "Value": "2"}]}"#),
        ]
    );
}

#[test]
fn tags_come_back_from_their_items() {
    let tags = entries(vec![("Name", text("main")), ("env", text("prod"))]);
    let items = build_tags(Some(&DslValue::Mapping(tags.clone())));
    assert_eq!(items.len(), 2);
    assert_eq!(parse_tags(&items), tags);
    assert!(build_tags(Some(&text("x"))).is_empty());
    assert!(build_tags(None).is_empty());
}

#[test]
fn deletes_say_what_has_to_happen_before() {
    let lifecycle = LifecycleConfig { force_delete: true, create_before_destroy: false };
    let bucket = begin_delete(&ResourceId::with_provider("awscc", "s3.bucket", "b"), &lifecycle).unwrap();
    assert!(bucket.empty_bucket && !bucket.detach);
    let gentle = LifecycleConfig { force_delete: false, create_before_destroy: true };
    let bucket = begin_delete(&ResourceId::with_provider("awscc", "s3.bucket", "b"), &gentle).unwrap();
    assert!(!bucket.empty_bucket);
    let props = json(r#"{"Attachments": [{"VpcId": "vpc-1"}]}"#);
    assert_eq!(detach_patches(Some(&props)), vec![json(r#"{"op": "remove", "path": "/Attachments"}"#)]);
    assert!(detach_patches(Some(&json(r#"{"Attachments": []}"#))).is_empty());
    assert!(detach_patches(None).is_empty());
}

#[test]
fn pauses_double_up_to_the_longest() {
    let mut state = Backoff::for_create();
    let mut pauses = Vec::new();
    while let CallStep::Retry(secs) = on_create_reply(&mut state, Err(throttled())) {
        pauses.push(secs);
    }
    assert_eq!(pauses, vec![10, 20, 40, 80, 120, 120, 120, 120, 120, 120, 120, 120]);
    assert_eq!(state.attempt, 12);
    match on_create_reply(&mut state, Err(throttled())) {
        CallStep::Fail(e) => {
            assert_eq!(e.message, "Failed to create resource");
            assert_eq!(e.cause.as_deref(), Some("why"));
        }
        other => panic!("expected a failure, got {:?}", other),
    }
}

#[test]
fn replies_lead_to_waiting_or_to_an_end() {
    let mut state = Backoff::for_create();
    assert!(matches!(on_create_reply(&mut state, Ok(Some("t".to_string()))), CallStep::Wait(t) if t == "t"));
    match on_create_reply(&mut state, Ok(None)) {
        CallStep::Fail(e) => assert_eq!(e.message, "No request token returned"),
        other => panic!("expected a failure, got {:?}", other),
    }
    let mut state = Backoff::for_delete();
    assert!(matches!(on_delete_reply(&mut state, Ok(None)), CallStep::Done(_)));
    match on_delete_reply(&mut state, Err(failure(SdkErrorKind::Other))) {
        CallStep::Fail(e) => assert_eq!(e.message, "Failed to delete resource"),
        other => panic!("expected a failure, got {:?}", other),
    }
    assert!(matches!(on_operation_end(&mut state, Ok("id".to_string())), CallStep::Done(i) if i == "id"));
    let passing = ProviderError::new("Operation failed: Throttling");
    assert!(matches!(on_operation_end(&mut state, Err(passing)), CallStep::Retry(10)));
    let lasting = ProviderError::new("Operation failed: AccessDenied");
    assert!(matches!(on_operation_end(&mut state, Err(lasting)), CallStep::Fail(_)));
}

#[test]
fn operations_are_asked_about_until_they_end() {
    let progress = |status, message: Option<&str>| Progress {
        status,
        identifier: Some("vpc-1".to_string()),
        status_message: message.map(|m| m.to_string()),
    };
    assert!(matches!(on_status(Ok(None)), PollStep::Again));
    assert!(matches!(on_status(Ok(Some(progress(None, None)))), PollStep::Pause(5)));
    assert!(matches!(on_status(Ok(Some(progress(Some(OperationStatus::Running), None)))), PollStep::Pause(5)));
    assert!(matches!(on_status(Ok(Some(progress(Some(OperationStatus::Success), None)))), PollStep::Finished(i) if i == "vpc-1"));
    let fails = |reply| match on_status(reply) {
        PollStep::Fail(e) => e.message,
        other => panic!("expected a failure, got {:?}", other),
    };
    assert_eq!(fails(Ok(Some(progress(Some(OperationStatus::Failed), Some("no quota"))))), "Operation failed: no quota");
    assert_eq!(fails(Ok(Some(progress(Some(OperationStatus::Failed), None)))), "Operation failed: Unknown error");
    assert_eq!(fails(Ok(Some(progress(Some(OperationStatus::CancelComplete), None)))), "Operation was cancelled");
    assert_eq!(fails(Err(throttled())), "Failed to get operation status");

    let mut polling = Polling { remaining: 1 };
    assert!(polling.ask().is_ok());
    let e = polling.ask().unwrap_err();
    assert_eq!(e.message, "Operation timed out");
    assert_eq!(e.kind, ProviderErrorKind::Timeout);
}

#[test]
fn what_does_not_exist_has_no_properties() {
    let missing = failure(SdkErrorKind::Service(Some("ResourceNotFoundException".to_string())));
    assert!(fetched_properties(Err(missing)).unwrap().is_none());
    assert!(fetched_properties(Ok(None)).unwrap().is_none());
    assert_eq!(fetched_properties(Err(throttled())).unwrap_err().message, "Failed to get resource");
    assert_eq!(fetched_properties(Ok(Some("{".to_string()))).unwrap_err().message, "Failed to parse resource properties");
    assert_eq!(fetched_properties(Ok(Some(r#"{"a": 1}"#.to_string()))).unwrap(), Some(json(r#"{"a": 1}"#)));
}

#[test]
fn pages_say_what_to_delete_and_where_to_go_on() {
    let entry = |key: Option<&str>, version: Option<&str>| VersionEntry {
        key: key.map(|k| k.to_string()),
        version_id: version.map(|v| v.to_string()),
    };
    let mut page = VersionsPage {
        versions: vec![entry(Some("a"), Some("1")), entry(None, Some("2"))],
        delete_markers: vec![entry(Some("b"), None)],
        is_truncated: Some(true),
        next_key_marker: Some("b".to_string()),
        next_version_id_marker: None,
    };
    assert_eq!(page.deletions(), vec![("a".to_string(), Some("1".to_string())), ("b".to_string(), None)]);
    assert_eq!(page.next_page(), Some((Some("b".to_string()), None)));
    page.is_truncated = None;
    assert_eq!(page.next_page(), None);
}

#[test]
fn numbers_keep_their_kind() {
    assert_eq!(json_to_value(&json("18446744073709551615")), Some(DslValue::Float(Float { bits: 18446744073709551615f64.to_bits() })));
    assert_eq!(json_to_value(&json("-9223372036854775808")), Some(DslValue::Int(-9223372036854775808)));
    assert_eq!(json_to_value(&json("9223372036854775807")), Some(DslValue::Int(9223372036854775807)));
    assert_eq!(json_to_value(&json("2.5")), Some(DslValue::Float(Float { bits: 2.5f64.to_bits() })));
    assert_eq!(value_to_json(&DslValue::Int(-1)), Some(Json::Number(JsonNumber::NegInt(-1))));
    assert_eq!(value_to_json(&DslValue::ResourceRef("a".to_string(), "b".to_string())), None);
    let v = DslValue::Mapping(entries(vec![("l", DslValue::List(vec![text("x"), DslValue::Int(3)])), ("b", DslValue::Bool(false))]));
    assert_eq!(json_to_value(&value_to_json(&v).unwrap()), Some(v));
}

#[test]
fn the_factory_configures_the_provider() {
    let f = AwsccProviderFactory;
    assert_eq!((f.name(), f.display_name()), ("awscc", "AWS Cloud Control provider"));
    assert_eq!(f.identity_attributes(), vec!["region"]);
    let region = |s: &str| f.extract_region(&entries(vec![("region", text(s))]));
    assert_eq!(region("awscc.Region.us_west_2"), "us-west-2");
    assert_eq!(region("aws.Region.eu_central_1"), "eu-central-1");
    assert_eq!(region("eu-west-1"), "eu-west-1");
    assert_eq!(f.extract_region(&vec![]), "ap-northeast-1");
    assert_eq!(f.extract_region(&entries(vec![("region", DslValue::Int(1))])), "ap-northeast-1");
    let regions = vec!["us-west-2".to_string()];
    assert!(f.validate_config(&entries(vec![("region", text("awscc.Region.us_west_2"))]), &regions).is_ok());
    assert!(f.validate_config(&entries(vec![("region", text("nowhere"))]), &regions).is_err());
    assert!(f.validate_config(&vec![], &regions).is_ok());
    assert!(f.schemas().len() > 10);
}

#[test]
fn the_schema_extension_normalizes_and_hydrates() {
    let ext = AwsccSchemaExt;
    let mut resources = vec![resource(
        "ec2.ipam",
        "i",
        vec![("_provider", text("awscc")), ("tier", DslValue::UnresolvedIdent("advanced".to_string(), None))],
    )];
    ext.normalize_desired(&mut resources);
    assert_eq!(get(&resources[0].attributes, "tier"), Some(&text("awscc.ec2.ipam.Tier.advanced")));
    ext.normalize_desired(&mut resources);
    assert_eq!(get(&resources[0].attributes, "tier"), Some(&text("awscc.ec2.ipam.Tier.advanced")));

    let id = ResourceId::with_provider("awscc", "ec2.vpc", "main");
    let mut states = vec![(id.clone(), State::existing(id.clone(), vec![])), (id.clone(), State::not_found(id.clone()))];
    ext.hydrate_read_state(&mut states, &vec![(id.clone(), entries(vec![("cidr_block", text("10.0.0.0/16"))]))]);
    assert_eq!(get(&states[0].1.attributes, "cidr_block"), Some(&text("10.0.0.0/16")));
    assert!(states[1].1.attributes.is_empty());
}

#[test]
fn empty_objects_and_missing_tags_are_no_attributes() {
    let c = get_schema_config("ec2.vpc").unwrap();
    let attributes = attributes_from_properties(&c, &json(r#"{"Tags": [], "CidrBlock": null}"#), "ec2.vpc");
    assert!(attributes.is_empty());
    assert!(attributes_from_properties(&c, &json("[]"), "ec2.vpc").is_empty());
}

#[test]
fn a_read_gives_what_a_create_has_sent() {
    let c = get_schema_config("ec2.vpc").unwrap();
    let wanted = resource(
        "ec2.vpc",
        "main",
        vec![
            ("cidr_block", text("10.0.0.0/16")),
            ("instance_tenancy", text("awscc.ec2.vpc.InstanceTenancy.dedicated")),
            ("enable_dns_hostnames", DslValue::Bool(false)),
            ("tags", DslValue::Mapping(entries(vec![("Name", text("main")), ("Team", text("net"))]))),
        ],
    );
    let sent = build_desired_state(&c, &wanted);
    let read = attributes_from_properties(&c, &sent, "ec2.vpc");
    assert_eq!(read.len(), wanted.attributes.len());
    for (name, v) in &wanted.attributes {
        assert_eq!(get(&read, name), Some(v), "of {}", name);
    }
}
