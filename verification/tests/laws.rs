use carina_awscc::codegen::enums::{deduplicate_enum_values, enum_from_matches};
use carina_awscc::codegen::names::{
    classify_resource_id, get_resource_id_display_name, get_resource_id_type, is_aws_resource_id_property,
    is_ipam_pool_id_property, ResourceIdKind,
};
use carina_awscc::codegen::page::full_resource_name_from_type;
use carina_awscc::enums::{
    canonicalize_enum_value, extract_enum_value, extract_enum_value_with_values, find_matching_enum_value,
};
use carina_awscc::json::Json;
use carina_awscc::provider::cloud_control::parse_resource_properties;
use carina_awscc::provider::convert::{aws_value_to_dsl, dsl_value_to_aws};
use carina_awscc::resource::{apply_patch, PatchOp};
use carina_awscc::protocol::types::PatchOpKind;
use carina_awscc::schema::{AttributeType, StructField};
use carina_awscc::schemas::registry::{configs, get_enum_alias_reverse, get_enum_valid_values, get_schema_config};
use carina_awscc::schemas::sts_caller_identity::sts_caller_identity_config;
use carina_awscc::text::{parse_u64, print_i64, print_u64, split_on, trim};
use carina_awscc::value::{put, take_out, value_eq, DslValue, Float};

fn json(text: &str) -> Json {
    parse_resource_properties(text).expect("JSON")
}

fn strings(list: &[&str]) -> Vec<String> {
    list.iter().map(|s| s.to_string()).collect()
}

fn comes_back(attr: &str, resource_type: &str, document: &str) {
    let config = get_schema_config(resource_type).unwrap();
    let t = &config.schema.get(attr).unwrap().attr_type;
    let j = json(document);
    let v = aws_value_to_dsl(attr, &j, t, resource_type).unwrap();
    assert_eq!(dsl_value_to_aws(&v, t, resource_type, attr), Some(j), "through {:?}", v);
}

#[test]
fn typed_documents_come_back() {
    comes_back("instance_tenancy", "ec2.vpc", r#""dedicated""#);
    comes_back("log_destination_type", "ec2.flow_log", r#""cloud-watch-logs""#);
    comes_back("availability_zone", "ec2.subnet", r#""ap-northeast-1a""#);
    comes_back("ip_protocol", "ec2.security_group_egress", r#""-1""#);
    comes_back("ip_protocol", "ec2.security_group_egress", r#""tcp""#);
    comes_back("versioning_configuration", "s3.bucket", r#"{"Status": "Enabled"}"#);
    comes_back(
        "security_group_egress",
        "ec2.security_group",
        r#"[{"CidrIp": "0.0.0.0/0", "IpProtocol": "-1"}, {"CidrIp": "10.0.0.0/8", "FromPort": 443, "IpProtocol": "tcp"}]"#,
    );
}

#[test]
fn documents_with_nulls_do_not_come_back() {
    let t = AttributeType::list(AttributeType::String);
    let v = aws_value_to_dsl("a", &json(r#"["x", null]"#), &t, "test.resource").unwrap();
    assert_eq!(dsl_value_to_aws(&v, &t, "test.resource", "a"), Some(json(r#"["x"]"#)));
}

#[test]
fn a_struct_without_known_members_is_read_without_its_type() {
    let t = AttributeType::structure("S").field(StructField::new("a_b", AttributeType::String).with_provider_name("AB"));
    let v = aws_value_to_dsl("s", &json(r#"{"Other": 1}"#), &t, "test.resource").unwrap();
    assert_eq!(v, DslValue::Mapping(vec![("Other".to_string(), DslValue::Int(1))]));
}

#[test]
fn canonical_values_are_stable() {
    let values = strings(&["IPv4", "two-words"]);
    for written in ["ipv4", "two_words", "IPv4", "other"] {
        let once = canonicalize_enum_value(written, &values);
        assert_eq!(canonicalize_enum_value(&once, &values), once);
    }
    assert_eq!(canonicalize_enum_value("TWO_WORDS", &values), "two-words");
    assert_eq!(find_matching_enum_value("other", &values), None);
}

#[test]
fn identifiers_end_with_their_value() {
    assert_eq!(extract_enum_value("awscc.ec2.vpc.InstanceTenancy.default"), "default");
    assert_eq!(extract_enum_value("default"), "default");
    let values = strings(&["ipsec.1"]);
    assert_eq!(extract_enum_value_with_values("awscc.ec2.vpn_gateway.Type.ipsec.1", &values), "ipsec.1");
    assert_eq!(extract_enum_value_with_values("awscc.ec2.vpn_gateway.Type.other", &values), "other");
}

#[test]
fn enums_have_at_least_two_distinct_values() {
    assert_eq!(deduplicate_enum_values(strings(&["a", "b", "a"])), Some(strings(&["a", "b"])));
    assert_eq!(deduplicate_enum_values(strings(&["a", "a"])), None);
    assert_eq!(enum_from_matches(Some(vec![]), Some("x | y".to_string()), None), Some(strings(&["x", "y"])));
    assert_eq!(enum_from_matches(Some(vec![]), Some("x".to_string()), Some("p or q when r".to_string())), Some(strings(&["p", "q"])));
    assert_eq!(enum_from_matches(None, Some("x | y".to_string()), None), None);
}

#[test]
fn pool_ids_are_no_resource_ids() {
    for name in ["IpamPoolId", "Ipv4IpamPoolId", "SourceIpamPoolId"] {
        assert!(is_ipam_pool_id_property(name) && !is_aws_resource_id_property(name));
        assert_eq!(classify_resource_id(name), ResourceIdKind::Generic);
    }
}

#[test]
fn patches_leave_the_rest_alone() {
    let mut attributes = vec![("a".to_string(), DslValue::Int(1)), ("b".to_string(), DslValue::Int(2))];
    let ops = vec![
        PatchOp { kind: PatchOpKind::Add, key: "c".to_string(), value: Some(DslValue::Int(3)) },
        PatchOp { kind: PatchOpKind::Remove, key: "b".to_string(), value: None },
    ];
    apply_patch(&mut attributes, &ops);
    assert_eq!(attributes, vec![("a".to_string(), DslValue::Int(1)), ("c".to_string(), DslValue::Int(3))]);
}

#[test]
fn what_is_put_is_found_and_what_is_taken_out_is_gone() {
    let mut m = Vec::new();
    put(&mut m, "k".to_string(), DslValue::Int(1));
    put(&mut m, "l".to_string(), DslValue::Int(2));
    put(&mut m, "k".to_string(), DslValue::Int(3));
    assert_eq!(m, vec![("k".to_string(), DslValue::Int(3)), ("l".to_string(), DslValue::Int(2))]);
    take_out(&mut m, "k");
    take_out(&mut m, "none");
    assert_eq!(m, vec![("l".to_string(), DslValue::Int(2))]);
}

#[test]
fn maps_are_equal_in_any_order_and_numbers_as_numbers() {
    let a = DslValue::Mapping(vec![("x".to_string(), DslValue::Int(1)), ("y".to_string(), DslValue::Bool(true))]);
    let b = DslValue::Mapping(vec![("y".to_string(), DslValue::Bool(true)), ("x".to_string(), DslValue::Int(1))]);
    assert!(value_eq(&a, &b));
    let float = |x: f64| DslValue::Float(Float { bits: x.to_bits() });
    assert!(value_eq(&float(0.0), &float(-0.0)));
    assert!(!value_eq(&float(0.0 / 0.0), &float(0.0 / 0.0)));
    assert!(!value_eq(&float(1.0), &DslValue::Int(1)));
}

#[test]
fn large_integers_become_the_nearest_floats() {
    for n in [9223372036854775808u64, 9223372036854775809, 9223372036854776832, 9223372036854778880, 9223372036854779904, 18446744073709550591, 18446744073709551615] {
        assert_eq!(Float::nearest(n).bits, (n as f64).to_bits(), "of {}", n);
    }
}

#[test]
fn texts_are_cut_trimmed_and_counted() {
    assert_eq!(trim(" \t\u{b}a b\r\n"), "a b");
    assert_eq!(trim("\u{2003}x\u{a0}"), "x");
    assert_eq!(split_on("a,,b", ","), strings(&["a", "", "b"]));
    assert_eq!(print_u64(18446744073709551615), "18446744073709551615");
    assert_eq!(print_i64(-9223372036854775808), "-9223372036854775808");
    assert_eq!(parse_u64("007"), Some(7));
}

#[test]
fn letters_beyond_ascii_have_cases() {
    assert_eq!(classify_resource_id("\u{dc}berVpcId"), ResourceIdKind::VpcId);
    assert_eq!(enum_from_matches(Some(strings(&["\u{c4}hre", "b", "c"])), None, None), Some(strings(&["b", "c"])));
}

#[test]
fn the_caller_identity_is_read_only() {
    let config = sts_caller_identity_config();
    assert_eq!(config.resource_type_name, "sts.caller_identity");
    assert!(!config.has_tags);
}

#[test]
fn type_functions_are_named_like_display_names() {
    for name in ["VpcId", "EgressOnlyInternetGatewayId", "VpcPeeringConnectionId", "NetworkInterfaceId"] {
        let resource = format!("AWS::EC2::{}", get_resource_id_display_name(name));
        let snake = full_resource_name_from_type(&resource).unwrap().replacen("ec2_", "", 1);
        assert_eq!(get_resource_id_type(name), format!("super::{}()", snake));
    }
}

#[test]
fn enum_attributes_stand_in_their_tables() {
    for c in configs() {
        for (name, a) in &c.schema.attributes {
            if let AttributeType::StringEnum { values, .. } = &a.attr_type {
                assert_eq!(get_enum_valid_values(c.resource_type_name, name).as_ref(), Some(values));
            }
        }
    }
    let values = get_enum_valid_values("ec2.security_group", "ip_protocol").unwrap();
    let target = get_enum_alias_reverse("ec2.security_group", "ip_protocol", "all").unwrap();
    assert!(values.contains(&target.to_string()));
    let c = get_schema_config("ec2.vpc_endpoint").unwrap();
    let required: Vec<&str> = c.schema.attributes.iter().filter(|(_, a)| a.required).map(|(n, _)| n.as_str()).collect();
    assert_eq!(required, vec!["vpc_id"]);
}

#[test]
fn the_last_operation_on_an_attribute_decides() {
    let op = |kind, key: &str, n: Option<i64>| PatchOp { kind, key: key.to_string(), value: n.map(DslValue::Int) };
    let mut attributes = vec![("a".to_string(), DslValue::Int(1)), ("b".to_string(), DslValue::Int(2))];
    let ops = vec![
        op(PatchOpKind::Replace, "a", Some(5)),
        op(PatchOpKind::Remove, "b", None),
        op(PatchOpKind::Replace, "a", Some(6)),
        op(PatchOpKind::Add, "c", Some(7)),
    ];
    apply_patch(&mut attributes, &ops);
    assert_eq!(attributes, vec![("a".to_string(), DslValue::Int(6)), ("c".to_string(), DslValue::Int(7))]);
}

#[test]
fn empty_structs_come_back() {
    comes_back("versioning_configuration", "s3.bucket", "{}");
}
