use carina_awscc::enums::{convert_enum_value, validate_namespaced_enum};
use carina_awscc::schema::{AttributeSchema, AttributeType, AwsccSchemaConfig, StructField};
use carina_awscc::schemas::registry::{configs, find_named, get_enum_alias_reverse, get_enum_valid_values, schemas};
use carina_awscc::schemas::security_group;
use carina_awscc::schemas::types::{
    availability_zone, awscc_region, awscc_validators, validate_custom, validate_int_range, validate_list_items,
    validate_string_length, Validator,
};
use carina_awscc::schemas::vpc;
use carina_awscc::value::DslValue;

fn regions() -> Vec<String> {
    vec!["us-east-1".to_string(), "ap-northeast-1".to_string()]
}

fn text(s: &str) -> DslValue {
    DslValue::String(s.to_string())
}

fn accepts(t: &AttributeType, s: &str) -> bool {
    validate_custom(t, &text(s), &regions()).expect("a check").is_ok()
}

/// Finds a config by its resource type.
fn get_config(resource_type: &str) -> Option<AwsccSchemaConfig> {
    configs().into_iter().find(|c| {
        c.schema
            .resource_type
            .strip_prefix("awscc.")
            .map(|t| t == resource_type)
            .unwrap_or(false)
    })
}

#[test]
fn test_get_schema_config() {
    assert!(get_config("ec2.vpc").is_some());
    assert!(get_config("ec2.subnet").is_some());
    assert!(get_config("unknown").is_none());
}

#[test]
fn test_schema_config_provider_name() {
    let vpc_config = get_config("ec2.vpc").unwrap();
    let cidr_attr = vpc_config.schema.get("cidr_block").unwrap();
    assert_eq!(cidr_attr.provider_name.as_deref(), Some("CidrBlock"));
    let vpc_id_attr = vpc_config.schema.get("vpc_id").unwrap();
    assert_eq!(vpc_id_attr.provider_name.as_deref(), Some("VpcId"));
}

#[test]
fn configs_name_their_cloud_control_types() {
    assert_eq!(get_config("ec2.vpc").unwrap().aws_type_name, "AWS::EC2::VPC");
    assert_eq!(get_config("ec2.subnet").unwrap().aws_type_name, "AWS::EC2::Subnet");
    assert_eq!(get_config("s3.bucket").unwrap().aws_type_name, "AWS::S3::Bucket");
}

#[test]
fn configs_say_whether_they_have_tags() {
    assert!(get_config("ec2.vpc").unwrap().has_tags);
    assert!(get_config("ec2.subnet").unwrap().has_tags);
    assert!(!get_config("ec2.security_group_egress").unwrap().has_tags);
}

/// Collects missing block names from a type, recursing into structs.
fn check_type(attr_type: &AttributeType, path: &str, missing: &mut Vec<String>) {
    match attr_type {
        AttributeType::Struct { fields, .. } => {
            for field in fields {
                check_field(field, path, missing);
            }
        }
        AttributeType::List { inner, .. } => {
            check_type(inner, path, missing);
        }
        AttributeType::Mapping(inner) => {
            check_type(inner, path, missing);
        }
        _ => {}
    }
}

/// A field that is a list of structs must have a block name.
fn check_field(field: &StructField, parent_path: &str, missing: &mut Vec<String>) {
    let field_path = format!("{}.{}", parent_path, field.name);
    if let AttributeType::List { inner, .. } = &field.field_type {
        if matches!(inner.as_ref(), AttributeType::Struct { .. }) && field.block_name.is_none() {
            missing.push(field_path.clone());
        }
    }
    check_type(&field.field_type, &field_path, missing);
}

/// An attribute that is a list of structs must have a block name.
fn check_attr(attr: &AttributeSchema, resource_type: &str, missing: &mut Vec<String>) {
    let path = format!("{}.{}", resource_type, attr.name);
    if let AttributeType::List { inner, .. } = &attr.attr_type {
        if matches!(inner.as_ref(), AttributeType::Struct { .. }) && attr.block_name.is_none() {
            missing.push(path.clone());
        }
    }
    check_type(&attr.attr_type, &path, missing);
}

#[test]
fn all_list_struct_attributes_have_block_name() {
    let mut missing = Vec::new();
    for config in configs() {
        let resource_type = &config.schema.resource_type;
        for (_, attr) in &config.schema.attributes {
            check_attr(attr, resource_type, &mut missing);
        }
    }

    missing.sort();
    assert!(
        missing.is_empty(),
        "The following List<Struct> attributes are missing block_name:\n{}",
        missing
            .iter()
            .map(|p| format!("  - {}", p))
            .collect::<Vec<_>>()
            .join("\n")
    );
}

#[test]
fn validate_availability_zone_namespace_expanded() {
    let t = availability_zone();
    // Full namespace format
    assert!(accepts(&t, "awscc.AvailabilityZone.us_east_1a"));
    // Type.value format
    assert!(accepts(&t, "AvailabilityZone.us_east_1a"));
    // Shorthand format
    assert!(accepts(&t, "us_east_1a"));
    // AWS format
    assert!(accepts(&t, "us-east-1a"));
}

#[test]
fn validate_availability_zone_rejects_wrong_namespace() {
    let t = availability_zone();
    assert!(!accepts(&t, "aws.AvailabilityZone.us_east_1a"));
}

#[test]
fn validate_availability_zone_rejects_invalid() {
    let t = availability_zone();
    assert!(!accepts(&t, "us-east-1")); // no zone letter
    assert!(!accepts(&t, "invalid"));
}

#[test]
fn validate_availability_zone_to_dsl() {
    let t = availability_zone();
    if let AttributeType::Custom { to_dsl, .. } = &t {
        let f = to_dsl.as_ref().unwrap();
        assert_eq!(f.apply("us-east-1a"), "us_east_1a");
        assert_eq!(f.apply("ap-northeast-1c"), "ap_northeast_1c");
    } else {
        panic!("Expected Custom type");
    }
}

#[test]
fn awscc_region_accepts_awscc_namespace() {
    let region_type = awscc_region();
    assert!(accepts(&region_type, "awscc.Region.ap_northeast_1"));
    assert!(accepts(&region_type, "ap-northeast-1"));
}

#[test]
fn awscc_region_rejects_aws_namespace() {
    let region_type = awscc_region();
    assert!(!accepts(&region_type, "aws.Region.ap_northeast_1"));
}

#[test]
fn regions_that_are_not_listed_are_named() {
    let e = validate_custom(&awscc_region(), &text("mars-1"), &regions()).unwrap().unwrap_err();
    assert_eq!(
        e,
        "Invalid region 'mars-1', expected one of: us-east-1, ap-northeast-1 or DSL format like \
         awscc.Region.ap_northeast_1"
    );
    let e = validate_custom(&awscc_region(), &DslValue::Int(1), &regions()).unwrap().unwrap_err();
    assert_eq!(e, "Expected string");
}

#[test]
fn validate_namespaced_enum_basic() {
    let values: Vec<String> = ["default", "dedicated", "host"].iter().map(|s| s.to_string()).collect();
    let result = validate_namespaced_enum(
        &text("awscc.ec2.vpc.InstanceTenancy.default"),
        "InstanceTenancy",
        "awscc.ec2.vpc",
        &values,
    );
    assert!(result.is_ok());
    assert_eq!(
        validate_namespaced_enum(&text("shared"), "InstanceTenancy", "awscc.ec2.vpc", &values),
        Err("expected one of: default, dedicated, host".to_string())
    );
    assert!(validate_namespaced_enum(&text("aws.vpc.default"), "InstanceTenancy", "awscc.ec2.vpc", &values).is_err());
    assert_eq!(
        validate_namespaced_enum(&DslValue::Bool(true), "InstanceTenancy", "awscc.ec2.vpc", &values),
        Err("Expected string".to_string())
    );
}

#[test]
fn test_convert_enum_value() {
    assert_eq!(convert_enum_value("aws.Region.ap_northeast_1"), "ap-northeast-1");
    assert_eq!(convert_enum_value("Region.ap_northeast_1"), "ap-northeast-1");
    assert_eq!(convert_enum_value("eu-west-1"), "eu-west-1");
    // 4-part: provider.resource.TypeName.value
    assert_eq!(convert_enum_value("awscc.ec2_ipam.Tier.advanced"), "advanced");
    assert_eq!(convert_enum_value("awscc.ec2_ipam_pool.AddressFamily.IPv4"), "IPv4");
    assert_eq!(convert_enum_value("awscc.ec2_vpc.InstanceTenancy.default"), "default");
}

#[test]
fn ranges_lengths_and_counts_are_checked() {
    assert_eq!(validate_int_range(&DslValue::Int(33), Some(0), Some(32)), Err("Value 33 is out of range 0..=32".to_string()));
    assert_eq!(validate_int_range(&DslValue::Int(-1), Some(0), None), Err("Value -1 is out of range 0..".to_string()));
    assert!(validate_int_range(&DslValue::Int(32), Some(0), Some(32)).is_ok());
    assert_eq!(validate_int_range(&text("32"), Some(0), Some(32)), Err("Expected integer".to_string()));
    assert_eq!(
        validate_string_length(&text("abcd"), 1, 3),
        Err("String length 4 is out of range 1..=3".to_string())
    );
    assert!(validate_string_length(&DslValue::Int(4), 1, 3).is_ok());
    assert_eq!(
        validate_list_items(&DslValue::List(vec![]), 1, 3),
        Err("List has 0 items, expected 1..=3".to_string())
    );
    assert_eq!(validate_list_items(&text("x"), 1, 3), Err("Expected list".to_string()));
}

#[test]
fn enum_values_are_found_by_type_and_attribute() {
    let values = get_enum_valid_values("ec2.vpc", "instance_tenancy").unwrap();
    assert_eq!(values, vec!["default", "dedicated", "host"]);
    assert!(get_enum_valid_values("ec2.vpc", "cidr_block").is_none());
    assert!(get_enum_valid_values("ec2.unknown", "instance_tenancy").is_none());
    let (resource_type, table) = vpc::enum_valid_values();
    assert_eq!(resource_type, "ec2.vpc");
    assert_eq!(table.get("instance_tenancy").unwrap(), &values);
}

#[test]
fn aliases_lead_back_to_provider_values() {
    assert_eq!(get_enum_alias_reverse("ec2.security_group_egress", "ip_protocol", "all"), Some("-1"));
    assert_eq!(get_enum_alias_reverse("ec2.security_group_egress", "ip_protocol", "tcp"), None);
    assert_eq!(get_enum_alias_reverse("ec2.vpc", "instance_tenancy", "all"), None);
    assert_eq!(security_group::enum_alias_reverse("ip_protocol", "all"), Some("-1"));
    assert_eq!(vpc::enum_alias_reverse("instance_tenancy", "default"), None);
}

#[test]
fn lookups_by_name_and_by_type_agree() {
    let list = configs();
    for c in &list {
        let named = find_named(&list, c.resource_type_name).unwrap();
        assert_eq!(named.aws_type_name, c.aws_type_name);
        assert_eq!(get_config(c.resource_type_name).unwrap().aws_type_name, c.aws_type_name);
        assert_eq!(c.schema.resource_type, format!("awscc.{}", c.resource_type_name));
    }
    assert_eq!(schemas().len(), list.len());
}

#[test]
fn validators_are_registered_by_name() {
    let table = awscc_validators();
    let find = |name: &str| table.iter().find(|(n, _)| *n == name).map(|(_, v)| v);
    assert!(matches!(find("vpc_id"), Some(Validator::PrefixedResourceId("vpc"))));
    assert!(matches!(find("arn"), Some(Validator::Arn)));
    assert!(find("nothing").is_none());
}

#[test]
fn attributes_and_properties_are_named_once() {
    for c in configs() {
        let mut names: Vec<&String> = Vec::new();
        let mut properties: Vec<&String> = Vec::new();
        for (name, a) in &c.schema.attributes {
            assert!(!names.contains(&name), "{} in {}", name, c.resource_type_name);
            names.push(name);
            if let Some(property) = &a.provider_name {
                assert!(!properties.contains(&property), "{} in {}", property, c.resource_type_name);
                assert!(property != "Tags" || name == "tags", "{} in {}", name, c.resource_type_name);
                properties.push(property);
            }
        }
    }
}
