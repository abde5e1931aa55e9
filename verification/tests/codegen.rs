use carina_awscc::codegen::enums::{extract_enum_from_description, looks_like_property_name};
use carina_awscc::codegen::model::{CfnProperty, CfnSchema, EnumInfo, TypeValue};
use carina_awscc::codegen::names::{
    classify_resource_id, get_resource_id_display_name, get_resource_id_type, is_aws_resource_id_property,
    is_ipam_pool_id_property, ResourceIdKind,
};
use carina_awscc::codegen::page::{list_element_type_display, type_display_string};
use carina_awscc::codegen::tables::{known_enum_overrides, known_int_range_overrides, known_string_type_overrides};
use carina_awscc::codegen::types::cfn_type_to_carina_type_with_enum;
#[test]
fn test_looks_like_property_name() {
    // CamelCase property names should be detected
    assert!(looks_like_property_name("InstanceTenancy"));
    assert!(looks_like_property_name("VpcId"));
    assert!(looks_like_property_name("CidrBlock"));

    // Enum values should not be detected as property names
    assert!(!looks_like_property_name("default"));
    assert!(!looks_like_property_name("dedicated"));
    assert!(!looks_like_property_name("host"));

    // Edge cases
    assert!(!looks_like_property_name(""));
    assert!(!looks_like_property_name("UPPERCASE")); // All uppercase, no lowercase
}

#[test]
fn test_extract_enum_from_description_instance_tenancy() {
    let description = r#"The allowed tenancy of instances launched into the VPC.
  +  ``default``: An instance launched into the VPC runs on shared hardware by default.
  +  ``dedicated``: An instance launched into the VPC runs on dedicated hardware by default.
  +  ``host``: Some description.
 Updating ``InstanceTenancy`` requires no replacement."#;

    let result = extract_enum_from_description(description);
    assert!(result.is_some());
    let values = result.unwrap();
    assert_eq!(values, vec!["default", "dedicated", "host"]);
}

#[test]
fn test_extract_enum_from_description_single_value() {
    // Only one value should not be treated as enum
    let description = "Set to ``true`` to enable.";
    let result = extract_enum_from_description(description);
    assert!(result.is_none());
}

#[test]
fn test_extract_enum_from_description_no_backticks() {
    let description = "A regular description without any special formatting.";
    let result = extract_enum_from_description(description);
    assert!(result.is_none());
}

#[test]
fn test_extract_enum_from_description_deduplication() {
    // Same value mentioned multiple times should be deduplicated
    let description =
        r#"Use ``enabled`` or ``disabled``. When ``enabled`` is set, the feature activates."#;
    let result = extract_enum_from_description(description);
    assert!(result.is_some());
    let values = result.unwrap();
    assert_eq!(values, vec!["enabled", "disabled"]);
}

#[test]
fn test_extract_enum_from_description_valid_values_pipe() {
    // "Valid values: X | Y | Z" pattern
    let description = "The connectivity type. Valid values: public | private";
    let result = extract_enum_from_description(description);
    assert!(result.is_some());
    let values = result.unwrap();
    assert_eq!(values, vec!["public", "private"]);
}

#[test]
fn test_extract_enum_from_description_options_colon() {
    // "Options: X, Y, Z" pattern
    let description =
        "Block mode for internet gateway. Options: off, block-bidirectional, block-ingress";
    let result = extract_enum_from_description(description);
    assert!(result.is_some());
    let values = result.unwrap();
    assert_eq!(values, vec!["off", "block-bidirectional", "block-ingress"]);
}

#[test]
fn test_extract_enum_from_description_options_here_are() {
    // "Options here are X, Y, Z" pattern (real CloudFormation format)
    let description =
        "The mode of VPC BPA. Options here are off, block-bidirectional, block-ingress";
    let result = extract_enum_from_description(description);
    assert!(result.is_some());
    let values = result.unwrap();
    assert_eq!(values, vec!["off", "block-bidirectional", "block-ingress"]);
}

#[test]
fn test_extract_enum_from_description_options_are() {
    // "Options are X, Y, or Z" pattern
    let description =
        "The tenancy options. Options are default, dedicated, or host for instances.";
    let result = extract_enum_from_description(description);
    assert!(result.is_some());
    let values = result.unwrap();
    assert_eq!(values, vec!["default", "dedicated", "host"]);
}

#[test]
fn test_extract_enum_from_description_can_be() {
    // "Can be X or Y" pattern
    let description = "The allocation strategy can be zonal or regional";
    let result = extract_enum_from_description(description);
    assert!(result.is_some());
    let values = result.unwrap();
    assert_eq!(values, vec!["zonal", "regional"]);
}

#[test]
fn test_extract_enum_from_description_either() {
    // "Either X or Y" pattern
    let description = "Set the mode to either enabled or disabled";
    let result = extract_enum_from_description(description);
    assert!(result.is_some());
    let values = result.unwrap();
    assert_eq!(values, vec!["enabled", "disabled"]);
}

#[test]
fn test_known_enum_overrides() {
    let overrides = known_enum_overrides();

    // IpProtocol should be overridden
    let ip_protocol = overrides.get("IpProtocol");
    assert!(ip_protocol.is_some(), "IpProtocol should be in overrides");
    assert_eq!(
        ip_protocol.unwrap(),
        &vec!["tcp", "udp", "icmp", "icmpv6", "-1"]
    );

    // ConnectivityType should be overridden
    let connectivity = overrides.get("ConnectivityType");
    assert!(
        connectivity.is_some(),
        "ConnectivityType should be in overrides"
    );
    assert_eq!(connectivity.unwrap(), &vec!["public", "private"]);
}

#[test]
fn test_known_enum_override_used_in_codegen() {
    // IpProtocol with plain description (no double backticks) should still
    // produce an EnumInfo via known_enum_overrides
    let prop = CfnProperty {
        prop_type: Some(TypeValue::Single("string".to_string())),
        description: Some(
            "The IP protocol name (tcp, udp, icmp, icmpv6) or number.".to_string(),
        ),
        enum_values: None,
        items: None,
        ref_path: None,
        insertion_order: None,
        properties: None,
        required: vec![],
        minimum: None,
        maximum: None,
    };
    let schema = CfnSchema {
        typename: "AWS::EC2::SecurityGroupIngress".to_string(),
        description: None,
        properties: vec![],
        required: vec![],
        read_only_properties: vec![],
        create_only_properties: vec![],
        write_only_properties: vec![],
        primary_identifier: None,
        definitions: None,
        tagging: None,
    };
    let (_, enum_info) = cfn_type_to_carina_type_with_enum(&prop, "IpProtocol", &schema);
    assert!(
        enum_info.is_some(),
        "IpProtocol should produce EnumInfo via overrides"
    );
    let info = enum_info.unwrap();
    assert_eq!(info.typename, "IpProtocol");
    assert_eq!(info.values, vec!["tcp", "udp", "icmp", "icmpv6", "-1"]);
}

#[test]
fn test_cidr_ip_detected_as_ipv4_cidr() {
    // CidrIp (PascalCase from CloudFormation) should be detected as IPv4 CIDR
    let prop = CfnProperty {
        prop_type: Some(TypeValue::Single("string".to_string())),
        description: Some("The IPv4 address range, in CIDR format.".to_string()),
        enum_values: None,
        items: None,
        ref_path: None,
        insertion_order: None,
        properties: None,
        required: vec![],
        minimum: None,
        maximum: None,
    };
    let schema = CfnSchema {
        typename: "AWS::EC2::SecurityGroupIngress".to_string(),
        description: None,
        properties: vec![],
        required: vec![],
        read_only_properties: vec![],
        create_only_properties: vec![],
        write_only_properties: vec![],
        primary_identifier: None,
        definitions: None,
        tagging: None,
    };
    let (type_str, _) = cfn_type_to_carina_type_with_enum(&prop, "CidrIp", &schema);
    assert_eq!(
        type_str, "types::ipv4_cidr()",
        "CidrIp should produce types::ipv4_cidr()"
    );
}

#[test]
fn test_cidr_ipv6_detected_as_ipv6_cidr() {
    // CidrIpv6 (PascalCase from CloudFormation) should be detected as IPv6 CIDR
    let prop = CfnProperty {
        prop_type: Some(TypeValue::Single("string".to_string())),
        description: Some("The IPv6 address range, in CIDR format.".to_string()),
        enum_values: None,
        items: None,
        ref_path: None,
        insertion_order: None,
        properties: None,
        required: vec![],
        minimum: None,
        maximum: None,
    };
    let schema = CfnSchema {
        typename: "AWS::EC2::SecurityGroupIngress".to_string(),
        description: None,
        properties: vec![],
        required: vec![],
        read_only_properties: vec![],
        create_only_properties: vec![],
        write_only_properties: vec![],
        primary_identifier: None,
        definitions: None,
        tagging: None,
    };
    let (type_str, _) = cfn_type_to_carina_type_with_enum(&prop, "CidrIpv6", &schema);
    assert_eq!(
        type_str, "types::ipv6_cidr()",
        "CidrIpv6 should produce types::ipv6_cidr()"
    );
}

#[test]
fn test_ip_address_detected_as_ipv4_address() {
    // PrivateIpAddress should be detected as IPv4 address
    let prop = CfnProperty {
        prop_type: Some(TypeValue::Single("string".to_string())),
        description: Some("The private IPv4 address.".to_string()),
        enum_values: None,
        items: None,
        ref_path: None,
        insertion_order: None,
        properties: None,
        required: vec![],
        minimum: None,
        maximum: None,
    };
    let schema = CfnSchema {
        typename: "AWS::EC2::NatGateway".to_string(),
        description: None,
        properties: vec![],
        required: vec![],
        read_only_properties: vec![],
        create_only_properties: vec![],
        write_only_properties: vec![],
        primary_identifier: None,
        definitions: None,
        tagging: None,
    };
    let (type_str, _) = cfn_type_to_carina_type_with_enum(&prop, "PrivateIpAddress", &schema);
    assert_eq!(
        type_str, "types::ipv4_address()",
        "PrivateIpAddress should produce types::ipv4_address()"
    );
}

#[test]
fn test_public_ip_detected_as_ipv4_address() {
    // PublicIp should be detected as IPv4 address
    let prop = CfnProperty {
        prop_type: Some(TypeValue::Single("string".to_string())),
        description: Some("The public IP address.".to_string()),
        enum_values: None,
        items: None,
        ref_path: None,
        insertion_order: None,
        properties: None,
        required: vec![],
        minimum: None,
        maximum: None,
    };
    let schema = CfnSchema {
        typename: "AWS::EC2::EIP".to_string(),
        description: None,
        properties: vec![],
        required: vec![],
        read_only_properties: vec![],
        create_only_properties: vec![],
        write_only_properties: vec![],
        primary_identifier: None,
        definitions: None,
        tagging: None,
    };
    let (type_str, _) = cfn_type_to_carina_type_with_enum(&prop, "PublicIp", &schema);
    assert_eq!(
        type_str, "types::ipv4_address()",
        "PublicIp should produce types::ipv4_address()"
    );
}

#[test]
fn test_ip_address_count_stays_int() {
    // SecondaryPrivateIpAddressCount should stay Int, not become IP address
    let prop = CfnProperty {
        prop_type: Some(TypeValue::Single("integer".to_string())),
        description: Some("The number of secondary private IPv4 addresses.".to_string()),
        enum_values: None,
        items: None,
        ref_path: None,
        insertion_order: None,
        properties: None,
        required: vec![],
        minimum: None,
        maximum: None,
    };
    let schema = CfnSchema {
        typename: "AWS::EC2::NatGateway".to_string(),
        description: None,
        properties: vec![],
        required: vec![],
        read_only_properties: vec![],
        create_only_properties: vec![],
        write_only_properties: vec![],
        primary_identifier: None,
        definitions: None,
        tagging: None,
    };
    let (type_str, _) =
        cfn_type_to_carina_type_with_enum(&prop, "SecondaryPrivateIpAddressCount", &schema);
    assert_eq!(
        type_str, "AttributeType::Int",
        "SecondaryPrivateIpAddressCount should stay Int"
    );
}

#[test]
fn test_availability_zone_detected() {
    let prop = CfnProperty {
        prop_type: Some(TypeValue::Single("string".to_string())),
        description: Some("The Availability Zone.".to_string()),
        enum_values: None,
        items: None,
        ref_path: None,
        insertion_order: None,
        properties: None,
        required: vec![],
        minimum: None,
        maximum: None,
    };
    let schema = CfnSchema {
        typename: "AWS::EC2::Subnet".to_string(),
        description: None,
        properties: vec![],
        required: vec![],
        read_only_properties: vec![],
        create_only_properties: vec![],
        write_only_properties: vec![],
        primary_identifier: None,
        definitions: None,
        tagging: None,
    };

    // AvailabilityZone should use super::availability_zone()
    let (type_str, _) = cfn_type_to_carina_type_with_enum(&prop, "AvailabilityZone", &schema);
    assert_eq!(type_str, "super::availability_zone()");

    // AvailabilityZoneId should stay String
    let (type_str, _) = cfn_type_to_carina_type_with_enum(&prop, "AvailabilityZoneId", &schema);
    assert_eq!(type_str, "AttributeType::String");
}

#[test]
fn test_is_aws_resource_id_property() {
    // Known resource ID properties
    assert!(is_aws_resource_id_property("VpcId"));
    assert!(is_aws_resource_id_property("SubnetId"));
    assert!(is_aws_resource_id_property("GroupId"));
    assert!(is_aws_resource_id_property("RouteTableId"));
    assert!(is_aws_resource_id_property("InternetGatewayId"));
    assert!(is_aws_resource_id_property("AllocationId"));
    assert!(is_aws_resource_id_property("NetworkInterfaceId"));
    assert!(is_aws_resource_id_property("InstanceId"));
    assert!(is_aws_resource_id_property("DestinationSecurityGroupId"));
    assert!(is_aws_resource_id_property("DestinationPrefixListId"));
    assert!(is_aws_resource_id_property("VpcEndpointId"));

    // Non-resource ID properties (should stay String)
    assert!(!is_aws_resource_id_property("AvailabilityZoneId"));
    assert!(!is_aws_resource_id_property("SourceSecurityGroupOwnerId"));
    assert!(!is_aws_resource_id_property("ResourceId"));

    // IPAM Pool ID properties should NOT match AwsResourceId
    assert!(!is_aws_resource_id_property("IpamPoolId"));
    assert!(!is_aws_resource_id_property("Ipv4IpamPoolId"));
    assert!(!is_aws_resource_id_property("Ipv6IpamPoolId"));
    assert!(!is_aws_resource_id_property("SourceIpamPoolId"));
}

#[test]
fn test_is_ipam_pool_id_property() {
    // Known IPAM Pool ID properties
    assert!(is_ipam_pool_id_property("IpamPoolId"));
    assert!(is_ipam_pool_id_property("Ipv4IpamPoolId"));
    assert!(is_ipam_pool_id_property("Ipv6IpamPoolId"));
    assert!(is_ipam_pool_id_property("SourceIpamPoolId"));

    // Non-IPAM Pool ID properties
    assert!(!is_ipam_pool_id_property("VpcId"));
    assert!(!is_ipam_pool_id_property("SubnetId"));
    assert!(!is_ipam_pool_id_property("AllocationId"));
}

#[test]
fn test_list_element_type_display() {
    // String items
    let prop = CfnProperty {
        prop_type: Some(TypeValue::Single("string".to_string())),
        description: None,
        enum_values: None,
        items: None,
        ref_path: None,
        insertion_order: None,
        properties: None,
        required: vec![],
        minimum: None,
        maximum: None,
    };
    assert_eq!(
        list_element_type_display(&prop, "GenericProp"),
        "`List<String>`"
    );

    // Integer items
    let prop = CfnProperty {
        prop_type: Some(TypeValue::Single("integer".to_string())),
        description: None,
        enum_values: None,
        items: None,
        ref_path: None,
        insertion_order: None,
        properties: None,
        required: vec![],
        minimum: None,
        maximum: None,
    };
    assert_eq!(
        list_element_type_display(&prop, "GenericProp"),
        "`List<Int>`"
    );

    // Boolean items
    let prop = CfnProperty {
        prop_type: Some(TypeValue::Single("boolean".to_string())),
        description: None,
        enum_values: None,
        items: None,
        ref_path: None,
        insertion_order: None,
        properties: None,
        required: vec![],
        minimum: None,
        maximum: None,
    };
    assert_eq!(
        list_element_type_display(&prop, "GenericProp"),
        "`List<Bool>`"
    );

    // No type (fallback)
    let prop = CfnProperty {
        prop_type: None,
        description: None,
        enum_values: None,
        items: None,
        ref_path: None,
        insertion_order: None,
        properties: None,
        required: vec![],
        minimum: None,
        maximum: None,
    };
    assert_eq!(
        list_element_type_display(&prop, "GenericProp"),
        "`List<String>`"
    );
}

#[test]
fn test_list_element_type_display_with_name_inference() {
    let prop = CfnProperty {
        prop_type: Some(TypeValue::Single("string".to_string())),
        description: None,
        enum_values: None,
        items: None,
        ref_path: None,
        insertion_order: None,
        properties: None,
        required: vec![],
        minimum: None,
        maximum: None,
    };
    assert_eq!(
        list_element_type_display(&prop, "SubnetIds"),
        "`List<SubnetId>`"
    );
    assert_eq!(
        list_element_type_display(&prop, "SecurityGroupIds"),
        "`List<SecurityGroupId>`"
    );
    assert_eq!(
        list_element_type_display(&prop, "RouteTableIds"),
        "`List<RouteTableId>`"
    );
    assert_eq!(
        list_element_type_display(&prop, "NetworkInterfaceIds"),
        "`List<AwsResourceId>`"
    );
    assert_eq!(
        list_element_type_display(&prop, "VpcEndpointIds"),
        "`List<VpcEndpointId>`"
    );
    assert_eq!(list_element_type_display(&prop, "RoleArns"), "`List<Arn>`");
    assert_eq!(
        list_element_type_display(&prop, "CidrBlocks"),
        "`List<Ipv4Cidr>`"
    );
    assert_eq!(
        list_element_type_display(&prop, "Ipv6CidrBlocks"),
        "`List<Ipv6Cidr>`"
    );
    assert_eq!(list_element_type_display(&prop, "Names"), "`List<String>`");
    assert_eq!(
        list_element_type_display(&prop, "SubnetId"),
        "`List<SubnetId>`"
    );
}

#[test]
fn test_type_display_string_array_tag_ref() {
    // Array with Tag $ref should display List<Map>
    let prop = CfnProperty {
        prop_type: Some(TypeValue::Single("array".to_string())),
        description: None,
        enum_values: None,
        items: Some(Box::new(CfnProperty {
            prop_type: None,
            description: None,
            enum_values: None,
            items: None,
            ref_path: Some("#/definitions/Tag".to_string()),
            insertion_order: None,
            properties: None,
            required: vec![],
            minimum: None,
            maximum: None,
        })),
        ref_path: None,
        insertion_order: None,
        properties: None,
        required: vec![],
        minimum: None,
        maximum: None,
    };
    let schema = CfnSchema {
        typename: "AWS::EC2::VPC".to_string(),
        description: None,
        properties: vec![],
        required: vec![],
        read_only_properties: vec![],
        create_only_properties: vec![],
        write_only_properties: vec![],
        primary_identifier: None,
        definitions: None,
        tagging: None,
    };
    let enums: Vec<(String, EnumInfo)> = vec![];
    assert_eq!(
        type_display_string("ResourceTags", &prop, &schema, &enums),
        "`List<Map>`"
    );
}

#[test]
fn test_type_display_string_array_unresolvable_ref() {
    // Array with $ref that cannot be resolved should display List<String>
    let prop = CfnProperty {
        prop_type: Some(TypeValue::Single("array".to_string())),
        description: None,
        enum_values: None,
        items: Some(Box::new(CfnProperty {
            prop_type: None,
            description: None,
            enum_values: None,
            items: None,
            ref_path: Some("#/definitions/NonExistent".to_string()),
            insertion_order: None,
            properties: None,
            required: vec![],
            minimum: None,
            maximum: None,
        })),
        ref_path: None,
        insertion_order: None,
        properties: None,
        required: vec![],
        minimum: None,
        maximum: None,
    };
    let schema = CfnSchema {
        typename: "AWS::EC2::VPC".to_string(),
        description: None,
        properties: vec![],
        required: vec![],
        read_only_properties: vec![],
        create_only_properties: vec![],
        write_only_properties: vec![],
        primary_identifier: None,
        definitions: None,
        tagging: None,
    };
    let enums: Vec<(String, EnumInfo)> = vec![];
    assert_eq!(
        type_display_string("Items", &prop, &schema, &enums),
        "`List<String>`"
    );
}

#[test]
fn test_type_display_string_array_no_items() {
    // Array with no items should display List<String>
    let prop = CfnProperty {
        prop_type: Some(TypeValue::Single("array".to_string())),
        description: None,
        enum_values: None,
        items: None,
        ref_path: None,
        insertion_order: None,
        properties: None,
        required: vec![],
        minimum: None,
        maximum: None,
    };
    let schema = CfnSchema {
        typename: "AWS::EC2::VPC".to_string(),
        description: None,
        properties: vec![],
        required: vec![],
        read_only_properties: vec![],
        create_only_properties: vec![],
        write_only_properties: vec![],
        primary_identifier: None,
        definitions: None,
        tagging: None,
    };
    let enums: Vec<(String, EnumInfo)> = vec![];
    assert_eq!(
        type_display_string("SomeList", &prop, &schema, &enums),
        "`List<String>`"
    );
}

#[test]
fn test_list_element_type_display_always_includes_element_type() {
    // Regression guard: list_element_type_display must always return "List<...>"
    // with element type info, never bare "List".
    let test_cases: Vec<Option<TypeValue>> = vec![
        Some(TypeValue::Single("string".to_string())),
        Some(TypeValue::Single("integer".to_string())),
        Some(TypeValue::Single("number".to_string())),
        Some(TypeValue::Single("boolean".to_string())),
        Some(TypeValue::Single("object".to_string())),
        Some(TypeValue::Single("unknown".to_string())),
        None,
    ];
    for type_val in test_cases {
        let shown = format!("{:?}", type_val);
        let prop = CfnProperty {
            prop_type: type_val,
            description: None,
            enum_values: None,
            items: None,
            ref_path: None,
            insertion_order: None,
            properties: None,
            required: vec![],
            minimum: None,
            maximum: None,
        };
        let result = list_element_type_display(&prop, "GenericProp");
        assert!(
            result.contains('<') && result.contains('>'),
            "list_element_type_display should include element type for {}, got: {}",
            shown,
            result
        );
    }
}

#[test]
fn test_type_display_string_array_never_bare_list() {
    // Regression guard: type_display_string for array types must never return
    // bare "List" without element type information.
    let schema = CfnSchema {
        typename: "AWS::EC2::VPC".to_string(),
        description: None,
        properties: vec![],
        required: vec![],
        read_only_properties: vec![],
        create_only_properties: vec![],
        write_only_properties: vec![],
        primary_identifier: None,
        definitions: None,
        tagging: None,
    };
    let enums: Vec<(String, EnumInfo)> = vec![];

    // Case 1: array with no items
    let prop = CfnProperty {
        prop_type: Some(TypeValue::Single("array".to_string())),
        description: None,
        enum_values: None,
        items: None,
        ref_path: None,
        insertion_order: None,
        properties: None,
        required: vec![],
        minimum: None,
        maximum: None,
    };
    let result = type_display_string("Prop1", &prop, &schema, &enums);
    assert_ne!(
        result, "List",
        "array with no items should not return bare 'List'"
    );

    // Case 2: array with Tag ref items
    let prop = CfnProperty {
        prop_type: Some(TypeValue::Single("array".to_string())),
        description: None,
        enum_values: None,
        items: Some(Box::new(CfnProperty {
            prop_type: None,
            description: None,
            enum_values: None,
            items: None,
            ref_path: Some("#/definitions/Tag".to_string()),
            insertion_order: None,
            properties: None,
            required: vec![],
            minimum: None,
            maximum: None,
        })),
        ref_path: None,
        insertion_order: None,
        properties: None,
        required: vec![],
        minimum: None,
        maximum: None,
    };
    let result = type_display_string("Prop2", &prop, &schema, &enums);
    assert_ne!(
        result, "List",
        "array with Tag ref should not return bare 'List'"
    );

    // Case 3: array with unresolvable ref items
    let prop = CfnProperty {
        prop_type: Some(TypeValue::Single("array".to_string())),
        description: None,
        enum_values: None,
        items: Some(Box::new(CfnProperty {
            prop_type: None,
            description: None,
            enum_values: None,
            items: None,
            ref_path: Some("#/definitions/Missing".to_string()),
            insertion_order: None,
            properties: None,
            required: vec![],
            minimum: None,
            maximum: None,
        })),
        ref_path: None,
        insertion_order: None,
        properties: None,
        required: vec![],
        minimum: None,
        maximum: None,
    };
    let result = type_display_string("Prop3", &prop, &schema, &enums);
    assert_ne!(
        result, "List",
        "array with unresolvable ref should not return bare 'List'"
    );

    // Case 4: array with items that have no type
    let prop = CfnProperty {
        prop_type: Some(TypeValue::Single("array".to_string())),
        description: None,
        enum_values: None,
        items: Some(Box::new(CfnProperty {
            prop_type: None,
            description: None,
            enum_values: None,
            items: None,
            ref_path: None,
            insertion_order: None,
            properties: None,
            required: vec![],
            minimum: None,
            maximum: None,
        })),
        ref_path: None,
        insertion_order: None,
        properties: None,
        required: vec![],
        minimum: None,
        maximum: None,
    };
    let result = type_display_string("Prop4", &prop, &schema, &enums);
    assert_ne!(
        result, "List",
        "array with typeless items should not return bare 'List'"
    );
}

#[test]
fn test_integer_with_range_produces_custom_type() {
    let prop = CfnProperty {
        prop_type: Some(TypeValue::Single("integer".to_string())),
        description: Some("The netmask length.".to_string()),
        enum_values: None,
        items: None,
        ref_path: None,
        insertion_order: None,
        properties: None,
        required: vec![],
        minimum: Some(0),
        maximum: Some(32),
    };
    let schema = CfnSchema {
        typename: "AWS::EC2::VPC".to_string(),
        description: None,
        properties: vec![],
        required: vec![],
        read_only_properties: vec![],
        create_only_properties: vec![],
        write_only_properties: vec![],
        primary_identifier: None,
        definitions: None,
        tagging: None,
    };
    let (type_str, _) = cfn_type_to_carina_type_with_enum(&prop, "Ipv4NetmaskLength", &schema);
    assert!(
        type_str.contains("AttributeType::Custom"),
        "Integer with min/max should produce Custom type, got: {}",
        type_str
    );
    assert!(
        type_str.contains("Int(0..=32)"),
        "Custom type name should include range, got: {}",
        type_str
    );
    assert!(
        type_str.contains("validate_ipv4_netmask_length_range"),
        "Should reference range validation function, got: {}",
        type_str
    );
}

#[test]
fn test_integer_without_range_produces_plain_int() {
    let prop = CfnProperty {
        prop_type: Some(TypeValue::Single("integer".to_string())),
        description: Some("Some integer value.".to_string()),
        enum_values: None,
        items: None,
        ref_path: None,
        insertion_order: None,
        properties: None,
        required: vec![],
        minimum: None,
        maximum: None,
    };
    let schema = CfnSchema {
        typename: "AWS::EC2::VPC".to_string(),
        description: None,
        properties: vec![],
        required: vec![],
        read_only_properties: vec![],
        create_only_properties: vec![],
        write_only_properties: vec![],
        primary_identifier: None,
        definitions: None,
        tagging: None,
    };
    let (type_str, _) = cfn_type_to_carina_type_with_enum(&prop, "SomeCount", &schema);
    assert_eq!(type_str, "AttributeType::Int");
}

#[test]
fn test_integer_with_only_minimum_produces_plain_int() {
    // Only minimum set, no maximum - should remain plain Int
    let prop = CfnProperty {
        prop_type: Some(TypeValue::Single("integer".to_string())),
        description: Some("Some integer value.".to_string()),
        enum_values: None,
        items: None,
        ref_path: None,
        insertion_order: None,
        properties: None,
        required: vec![],
        minimum: Some(0),
        maximum: None,
    };
    let schema = CfnSchema {
        typename: "AWS::EC2::VPC".to_string(),
        description: None,
        properties: vec![],
        required: vec![],
        read_only_properties: vec![],
        create_only_properties: vec![],
        write_only_properties: vec![],
        primary_identifier: None,
        definitions: None,
        tagging: None,
    };
    let (type_str, _) = cfn_type_to_carina_type_with_enum(&prop, "SomeCount", &schema);
    assert_eq!(type_str, "AttributeType::Int");
}

#[test]
fn test_type_display_string_ranged_int_markdown() {
    let prop = CfnProperty {
        prop_type: Some(TypeValue::Single("integer".to_string())),
        description: Some("The netmask length.".to_string()),
        enum_values: None,
        items: None,
        ref_path: None,
        insertion_order: None,
        properties: None,
        required: vec![],
        minimum: Some(0),
        maximum: Some(32),
    };
    let schema = CfnSchema {
        typename: "AWS::EC2::VPC".to_string(),
        description: None,
        properties: vec![],
        required: vec![],
        read_only_properties: vec![],
        create_only_properties: vec![],
        write_only_properties: vec![],
        primary_identifier: None,
        definitions: None,
        tagging: None,
    };
    let enums: Vec<(String, EnumInfo)> = vec![];
    let result = type_display_string("Ipv4NetmaskLength", &prop, &schema, &enums);
    assert_eq!(result, "Int(0..=32)");
}

#[test]
fn test_known_int_range_overrides() {
    let overrides = known_int_range_overrides();
    assert_eq!(overrides.get("Ipv4NetmaskLength"), Some(&(0, 32)));
    assert_eq!(overrides.get("Ipv6NetmaskLength"), Some(&(0, 128)));
    assert_eq!(overrides.get("FromPort"), Some(&(-1, 65535)));
    assert_eq!(overrides.get("ToPort"), Some(&(-1, 65535)));
    assert_eq!(overrides.get("MaxSessionDuration"), Some(&(3600, 43200)));
}

#[test]
fn test_known_string_type_overrides() {
    let overrides = known_string_type_overrides();
    assert_eq!(
        overrides.get("DefaultSecurityGroup"),
        Some(&"super::security_group_id()")
    );
    assert_eq!(
        overrides.get("DeliverLogsPermissionArn"),
        Some(&"super::iam_role_arn()")
    );
    assert_eq!(overrides.get("KmsKeyId"), Some(&"super::kms_key_arn()"));
    assert_eq!(overrides.get("KmsKeyArn"), Some(&"super::kms_key_arn()"));
    assert_eq!(
        overrides.get("KMSMasterKeyID"),
        Some(&"super::kms_key_id()")
    );
    assert_eq!(
        overrides.get("ReplicaKmsKeyID"),
        Some(&"super::kms_key_id()")
    );
    assert_eq!(
        overrides.get("PermissionsBoundary"),
        Some(&"super::iam_policy_arn()")
    );
}

#[test]
fn test_string_type_override_applied() {
    // DefaultSecurityGroup should use security_group_id() via override
    let prop = CfnProperty {
        prop_type: Some(TypeValue::Single("string".to_string())),
        description: Some("The ID of the default security group.".to_string()),
        enum_values: None,
        items: None,
        ref_path: None,
        insertion_order: None,
        properties: None,
        required: vec![],
        minimum: None,
        maximum: None,
    };
    let schema = CfnSchema {
        typename: "AWS::EC2::VPC".to_string(),
        description: None,
        properties: vec![],
        required: vec![],
        read_only_properties: vec![],
        create_only_properties: vec![],
        write_only_properties: vec![],
        primary_identifier: None,
        definitions: None,
        tagging: None,
    };
    let (type_str, _) =
        cfn_type_to_carina_type_with_enum(&prop, "DefaultSecurityGroup", &schema);
    assert_eq!(type_str, "super::security_group_id()");
}

#[test]
fn test_int_range_override_applied() {
    // FromPort without CF min/max should use override (-1..=65535)
    let prop = CfnProperty {
        prop_type: Some(TypeValue::Single("integer".to_string())),
        description: Some("The start of port range.".to_string()),
        enum_values: None,
        items: None,
        ref_path: None,
        insertion_order: None,
        properties: None,
        required: vec![],
        minimum: None,
        maximum: None,
    };
    let schema = CfnSchema {
        typename: "AWS::EC2::SecurityGroupIngress".to_string(),
        description: None,
        properties: vec![],
        required: vec![],
        read_only_properties: vec![],
        create_only_properties: vec![],
        write_only_properties: vec![],
        primary_identifier: None,
        definitions: None,
        tagging: None,
    };
    let (type_str, _) = cfn_type_to_carina_type_with_enum(&prop, "FromPort", &schema);
    assert!(
        type_str.contains("Int(-1..=65535)"),
        "FromPort should use override range, got: {}",
        type_str
    );
}

#[test]
fn test_ref_fallback_arn_heuristic() {
    // A $ref property named "Arn" with no resolvable definition should use arn()
    let prop = CfnProperty {
        prop_type: None,
        description: None,
        enum_values: None,
        items: None,
        ref_path: Some("#/definitions/Arn".to_string()),
        insertion_order: None,
        properties: None,
        required: vec![],
        minimum: None,
        maximum: None,
    };
    let schema = CfnSchema {
        typename: "AWS::S3::Bucket".to_string(),
        description: None,
        properties: vec![],
        required: vec![],
        read_only_properties: vec![],
        create_only_properties: vec![],
        write_only_properties: vec![],
        primary_identifier: None,
        definitions: None,
        tagging: None,
    };
    let (type_str, _) = cfn_type_to_carina_type_with_enum(&prop, "Arn", &schema);
    assert_eq!(type_str, "super::arn()");
}

#[test]
fn test_transit_gateway_enum_overrides() {
    let overrides = known_enum_overrides();
    assert_eq!(
        overrides.get("AutoAcceptSharedAttachments"),
        Some(&vec!["enable", "disable"])
    );
    assert_eq!(
        overrides.get("DnsSupport"),
        Some(&vec!["enable", "disable"])
    );
    assert_eq!(
        overrides.get("VpnEcmpSupport"),
        Some(&vec!["enable", "disable"])
    );
}

#[test]
fn test_number_with_range_produces_custom_type() {
    // "number" type should also support range constraints
    let prop = CfnProperty {
        prop_type: Some(TypeValue::Single("number".to_string())),
        description: Some("Port number.".to_string()),
        enum_values: None,
        items: None,
        ref_path: None,
        insertion_order: None,
        properties: None,
        required: vec![],
        minimum: Some(0),
        maximum: Some(65535),
    };
    let schema = CfnSchema {
        typename: "AWS::EC2::SecurityGroupIngress".to_string(),
        description: None,
        properties: vec![],
        required: vec![],
        read_only_properties: vec![],
        create_only_properties: vec![],
        write_only_properties: vec![],
        primary_identifier: None,
        definitions: None,
        tagging: None,
    };
    let (type_str, _) = cfn_type_to_carina_type_with_enum(&prop, "FromPort", &schema);
    assert!(
        type_str.contains("Int(0..=65535)"),
        "Number with range should include range in type name, got: {}",
        type_str
    );
}

#[test]
fn test_get_resource_id_type_vpc_id() {
    assert_eq!(get_resource_id_type("VpcId"), "super::vpc_id()");
}

#[test]
fn test_get_resource_id_type_subnet_id() {
    assert_eq!(get_resource_id_type("SubnetId"), "super::subnet_id()");
}

#[test]
fn test_get_resource_id_type_security_group_id() {
    assert_eq!(
        get_resource_id_type("SecurityGroupId"),
        "super::security_group_id()"
    );
    assert_eq!(
        get_resource_id_type("DestinationSecurityGroupId"),
        "super::security_group_id()"
    );
    assert_eq!(
        get_resource_id_type("SourceSecurityGroupId"),
        "super::security_group_id()"
    );
    assert_eq!(
        get_resource_id_type("GroupId"),
        "super::security_group_id()"
    );
}

#[test]
fn test_get_resource_id_type_egress_only_internet_gateway_id() {
    assert_eq!(
        get_resource_id_type("EgressOnlyInternetGatewayId"),
        "super::egress_only_internet_gateway_id()"
    );
}

#[test]
fn test_get_resource_id_type_internet_gateway_id() {
    assert_eq!(
        get_resource_id_type("InternetGatewayId"),
        "super::internet_gateway_id()"
    );
}

#[test]
fn test_get_resource_id_type_route_table_id() {
    assert_eq!(
        get_resource_id_type("RouteTableId"),
        "super::route_table_id()"
    );
}

#[test]
fn test_get_resource_id_type_nat_gateway_id() {
    assert_eq!(
        get_resource_id_type("NatGatewayId"),
        "super::nat_gateway_id()"
    );
}

#[test]
fn test_get_resource_id_type_vpc_peering_connection_id() {
    assert_eq!(
        get_resource_id_type("VpcPeeringConnectionId"),
        "super::vpc_peering_connection_id()"
    );
}

#[test]
fn test_get_resource_id_type_transit_gateway_id() {
    assert_eq!(
        get_resource_id_type("TransitGatewayId"),
        "super::transit_gateway_id()"
    );
}

#[test]
fn test_get_resource_id_type_vpn_gateway_id() {
    assert_eq!(
        get_resource_id_type("VpnGatewayId"),
        "super::vpn_gateway_id()"
    );
}

#[test]
fn test_get_resource_id_type_vpc_endpoint_id() {
    assert_eq!(
        get_resource_id_type("VpcEndpointId"),
        "super::vpc_endpoint_id()"
    );
}

#[test]
fn test_get_resource_id_type_non_vpc_endpoint_id() {
    // Regression test: ServiceEndpointId should NOT match VPC Endpoint ID
    // Previously, due to operator precedence, anything ending with "endpointid" matched
    assert_eq!(
        get_resource_id_type("ServiceEndpointId"),
        "super::aws_resource_id()"
    );
}

#[test]
fn test_get_resource_id_type_fallback() {
    assert_eq!(
        get_resource_id_type("SomeUnknownId"),
        "super::aws_resource_id()"
    );
}

#[test]
fn test_get_resource_id_display_name_vpc_id() {
    assert_eq!(get_resource_id_display_name("VpcId"), "VpcId");
}

#[test]
fn test_get_resource_id_display_name_subnet_id() {
    assert_eq!(get_resource_id_display_name("SubnetId"), "SubnetId");
}

#[test]
fn test_get_resource_id_display_name_security_group_id() {
    assert_eq!(
        get_resource_id_display_name("SecurityGroupId"),
        "SecurityGroupId"
    );
    assert_eq!(
        get_resource_id_display_name("DestinationSecurityGroupId"),
        "SecurityGroupId"
    );
    assert_eq!(get_resource_id_display_name("GroupId"), "SecurityGroupId");
}

#[test]
fn test_get_resource_id_display_name_egress_only_internet_gateway_id() {
    assert_eq!(
        get_resource_id_display_name("EgressOnlyInternetGatewayId"),
        "EgressOnlyInternetGatewayId"
    );
}

#[test]
fn test_get_resource_id_display_name_internet_gateway_id() {
    assert_eq!(
        get_resource_id_display_name("InternetGatewayId"),
        "InternetGatewayId"
    );
}

#[test]
fn test_get_resource_id_display_name_route_table_id() {
    assert_eq!(get_resource_id_display_name("RouteTableId"), "RouteTableId");
}

#[test]
fn test_get_resource_id_display_name_nat_gateway_id() {
    assert_eq!(get_resource_id_display_name("NatGatewayId"), "NatGatewayId");
}

#[test]
fn test_get_resource_id_display_name_vpc_peering_connection_id() {
    assert_eq!(
        get_resource_id_display_name("VpcPeeringConnectionId"),
        "VpcPeeringConnectionId"
    );
}

#[test]
fn test_get_resource_id_display_name_transit_gateway_id() {
    assert_eq!(
        get_resource_id_display_name("TransitGatewayId"),
        "TransitGatewayId"
    );
}

#[test]
fn test_get_resource_id_display_name_vpn_gateway_id() {
    assert_eq!(get_resource_id_display_name("VpnGatewayId"), "VpnGatewayId");
}

#[test]
fn test_get_resource_id_display_name_vpc_endpoint_id() {
    assert_eq!(
        get_resource_id_display_name("VpcEndpointId"),
        "VpcEndpointId"
    );
}

#[test]
fn test_get_resource_id_display_name_non_vpc_endpoint_id() {
    // Regression test: ServiceEndpointId should NOT match VPC Endpoint ID
    assert_eq!(
        get_resource_id_display_name("ServiceEndpointId"),
        "AwsResourceId"
    );
}

#[test]
fn test_get_resource_id_display_name_fallback() {
    assert_eq!(
        get_resource_id_display_name("SomeUnknownId"),
        "AwsResourceId"
    );
}

#[test]
fn test_classify_resource_id() {
    assert_eq!(classify_resource_id("VpcId"), ResourceIdKind::VpcId);
    assert_eq!(classify_resource_id("SubnetId"), ResourceIdKind::SubnetId);
    assert_eq!(
        classify_resource_id("SecurityGroupId"),
        ResourceIdKind::SecurityGroupId
    );
    assert_eq!(
        classify_resource_id("GroupId"),
        ResourceIdKind::SecurityGroupId
    );
    assert_eq!(
        classify_resource_id("EgressOnlyInternetGatewayId"),
        ResourceIdKind::EgressOnlyInternetGatewayId
    );
    assert_eq!(
        classify_resource_id("InternetGatewayId"),
        ResourceIdKind::InternetGatewayId
    );
    assert_eq!(
        classify_resource_id("RouteTableId"),
        ResourceIdKind::RouteTableId
    );
    assert_eq!(
        classify_resource_id("NatGatewayId"),
        ResourceIdKind::NatGatewayId
    );
    assert_eq!(
        classify_resource_id("VpcPeeringConnectionId"),
        ResourceIdKind::VpcPeeringConnectionId
    );
    assert_eq!(
        classify_resource_id("TransitGatewayId"),
        ResourceIdKind::TransitGatewayId
    );
    assert_eq!(
        classify_resource_id("VpnGatewayId"),
        ResourceIdKind::VpnGatewayId
    );
    assert_eq!(
        classify_resource_id("VpcEndpointId"),
        ResourceIdKind::VpcEndpointId
    );
    assert_eq!(
        classify_resource_id("SomeUnknownId"),
        ResourceIdKind::Generic
    );
    // Regression: ServiceEndpointId should NOT match VpcEndpointId
    assert_eq!(
        classify_resource_id("ServiceEndpointId"),
        ResourceIdKind::Generic
    );
}

#[test]
fn test_classify_resource_id_type_and_display_name_consistency() {
    // Verify that get_resource_id_type and get_resource_id_display_name
    // agree on classification for all test inputs
    let test_inputs = [
        "VpcId",
        "SubnetId",
        "SecurityGroupId",
        "DestinationSecurityGroupId",
        "GroupId",
        "EgressOnlyInternetGatewayId",
        "InternetGatewayId",
        "RouteTableId",
        "NatGatewayId",
        "VpcPeeringConnectionId",
        "TransitGatewayId",
        "VpnGatewayId",
        "VpcEndpointId",
        "ServiceEndpointId",
        "SomeUnknownId",
    ];

    for input in &test_inputs {
        let kind = classify_resource_id(input);
        let is_generic = kind == ResourceIdKind::Generic;
        let type_is_generic = get_resource_id_type(input) == "super::aws_resource_id()";
        let display_is_generic = get_resource_id_display_name(input) == "AwsResourceId";
        assert_eq!(
            is_generic, type_is_generic,
            "Mismatch for {input}: classify says generic={is_generic}, type says generic={type_is_generic}"
        );
        assert_eq!(
            is_generic, display_is_generic,
            "Mismatch for {input}: classify says generic={is_generic}, display says generic={display_is_generic}"
        );
    }
}
