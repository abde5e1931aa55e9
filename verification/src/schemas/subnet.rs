//! The schema of `AWS::EC2::Subnet`.
use vstd::prelude::*;

use crate::schema::{AttributeSchema, AttributeType, AttrView, AwsccSchemaConfig, ConfigView, FieldView, ResourceSchema, SchemaView, StructField, TypeView, Words};
use crate::schemas::types;
use crate::schemas::values::EnumValues;
use crate::text;

verus! {

/// The schema of `AWS::EC2::Subnet`.
pub open spec fn config() -> ConfigView {
    ConfigView {
        aws_type_name: "AWS::EC2::Subnet"@,
        resource_type_name: "ec2.subnet"@,
        has_tags: true,
        schema: SchemaView::new("awscc.ec2.subnet"@)
            .with_description("Specifies a subnet for the specified VPC.  For an IPv4 only subnet, specify an IPv4 CIDR block. If the VPC has an IPv6 CIDR block, you can create an IPv6 only subnet or a dual stack subnet instead. Fo..."@)
            .attribute(
                AttrView::new("assign_ipv6_address_on_creation"@, TypeView::Bool)
                    .with_description("Indicates whether a network interface created in this subnet receives an IPv6 address. The default value is ``false``. If you specify ``AssignIpv6Addr..."@)
                    .with_provider_name("AssignIpv6AddressOnCreation"@),
            )
            .attribute(
                AttrView::new("availability_zone"@, types::zone_view())
                    .create_only()
                    .with_description("The Availability Zone of the subnet. If you update this property, you must also update the ``CidrBlock`` property."@)
                    .with_provider_name("AvailabilityZone"@),
            )
            .attribute(
                AttrView::new("availability_zone_id"@, TypeView::String)
                    .create_only()
                    .with_description("The AZ ID of the subnet."@)
                    .with_provider_name("AvailabilityZoneId"@),
            )
            .attribute(
                AttrView::new("block_public_access_states"@, TypeView::structure("BlockPublicAccessStates"@)
                        .field(FieldView::new("internet_gateway_block_mode"@, TypeView::Enum(seq!["off"@].push("block-bidirectional"@).push("block-ingress"@)))
                            .with_description("The mode of VPC BPA. Options here are off, block-bidirectional, block-ingress "@)
                            .with_provider_name("InternetGatewayBlockMode"@)))
                    .with_description(" (read-only)"@)
                    .with_provider_name("BlockPublicAccessStates"@),
            )
            .attribute(
                AttrView::new("cidr_block"@, TypeView::format("Ipv4Cidr"@))
                    .create_only()
                    .with_description("The IPv4 CIDR block assigned to the subnet. If you update this property, we create a new subnet, and then delete the existing one."@)
                    .with_provider_name("CidrBlock"@),
            )
            .attribute(
                AttrView::new("enable_dns64"@, TypeView::Bool)
                    .with_description("Indicates whether DNS queries made to the Amazon-provided DNS Resolver in this subnet should return synthetic IPv6 addresses for IPv4-only destination..."@)
                    .with_provider_name("EnableDns64"@),
            )
            .attribute(
                AttrView::new("enable_lni_at_device_index"@, TypeView::Int)
                    .with_description("Indicates the device position for local network interfaces in this subnet. For example, ``1`` indicates local network interfaces in this subnet are th..."@)
                    .with_provider_name("EnableLniAtDeviceIndex"@),
            )
            .attribute(
                AttrView::new("ipv4_ipam_pool_id"@, TypeView::format("IpamPoolId"@))
                    .create_only()
                    .with_description("An IPv4 IPAM pool ID for the subnet."@)
                    .with_provider_name("Ipv4IpamPoolId"@),
            )
            .attribute(
                AttrView::new("ipv4_netmask_length"@, TypeView::int_range("Int(0..=32)"@, Some(0i64), Some(32i64)))
                    .create_only()
                    .with_description("An IPv4 netmask length for the subnet."@)
                    .with_provider_name("Ipv4NetmaskLength"@),
            )
            .attribute(
                AttrView::new("ipv6_cidr_block"@, TypeView::format("Ipv6Cidr"@))
                    .with_description("The IPv6 CIDR block. If you specify ``AssignIpv6AddressOnCreation``, you must also specify an IPv6 CIDR block."@)
                    .with_provider_name("Ipv6CidrBlock"@),
            )
            .attribute(
                AttrView::new("ipv6_cidr_blocks"@, TypeView::list(TypeView::format("Ipv6Cidr"@)))
                    .with_description(" (read-only)"@)
                    .with_provider_name("Ipv6CidrBlocks"@),
            )
            .attribute(
                AttrView::new("ipv6_ipam_pool_id"@, TypeView::format("IpamPoolId"@))
                    .create_only()
                    .with_description("An IPv6 IPAM pool ID for the subnet."@)
                    .with_provider_name("Ipv6IpamPoolId"@),
            )
            .attribute(
                AttrView::new("ipv6_native"@, TypeView::Bool)
                    .create_only()
                    .with_description("Indicates whether this is an IPv6 only subnet. For more information, see [Subnet basics](https://docs.aws.amazon.com/vpc/latest/userguide/VPC_Subnets...."@)
                    .with_provider_name("Ipv6Native"@),
            )
            .attribute(
                AttrView::new("ipv6_netmask_length"@, TypeView::int_range("Int(0..=128)"@, Some(0i64), Some(128i64)))
                    .create_only()
                    .with_description("An IPv6 netmask length for the subnet."@)
                    .with_provider_name("Ipv6NetmaskLength"@),
            )
            .attribute(
                AttrView::new("map_public_ip_on_launch"@, TypeView::Bool)
                    .with_description("Indicates whether instances launched in this subnet receive a public IPv4 address. The default value is ``false``. AWS charges for all public IPv4 add..."@)
                    .with_provider_name("MapPublicIpOnLaunch"@),
            )
            .attribute(
                AttrView::new("network_acl_association_id"@, TypeView::String)
                    .with_description(" (read-only)"@)
                    .with_provider_name("NetworkAclAssociationId"@),
            )
            .attribute(
                AttrView::new("outpost_arn"@, TypeView::format("Arn"@))
                    .create_only()
                    .with_description("The Amazon Resource Name (ARN) of the Outpost."@)
                    .with_provider_name("OutpostArn"@),
            )
            .attribute(
                AttrView::new("private_dns_name_options_on_launch"@, TypeView::structure("PrivateDnsNameOptionsOnLaunch"@)
                        .field(FieldView::new("enable_resource_name_dns_aaaa_record"@, TypeView::Bool)
                            .with_provider_name("EnableResourceNameDnsAAAARecord"@))
                        .field(FieldView::new("enable_resource_name_dns_a_record"@, TypeView::Bool)
                            .with_provider_name("EnableResourceNameDnsARecord"@))
                        .field(FieldView::new("hostname_type"@, TypeView::Enum(seq!["ip-name"@].push("resource-name"@)))
                            .with_provider_name("HostnameType"@)))
                    .with_description("The hostname type for EC2 instances launched into this subnet and how DNS A and AAAA record queries to the instances should be handled. For more infor..."@)
                    .with_provider_name("PrivateDnsNameOptionsOnLaunch"@),
            )
            .attribute(
                AttrView::new("subnet_id"@, TypeView::format("SubnetId"@))
                    .with_description(" (read-only)"@)
                    .with_provider_name("SubnetId"@),
            )
            .attribute(
                AttrView::new("tags"@, types::tags_view())
                    .with_description("Any tags assigned to the subnet."@)
                    .with_provider_name("Tags"@),
            )
            .attribute(
                AttrView::new("vpc_id"@, TypeView::format("VpcId"@))
                    .required()
                    .create_only()
                    .with_description("The ID of the VPC the subnet is in. If you update this property, you must also update the ``CidrBlock`` property."@)
                    .with_provider_name("VpcId"@),
            ),
    }
}

/// The schema of `AWS::EC2::Subnet`.
pub fn ec2_subnet_config() -> (r: AwsccSchemaConfig)
    ensures
        r@ == config(),
{
    AwsccSchemaConfig {
        aws_type_name: "AWS::EC2::Subnet",
        resource_type_name: "ec2.subnet",
        has_tags: true,
        schema: ResourceSchema::new("awscc.ec2.subnet")
            .with_description("Specifies a subnet for the specified VPC.  For an IPv4 only subnet, specify an IPv4 CIDR block. If the VPC has an IPv6 CIDR block, you can create an IPv6 only subnet or a dual stack subnet instead. Fo...")
            .attribute(
                AttributeSchema::new("assign_ipv6_address_on_creation", AttributeType::Bool)
                    .with_description("Indicates whether a network interface created in this subnet receives an IPv6 address. The default value is ``false``. If you specify ``AssignIpv6Addr...")
                    .with_provider_name("AssignIpv6AddressOnCreation"),
            )
            .attribute(
                AttributeSchema::new("availability_zone", types::availability_zone())
                    .create_only()
                    .with_description("The Availability Zone of the subnet. If you update this property, you must also update the ``CidrBlock`` property.")
                    .with_provider_name("AvailabilityZone"),
            )
            .attribute(
                AttributeSchema::new("availability_zone_id", AttributeType::String)
                    .create_only()
                    .with_description("The AZ ID of the subnet.")
                    .with_provider_name("AvailabilityZoneId"),
            )
            .attribute(
                AttributeSchema::new("block_public_access_states", AttributeType::structure("BlockPublicAccessStates")
                        .field(StructField::new("internet_gateway_block_mode", AttributeType::one_of(Words::of("off").and("block-bidirectional").and("block-ingress")))
                            .with_description("The mode of VPC BPA. Options here are off, block-bidirectional, block-ingress ")
                            .with_provider_name("InternetGatewayBlockMode")))
                    .with_description(" (read-only)")
                    .with_provider_name("BlockPublicAccessStates"),
            )
            .attribute(
                AttributeSchema::new("cidr_block", AttributeType::format("Ipv4Cidr"))
                    .create_only()
                    .with_description("The IPv4 CIDR block assigned to the subnet. If you update this property, we create a new subnet, and then delete the existing one.")
                    .with_provider_name("CidrBlock"),
            )
            .attribute(
                AttributeSchema::new("enable_dns64", AttributeType::Bool)
                    .with_description("Indicates whether DNS queries made to the Amazon-provided DNS Resolver in this subnet should return synthetic IPv6 addresses for IPv4-only destination...")
                    .with_provider_name("EnableDns64"),
            )
            .attribute(
                AttributeSchema::new("enable_lni_at_device_index", AttributeType::Int)
                    .with_description("Indicates the device position for local network interfaces in this subnet. For example, ``1`` indicates local network interfaces in this subnet are th...")
                    .with_provider_name("EnableLniAtDeviceIndex"),
            )
            .attribute(
                AttributeSchema::new("ipv4_ipam_pool_id", AttributeType::format("IpamPoolId"))
                    .create_only()
                    .with_description("An IPv4 IPAM pool ID for the subnet.")
                    .with_provider_name("Ipv4IpamPoolId"),
            )
            .attribute(
                AttributeSchema::new("ipv4_netmask_length", AttributeType::int_range("Int(0..=32)", Some(0i64), Some(32i64)))
                    .create_only()
                    .with_description("An IPv4 netmask length for the subnet.")
                    .with_provider_name("Ipv4NetmaskLength"),
            )
            .attribute(
                AttributeSchema::new("ipv6_cidr_block", AttributeType::format("Ipv6Cidr"))
                    .with_description("The IPv6 CIDR block. If you specify ``AssignIpv6AddressOnCreation``, you must also specify an IPv6 CIDR block.")
                    .with_provider_name("Ipv6CidrBlock"),
            )
            .attribute(
                AttributeSchema::new("ipv6_cidr_blocks", AttributeType::list(AttributeType::format("Ipv6Cidr")))
                    .with_description(" (read-only)")
                    .with_provider_name("Ipv6CidrBlocks"),
            )
            .attribute(
                AttributeSchema::new("ipv6_ipam_pool_id", AttributeType::format("IpamPoolId"))
                    .create_only()
                    .with_description("An IPv6 IPAM pool ID for the subnet.")
                    .with_provider_name("Ipv6IpamPoolId"),
            )
            .attribute(
                AttributeSchema::new("ipv6_native", AttributeType::Bool)
                    .create_only()
                    .with_description("Indicates whether this is an IPv6 only subnet. For more information, see [Subnet basics](https://docs.aws.amazon.com/vpc/latest/userguide/VPC_Subnets....")
                    .with_provider_name("Ipv6Native"),
            )
            .attribute(
                AttributeSchema::new("ipv6_netmask_length", AttributeType::int_range("Int(0..=128)", Some(0i64), Some(128i64)))
                    .create_only()
                    .with_description("An IPv6 netmask length for the subnet.")
                    .with_provider_name("Ipv6NetmaskLength"),
            )
            .attribute(
                AttributeSchema::new("map_public_ip_on_launch", AttributeType::Bool)
                    .with_description("Indicates whether instances launched in this subnet receive a public IPv4 address. The default value is ``false``. AWS charges for all public IPv4 add...")
                    .with_provider_name("MapPublicIpOnLaunch"),
            )
            .attribute(
                AttributeSchema::new("network_acl_association_id", AttributeType::String)
                    .with_description(" (read-only)")
                    .with_provider_name("NetworkAclAssociationId"),
            )
            .attribute(
                AttributeSchema::new("outpost_arn", AttributeType::format("Arn"))
                    .create_only()
                    .with_description("The Amazon Resource Name (ARN) of the Outpost.")
                    .with_provider_name("OutpostArn"),
            )
            .attribute(
                AttributeSchema::new("private_dns_name_options_on_launch", AttributeType::structure("PrivateDnsNameOptionsOnLaunch")
                        .field(StructField::new("enable_resource_name_dns_aaaa_record", AttributeType::Bool)
                            .with_provider_name("EnableResourceNameDnsAAAARecord"))
                        .field(StructField::new("enable_resource_name_dns_a_record", AttributeType::Bool)
                            .with_provider_name("EnableResourceNameDnsARecord"))
                        .field(StructField::new("hostname_type", AttributeType::one_of(Words::of("ip-name").and("resource-name")))
                            .with_provider_name("HostnameType")))
                    .with_description("The hostname type for EC2 instances launched into this subnet and how DNS A and AAAA record queries to the instances should be handled. For more infor...")
                    .with_provider_name("PrivateDnsNameOptionsOnLaunch"),
            )
            .attribute(
                AttributeSchema::new("subnet_id", AttributeType::format("SubnetId"))
                    .with_description(" (read-only)")
                    .with_provider_name("SubnetId"),
            )
            .attribute(
                AttributeSchema::new("tags", types::tags_type())
                    .with_description("Any tags assigned to the subnet.")
                    .with_provider_name("Tags"),
            )
            .attribute(
                AttributeSchema::new("vpc_id", AttributeType::format("VpcId"))
                    .required()
                    .create_only()
                    .with_description("The ID of the VPC the subnet is in. If you update this property, you must also update the ``CidrBlock`` property.")
                    .with_provider_name("VpcId"),
            ),
    }
}

/// The enum attributes and their values.
pub open spec fn enum_table() -> Seq<(Seq<char>, Seq<Seq<char>>)> {
    Seq::empty()
}

/// The resource type, and its enum attributes with their values.
pub fn enum_valid_values() -> (r: (&'static str, EnumValues))
    ensures
        r.0@ == "ec2.subnet"@,
        r.1@ == enum_table(),
{
    let values = EnumValues::new();
    ("ec2.subnet", values)
}

/// The provider's value for a value that has another spelling in the
/// configuration language: there is none.
pub open spec fn alias_reverse(attr_name: Seq<char>, value: Seq<char>) -> Option<Seq<char>> {
    None
}

/// The provider's value for a value that has another spelling in the
/// configuration language.
pub fn enum_alias_reverse(attr_name: &str, value: &str) -> (r: Option<&'static str>)
    ensures
        text::opt_slice(r) == alias_reverse(attr_name@, value@),
{
    None
}

} // verus!
