//! The schema of `AWS::EC2::VPC`.
use vstd::prelude::*;

use crate::schema::{AttributeSchema, AttributeType, AttrView, AwsccSchemaConfig, ConfigView, ResourceSchema, SchemaView, TypeView, Words};
use crate::schemas::types;
use crate::schemas::values::EnumValues;
use crate::text;

verus! {

/// The schema of `AWS::EC2::VPC`.
pub open spec fn config() -> ConfigView {
    ConfigView {
        aws_type_name: "AWS::EC2::VPC"@,
        resource_type_name: "ec2.vpc"@,
        has_tags: true,
        schema: SchemaView::new("awscc.ec2.vpc"@)
            .with_description("Specifies a virtual private cloud (VPC).  To add an IPv6 CIDR block to the VPC, see [AWS::EC2::VPCCidrBlock](https://docs.aws.amazon.com/AWSCloudFormation/latest/UserGuide/aws-resource-ec2-vpccidrbloc..."@)
            .attribute(
                AttrView::new("cidr_block"@, TypeView::format("Ipv4Cidr"@))
                    .create_only()
                    .with_description("The IPv4 network range for the VPC, in CIDR notation. For example, ``10.0.0.0/16``. We modify the specified CIDR block to its canonical form; for exam..."@)
                    .with_provider_name("CidrBlock"@),
            )
            .attribute(
                AttrView::new("cidr_block_associations"@, TypeView::list(TypeView::format("Ipv4Cidr"@)))
                    .with_description(" (read-only)"@)
                    .with_provider_name("CidrBlockAssociations"@),
            )
            .attribute(
                AttrView::new("default_network_acl"@, TypeView::format("AwsResourceId"@))
                    .with_description(" (read-only)"@)
                    .with_provider_name("DefaultNetworkAcl"@),
            )
            .attribute(
                AttrView::new("default_security_group"@, TypeView::format("SecurityGroupId"@))
                    .with_description(" (read-only)"@)
                    .with_provider_name("DefaultSecurityGroup"@),
            )
            .attribute(
                AttrView::new("enable_dns_hostnames"@, TypeView::Bool)
                    .with_description("Indicates whether the instances launched in the VPC get DNS hostnames. If enabled, instances in the VPC get DNS hostnames; otherwise, they do not. Dis..."@)
                    .with_provider_name("EnableDnsHostnames"@),
            )
            .attribute(
                AttrView::new("enable_dns_support"@, TypeView::Bool)
                    .with_description("Indicates whether the DNS resolution is supported for the VPC. If enabled, queries to the Amazon provided DNS server at the 169.254.169.253 IP address..."@)
                    .with_provider_name("EnableDnsSupport"@),
            )
            .attribute(
                AttrView::new("instance_tenancy"@, TypeView::custom_enum("InstanceTenancy"@, seq!["default"@].push("dedicated"@).push("host"@), "awscc.ec2.vpc"@, None))
                    .with_description("The allowed tenancy of instances launched into the VPC.  + ``default``: An instance launched into the VPC runs on shared hardware by default, unless y..."@)
                    .with_provider_name("InstanceTenancy"@),
            )
            .attribute(
                AttrView::new("ipv4_ipam_pool_id"@, TypeView::format("IpamPoolId"@))
                    .create_only()
                    .with_description("The ID of an IPv4 IPAM pool you want to use for allocating this VPC's CIDR. For more information, see [What is IPAM?](https://docs.aws.amazon.com//vpc..."@)
                    .with_provider_name("Ipv4IpamPoolId"@),
            )
            .attribute(
                AttrView::new("ipv4_netmask_length"@, TypeView::int_range("Int(0..=32)"@, Some(0i64), Some(32i64)))
                    .create_only()
                    .with_description("The netmask length of the IPv4 CIDR you want to allocate to this VPC from an Amazon VPC IP Address Manager (IPAM) pool. For more information about IPA..."@)
                    .with_provider_name("Ipv4NetmaskLength"@),
            )
            .attribute(
                AttrView::new("ipv6_cidr_blocks"@, TypeView::list(TypeView::format("Ipv6Cidr"@)))
                    .with_description(" (read-only)"@)
                    .with_provider_name("Ipv6CidrBlocks"@),
            )
            .attribute(
                AttrView::new("tags"@, types::tags_view())
                    .with_description("The tags for the VPC."@)
                    .with_provider_name("Tags"@),
            )
            .attribute(
                AttrView::new("vpc_id"@, TypeView::format("VpcId"@))
                    .with_description(" (read-only)"@)
                    .with_provider_name("VpcId"@),
            ),
    }
}

/// The schema of `AWS::EC2::VPC`.
pub fn ec2_vpc_config() -> (r: AwsccSchemaConfig)
    ensures
        r@ == config(),
{
    AwsccSchemaConfig {
        aws_type_name: "AWS::EC2::VPC",
        resource_type_name: "ec2.vpc",
        has_tags: true,
        schema: ResourceSchema::new("awscc.ec2.vpc")
            .with_description("Specifies a virtual private cloud (VPC).  To add an IPv6 CIDR block to the VPC, see [AWS::EC2::VPCCidrBlock](https://docs.aws.amazon.com/AWSCloudFormation/latest/UserGuide/aws-resource-ec2-vpccidrbloc...")
            .attribute(
                AttributeSchema::new("cidr_block", AttributeType::format("Ipv4Cidr"))
                    .create_only()
                    .with_description("The IPv4 network range for the VPC, in CIDR notation. For example, ``10.0.0.0/16``. We modify the specified CIDR block to its canonical form; for exam...")
                    .with_provider_name("CidrBlock"),
            )
            .attribute(
                AttributeSchema::new("cidr_block_associations", AttributeType::list(AttributeType::format("Ipv4Cidr")))
                    .with_description(" (read-only)")
                    .with_provider_name("CidrBlockAssociations"),
            )
            .attribute(
                AttributeSchema::new("default_network_acl", AttributeType::format("AwsResourceId"))
                    .with_description(" (read-only)")
                    .with_provider_name("DefaultNetworkAcl"),
            )
            .attribute(
                AttributeSchema::new("default_security_group", AttributeType::format("SecurityGroupId"))
                    .with_description(" (read-only)")
                    .with_provider_name("DefaultSecurityGroup"),
            )
            .attribute(
                AttributeSchema::new("enable_dns_hostnames", AttributeType::Bool)
                    .with_description("Indicates whether the instances launched in the VPC get DNS hostnames. If enabled, instances in the VPC get DNS hostnames; otherwise, they do not. Dis...")
                    .with_provider_name("EnableDnsHostnames"),
            )
            .attribute(
                AttributeSchema::new("enable_dns_support", AttributeType::Bool)
                    .with_description("Indicates whether the DNS resolution is supported for the VPC. If enabled, queries to the Amazon provided DNS server at the 169.254.169.253 IP address...")
                    .with_provider_name("EnableDnsSupport"),
            )
            .attribute(
                AttributeSchema::new("instance_tenancy", AttributeType::custom_enum("InstanceTenancy", Words::of("default").and("dedicated").and("host"), "awscc.ec2.vpc", None))
                    .with_description("The allowed tenancy of instances launched into the VPC.  + ``default``: An instance launched into the VPC runs on shared hardware by default, unless y...")
                    .with_provider_name("InstanceTenancy"),
            )
            .attribute(
                AttributeSchema::new("ipv4_ipam_pool_id", AttributeType::format("IpamPoolId"))
                    .create_only()
                    .with_description("The ID of an IPv4 IPAM pool you want to use for allocating this VPC's CIDR. For more information, see [What is IPAM?](https://docs.aws.amazon.com//vpc...")
                    .with_provider_name("Ipv4IpamPoolId"),
            )
            .attribute(
                AttributeSchema::new("ipv4_netmask_length", AttributeType::int_range("Int(0..=32)", Some(0i64), Some(32i64)))
                    .create_only()
                    .with_description("The netmask length of the IPv4 CIDR you want to allocate to this VPC from an Amazon VPC IP Address Manager (IPAM) pool. For more information about IPA...")
                    .with_provider_name("Ipv4NetmaskLength"),
            )
            .attribute(
                AttributeSchema::new("ipv6_cidr_blocks", AttributeType::list(AttributeType::format("Ipv6Cidr")))
                    .with_description(" (read-only)")
                    .with_provider_name("Ipv6CidrBlocks"),
            )
            .attribute(
                AttributeSchema::new("tags", types::tags_type())
                    .with_description("The tags for the VPC.")
                    .with_provider_name("Tags"),
            )
            .attribute(
                AttributeSchema::new("vpc_id", AttributeType::format("VpcId"))
                    .with_description(" (read-only)")
                    .with_provider_name("VpcId"),
            ),
    }
}

/// The enum attributes and their values.
pub open spec fn enum_table() -> Seq<(Seq<char>, Seq<Seq<char>>)> {
    Seq::empty()
        .push(("instance_tenancy"@, seq!["default"@].push("dedicated"@).push("host"@)))
}

/// The resource type, and its enum attributes with their values.
pub fn enum_valid_values() -> (r: (&'static str, EnumValues))
    ensures
        r.0@ == "ec2.vpc"@,
        r.1@ == enum_table(),
{
    let mut values = EnumValues::new();
    values.add("instance_tenancy", Words::of("default").and("dedicated").and("host"));
    ("ec2.vpc", values)
}

/// The provider's value for a value that has another spelling in the
/// configuration language: there is none.
pub open spec fn alias_reverse(attr_name: Seq<char>, value: Seq<char>) -> Option<Seq<char>> {
    None
}

/// The provider's value for a value that has another spelling in the
/// configuration language.
pub fn enum_alias_reverse(attr_name: &str, value: &str) -> (r: Option<&'static str>)
    ensures
        text::opt_slice(r) == alias_reverse(attr_name@, value@),
{
    None
}

} // verus!
