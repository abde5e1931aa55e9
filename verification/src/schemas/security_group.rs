//! The schema of `AWS::EC2::SecurityGroup`.
use vstd::prelude::*;

use crate::schema::{AttributeSchema, AttributeType, AttrView, AwsccSchemaConfig, ConfigView, FieldView, ResourceSchema, SchemaView, StructField, ToDsl, ToDslView, TypeView, Words};
use crate::schemas::types;
use crate::schemas::values::EnumValues;
use crate::text;

verus! {

pub open spec fn security_group_egress_view() -> AttrView {
    AttrView::new("security_group_egress"@, TypeView::list(TypeView::structure("Egress"@)
            .field(FieldView::new("cidr_ip"@, TypeView::String)
                .with_provider_name("CidrIp"@))
            .field(FieldView::new("cidr_ipv6"@, TypeView::format("Ipv6Cidr"@))
                .with_provider_name("CidrIpv6"@))
            .field(FieldView::new("description"@, TypeView::String)
                .with_provider_name("Description"@))
            .field(FieldView::new("destination_prefix_list_id"@, TypeView::String)
                .with_provider_name("DestinationPrefixListId"@))
            .field(FieldView::new("destination_security_group_id"@, TypeView::String)
                .with_provider_name("DestinationSecurityGroupId"@))
            .field(FieldView::new("from_port"@, TypeView::Int)
                .with_provider_name("FromPort"@))
            .field(FieldView::new("ip_protocol"@, TypeView::custom_enum("IpProtocol"@, seq!["tcp"@].push("udp"@).push("icmp"@).push("icmpv6"@).push("-1"@).push("all"@), "awscc.ec2.security_group"@, Some(ToDslView::alias("-1"@, "all"@, true))))
                .required()
                .with_provider_name("IpProtocol"@))
            .field(FieldView::new("to_port"@, TypeView::Int)
                .with_provider_name("ToPort"@))))
        .with_description("[VPC only] The outbound rules associated with the security group. There is a short interruption during which you cannot connect to the security group."@)
        .with_provider_name("SecurityGroupEgress"@)
        .with_block_name("security_group_egress"@)
}

fn security_group_egress_attribute() -> (r: AttributeSchema)
    ensures
        r@ == security_group_egress_view(),
{
    AttributeSchema::new("security_group_egress", AttributeType::list(AttributeType::structure("Egress")
            .field(StructField::new("cidr_ip", AttributeType::String)
                .with_provider_name("CidrIp"))
            .field(StructField::new("cidr_ipv6", AttributeType::format("Ipv6Cidr"))
                .with_provider_name("CidrIpv6"))
            .field(StructField::new("description", AttributeType::String)
                .with_provider_name("Description"))
            .field(StructField::new("destination_prefix_list_id", AttributeType::String)
                .with_provider_name("DestinationPrefixListId"))
            .field(StructField::new("destination_security_group_id", AttributeType::String)
                .with_provider_name("DestinationSecurityGroupId"))
            .field(StructField::new("from_port", AttributeType::Int)
                .with_provider_name("FromPort"))
            .field(StructField::new("ip_protocol", AttributeType::custom_enum("IpProtocol", Words::of("tcp").and("udp").and("icmp").and("icmpv6").and("-1").and("all"), "awscc.ec2.security_group", Some(ToDsl::alias("-1", "all", true))))
                .required()
                .with_provider_name("IpProtocol"))
            .field(StructField::new("to_port", AttributeType::Int)
                .with_provider_name("ToPort"))))
        .with_description("[VPC only] The outbound rules associated with the security group. There is a short interruption during which you cannot connect to the security group.")
        .with_provider_name("SecurityGroupEgress")
        .with_block_name("security_group_egress")
}

pub open spec fn security_group_ingress_view() -> AttrView {
    AttrView::new("security_group_ingress"@, TypeView::list(TypeView::structure("Ingress"@)
            .field(FieldView::new("cidr_ip"@, TypeView::String)
                .with_provider_name("CidrIp"@))
            .field(FieldView::new("cidr_ipv6"@, TypeView::format("Ipv6Cidr"@))
                .with_provider_name("CidrIpv6"@))
            .field(FieldView::new("description"@, TypeView::String)
                .with_provider_name("Description"@))
            .field(FieldView::new("from_port"@, TypeView::Int)
                .with_provider_name("FromPort"@))
            .field(FieldView::new("ip_protocol"@, TypeView::custom_enum("IpProtocol"@, seq!["tcp"@].push("udp"@).push("icmp"@).push("icmpv6"@).push("-1"@).push("all"@), "awscc.ec2.security_group"@, Some(ToDslView::alias("-1"@, "all"@, true))))
                .required()
                .with_provider_name("IpProtocol"@))
            .field(FieldView::new("source_prefix_list_id"@, TypeView::String)
                .with_provider_name("SourcePrefixListId"@))
            .field(FieldView::new("source_security_group_id"@, TypeView::String)
                .with_provider_name("SourceSecurityGroupId"@))
            .field(FieldView::new("source_security_group_name"@, TypeView::String)
                .with_provider_name("SourceSecurityGroupName"@))
            .field(FieldView::new("source_security_group_owner_id"@, TypeView::String)
                .with_provider_name("SourceSecurityGroupOwnerId"@))
            .field(FieldView::new("to_port"@, TypeView::Int)
                .with_provider_name("ToPort"@))))
        .with_description("The inbound rules associated with the security group. There is a short interruption during which you cannot connect to the security group."@)
        .with_provider_name("SecurityGroupIngress"@)
        .with_block_name("security_group_ingress"@)
}

fn security_group_ingress_attribute() -> (r: AttributeSchema)
    ensures
        r@ == security_group_ingress_view(),
{
    AttributeSchema::new("security_group_ingress", AttributeType::list(AttributeType::structure("Ingress")
            .field(StructField::new("cidr_ip", AttributeType::String)
                .with_provider_name("CidrIp"))
            .field(StructField::new("cidr_ipv6", AttributeType::format("Ipv6Cidr"))
                .with_provider_name("CidrIpv6"))
            .field(StructField::new("description", AttributeType::String)
                .with_provider_name("Description"))
            .field(StructField::new("from_port", AttributeType::Int)
                .with_provider_name("FromPort"))
            .field(StructField::new("ip_protocol", AttributeType::custom_enum("IpProtocol", Words::of("tcp").and("udp").and("icmp").and("icmpv6").and("-1").and("all"), "awscc.ec2.security_group", Some(ToDsl::alias("-1", "all", true))))
                .required()
                .with_provider_name("IpProtocol"))
            .field(StructField::new("source_prefix_list_id", AttributeType::String)
                .with_provider_name("SourcePrefixListId"))
            .field(StructField::new("source_security_group_id", AttributeType::String)
                .with_provider_name("SourceSecurityGroupId"))
            .field(StructField::new("source_security_group_name", AttributeType::String)
                .with_provider_name("SourceSecurityGroupName"))
            .field(StructField::new("source_security_group_owner_id", AttributeType::String)
                .with_provider_name("SourceSecurityGroupOwnerId"))
            .field(StructField::new("to_port", AttributeType::Int)
                .with_provider_name("ToPort"))))
        .with_description("The inbound rules associated with the security group. There is a short interruption during which you cannot connect to the security group.")
        .with_provider_name("SecurityGroupIngress")
        .with_block_name("security_group_ingress")
}

/// The schema of `AWS::EC2::SecurityGroup`.
pub open spec fn config() -> ConfigView {
    ConfigView {
        aws_type_name: "AWS::EC2::SecurityGroup"@,
        resource_type_name: "ec2.security_group"@,
        has_tags: true,
        schema: SchemaView::new("awscc.ec2.security_group"@)
            .with_description("Resource Type definition for AWS::EC2::SecurityGroup"@)
            .attribute(
                AttrView::new("group_description"@, TypeView::String)
                    .required()
                    .with_description("A description for the security group."@)
                    .with_provider_name("GroupDescription"@),
            )
            .attribute(
                AttrView::new("group_id"@, TypeView::String)
                    .with_description("The group ID of the specified security group. (read-only)"@)
                    .with_provider_name("GroupId"@),
            )
            .attribute(
                AttrView::new("group_name"@, TypeView::String)
                    .with_description("The name of the security group."@)
                    .with_provider_name("GroupName"@),
            )
            .attribute(
                AttrView::new("id"@, TypeView::String)
                    .with_description("The group name or group ID depending on whether the SG is created in default or specific VPC (read-only)"@)
                    .with_provider_name("Id"@),
            )
            .attribute(security_group_egress_view())
            .attribute(security_group_ingress_view())
            .attribute(
                AttrView::new("tags"@, types::tags_view())
                    .with_description("Any tags assigned to the security group."@)
                    .with_provider_name("Tags"@),
            )
            .attribute(
                AttrView::new("vpc_id"@, TypeView::String)
                    .with_description("The ID of the VPC for the security group."@)
                    .with_provider_name("VpcId"@),
            ),
    }
}

/// The schema of `AWS::EC2::SecurityGroup`.
pub fn ec2_security_group_config() -> (r: AwsccSchemaConfig)
    ensures
        r@ == config(),
{
    AwsccSchemaConfig {
        aws_type_name: "AWS::EC2::SecurityGroup",
        resource_type_name: "ec2.security_group",
        has_tags: true,
        schema: ResourceSchema::new("awscc.ec2.security_group")
            .with_description("Resource Type definition for AWS::EC2::SecurityGroup")
            .attribute(
                AttributeSchema::new("group_description", AttributeType::String)
                    .required()
                    .with_description("A description for the security group.")
                    .with_provider_name("GroupDescription"),
            )
            .attribute(
                AttributeSchema::new("group_id", AttributeType::String)
                    .with_description("The group ID of the specified security group. (read-only)")
                    .with_provider_name("GroupId"),
            )
            .attribute(
                AttributeSchema::new("group_name", AttributeType::String)
                    .with_description("The name of the security group.")
                    .with_provider_name("GroupName"),
            )
            .attribute(
                AttributeSchema::new("id", AttributeType::String)
                    .with_description("The group name or group ID depending on whether the SG is created in default or specific VPC (read-only)")
                    .with_provider_name("Id"),
            )
            .attribute(security_group_egress_attribute())
            .attribute(security_group_ingress_attribute())
            .attribute(
                AttributeSchema::new("tags", types::tags_type())
                    .with_description("Any tags assigned to the security group.")
                    .with_provider_name("Tags"),
            )
            .attribute(
                AttributeSchema::new("vpc_id", AttributeType::String)
                    .with_description("The ID of the VPC for the security group.")
                    .with_provider_name("VpcId"),
            ),
    }
}

/// The enum attributes and their values.
pub open spec fn enum_table() -> Seq<(Seq<char>, Seq<Seq<char>>)> {
    Seq::empty()
        .push(("ip_protocol"@, seq!["tcp"@].push("udp"@).push("icmp"@).push("icmpv6"@).push("-1"@).push("all"@)))
}

/// The resource type, and its enum attributes with their values.
pub fn enum_valid_values() -> (r: (&'static str, EnumValues))
    ensures
        r.0@ == "ec2.security_group"@,
        r.1@ == enum_table(),
{
    let mut values = EnumValues::new();
    values.add("ip_protocol", Words::of("tcp").and("udp").and("icmp").and("icmpv6").and("-1").and("all"));
    ("ec2.security_group", values)
}

/// The provider's value for a value that has another spelling in the
/// configuration language.
pub open spec fn alias_reverse(attr_name: Seq<char>, value: Seq<char>) -> Option<Seq<char>> {
    if attr_name == "ip_protocol"@ && value == "all"@ {
        Some("-1"@)
    } else {
        None
    }
}

/// The provider's value for a value that has another spelling in the
/// configuration language.
pub fn enum_alias_reverse(attr_name: &str, value: &str) -> (r: Option<&'static str>)
    ensures
        text::opt_slice(r) == alias_reverse(attr_name@, value@),
{
    if text::same(attr_name, "ip_protocol") && text::same(value, "all") {
        Some("-1")
    } else {
        None
    }
}

} // verus!
