//! The schema of `AWS::EC2::SecurityGroupEgress`.
use vstd::prelude::*;

use crate::schema::{AttributeSchema, AttributeType, AttrView, AwsccSchemaConfig, ConfigView, ResourceSchema, SchemaView, ToDsl, ToDslView, TypeView, Words};
use crate::schemas::values::EnumValues;
use crate::text;

verus! {

/// The schema of `AWS::EC2::SecurityGroupEgress`.
pub open spec fn config() -> ConfigView {
    ConfigView {
        aws_type_name: "AWS::EC2::SecurityGroupEgress"@,
        resource_type_name: "ec2.security_group_egress"@,
        has_tags: false,
        schema: SchemaView::new("awscc.ec2.security_group_egress"@)
            .with_description("Adds the specified outbound (egress) rule to a security group.  An outbound rule permits instances to send traffic to the specified IPv4 or IPv6 address range, the IP addresses that are specified by a..."@)
            .attribute(
                AttrView::new("cidr_ip"@, TypeView::format("Ipv4Cidr"@))
                    .create_only()
                    .with_description("The IPv4 address range, in CIDR format. You must specify exactly one of the following: ``CidrIp``, ``CidrIpv6``, ``DestinationPrefixListId``, or ``Des..."@)
                    .with_provider_name("CidrIp"@),
            )
            .attribute(
                AttrView::new("cidr_ipv6"@, TypeView::format("Ipv6Cidr"@))
                    .create_only()
                    .with_description("The IPv6 address range, in CIDR format. You must specify exactly one of the following: ``CidrIp``, ``CidrIpv6``, ``DestinationPrefixListId``, or ``Des..."@)
                    .with_provider_name("CidrIpv6"@),
            )
            .attribute(
                AttrView::new("description"@, TypeView::String)
                    .with_description("The description of an egress (outbound) security group rule. Constraints: Up to 255 characters in length. Allowed characters are a-z, A-Z, 0-9, spaces..."@)
                    .with_provider_name("Description"@),
            )
            .attribute(
                AttrView::new("destination_prefix_list_id"@, TypeView::format("AwsResourceId"@))
                    .create_only()
                    .with_description("The prefix list IDs for an AWS service. This is the AWS service to access through a VPC endpoint from instances associated with the security group. Yo..."@)
                    .with_provider_name("DestinationPrefixListId"@),
            )
            .attribute(
                AttrView::new("destination_security_group_id"@, TypeView::format("SecurityGroupId"@))
                    .create_only()
                    .with_description("The ID of the security group. You must specify exactly one of the following: ``CidrIp``, ``CidrIpv6``, ``DestinationPrefixListId``, or ``DestinationSe..."@)
                    .with_provider_name("DestinationSecurityGroupId"@),
            )
            .attribute(
                AttrView::new("from_port"@, TypeView::int_range("Int(-1..=65535)"@, Some(-1i64), Some(65535i64)))
                    .create_only()
                    .with_description("If the protocol is TCP or UDP, this is the start of the port range. If the protocol is ICMP or ICMPv6, this is the ICMP type or -1 (all ICMP types)."@)
                    .with_provider_name("FromPort"@),
            )
            .attribute(
                AttrView::new("group_id"@, TypeView::format("SecurityGroupId"@))
                    .required()
                    .create_only()
                    .with_description("The ID of the security group. You must specify either the security group ID or the security group name in the request. For security groups in a nondef..."@)
                    .with_provider_name("GroupId"@),
            )
            .attribute(
                AttrView::new("id"@, TypeView::String)
                    .with_description(" (read-only)"@)
                    .with_provider_name("Id"@),
            )
            .attribute(
                AttrView::new("ip_protocol"@, TypeView::custom_enum("IpProtocol"@, seq!["tcp"@].push("udp"@).push("icmp"@).push("icmpv6"@).push("-1"@).push("all"@), "awscc.ec2.security_group_egress"@, Some(ToDslView::alias("-1"@, "all"@, true))))
                    .required()
                    .create_only()
                    .with_description("The IP protocol name (``tcp``, ``udp``, ``icmp``, ``icmpv6``) or number (see [Protocol Numbers](https://docs.aws.amazon.com/http://www.iana.org/assign..."@)
                    .with_provider_name("IpProtocol"@),
            )
            .attribute(
                AttrView::new("to_port"@, TypeView::int_range("Int(-1..=65535)"@, Some(-1i64), Some(65535i64)))
                    .create_only()
                    .with_description("If the protocol is TCP or UDP, this is the end of the port range. If the protocol is ICMP or ICMPv6, this is the ICMP code or -1 (all ICMP codes). If ..."@)
                    .with_provider_name("ToPort"@),
            ),
    }
}

/// The schema of `AWS::EC2::SecurityGroupEgress`.
pub fn ec2_security_group_egress_config() -> (r: AwsccSchemaConfig)
    ensures
        r@ == config(),
{
    AwsccSchemaConfig {
        aws_type_name: "AWS::EC2::SecurityGroupEgress",
        resource_type_name: "ec2.security_group_egress",
        has_tags: false,
        schema: ResourceSchema::new("awscc.ec2.security_group_egress")
            .with_description("Adds the specified outbound (egress) rule to a security group.  An outbound rule permits instances to send traffic to the specified IPv4 or IPv6 address range, the IP addresses that are specified by a...")
            .attribute(
                AttributeSchema::new("cidr_ip", AttributeType::format("Ipv4Cidr"))
                    .create_only()
                    .with_description("The IPv4 address range, in CIDR format. You must specify exactly one of the following: ``CidrIp``, ``CidrIpv6``, ``DestinationPrefixListId``, or ``Des...")
                    .with_provider_name("CidrIp"),
            )
            .attribute(
                AttributeSchema::new("cidr_ipv6", AttributeType::format("Ipv6Cidr"))
                    .create_only()
                    .with_description("The IPv6 address range, in CIDR format. You must specify exactly one of the following: ``CidrIp``, ``CidrIpv6``, ``DestinationPrefixListId``, or ``Des...")
                    .with_provider_name("CidrIpv6"),
            )
            .attribute(
                AttributeSchema::new("description", AttributeType::String)
                    .with_description("The description of an egress (outbound) security group rule. Constraints: Up to 255 characters in length. Allowed characters are a-z, A-Z, 0-9, spaces...")
                    .with_provider_name("Description"),
            )
            .attribute(
                AttributeSchema::new("destination_prefix_list_id", AttributeType::format("AwsResourceId"))
                    .create_only()
                    .with_description("The prefix list IDs for an AWS service. This is the AWS service to access through a VPC endpoint from instances associated with the security group. Yo...")
                    .with_provider_name("DestinationPrefixListId"),
            )
            .attribute(
                AttributeSchema::new("destination_security_group_id", AttributeType::format("SecurityGroupId"))
                    .create_only()
                    .with_description("The ID of the security group. You must specify exactly one of the following: ``CidrIp``, ``CidrIpv6``, ``DestinationPrefixListId``, or ``DestinationSe...")
                    .with_provider_name("DestinationSecurityGroupId"),
            )
            .attribute(
                AttributeSchema::new("from_port", AttributeType::int_range("Int(-1..=65535)", Some(-1i64), Some(65535i64)))
                    .create_only()
                    .with_description("If the protocol is TCP or UDP, this is the start of the port range. If the protocol is ICMP or ICMPv6, this is the ICMP type or -1 (all ICMP types).")
                    .with_provider_name("FromPort"),
            )
            .attribute(
                AttributeSchema::new("group_id", AttributeType::format("SecurityGroupId"))
                    .required()
                    .create_only()
                    .with_description("The ID of the security group. You must specify either the security group ID or the security group name in the request. For security groups in a nondef...")
                    .with_provider_name("GroupId"),
            )
            .attribute(
                AttributeSchema::new("id", AttributeType::String)
                    .with_description(" (read-only)")
                    .with_provider_name("Id"),
            )
            .attribute(
                AttributeSchema::new("ip_protocol", AttributeType::custom_enum("IpProtocol", Words::of("tcp").and("udp").and("icmp").and("icmpv6").and("-1").and("all"), "awscc.ec2.security_group_egress", Some(ToDsl::alias("-1", "all", true))))
                    .required()
                    .create_only()
                    .with_description("The IP protocol name (``tcp``, ``udp``, ``icmp``, ``icmpv6``) or number (see [Protocol Numbers](https://docs.aws.amazon.com/http://www.iana.org/assign...")
                    .with_provider_name("IpProtocol"),
            )
            .attribute(
                AttributeSchema::new("to_port", AttributeType::int_range("Int(-1..=65535)", Some(-1i64), Some(65535i64)))
                    .create_only()
                    .with_description("If the protocol is TCP or UDP, this is the end of the port range. If the protocol is ICMP or ICMPv6, this is the ICMP code or -1 (all ICMP codes). If ...")
                    .with_provider_name("ToPort"),
            ),
    }
}

/// The enum attributes and their values.
pub open spec fn enum_table() -> Seq<(Seq<char>, Seq<Seq<char>>)> {
    Seq::empty()
        .push(("ip_protocol"@, seq!["tcp"@].push("udp"@).push("icmp"@).push("icmpv6"@).push("-1"@).push("all"@)))
}

/// The resource type, and its enum attributes with their values.
pub fn enum_valid_values() -> (r: (&'static str, EnumValues))
    ensures
        r.0@ == "ec2.security_group_egress"@,
        r.1@ == enum_table(),
{
    let mut values = EnumValues::new();
    values.add("ip_protocol", Words::of("tcp").and("udp").and("icmp").and("icmpv6").and("-1").and("all"));
    ("ec2.security_group_egress", values)
}

/// The provider's value for a value that has another spelling in the
/// configuration language.
pub open spec fn alias_reverse(attr_name: Seq<char>, value: Seq<char>) -> Option<Seq<char>> {
    if attr_name == "ip_protocol"@ && value == "all"@ {
        Some("-1"@)
    } else {
        None
    }
}

/// The provider's value for a value that has another spelling in the
/// configuration language.
pub fn enum_alias_reverse(attr_name: &str, value: &str) -> (r: Option<&'static str>)
    ensures
        text::opt_slice(r) == alias_reverse(attr_name@, value@),
{
    if text::same(attr_name, "ip_protocol") && text::same(value, "all") {
        Some("-1")
    } else {
        None
    }
}

} // verus!
