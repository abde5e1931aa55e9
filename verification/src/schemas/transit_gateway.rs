//! The schema of `AWS::EC2::TransitGateway`.
use vstd::prelude::*;

use crate::schema::{AttributeSchema, AttributeType, AttrView, AwsccSchemaConfig, ConfigView, ResourceSchema, SchemaView, TypeView, Words};
use crate::schemas::types;
use crate::schemas::values::EnumValues;
use crate::text;

verus! {

/// The schema of `AWS::EC2::TransitGateway`.
pub open spec fn config() -> ConfigView {
    ConfigView {
        aws_type_name: "AWS::EC2::TransitGateway"@,
        resource_type_name: "ec2.transit_gateway"@,
        has_tags: true,
        schema: SchemaView::new("awscc.ec2.transit_gateway"@)
            .with_description("Resource Type definition for AWS::EC2::TransitGateway"@)
            .attribute(
                AttrView::new("amazon_side_asn"@, TypeView::Int)
                    .create_only()
                    .with_provider_name("AmazonSideAsn"@),
            )
            .attribute(
                AttrView::new("association_default_route_table_id"@, TypeView::format("RouteTableId"@))
                    .with_provider_name("AssociationDefaultRouteTableId"@),
            )
            .attribute(
                AttrView::new("auto_accept_shared_attachments"@, TypeView::custom_enum("AutoAcceptSharedAttachments"@, seq!["enable"@].push("disable"@), "awscc.ec2.transit_gateway"@, None))
                    .with_provider_name("AutoAcceptSharedAttachments"@),
            )
            .attribute(
                AttrView::new("default_route_table_association"@, TypeView::custom_enum("DefaultRouteTableAssociation"@, seq!["enable"@].push("disable"@), "awscc.ec2.transit_gateway"@, None))
                    .with_provider_name("DefaultRouteTableAssociation"@),
            )
            .attribute(
                AttrView::new("default_route_table_propagation"@, TypeView::custom_enum("DefaultRouteTablePropagation"@, seq!["enable"@].push("disable"@), "awscc.ec2.transit_gateway"@, None))
                    .with_provider_name("DefaultRouteTablePropagation"@),
            )
            .attribute(
                AttrView::new("description"@, TypeView::String)
                    .with_provider_name("Description"@),
            )
            .attribute(
                AttrView::new("dns_support"@, TypeView::custom_enum("DnsSupport"@, seq!["enable"@].push("disable"@), "awscc.ec2.transit_gateway"@, None))
                    .with_provider_name("DnsSupport"@),
            )
            .attribute(
                AttrView::new("encryption_support"@, TypeView::custom_enum("EncryptionSupport"@, seq!["disable"@].push("enable"@), "awscc.ec2.transit_gateway"@, None))
                    .with_provider_name("EncryptionSupport"@),
            )
            .attribute(
                AttrView::new("encryption_support_state"@, TypeView::String)
                    .with_description("(read-only)"@)
                    .with_provider_name("EncryptionSupportState"@),
            )
            .attribute(
                AttrView::new("id"@, TypeView::String)
                    .with_description("(read-only)"@)
                    .with_provider_name("Id"@),
            )
            .attribute(
                AttrView::new("multicast_support"@, TypeView::custom_enum("MulticastSupport"@, seq!["enable"@].push("disable"@), "awscc.ec2.transit_gateway"@, None))
                    .create_only()
                    .with_provider_name("MulticastSupport"@),
            )
            .attribute(
                AttrView::new("propagation_default_route_table_id"@, TypeView::format("RouteTableId"@))
                    .with_provider_name("PropagationDefaultRouteTableId"@),
            )
            .attribute(
                AttrView::new("security_group_referencing_support"@, TypeView::custom_enum("SecurityGroupReferencingSupport"@, seq!["enable"@].push("disable"@), "awscc.ec2.transit_gateway"@, None))
                    .with_provider_name("SecurityGroupReferencingSupport"@),
            )
            .attribute(
                AttrView::new("tags"@, types::tags_view())
                    .with_provider_name("Tags"@),
            )
            .attribute(
                AttrView::new("transit_gateway_arn"@, TypeView::format("Arn"@))
                    .with_description("(read-only)"@)
                    .with_provider_name("TransitGatewayArn"@),
            )
            .attribute(
                AttrView::new("transit_gateway_cidr_blocks"@, TypeView::list(TypeView::format("Ipv4Cidr"@)))
                    .with_provider_name("TransitGatewayCidrBlocks"@),
            )
            .attribute(
                AttrView::new("vpn_ecmp_support"@, TypeView::custom_enum("VpnEcmpSupport"@, seq!["enable"@].push("disable"@), "awscc.ec2.transit_gateway"@, None))
                    .with_provider_name("VpnEcmpSupport"@),
            ),
    }
}

/// The schema of `AWS::EC2::TransitGateway`.
pub fn ec2_transit_gateway_config() -> (r: AwsccSchemaConfig)
    ensures
        r@ == config(),
{
    AwsccSchemaConfig {
        aws_type_name: "AWS::EC2::TransitGateway",
        resource_type_name: "ec2.transit_gateway",
        has_tags: true,
        schema: ResourceSchema::new("awscc.ec2.transit_gateway")
            .with_description("Resource Type definition for AWS::EC2::TransitGateway")
            .attribute(
                AttributeSchema::new("amazon_side_asn", AttributeType::Int)
                    .create_only()
                    .with_provider_name("AmazonSideAsn"),
            )
            .attribute(
                AttributeSchema::new("association_default_route_table_id", AttributeType::format("RouteTableId"))
                    .with_provider_name("AssociationDefaultRouteTableId"),
            )
            .attribute(
                AttributeSchema::new("auto_accept_shared_attachments", AttributeType::custom_enum("AutoAcceptSharedAttachments", Words::of("enable").and("disable"), "awscc.ec2.transit_gateway", None))
                    .with_provider_name("AutoAcceptSharedAttachments"),
            )
            .attribute(
                AttributeSchema::new("default_route_table_association", AttributeType::custom_enum("DefaultRouteTableAssociation", Words::of("enable").and("disable"), "awscc.ec2.transit_gateway", None))
                    .with_provider_name("DefaultRouteTableAssociation"),
            )
            .attribute(
                AttributeSchema::new("default_route_table_propagation", AttributeType::custom_enum("DefaultRouteTablePropagation", Words::of("enable").and("disable"), "awscc.ec2.transit_gateway", None))
                    .with_provider_name("DefaultRouteTablePropagation"),
            )
            .attribute(
                AttributeSchema::new("description", AttributeType::String)
                    .with_provider_name("Description"),
            )
            .attribute(
                AttributeSchema::new("dns_support", AttributeType::custom_enum("DnsSupport", Words::of("enable").and("disable"), "awscc.ec2.transit_gateway", None))
                    .with_provider_name("DnsSupport"),
            )
            .attribute(
                AttributeSchema::new("encryption_support", AttributeType::custom_enum("EncryptionSupport", Words::of("disable").and("enable"), "awscc.ec2.transit_gateway", None))
                    .with_provider_name("EncryptionSupport"),
            )
            .attribute(
                AttributeSchema::new("encryption_support_state", AttributeType::String)
                    .with_description("(read-only)")
                    .with_provider_name("EncryptionSupportState"),
            )
            .attribute(
                AttributeSchema::new("id", AttributeType::String)
                    .with_description("(read-only)")
                    .with_provider_name("Id"),
            )
            .attribute(
                AttributeSchema::new("multicast_support", AttributeType::custom_enum("MulticastSupport", Words::of("enable").and("disable"), "awscc.ec2.transit_gateway", None))
                    .create_only()
                    .with_provider_name("MulticastSupport"),
            )
            .attribute(
                AttributeSchema::new("propagation_default_route_table_id", AttributeType::format("RouteTableId"))
                    .with_provider_name("PropagationDefaultRouteTableId"),
            )
            .attribute(
                AttributeSchema::new("security_group_referencing_support", AttributeType::custom_enum("SecurityGroupReferencingSupport", Words::of("enable").and("disable"), "awscc.ec2.transit_gateway", None))
                    .with_provider_name("SecurityGroupReferencingSupport"),
            )
            .attribute(
                AttributeSchema::new("tags", types::tags_type())
                    .with_provider_name("Tags"),
            )
            .attribute(
                AttributeSchema::new("transit_gateway_arn", AttributeType::format("Arn"))
                    .with_description("(read-only)")
                    .with_provider_name("TransitGatewayArn"),
            )
            .attribute(
                AttributeSchema::new("transit_gateway_cidr_blocks", AttributeType::list(AttributeType::format("Ipv4Cidr")))
                    .with_provider_name("TransitGatewayCidrBlocks"),
            )
            .attribute(
                AttributeSchema::new("vpn_ecmp_support", AttributeType::custom_enum("VpnEcmpSupport", Words::of("enable").and("disable"), "awscc.ec2.transit_gateway", None))
                    .with_provider_name("VpnEcmpSupport"),
            ),
    }
}

/// The enum attributes and their values.
pub open spec fn enum_table() -> Seq<(Seq<char>, Seq<Seq<char>>)> {
    Seq::empty()
        .push(("auto_accept_shared_attachments"@, seq!["enable"@].push("disable"@)))
        .push(("default_route_table_association"@, seq!["enable"@].push("disable"@)))
        .push(("default_route_table_propagation"@, seq!["enable"@].push("disable"@)))
        .push(("dns_support"@, seq!["enable"@].push("disable"@)))
        .push(("encryption_support"@, seq!["disable"@].push("enable"@)))
        .push(("multicast_support"@, seq!["enable"@].push("disable"@)))
        .push(("security_group_referencing_support"@, seq!["enable"@].push("disable"@)))
        .push(("vpn_ecmp_support"@, seq!["enable"@].push("disable"@)))
}

/// The resource type, and its enum attributes with their values.
pub fn enum_valid_values() -> (r: (&'static str, EnumValues))
    ensures
        r.0@ == "ec2.transit_gateway"@,
        r.1@ == enum_table(),
{
    let mut values = EnumValues::new();
    values.add("auto_accept_shared_attachments", Words::of("enable").and("disable"));
    values.add("default_route_table_association", Words::of("enable").and("disable"));
    values.add("default_route_table_propagation", Words::of("enable").and("disable"));
    values.add("dns_support", Words::of("enable").and("disable"));
    values.add("encryption_support", Words::of("disable").and("enable"));
    values.add("multicast_support", Words::of("enable").and("disable"));
    values.add("security_group_referencing_support", Words::of("enable").and("disable"));
    values.add("vpn_ecmp_support", Words::of("enable").and("disable"));
    ("ec2.transit_gateway", values)
}

/// The provider's value for a value that has another spelling in the
/// configuration language: there is none.
pub open spec fn alias_reverse(attr_name: Seq<char>, value: Seq<char>) -> Option<Seq<char>> {
    None
}

/// The provider's value for a value that has another spelling in the
/// configuration language.
pub fn enum_alias_reverse(attr_name: &str, value: &str) -> (r: Option<&'static str>)
    ensures
        text::opt_slice(r) == alias_reverse(attr_name@, value@),
{
    None
}

} // verus!
