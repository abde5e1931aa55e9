//! The schema of `AWS::EC2::VPNGateway`.
use vstd::prelude::*;

use crate::schema::{AttributeSchema, AttributeType, AttrView, AwsccSchemaConfig, ConfigView, ResourceSchema, SchemaView, TypeView};
use crate::schemas::types;
use crate::schemas::values::EnumValues;
use crate::text;

verus! {

/// The schema of `AWS::EC2::VPNGateway`.
pub open spec fn config() -> ConfigView {
    ConfigView {
        aws_type_name: "AWS::EC2::VPNGateway"@,
        resource_type_name: "ec2.vpn_gateway"@,
        has_tags: true,
        schema: SchemaView::new("awscc.ec2.vpn_gateway"@)
            .with_description("Specifies a virtual private gateway. A virtual private gateway is the endpoint on the VPC side of your VPN connection. You can create a virtual private gateway before creating the VPC itself.  For mor..."@)
            .attribute(
                AttrView::new("amazon_side_asn"@, TypeView::Int)
                    .create_only()
                    .with_description("The private Autonomous System Number (ASN) for the Amazon side of a BGP session."@)
                    .with_provider_name("AmazonSideAsn"@),
            )
            .attribute(
                AttrView::new("tags"@, types::tags_view())
                    .with_description("Any tags assigned to the virtual private gateway."@)
                    .with_provider_name("Tags"@),
            )
            .attribute(
                AttrView::new("type"@, TypeView::String)
                    .required()
                    .create_only()
                    .with_description("The type of VPN connection the virtual private gateway supports."@)
                    .with_provider_name("Type"@),
            )
            .attribute(
                AttrView::new("vpn_gateway_id"@, TypeView::format("VpnGatewayId"@))
                    .with_description(" (read-only)"@)
                    .with_provider_name("VPNGatewayId"@),
            ),
    }
}

/// The schema of `AWS::EC2::VPNGateway`.
pub fn ec2_vpn_gateway_config() -> (r: AwsccSchemaConfig)
    ensures
        r@ == config(),
{
    AwsccSchemaConfig {
        aws_type_name: "AWS::EC2::VPNGateway",
        resource_type_name: "ec2.vpn_gateway",
        has_tags: true,
        schema: ResourceSchema::new("awscc.ec2.vpn_gateway")
            .with_description("Specifies a virtual private gateway. A virtual private gateway is the endpoint on the VPC side of your VPN connection. You can create a virtual private gateway before creating the VPC itself.  For mor...")
            .attribute(
                AttributeSchema::new("amazon_side_asn", AttributeType::Int)
                    .create_only()
                    .with_description("The private Autonomous System Number (ASN) for the Amazon side of a BGP session.")
                    .with_provider_name("AmazonSideAsn"),
            )
            .attribute(
                AttributeSchema::new("tags", types::tags_type())
                    .with_description("Any tags assigned to the virtual private gateway.")
                    .with_provider_name("Tags"),
            )
            .attribute(
                AttributeSchema::new("type", AttributeType::String)
                    .required()
                    .create_only()
                    .with_description("The type of VPN connection the virtual private gateway supports.")
                    .with_provider_name("Type"),
            )
            .attribute(
                AttributeSchema::new("vpn_gateway_id", AttributeType::format("VpnGatewayId"))
                    .with_description(" (read-only)")
                    .with_provider_name("VPNGatewayId"),
            ),
    }
}

/// The enum attributes and their values.
pub open spec fn enum_table() -> Seq<(Seq<char>, Seq<Seq<char>>)> {
    Seq::empty()
}

/// The resource type, and its enum attributes with their values.
pub fn enum_valid_values() -> (r: (&'static str, EnumValues))
    ensures
        r.0@ == "ec2.vpn_gateway"@,
        r.1@ == enum_table(),
{
    let values = EnumValues::new();
    ("ec2.vpn_gateway", values)
}

/// The provider's value for a value that has another spelling in the
/// configuration language: there is none.
pub open spec fn alias_reverse(attr_name: Seq<char>, value: Seq<char>) -> Option<Seq<char>> {
    None
}

/// The provider's value for a value that has another spelling in the
/// configuration language.
pub fn enum_alias_reverse(attr_name: &str, value: &str) -> (r: Option<&'static str>)
    ensures
        text::opt_slice(r) == alias_reverse(attr_name@, value@),
{
    None
}

} // verus!
