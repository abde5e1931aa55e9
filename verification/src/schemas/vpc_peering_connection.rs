//! The schema of `AWS::EC2::VPCPeeringConnection`.
use vstd::prelude::*;

use crate::schema::{AttributeSchema, AttributeType, AttrView, AwsccSchemaConfig, ConfigView, ResourceSchema, SchemaView, TypeView};
use crate::schemas::types;
use crate::schemas::values::EnumValues;
use crate::text;

verus! {

/// The schema of `AWS::EC2::VPCPeeringConnection`.
pub open spec fn config() -> ConfigView {
    ConfigView {
        aws_type_name: "AWS::EC2::VPCPeeringConnection"@,
        resource_type_name: "ec2.vpc_peering_connection"@,
        has_tags: true,
        schema: SchemaView::new("awscc.ec2.vpc_peering_connection"@)
            .with_description("Resource Type definition for AWS::EC2::VPCPeeringConnection"@)
            .attribute(
                AttrView::new("id"@, TypeView::String)
                    .with_description("(read-only)"@)
                    .with_provider_name("Id"@),
            )
            .attribute(
                AttrView::new("peer_owner_id"@, TypeView::String)
                    .create_only()
                    .with_description("The AWS account ID of the owner of the accepter VPC."@)
                    .with_provider_name("PeerOwnerId"@),
            )
            .attribute(
                AttrView::new("peer_region"@, TypeView::String)
                    .create_only()
                    .with_description("The Region code for the accepter VPC, if the accepter VPC is located in a Region other than the Region in which you make the request."@)
                    .with_provider_name("PeerRegion"@),
            )
            .attribute(
                AttrView::new("peer_role_arn"@, TypeView::format("Arn"@))
                    .create_only()
                    .with_description("The Amazon Resource Name (ARN) of the VPC peer role for the peering connection in another AWS account."@)
                    .with_provider_name("PeerRoleArn"@),
            )
            .attribute(
                AttrView::new("peer_vpc_id"@, TypeView::format("VpcId"@))
                    .required()
                    .create_only()
                    .with_description("The ID of the VPC with which you are creating the VPC peering connection. You must specify this parameter in the request."@)
                    .with_provider_name("PeerVpcId"@),
            )
            .attribute(
                AttrView::new("tags"@, types::tags_view())
                    .with_provider_name("Tags"@),
            )
            .attribute(
                AttrView::new("vpc_id"@, TypeView::format("VpcId"@))
                    .required()
                    .create_only()
                    .with_description("The ID of the VPC."@)
                    .with_provider_name("VpcId"@),
            ),
    }
}

/// The schema of `AWS::EC2::VPCPeeringConnection`.
pub fn ec2_vpc_peering_connection_config() -> (r: AwsccSchemaConfig)
    ensures
        r@ == config(),
{
    AwsccSchemaConfig {
        aws_type_name: "AWS::EC2::VPCPeeringConnection",
        resource_type_name: "ec2.vpc_peering_connection",
        has_tags: true,
        schema: ResourceSchema::new("awscc.ec2.vpc_peering_connection")
            .with_description("Resource Type definition for AWS::EC2::VPCPeeringConnection")
            .attribute(
                AttributeSchema::new("id", AttributeType::String)
                    .with_description("(read-only)")
                    .with_provider_name("Id"),
            )
            .attribute(
                AttributeSchema::new("peer_owner_id", AttributeType::String)
                    .create_only()
                    .with_description("The AWS account ID of the owner of the accepter VPC.")
                    .with_provider_name("PeerOwnerId"),
            )
            .attribute(
                AttributeSchema::new("peer_region", AttributeType::String)
                    .create_only()
                    .with_description("The Region code for the accepter VPC, if the accepter VPC is located in a Region other than the Region in which you make the request.")
                    .with_provider_name("PeerRegion"),
            )
            .attribute(
                AttributeSchema::new("peer_role_arn", AttributeType::format("Arn"))
                    .create_only()
                    .with_description("The Amazon Resource Name (ARN) of the VPC peer role for the peering connection in another AWS account.")
                    .with_provider_name("PeerRoleArn"),
            )
            .attribute(
                AttributeSchema::new("peer_vpc_id", AttributeType::format("VpcId"))
                    .required()
                    .create_only()
                    .with_description("The ID of the VPC with which you are creating the VPC peering connection. You must specify this parameter in the request.")
                    .with_provider_name("PeerVpcId"),
            )
            .attribute(
                AttributeSchema::new("tags", types::tags_type())
                    .with_provider_name("Tags"),
            )
            .attribute(
                AttributeSchema::new("vpc_id", AttributeType::format("VpcId"))
                    .required()
                    .create_only()
                    .with_description("The ID of the VPC.")
                    .with_provider_name("VpcId"),
            ),
    }
}

/// The enum attributes and their values.
pub open spec fn enum_table() -> Seq<(Seq<char>, Seq<Seq<char>>)> {
    Seq::empty()
}

/// The resource type, and its enum attributes with their values.
pub fn enum_valid_values() -> (r: (&'static str, EnumValues))
    ensures
        r.0@ == "ec2.vpc_peering_connection"@,
        r.1@ == enum_table(),
{
    let values = EnumValues::new();
    ("ec2.vpc_peering_connection", values)
}

/// The provider's value for a value that has another spelling in the
/// configuration language: there is none.
pub open spec fn alias_reverse(attr_name: Seq<char>, value: Seq<char>) -> Option<Seq<char>> {
    None
}

/// The provider's value for a value that has another spelling in the
/// configuration language.
pub fn enum_alias_reverse(attr_name: &str, value: &str) -> (r: Option<&'static str>)
    ensures
        text::opt_slice(r) == alias_reverse(attr_name@, value@),
{
    None
}

} // verus!
