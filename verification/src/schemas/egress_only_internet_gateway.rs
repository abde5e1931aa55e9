//! The schema of `AWS::EC2::EgressOnlyInternetGateway`.
use vstd::prelude::*;

use crate::schema::{AttributeSchema, AttributeType, AttrView, AwsccSchemaConfig, ConfigView, ResourceSchema, SchemaView, TypeView};
use crate::schemas::types;
use crate::schemas::values::EnumValues;
use crate::text;

verus! {

/// The schema of `AWS::EC2::EgressOnlyInternetGateway`.
pub open spec fn config() -> ConfigView {
    ConfigView {
        aws_type_name: "AWS::EC2::EgressOnlyInternetGateway"@,
        resource_type_name: "ec2.egress_only_internet_gateway"@,
        has_tags: true,
        schema: SchemaView::new("awscc.ec2.egress_only_internet_gateway"@)
            .with_description("Resource Type definition for AWS::EC2::EgressOnlyInternetGateway"@)
            .attribute(
                AttrView::new("id"@, TypeView::String)
                    .with_description("Service Generated ID of the EgressOnlyInternetGateway (read-only)"@)
                    .with_provider_name("Id"@),
            )
            .attribute(
                AttrView::new("tags"@, types::tags_view())
                    .with_description("Any tags assigned to the egress only internet gateway."@)
                    .with_provider_name("Tags"@),
            )
            .attribute(
                AttrView::new("vpc_id"@, TypeView::format("AwsResourceId"@))
                    .required()
                    .with_description("The ID of the VPC for which to create the egress-only internet gateway."@)
                    .with_provider_name("VpcId"@),
            ),
    }
}

/// The schema of `AWS::EC2::EgressOnlyInternetGateway`.
pub fn ec2_egress_only_internet_gateway_config() -> (r: AwsccSchemaConfig)
    ensures
        r@ == config(),
{
    AwsccSchemaConfig {
        aws_type_name: "AWS::EC2::EgressOnlyInternetGateway",
        resource_type_name: "ec2.egress_only_internet_gateway",
        has_tags: true,
        schema: ResourceSchema::new("awscc.ec2.egress_only_internet_gateway")
            .with_description("Resource Type definition for AWS::EC2::EgressOnlyInternetGateway")
            .attribute(
                AttributeSchema::new("id", AttributeType::String)
                    .with_description("Service Generated ID of the EgressOnlyInternetGateway (read-only)")
                    .with_provider_name("Id"),
            )
            .attribute(
                AttributeSchema::new("tags", types::tags_type())
                    .with_description("Any tags assigned to the egress only internet gateway.")
                    .with_provider_name("Tags"),
            )
            .attribute(
                AttributeSchema::new("vpc_id", AttributeType::format("AwsResourceId"))
                    .required()
                    .with_description("The ID of the VPC for which to create the egress-only internet gateway.")
                    .with_provider_name("VpcId"),
            ),
    }
}

/// The enum attributes and their values.
pub open spec fn enum_table() -> Seq<(Seq<char>, Seq<Seq<char>>)> {
    Seq::empty()
}

/// The resource type, and its enum attributes with their values.
pub fn enum_valid_values() -> (r: (&'static str, EnumValues))
    ensures
        r.0@ == "ec2.egress_only_internet_gateway"@,
        r.1@ == enum_table(),
{
    let values = EnumValues::new();
    ("ec2.egress_only_internet_gateway", values)
}

/// The provider's value for a value that has another spelling in the
/// configuration language: there is none.
pub open spec fn alias_reverse(attr_name: Seq<char>, value: Seq<char>) -> Option<Seq<char>> {
    None
}

/// The provider's value for a value that has another spelling in the
/// configuration language.
pub fn enum_alias_reverse(attr_name: &str, value: &str) -> (r: Option<&'static str>)
    ensures
        text::opt_slice(r) == alias_reverse(attr_name@, value@),
{
    None
}

} // verus!
