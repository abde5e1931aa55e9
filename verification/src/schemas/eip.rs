//! The schema of `AWS::EC2::EIP`.
use vstd::prelude::*;

use crate::schema::{AttributeSchema, AttributeType, AttrView, AwsccSchemaConfig, ConfigView, ResourceSchema, SchemaView, TypeView, Words};
use crate::schemas::types;
use crate::schemas::values::EnumValues;
use crate::text;

verus! {

/// The schema of `AWS::EC2::EIP`.
pub open spec fn config() -> ConfigView {
    ConfigView {
        aws_type_name: "AWS::EC2::EIP"@,
        resource_type_name: "ec2.eip"@,
        has_tags: true,
        schema: SchemaView::new("awscc.ec2.eip"@)
            .with_description("Specifies an Elastic IP (EIP) address and can, optionally, associate it with an Amazon EC2 instance.  You can allocate an Elastic IP address from an address pool owned by AWS or from an address pool c..."@)
            .attribute(
                AttrView::new("address"@, TypeView::String)
                    .create_only()
                    .with_description(""@)
                    .with_provider_name("Address"@),
            )
            .attribute(
                AttrView::new("allocation_id"@, TypeView::format("AwsResourceId"@))
                    .with_description(" (read-only)"@)
                    .with_provider_name("AllocationId"@),
            )
            .attribute(
                AttrView::new("domain"@, TypeView::custom_enum("Domain"@, seq!["vpc"@].push("standard"@), "awscc.ec2.eip"@, None))
                    .with_description("The network (``vpc``). If you define an Elastic IP address and associate it with a VPC that is defined in the same template, you must declare a depend..."@)
                    .with_provider_name("Domain"@),
            )
            .attribute(
                AttrView::new("instance_id"@, TypeView::format("AwsResourceId"@))
                    .with_description("The ID of the instance.  Updates to the ``InstanceId`` property may require *some interruptions*. Updates on an EIP reassociates the address on its as..."@)
                    .with_provider_name("InstanceId"@),
            )
            .attribute(
                AttrView::new("ipam_pool_id"@, TypeView::format("IpamPoolId"@))
                    .create_only()
                    .with_description(""@)
                    .with_provider_name("IpamPoolId"@),
            )
            .attribute(
                AttrView::new("network_border_group"@, TypeView::String)
                    .create_only()
                    .with_description("A unique set of Availability Zones, Local Zones, or Wavelength Zones from which AWS advertises IP addresses. Use this parameter to limit the IP addres..."@)
                    .with_provider_name("NetworkBorderGroup"@),
            )
            .attribute(
                AttrView::new("public_ip"@, TypeView::format("Ipv4Address"@))
                    .with_description(" (read-only)"@)
                    .with_provider_name("PublicIp"@),
            )
            .attribute(
                AttrView::new("public_ipv4_pool"@, TypeView::String)
                    .with_description("The ID of an address pool that you own. Use this parameter to let Amazon EC2 select an address from the address pool.  Updates to the ``PublicIpv4Pool..."@)
                    .with_provider_name("PublicIpv4Pool"@),
            )
            .attribute(
                AttrView::new("tags"@, types::tags_view())
                    .with_description("Any tags assigned to the Elastic IP address.  Updates to the ``Tags`` property may require *some interruptions*. Updates on an EIP reassociates the ad..."@)
                    .with_provider_name("Tags"@),
            )
            .attribute(
                AttrView::new("transfer_address"@, TypeView::String)
                    .create_only()
                    .with_description("The Elastic IP address you are accepting for transfer. You can only accept one transferred address. For more information on Elastic IP address transfe..."@)
                    .with_provider_name("TransferAddress"@),
            ),
    }
}

/// The schema of `AWS::EC2::EIP`.
pub fn ec2_eip_config() -> (r: AwsccSchemaConfig)
    ensures
        r@ == config(),
{
    AwsccSchemaConfig {
        aws_type_name: "AWS::EC2::EIP",
        resource_type_name: "ec2.eip",
        has_tags: true,
        schema: ResourceSchema::new("awscc.ec2.eip")
            .with_description("Specifies an Elastic IP (EIP) address and can, optionally, associate it with an Amazon EC2 instance.  You can allocate an Elastic IP address from an address pool owned by AWS or from an address pool c...")
            .attribute(
                AttributeSchema::new("address", AttributeType::String)
                    .create_only()
                    .with_description("")
                    .with_provider_name("Address"),
            )
            .attribute(
                AttributeSchema::new("allocation_id", AttributeType::format("AwsResourceId"))
                    .with_description(" (read-only)")
                    .with_provider_name("AllocationId"),
            )
            .attribute(
                AttributeSchema::new("domain", AttributeType::custom_enum("Domain", Words::of("vpc").and("standard"), "awscc.ec2.eip", None))
                    .with_description("The network (``vpc``). If you define an Elastic IP address and associate it with a VPC that is defined in the same template, you must declare a depend...")
                    .with_provider_name("Domain"),
            )
            .attribute(
                AttributeSchema::new("instance_id", AttributeType::format("AwsResourceId"))
                    .with_description("The ID of the instance.  Updates to the ``InstanceId`` property may require *some interruptions*. Updates on an EIP reassociates the address on its as...")
                    .with_provider_name("InstanceId"),
            )
            .attribute(
                AttributeSchema::new("ipam_pool_id", AttributeType::format("IpamPoolId"))
                    .create_only()
                    .with_description("")
                    .with_provider_name("IpamPoolId"),
            )
            .attribute(
                AttributeSchema::new("network_border_group", AttributeType::String)
                    .create_only()
                    .with_description("A unique set of Availability Zones, Local Zones, or Wavelength Zones from which AWS advertises IP addresses. Use this parameter to limit the IP addres...")
                    .with_provider_name("NetworkBorderGroup"),
            )
            .attribute(
                AttributeSchema::new("public_ip", AttributeType::format("Ipv4Address"))
                    .with_description(" (read-only)")
                    .with_provider_name("PublicIp"),
            )
            .attribute(
                AttributeSchema::new("public_ipv4_pool", AttributeType::String)
                    .with_description("The ID of an address pool that you own. Use this parameter to let Amazon EC2 select an address from the address pool.  Updates to the ``PublicIpv4Pool...")
                    .with_provider_name("PublicIpv4Pool"),
            )
            .attribute(
                AttributeSchema::new("tags", types::tags_type())
                    .with_description("Any tags assigned to the Elastic IP address.  Updates to the ``Tags`` property may require *some interruptions*. Updates on an EIP reassociates the ad...")
                    .with_provider_name("Tags"),
            )
            .attribute(
                AttributeSchema::new("transfer_address", AttributeType::String)
                    .create_only()
                    .with_description("The Elastic IP address you are accepting for transfer. You can only accept one transferred address. For more information on Elastic IP address transfe...")
                    .with_provider_name("TransferAddress"),
            ),
    }
}

/// The enum attributes and their values.
pub open spec fn enum_table() -> Seq<(Seq<char>, Seq<Seq<char>>)> {
    Seq::empty()
        .push(("domain"@, seq!["vpc"@].push("standard"@)))
}

/// The resource type, and its enum attributes with their values.
pub fn enum_valid_values() -> (r: (&'static str, EnumValues))
    ensures
        r.0@ == "ec2.eip"@,
        r.1@ == enum_table(),
{
    let mut values = EnumValues::new();
    values.add("domain", Words::of("vpc").and("standard"));
    ("ec2.eip", values)
}

/// The provider's value for a value that has another spelling in the
/// configuration language: there is none.
pub open spec fn alias_reverse(attr_name: Seq<char>, value: Seq<char>) -> Option<Seq<char>> {
    None
}

/// The provider's value for a value that has another spelling in the
/// configuration language.
pub fn enum_alias_reverse(attr_name: &str, value: &str) -> (r: Option<&'static str>)
    ensures
        text::opt_slice(r) == alias_reverse(attr_name@, value@),
{
    None
}

} // verus!
