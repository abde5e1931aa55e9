//! The schema of `AWS::EC2::NatGateway`.
use vstd::prelude::*;

use crate::schema::{AttributeSchema, AttributeType, AttrView, AwsccSchemaConfig, ConfigView, FieldView, ResourceSchema, SchemaView, StructField, TypeView, Words};
use crate::schemas::types;
use crate::schemas::values::EnumValues;
use crate::text;

verus! {

pub open spec fn availability_zone_addresses_view() -> AttrView {
    AttrView::new("availability_zone_addresses"@, TypeView::unordered_list(TypeView::structure("AvailabilityZoneAddress"@)
            .field(FieldView::new("allocation_ids"@, TypeView::unordered_list(TypeView::format("AllocationId"@)))
                .required()
                .with_description("The allocation IDs of the Elastic IP addresses (EIPs) to be used for handling outbound NAT traffic in this specific Availability Zone."@)
                .with_provider_name("AllocationIds"@))
            .field(FieldView::new("availability_zone"@, types::zone_view())
                .with_description("For regional NAT gateways only: The Availability Zone where this specific NAT gateway configuration will be active. Each AZ in a regional NAT gateway ..."@)
                .with_provider_name("AvailabilityZone"@))
            .field(FieldView::new("availability_zone_id"@, TypeView::format("AvailabilityZoneId"@))
                .with_description("For regional NAT gateways only: The ID of the Availability Zone where this specific NAT gateway configuration will be active. Each AZ in a regional NA..."@)
                .with_provider_name("AvailabilityZoneId"@))))
        .with_description("For regional NAT gateways only: Specifies which Availability Zones you want the NAT gateway to support and the Elastic IP addresses (EIPs) to use in e..."@)
        .with_provider_name("AvailabilityZoneAddresses"@)
        .with_block_name("availability_zone_address"@)
}

fn availability_zone_addresses_attribute() -> (r: AttributeSchema)
    ensures
        r@ == availability_zone_addresses_view(),
{
    AttributeSchema::new("availability_zone_addresses", AttributeType::unordered_list(AttributeType::structure("AvailabilityZoneAddress")
            .field(StructField::new("allocation_ids", AttributeType::unordered_list(AttributeType::format("AllocationId")))
                .required()
                .with_description("The allocation IDs of the Elastic IP addresses (EIPs) to be used for handling outbound NAT traffic in this specific Availability Zone.")
                .with_provider_name("AllocationIds"))
            .field(StructField::new("availability_zone", types::availability_zone())
                .with_description("For regional NAT gateways only: The Availability Zone where this specific NAT gateway configuration will be active. Each AZ in a regional NAT gateway ...")
                .with_provider_name("AvailabilityZone"))
            .field(StructField::new("availability_zone_id", AttributeType::format("AvailabilityZoneId"))
                .with_description("For regional NAT gateways only: The ID of the Availability Zone where this specific NAT gateway configuration will be active. Each AZ in a regional NA...")
                .with_provider_name("AvailabilityZoneId"))))
        .with_description("For regional NAT gateways only: Specifies which Availability Zones you want the NAT gateway to support and the Elastic IP addresses (EIPs) to use in e...")
        .with_provider_name("AvailabilityZoneAddresses")
        .with_block_name("availability_zone_address")
}

/// The schema of `AWS::EC2::NatGateway`.
pub open spec fn config() -> ConfigView {
    ConfigView {
        aws_type_name: "AWS::EC2::NatGateway"@,
        resource_type_name: "ec2.nat_gateway"@,
        has_tags: true,
        schema: SchemaView::new("awscc.ec2.nat_gateway"@)
            .with_description("Specifies a network address translation (NAT) gateway in the specified subnet. You can create either a public NAT gateway or a private NAT gateway. The default is a public NAT gateway. If you create a..."@)
            .attribute(
                AttrView::new("allocation_id"@, TypeView::format("AllocationId"@))
                    .create_only()
                    .with_description("[Public NAT gateway only] The allocation ID of the Elastic IP address that's associated with the NAT gateway. This property is required for a public N..."@)
                    .with_provider_name("AllocationId"@),
            )
            .attribute(
                AttrView::new("auto_provision_zones"@, TypeView::String)
                    .read_only()
                    .with_description(" (read-only)"@)
                    .with_provider_name("AutoProvisionZones"@),
            )
            .attribute(
                AttrView::new("auto_scaling_ips"@, TypeView::String)
                    .read_only()
                    .with_description(" (read-only)"@)
                    .with_provider_name("AutoScalingIps"@),
            )
            .attribute(
                AttrView::new("availability_mode"@, TypeView::string_enum("AvailabilityMode"@, seq!["zonal"@].push("regional"@), "awscc.ec2.nat_gateway"@, None))
                    .create_only()
                    .with_description("Indicates whether this is a zonal (single-AZ) or regional (multi-AZ) NAT gateway. A zonal NAT gateway is a NAT Gateway that provides redundancy and sc..."@)
                    .with_provider_name("AvailabilityMode"@),
            )
            .attribute(availability_zone_addresses_view())
            .attribute(
                AttrView::new("connectivity_type"@, TypeView::string_enum("ConnectivityType"@, seq!["public"@].push("private"@), "awscc.ec2.nat_gateway"@, None))
                    .create_only()
                    .with_description("Indicates whether the NAT gateway supports public or private connectivity. The default is public connectivity."@)
                    .with_provider_name("ConnectivityType"@),
            )
            .attribute(
                AttrView::new("eni_id"@, TypeView::format("NetworkInterfaceId"@))
                    .read_only()
                    .with_description(" (read-only)"@)
                    .with_provider_name("EniId"@),
            )
            .attribute(
                AttrView::new("max_drain_duration_seconds"@, TypeView::Int)
                    .with_description("The maximum amount of time to wait (in seconds) before forcibly releasing the IP addresses if connections are still in progress. Default value is 350 ..."@)
                    .with_provider_name("MaxDrainDurationSeconds"@),
            )
            .attribute(
                AttrView::new("nat_gateway_id"@, TypeView::format("NatGatewayId"@))
                    .read_only()
                    .with_description(" (read-only)"@)
                    .with_provider_name("NatGatewayId"@),
            )
            .attribute(
                AttrView::new("private_ip_address"@, TypeView::format("Ipv4Address"@))
                    .create_only()
                    .with_description("The private IPv4 address to assign to the NAT gateway. If you don't provide an address, a private IPv4 address will be automatically assigned."@)
                    .with_provider_name("PrivateIpAddress"@),
            )
            .attribute(
                AttrView::new("route_table_id"@, TypeView::format("RouteTableId"@))
                    .read_only()
                    .with_description(" (read-only)"@)
                    .with_provider_name("RouteTableId"@),
            )
            .attribute(
                AttrView::new("secondary_allocation_ids"@, TypeView::list(TypeView::format("AllocationId"@)))
                    .with_description("Secondary EIP allocation IDs. For more information, see [Create a NAT gateway](https://docs.aws.amazon.com/vpc/latest/userguide/nat-gateway-working-wi..."@)
                    .with_provider_name("SecondaryAllocationIds"@),
            )
            .attribute(
                AttrView::new("secondary_private_ip_address_count"@, TypeView::int_range("Int(1..)"@, Some(1i64), None))
                    .with_description("[Private NAT gateway only] The number of secondary private IPv4 addresses you want to assign to the NAT gateway. For more information about secondary ..."@)
                    .with_provider_name("SecondaryPrivateIpAddressCount"@),
            )
            .attribute(
                AttrView::new("secondary_private_ip_addresses"@, TypeView::list(TypeView::format("Ipv4Address"@)))
                    .with_description("Secondary private IPv4 addresses. For more information about secondary addresses, see [Create a NAT gateway](https://docs.aws.amazon.com/vpc/latest/us..."@)
                    .with_provider_name("SecondaryPrivateIpAddresses"@),
            )
            .attribute(
                AttrView::new("subnet_id"@, TypeView::format("SubnetId"@))
                    .create_only()
                    .with_description("The ID of the subnet in which the NAT gateway is located."@)
                    .with_provider_name("SubnetId"@),
            )
            .attribute(
                AttrView::new("tags"@, types::tags_view())
                    .with_description("The tags for the NAT gateway."@)
                    .with_provider_name("Tags"@),
            )
            .attribute(
                AttrView::new("vpc_id"@, TypeView::format("VpcId"@))
                    .create_only()
                    .with_description("The ID of the VPC in which the NAT gateway is located."@)
                    .with_provider_name("VpcId"@),
            ),
    }
}

/// The schema of `AWS::EC2::NatGateway`.
pub fn ec2_nat_gateway_config() -> (r: AwsccSchemaConfig)
    ensures
        r@ == config(),
{
    AwsccSchemaConfig {
        aws_type_name: "AWS::EC2::NatGateway",
        resource_type_name: "ec2.nat_gateway",
        has_tags: true,
        schema: ResourceSchema::new("awscc.ec2.nat_gateway")
            .with_description("Specifies a network address translation (NAT) gateway in the specified subnet. You can create either a public NAT gateway or a private NAT gateway. The default is a public NAT gateway. If you create a...")
            .attribute(
                AttributeSchema::new("allocation_id", AttributeType::format("AllocationId"))
                    .create_only()
                    .with_description("[Public NAT gateway only] The allocation ID of the Elastic IP address that's associated with the NAT gateway. This property is required for a public N...")
                    .with_provider_name("AllocationId"),
            )
            .attribute(
                AttributeSchema::new("auto_provision_zones", AttributeType::String)
                    .read_only()
                    .with_description(" (read-only)")
                    .with_provider_name("AutoProvisionZones"),
            )
            .attribute(
                AttributeSchema::new("auto_scaling_ips", AttributeType::String)
                    .read_only()
                    .with_description(" (read-only)")
                    .with_provider_name("AutoScalingIps"),
            )
            .attribute(
                AttributeSchema::new("availability_mode", AttributeType::string_enum("AvailabilityMode", Words::of("zonal").and("regional"), "awscc.ec2.nat_gateway", None))
                    .create_only()
                    .with_description("Indicates whether this is a zonal (single-AZ) or regional (multi-AZ) NAT gateway. A zonal NAT gateway is a NAT Gateway that provides redundancy and sc...")
                    .with_provider_name("AvailabilityMode"),
            )
            .attribute(availability_zone_addresses_attribute())
            .attribute(
                AttributeSchema::new("connectivity_type", AttributeType::string_enum("ConnectivityType", Words::of("public").and("private"), "awscc.ec2.nat_gateway", None))
                    .create_only()
                    .with_description("Indicates whether the NAT gateway supports public or private connectivity. The default is public connectivity.")
                    .with_provider_name("ConnectivityType"),
            )
            .attribute(
                AttributeSchema::new("eni_id", AttributeType::format("NetworkInterfaceId"))
                    .read_only()
                    .with_description(" (read-only)")
                    .with_provider_name("EniId"),
            )
            .attribute(
                AttributeSchema::new("max_drain_duration_seconds", AttributeType::Int)
                    .with_description("The maximum amount of time to wait (in seconds) before forcibly releasing the IP addresses if connections are still in progress. Default value is 350 ...")
                    .with_provider_name("MaxDrainDurationSeconds"),
            )
            .attribute(
                AttributeSchema::new("nat_gateway_id", AttributeType::format("NatGatewayId"))
                    .read_only()
                    .with_description(" (read-only)")
                    .with_provider_name("NatGatewayId"),
            )
            .attribute(
                AttributeSchema::new("private_ip_address", AttributeType::format("Ipv4Address"))
                    .create_only()
                    .with_description("The private IPv4 address to assign to the NAT gateway. If you don't provide an address, a private IPv4 address will be automatically assigned.")
                    .with_provider_name("PrivateIpAddress"),
            )
            .attribute(
                AttributeSchema::new("route_table_id", AttributeType::format("RouteTableId"))
                    .read_only()
                    .with_description(" (read-only)")
                    .with_provider_name("RouteTableId"),
            )
            .attribute(
                AttributeSchema::new("secondary_allocation_ids", AttributeType::list(AttributeType::format("AllocationId")))
                    .with_description("Secondary EIP allocation IDs. For more information, see [Create a NAT gateway](https://docs.aws.amazon.com/vpc/latest/userguide/nat-gateway-working-wi...")
                    .with_provider_name("SecondaryAllocationIds"),
            )
            .attribute(
                AttributeSchema::new("secondary_private_ip_address_count", AttributeType::int_range("Int(1..)", Some(1i64), None))
                    .with_description("[Private NAT gateway only] The number of secondary private IPv4 addresses you want to assign to the NAT gateway. For more information about secondary ...")
                    .with_provider_name("SecondaryPrivateIpAddressCount"),
            )
            .attribute(
                AttributeSchema::new("secondary_private_ip_addresses", AttributeType::list(AttributeType::format("Ipv4Address")))
                    .with_description("Secondary private IPv4 addresses. For more information about secondary addresses, see [Create a NAT gateway](https://docs.aws.amazon.com/vpc/latest/us...")
                    .with_provider_name("SecondaryPrivateIpAddresses"),
            )
            .attribute(
                AttributeSchema::new("subnet_id", AttributeType::format("SubnetId"))
                    .create_only()
                    .with_description("The ID of the subnet in which the NAT gateway is located.")
                    .with_provider_name("SubnetId"),
            )
            .attribute(
                AttributeSchema::new("tags", types::tags_type())
                    .with_description("The tags for the NAT gateway.")
                    .with_provider_name("Tags"),
            )
            .attribute(
                AttributeSchema::new("vpc_id", AttributeType::format("VpcId"))
                    .create_only()
                    .with_description("The ID of the VPC in which the NAT gateway is located.")
                    .with_provider_name("VpcId"),
            ),
    }
}

/// The enum attributes and their values.
pub open spec fn enum_table() -> Seq<(Seq<char>, Seq<Seq<char>>)> {
    Seq::empty()
        .push(("availability_mode"@, seq!["zonal"@].push("regional"@)))
        .push(("connectivity_type"@, seq!["public"@].push("private"@)))
}

/// The resource type, and its enum attributes with their values.
pub fn enum_valid_values() -> (r: (&'static str, EnumValues))
    ensures
        r.0@ == "ec2.nat_gateway"@,
        r.1@ == enum_table(),
{
    let mut values = EnumValues::new();
    values.add("availability_mode", Words::of("zonal").and("regional"));
    values.add("connectivity_type", Words::of("public").and("private"));
    ("ec2.nat_gateway", values)
}

/// The provider's value for a value that has another spelling in the
/// configuration language: there is none.
pub open spec fn alias_reverse(attr_name: Seq<char>, value: Seq<char>) -> Option<Seq<char>> {
    None
}

/// The provider's value for a value that has another spelling in the
/// configuration language.
pub fn enum_alias_reverse(attr_name: &str, value: &str) -> (r: Option<&'static str>)
    ensures
        text::opt_slice(r) == alias_reverse(attr_name@, value@),
{
    None
}

} // verus!
