//! Attributes are named like the properties that they stand for.
use vstd::prelude::*;

use crate::keyed;
use crate::schema::{AttrView, ConfigView, SchemaView};
use crate::schemas::bucket;
use crate::schemas::egress_only_internet_gateway;
use crate::schemas::eip;
use crate::schemas::flow_log;
use crate::schemas::iam_role;
use crate::schemas::ipam;
use crate::schemas::log_group;
use crate::schemas::nat_gateway;
use crate::schemas::registry;
use crate::schemas::security_group;
use crate::schemas::security_group_egress;
use crate::schemas::subnet;
use crate::schemas::transit_gateway;
use crate::schemas::vpc;
use crate::schemas::vpc_endpoint;
use crate::schemas::vpc_peering_connection;
use crate::schemas::vpn_gateway;
use crate::text;

verus! {

/// The first `n` characters of a name in lower case, without underscores.
pub open spec fn bare(s: Seq<char>, n: int) -> Seq<char>
    decreases n,
{
    if n <= 0 {
        Seq::empty()
    } else if s[n - 1] == '_' {
        bare(s, n - 1)
    } else {
        bare(s, n - 1).push(text::ascii_lower(s[n - 1]))
    }
}

/// Two names are the same but for underscores and the case of letters.
pub open spec fn alike(a: Seq<char>, b: Seq<char>) -> bool {
    bare(a, a.len() as int) == bare(b, b.len() as int)
}

/// Every attribute stands under its own name, and is named like its property.
pub open spec fn all_alike(attributes: Seq<(Seq<char>, AttrView)>) -> bool {
    forall|i: int| 0 <= i < attributes.len() ==> named_alike(#[trigger] attributes[i])
}

/// An attribute stands under its own name, and is named like its property.
pub open spec fn named_alike(e: (Seq<char>, AttrView)) -> bool {
    e.0 == e.1.name && (e.1.provider_name matches Some(p) ==> alike(e.1.name, p))
}

/// Adding an attribute that is named like its property keeps them all so.
proof fn lemma_stay_alike()
    ensures
        forall|s: SchemaView, a: AttrView| #![trigger s.attribute(a)]
            all_alike(s.attributes) && (a.provider_name matches Some(p) ==> alike(a.name, p)) ==> all_alike(
                s.attribute(a).attributes,
            ),
{
    assert forall|s: SchemaView, a: AttrView| #![trigger s.attribute(a)]
        all_alike(s.attributes) && (a.provider_name matches Some(p) ==> alike(a.name, p)) implies all_alike(
        s.attribute(a).attributes,
    ) by {
        let m = s.attributes;
        let out = s.attribute(a).attributes;
        keyed::lemma_index_from(m, a.name, 0);
        assert forall|i: int| 0 <= i < out.len() implies named_alike(#[trigger] out[i]) by {
            if out[i] != (a.name, a) {
                assert(out[i] == m[i]);
            }
        }
    }
}

proof fn lemma_alike_cidr_block()
    ensures
        alike("cidr_block"@, "CidrBlock"@),
{
    reveal_strlit("cidr_block");
    reveal_strlit("CidrBlock");
    reveal_with_fuel(bare, 11);
    assert(bare("cidr_block"@, 10) =~= bare("CidrBlock"@, 9));
}

proof fn lemma_alike_cidr_block_associations()
    ensures
        alike("cidr_block_associations"@, "CidrBlockAssociations"@),
{
    reveal_strlit("cidr_block_associations");
    reveal_strlit("CidrBlockAssociations");
    reveal_with_fuel(bare, 24);
    assert(bare("cidr_block_associations"@, 23) =~= bare("CidrBlockAssociations"@, 21));
}

proof fn lemma_alike_default_network_acl()
    ensures
        alike("default_network_acl"@, "DefaultNetworkAcl"@),
{
    reveal_strlit("default_network_acl");
    reveal_strlit("DefaultNetworkAcl");
    reveal_with_fuel(bare, 20);
    assert(bare("default_network_acl"@, 19) =~= bare("DefaultNetworkAcl"@, 17));
}

proof fn lemma_alike_default_security_group()
    ensures
        alike("default_security_group"@, "DefaultSecurityGroup"@),
{
    reveal_strlit("default_security_group");
    reveal_strlit("DefaultSecurityGroup");
    reveal_with_fuel(bare, 23);
    assert(bare("default_security_group"@, 22) =~= bare("DefaultSecurityGroup"@, 20));
}

proof fn lemma_alike_enable_dns_hostnames()
    ensures
        alike("enable_dns_hostnames"@, "EnableDnsHostnames"@),
{
    reveal_strlit("enable_dns_hostnames");
    reveal_strlit("EnableDnsHostnames");
    reveal_with_fuel(bare, 21);
    assert(bare("enable_dns_hostnames"@, 20) =~= bare("EnableDnsHostnames"@, 18));
}

proof fn lemma_alike_enable_dns_support()
    ensures
        alike("enable_dns_support"@, "EnableDnsSupport"@),
{
    reveal_strlit("enable_dns_support");
    reveal_strlit("EnableDnsSupport");
    reveal_with_fuel(bare, 19);
    assert(bare("enable_dns_support"@, 18) =~= bare("EnableDnsSupport"@, 16));
}

proof fn lemma_alike_instance_tenancy()
    ensures
        alike("instance_tenancy"@, "InstanceTenancy"@),
{
    reveal_strlit("instance_tenancy");
    reveal_strlit("InstanceTenancy");
    reveal_with_fuel(bare, 17);
    assert(bare("instance_tenancy"@, 16) =~= bare("InstanceTenancy"@, 15));
}

proof fn lemma_alike_ipv4_ipam_pool_id()
    ensures
        alike("ipv4_ipam_pool_id"@, "Ipv4IpamPoolId"@),
{
    reveal_strlit("ipv4_ipam_pool_id");
    reveal_strlit("Ipv4IpamPoolId");
    reveal_with_fuel(bare, 18);
    assert(bare("ipv4_ipam_pool_id"@, 17) =~= bare("Ipv4IpamPoolId"@, 14));
}

proof fn lemma_alike_ipv4_netmask_length()
    ensures
        alike("ipv4_netmask_length"@, "Ipv4NetmaskLength"@),
{
    reveal_strlit("ipv4_netmask_length");
    reveal_strlit("Ipv4NetmaskLength");
    reveal_with_fuel(bare, 20);
    assert(bare("ipv4_netmask_length"@, 19) =~= bare("Ipv4NetmaskLength"@, 17));
}

proof fn lemma_alike_ipv6_cidr_blocks()
    ensures
        alike("ipv6_cidr_blocks"@, "Ipv6CidrBlocks"@),
{
    reveal_strlit("ipv6_cidr_blocks");
    reveal_strlit("Ipv6CidrBlocks");
    reveal_with_fuel(bare, 17);
    assert(bare("ipv6_cidr_blocks"@, 16) =~= bare("Ipv6CidrBlocks"@, 14));
}

proof fn lemma_alike_tags()
    ensures
        alike("tags"@, "Tags"@),
{
    reveal_strlit("tags");
    reveal_strlit("Tags");
    reveal_with_fuel(bare, 5);
    assert(bare("tags"@, 4) =~= bare("Tags"@, 4));
}

proof fn lemma_alike_vpc_id()
    ensures
        alike("vpc_id"@, "VpcId"@),
{
    reveal_strlit("vpc_id");
    reveal_strlit("VpcId");
    reveal_with_fuel(bare, 7);
    assert(bare("vpc_id"@, 6) =~= bare("VpcId"@, 5));
}

proof fn lemma_alike_assign_ipv6_address_on_creation()
    ensures
        alike("assign_ipv6_address_on_creation"@, "AssignIpv6AddressOnCreation"@),
{
    reveal_strlit("assign_ipv6_address_on_creation");
    reveal_strlit("AssignIpv6AddressOnCreation");
    reveal_with_fuel(bare, 32);
    assert(bare("assign_ipv6_address_on_creation"@, 31) =~= bare("AssignIpv6AddressOnCreation"@, 27));
}

proof fn lemma_alike_availability_zone()
    ensures
        alike("availability_zone"@, "AvailabilityZone"@),
{
    reveal_strlit("availability_zone");
    reveal_strlit("AvailabilityZone");
    reveal_with_fuel(bare, 18);
    assert(bare("availability_zone"@, 17) =~= bare("AvailabilityZone"@, 16));
}

proof fn lemma_alike_availability_zone_id()
    ensures
        alike("availability_zone_id"@, "AvailabilityZoneId"@),
{
    reveal_strlit("availability_zone_id");
    reveal_strlit("AvailabilityZoneId");
    reveal_with_fuel(bare, 21);
    assert(bare("availability_zone_id"@, 20) =~= bare("AvailabilityZoneId"@, 18));
}

proof fn lemma_alike_block_public_access_states()
    ensures
        alike("block_public_access_states"@, "BlockPublicAccessStates"@),
{
    reveal_strlit("block_public_access_states");
    reveal_strlit("BlockPublicAccessStates");
    reveal_with_fuel(bare, 27);
    assert(bare("block_public_access_states"@, 26) =~= bare("BlockPublicAccessStates"@, 23));
}

proof fn lemma_alike_enable_dns64()
    ensures
        alike("enable_dns64"@, "EnableDns64"@),
{
    reveal_strlit("enable_dns64");
    reveal_strlit("EnableDns64");
    reveal_with_fuel(bare, 13);
    assert(bare("enable_dns64"@, 12) =~= bare("EnableDns64"@, 11));
}

proof fn lemma_alike_enable_lni_at_device_index()
    ensures
        alike("enable_lni_at_device_index"@, "EnableLniAtDeviceIndex"@),
{
    reveal_strlit("enable_lni_at_device_index");
    reveal_strlit("EnableLniAtDeviceIndex");
    reveal_with_fuel(bare, 27);
    assert(bare("enable_lni_at_device_index"@, 26) =~= bare("EnableLniAtDeviceIndex"@, 22));
}

proof fn lemma_alike_ipv6_cidr_block()
    ensures
        alike("ipv6_cidr_block"@, "Ipv6CidrBlock"@),
{
    reveal_strlit("ipv6_cidr_block");
    reveal_strlit("Ipv6CidrBlock");
    reveal_with_fuel(bare, 16);
    assert(bare("ipv6_cidr_block"@, 15) =~= bare("Ipv6CidrBlock"@, 13));
}

proof fn lemma_alike_ipv6_ipam_pool_id()
    ensures
        alike("ipv6_ipam_pool_id"@, "Ipv6IpamPoolId"@),
{
    reveal_strlit("ipv6_ipam_pool_id");
    reveal_strlit("Ipv6IpamPoolId");
    reveal_with_fuel(bare, 18);
    assert(bare("ipv6_ipam_pool_id"@, 17) =~= bare("Ipv6IpamPoolId"@, 14));
}

proof fn lemma_alike_ipv6_native()
    ensures
        alike("ipv6_native"@, "Ipv6Native"@),
{
    reveal_strlit("ipv6_native");
    reveal_strlit("Ipv6Native");
    reveal_with_fuel(bare, 12);
    assert(bare("ipv6_native"@, 11) =~= bare("Ipv6Native"@, 10));
}

proof fn lemma_alike_ipv6_netmask_length()
    ensures
        alike("ipv6_netmask_length"@, "Ipv6NetmaskLength"@),
{
    reveal_strlit("ipv6_netmask_length");
    reveal_strlit("Ipv6NetmaskLength");
    reveal_with_fuel(bare, 20);
    assert(bare("ipv6_netmask_length"@, 19) =~= bare("Ipv6NetmaskLength"@, 17));
}

proof fn lemma_alike_map_public_ip_on_launch()
    ensures
        alike("map_public_ip_on_launch"@, "MapPublicIpOnLaunch"@),
{
    reveal_strlit("map_public_ip_on_launch");
    reveal_strlit("MapPublicIpOnLaunch");
    reveal_with_fuel(bare, 24);
    assert(bare("map_public_ip_on_launch"@, 23) =~= bare("MapPublicIpOnLaunch"@, 19));
}

proof fn lemma_alike_network_acl_association_id()
    ensures
        alike("network_acl_association_id"@, "NetworkAclAssociationId"@),
{
    reveal_strlit("network_acl_association_id");
    reveal_strlit("NetworkAclAssociationId");
    reveal_with_fuel(bare, 27);
    assert(bare("network_acl_association_id"@, 26) =~= bare("NetworkAclAssociationId"@, 23));
}

proof fn lemma_alike_outpost_arn()
    ensures
        alike("outpost_arn"@, "OutpostArn"@),
{
    reveal_strlit("outpost_arn");
    reveal_strlit("OutpostArn");
    reveal_with_fuel(bare, 12);
    assert(bare("outpost_arn"@, 11) =~= bare("OutpostArn"@, 10));
}

proof fn lemma_alike_private_dns_name_options_on_launch()
    ensures
        alike("private_dns_name_options_on_launch"@, "PrivateDnsNameOptionsOnLaunch"@),
{
    reveal_strlit("private_dns_name_options_on_launch");
    reveal_strlit("PrivateDnsNameOptionsOnLaunch");
    reveal_with_fuel(bare, 35);
    assert(bare("private_dns_name_options_on_launch"@, 34) =~= bare("PrivateDnsNameOptionsOnLaunch"@, 29));
}

proof fn lemma_alike_subnet_id()
    ensures
        alike("subnet_id"@, "SubnetId"@),
{
    reveal_strlit("subnet_id");
    reveal_strlit("SubnetId");
    reveal_with_fuel(bare, 10);
    assert(bare("subnet_id"@, 9) =~= bare("SubnetId"@, 8));
}

proof fn lemma_alike_address()
    ensures
        alike("address"@, "Address"@),
{
    reveal_strlit("address");
    reveal_strlit("Address");
    reveal_with_fuel(bare, 8);
    assert(bare("address"@, 7) =~= bare("Address"@, 7));
}

proof fn lemma_alike_allocation_id()
    ensures
        alike("allocation_id"@, "AllocationId"@),
{
    reveal_strlit("allocation_id");
    reveal_strlit("AllocationId");
    reveal_with_fuel(bare, 14);
    assert(bare("allocation_id"@, 13) =~= bare("AllocationId"@, 12));
}

proof fn lemma_alike_domain()
    ensures
        alike("domain"@, "Domain"@),
{
    reveal_strlit("domain");
    reveal_strlit("Domain");
    reveal_with_fuel(bare, 7);
    assert(bare("domain"@, 6) =~= bare("Domain"@, 6));
}

proof fn lemma_alike_instance_id()
    ensures
        alike("instance_id"@, "InstanceId"@),
{
    reveal_strlit("instance_id");
    reveal_strlit("InstanceId");
    reveal_with_fuel(bare, 12);
    assert(bare("instance_id"@, 11) =~= bare("InstanceId"@, 10));
}

proof fn lemma_alike_ipam_pool_id()
    ensures
        alike("ipam_pool_id"@, "IpamPoolId"@),
{
    reveal_strlit("ipam_pool_id");
    reveal_strlit("IpamPoolId");
    reveal_with_fuel(bare, 13);
    assert(bare("ipam_pool_id"@, 12) =~= bare("IpamPoolId"@, 10));
}

proof fn lemma_alike_network_border_group()
    ensures
        alike("network_border_group"@, "NetworkBorderGroup"@),
{
    reveal_strlit("network_border_group");
    reveal_strlit("NetworkBorderGroup");
    reveal_with_fuel(bare, 21);
    assert(bare("network_border_group"@, 20) =~= bare("NetworkBorderGroup"@, 18));
}

proof fn lemma_alike_public_ip()
    ensures
        alike("public_ip"@, "PublicIp"@),
{
    reveal_strlit("public_ip");
    reveal_strlit("PublicIp");
    reveal_with_fuel(bare, 10);
    assert(bare("public_ip"@, 9) =~= bare("PublicIp"@, 8));
}

proof fn lemma_alike_public_ipv4_pool()
    ensures
        alike("public_ipv4_pool"@, "PublicIpv4Pool"@),
{
    reveal_strlit("public_ipv4_pool");
    reveal_strlit("PublicIpv4Pool");
    reveal_with_fuel(bare, 17);
    assert(bare("public_ipv4_pool"@, 16) =~= bare("PublicIpv4Pool"@, 14));
}

proof fn lemma_alike_transfer_address()
    ensures
        alike("transfer_address"@, "TransferAddress"@),
{
    reveal_strlit("transfer_address");
    reveal_strlit("TransferAddress");
    reveal_with_fuel(bare, 17);
    assert(bare("transfer_address"@, 16) =~= bare("TransferAddress"@, 15));
}

proof fn lemma_alike_auto_provision_zones()
    ensures
        alike("auto_provision_zones"@, "AutoProvisionZones"@),
{
    reveal_strlit("auto_provision_zones");
    reveal_strlit("AutoProvisionZones");
    reveal_with_fuel(bare, 21);
    assert(bare("auto_provision_zones"@, 20) =~= bare("AutoProvisionZones"@, 18));
}

proof fn lemma_alike_auto_scaling_ips()
    ensures
        alike("auto_scaling_ips"@, "AutoScalingIps"@),
{
    reveal_strlit("auto_scaling_ips");
    reveal_strlit("AutoScalingIps");
    reveal_with_fuel(bare, 17);
    assert(bare("auto_scaling_ips"@, 16) =~= bare("AutoScalingIps"@, 14));
}

proof fn lemma_alike_availability_mode()
    ensures
        alike("availability_mode"@, "AvailabilityMode"@),
{
    reveal_strlit("availability_mode");
    reveal_strlit("AvailabilityMode");
    reveal_with_fuel(bare, 18);
    assert(bare("availability_mode"@, 17) =~= bare("AvailabilityMode"@, 16));
}

proof fn lemma_alike_availability_zone_addresses()
    ensures
        alike("availability_zone_addresses"@, "AvailabilityZoneAddresses"@),
{
    reveal_strlit("availability_zone_addresses");
    reveal_strlit("AvailabilityZoneAddresses");
    reveal_with_fuel(bare, 28);
    assert(bare("availability_zone_addresses"@, 27) =~= bare("AvailabilityZoneAddresses"@, 25));
}

proof fn lemma_alike_connectivity_type()
    ensures
        alike("connectivity_type"@, "ConnectivityType"@),
{
    reveal_strlit("connectivity_type");
    reveal_strlit("ConnectivityType");
    reveal_with_fuel(bare, 18);
    assert(bare("connectivity_type"@, 17) =~= bare("ConnectivityType"@, 16));
}

proof fn lemma_alike_eni_id()
    ensures
        alike("eni_id"@, "EniId"@),
{
    reveal_strlit("eni_id");
    reveal_strlit("EniId");
    reveal_with_fuel(bare, 7);
    assert(bare("eni_id"@, 6) =~= bare("EniId"@, 5));
}

proof fn lemma_alike_max_drain_duration_seconds()
    ensures
        alike("max_drain_duration_seconds"@, "MaxDrainDurationSeconds"@),
{
    reveal_strlit("max_drain_duration_seconds");
    reveal_strlit("MaxDrainDurationSeconds");
    reveal_with_fuel(bare, 27);
    assert(bare("max_drain_duration_seconds"@, 26) =~= bare("MaxDrainDurationSeconds"@, 23));
}

proof fn lemma_alike_nat_gateway_id()
    ensures
        alike("nat_gateway_id"@, "NatGatewayId"@),
{
    reveal_strlit("nat_gateway_id");
    reveal_strlit("NatGatewayId");
    reveal_with_fuel(bare, 15);
    assert(bare("nat_gateway_id"@, 14) =~= bare("NatGatewayId"@, 12));
}

proof fn lemma_alike_private_ip_address()
    ensures
        alike("private_ip_address"@, "PrivateIpAddress"@),
{
    reveal_strlit("private_ip_address");
    reveal_strlit("PrivateIpAddress");
    reveal_with_fuel(bare, 19);
    assert(bare("private_ip_address"@, 18) =~= bare("PrivateIpAddress"@, 16));
}

proof fn lemma_alike_route_table_id()
    ensures
        alike("route_table_id"@, "RouteTableId"@),
{
    reveal_strlit("route_table_id");
    reveal_strlit("RouteTableId");
    reveal_with_fuel(bare, 15);
    assert(bare("route_table_id"@, 14) =~= bare("RouteTableId"@, 12));
}

proof fn lemma_alike_secondary_allocation_ids()
    ensures
        alike("secondary_allocation_ids"@, "SecondaryAllocationIds"@),
{
    reveal_strlit("secondary_allocation_ids");
    reveal_strlit("SecondaryAllocationIds");
    reveal_with_fuel(bare, 25);
    assert(bare("secondary_allocation_ids"@, 24) =~= bare("SecondaryAllocationIds"@, 22));
}

proof fn lemma_alike_secondary_private_ip_address_count()
    ensures
        alike("secondary_private_ip_address_count"@, "SecondaryPrivateIpAddressCount"@),
{
    reveal_strlit("secondary_private_ip_address_count");
    reveal_strlit("SecondaryPrivateIpAddressCount");
    reveal_with_fuel(bare, 35);
    assert(bare("secondary_private_ip_address_count"@, 34) =~= bare("SecondaryPrivateIpAddressCount"@, 30));
}

proof fn lemma_alike_secondary_private_ip_addresses()
    ensures
        alike("secondary_private_ip_addresses"@, "SecondaryPrivateIpAddresses"@),
{
    reveal_strlit("secondary_private_ip_addresses");
    reveal_strlit("SecondaryPrivateIpAddresses");
    reveal_with_fuel(bare, 31);
    assert(bare("secondary_private_ip_addresses"@, 30) =~= bare("SecondaryPrivateIpAddresses"@, 27));
}

proof fn lemma_alike_group_description()
    ensures
        alike("group_description"@, "GroupDescription"@),
{
    reveal_strlit("group_description");
    reveal_strlit("GroupDescription");
    reveal_with_fuel(bare, 18);
    assert(bare("group_description"@, 17) =~= bare("GroupDescription"@, 16));
}

proof fn lemma_alike_group_id()
    ensures
        alike("group_id"@, "GroupId"@),
{
    reveal_strlit("group_id");
    reveal_strlit("GroupId");
    reveal_with_fuel(bare, 9);
    assert(bare("group_id"@, 8) =~= bare("GroupId"@, 7));
}

proof fn lemma_alike_group_name()
    ensures
        alike("group_name"@, "GroupName"@),
{
    reveal_strlit("group_name");
    reveal_strlit("GroupName");
    reveal_with_fuel(bare, 11);
    assert(bare("group_name"@, 10) =~= bare("GroupName"@, 9));
}

proof fn lemma_alike_id()
    ensures
        alike("id"@, "Id"@),
{
    reveal_strlit("id");
    reveal_strlit("Id");
    reveal_with_fuel(bare, 3);
    assert(bare("id"@, 2) =~= bare("Id"@, 2));
}

proof fn lemma_alike_security_group_egress()
    ensures
        alike("security_group_egress"@, "SecurityGroupEgress"@),
{
    reveal_strlit("security_group_egress");
    reveal_strlit("SecurityGroupEgress");
    reveal_with_fuel(bare, 22);
    assert(bare("security_group_egress"@, 21) =~= bare("SecurityGroupEgress"@, 19));
}

proof fn lemma_alike_security_group_ingress()
    ensures
        alike("security_group_ingress"@, "SecurityGroupIngress"@),
{
    reveal_strlit("security_group_ingress");
    reveal_strlit("SecurityGroupIngress");
    reveal_with_fuel(bare, 23);
    assert(bare("security_group_ingress"@, 22) =~= bare("SecurityGroupIngress"@, 20));
}

proof fn lemma_alike_cidr_ip()
    ensures
        alike("cidr_ip"@, "CidrIp"@),
{
    reveal_strlit("cidr_ip");
    reveal_strlit("CidrIp");
    reveal_with_fuel(bare, 8);
    assert(bare("cidr_ip"@, 7) =~= bare("CidrIp"@, 6));
}

proof fn lemma_alike_cidr_ipv6()
    ensures
        alike("cidr_ipv6"@, "CidrIpv6"@),
{
    reveal_strlit("cidr_ipv6");
    reveal_strlit("CidrIpv6");
    reveal_with_fuel(bare, 10);
    assert(bare("cidr_ipv6"@, 9) =~= bare("CidrIpv6"@, 8));
}

proof fn lemma_alike_description()
    ensures
        alike("description"@, "Description"@),
{
    reveal_strlit("description");
    reveal_strlit("Description");
    reveal_with_fuel(bare, 12);
    assert(bare("description"@, 11) =~= bare("Description"@, 11));
}

proof fn lemma_alike_destination_prefix_list_id()
    ensures
        alike("destination_prefix_list_id"@, "DestinationPrefixListId"@),
{
    reveal_strlit("destination_prefix_list_id");
    reveal_strlit("DestinationPrefixListId");
    reveal_with_fuel(bare, 27);
    assert(bare("destination_prefix_list_id"@, 26) =~= bare("DestinationPrefixListId"@, 23));
}

proof fn lemma_alike_destination_security_group_id()
    ensures
        alike("destination_security_group_id"@, "DestinationSecurityGroupId"@),
{
    reveal_strlit("destination_security_group_id");
    reveal_strlit("DestinationSecurityGroupId");
    reveal_with_fuel(bare, 30);
    assert(bare("destination_security_group_id"@, 29) =~= bare("DestinationSecurityGroupId"@, 26));
}

proof fn lemma_alike_from_port()
    ensures
        alike("from_port"@, "FromPort"@),
{
    reveal_strlit("from_port");
    reveal_strlit("FromPort");
    reveal_with_fuel(bare, 10);
    assert(bare("from_port"@, 9) =~= bare("FromPort"@, 8));
}

proof fn lemma_alike_ip_protocol()
    ensures
        alike("ip_protocol"@, "IpProtocol"@),
{
    reveal_strlit("ip_protocol");
    reveal_strlit("IpProtocol");
    reveal_with_fuel(bare, 12);
    assert(bare("ip_protocol"@, 11) =~= bare("IpProtocol"@, 10));
}

proof fn lemma_alike_to_port()
    ensures
        alike("to_port"@, "ToPort"@),
{
    reveal_strlit("to_port");
    reveal_strlit("ToPort");
    reveal_with_fuel(bare, 8);
    assert(bare("to_port"@, 7) =~= bare("ToPort"@, 6));
}

proof fn lemma_alike_creation_timestamp()
    ensures
        alike("creation_timestamp"@, "CreationTimestamp"@),
{
    reveal_strlit("creation_timestamp");
    reveal_strlit("CreationTimestamp");
    reveal_with_fuel(bare, 19);
    assert(bare("creation_timestamp"@, 18) =~= bare("CreationTimestamp"@, 17));
}

proof fn lemma_alike_dns_entries()
    ensures
        alike("dns_entries"@, "DnsEntries"@),
{
    reveal_strlit("dns_entries");
    reveal_strlit("DnsEntries");
    reveal_with_fuel(bare, 12);
    assert(bare("dns_entries"@, 11) =~= bare("DnsEntries"@, 10));
}

proof fn lemma_alike_dns_options()
    ensures
        alike("dns_options"@, "DnsOptions"@),
{
    reveal_strlit("dns_options");
    reveal_strlit("DnsOptions");
    reveal_with_fuel(bare, 12);
    assert(bare("dns_options"@, 11) =~= bare("DnsOptions"@, 10));
}

proof fn lemma_alike_ip_address_type()
    ensures
        alike("ip_address_type"@, "IpAddressType"@),
{
    reveal_strlit("ip_address_type");
    reveal_strlit("IpAddressType");
    reveal_with_fuel(bare, 16);
    assert(bare("ip_address_type"@, 15) =~= bare("IpAddressType"@, 13));
}

proof fn lemma_alike_network_interface_ids()
    ensures
        alike("network_interface_ids"@, "NetworkInterfaceIds"@),
{
    reveal_strlit("network_interface_ids");
    reveal_strlit("NetworkInterfaceIds");
    reveal_with_fuel(bare, 22);
    assert(bare("network_interface_ids"@, 21) =~= bare("NetworkInterfaceIds"@, 19));
}

proof fn lemma_alike_policy_document()
    ensures
        alike("policy_document"@, "PolicyDocument"@),
{
    reveal_strlit("policy_document");
    reveal_strlit("PolicyDocument");
    reveal_with_fuel(bare, 16);
    assert(bare("policy_document"@, 15) =~= bare("PolicyDocument"@, 14));
}

proof fn lemma_alike_private_dns_enabled()
    ensures
        alike("private_dns_enabled"@, "PrivateDnsEnabled"@),
{
    reveal_strlit("private_dns_enabled");
    reveal_strlit("PrivateDnsEnabled");
    reveal_with_fuel(bare, 20);
    assert(bare("private_dns_enabled"@, 19) =~= bare("PrivateDnsEnabled"@, 17));
}

proof fn lemma_alike_resource_configuration_arn()
    ensures
        alike("resource_configuration_arn"@, "ResourceConfigurationArn"@),
{
    reveal_strlit("resource_configuration_arn");
    reveal_strlit("ResourceConfigurationArn");
    reveal_with_fuel(bare, 27);
    assert(bare("resource_configuration_arn"@, 26) =~= bare("ResourceConfigurationArn"@, 24));
}

proof fn lemma_alike_route_table_ids()
    ensures
        alike("route_table_ids"@, "RouteTableIds"@),
{
    reveal_strlit("route_table_ids");
    reveal_strlit("RouteTableIds");
    reveal_with_fuel(bare, 16);
    assert(bare("route_table_ids"@, 15) =~= bare("RouteTableIds"@, 13));
}

proof fn lemma_alike_security_group_ids()
    ensures
        alike("security_group_ids"@, "SecurityGroupIds"@),
{
    reveal_strlit("security_group_ids");
    reveal_strlit("SecurityGroupIds");
    reveal_with_fuel(bare, 19);
    assert(bare("security_group_ids"@, 18) =~= bare("SecurityGroupIds"@, 16));
}

proof fn lemma_alike_service_name()
    ensures
        alike("service_name"@, "ServiceName"@),
{
    reveal_strlit("service_name");
    reveal_strlit("ServiceName");
    reveal_with_fuel(bare, 13);
    assert(bare("service_name"@, 12) =~= bare("ServiceName"@, 11));
}

proof fn lemma_alike_service_network_arn()
    ensures
        alike("service_network_arn"@, "ServiceNetworkArn"@),
{
    reveal_strlit("service_network_arn");
    reveal_strlit("ServiceNetworkArn");
    reveal_with_fuel(bare, 20);
    assert(bare("service_network_arn"@, 19) =~= bare("ServiceNetworkArn"@, 17));
}

proof fn lemma_alike_service_region()
    ensures
        alike("service_region"@, "ServiceRegion"@),
{
    reveal_strlit("service_region");
    reveal_strlit("ServiceRegion");
    reveal_with_fuel(bare, 15);
    assert(bare("service_region"@, 14) =~= bare("ServiceRegion"@, 13));
}

proof fn lemma_alike_subnet_ids()
    ensures
        alike("subnet_ids"@, "SubnetIds"@),
{
    reveal_strlit("subnet_ids");
    reveal_strlit("SubnetIds");
    reveal_with_fuel(bare, 11);
    assert(bare("subnet_ids"@, 10) =~= bare("SubnetIds"@, 9));
}

proof fn lemma_alike_vpc_endpoint_type()
    ensures
        alike("vpc_endpoint_type"@, "VpcEndpointType"@),
{
    reveal_strlit("vpc_endpoint_type");
    reveal_strlit("VpcEndpointType");
    reveal_with_fuel(bare, 18);
    assert(bare("vpc_endpoint_type"@, 17) =~= bare("VpcEndpointType"@, 15));
}

proof fn lemma_alike_deliver_cross_account_role()
    ensures
        alike("deliver_cross_account_role"@, "DeliverCrossAccountRole"@),
{
    reveal_strlit("deliver_cross_account_role");
    reveal_strlit("DeliverCrossAccountRole");
    reveal_with_fuel(bare, 27);
    assert(bare("deliver_cross_account_role"@, 26) =~= bare("DeliverCrossAccountRole"@, 23));
}

proof fn lemma_alike_deliver_logs_permission_arn()
    ensures
        alike("deliver_logs_permission_arn"@, "DeliverLogsPermissionArn"@),
{
    reveal_strlit("deliver_logs_permission_arn");
    reveal_strlit("DeliverLogsPermissionArn");
    reveal_with_fuel(bare, 28);
    assert(bare("deliver_logs_permission_arn"@, 27) =~= bare("DeliverLogsPermissionArn"@, 24));
}

proof fn lemma_alike_destination_options()
    ensures
        alike("destination_options"@, "DestinationOptions"@),
{
    reveal_strlit("destination_options");
    reveal_strlit("DestinationOptions");
    reveal_with_fuel(bare, 20);
    assert(bare("destination_options"@, 19) =~= bare("DestinationOptions"@, 18));
}

proof fn lemma_alike_log_destination()
    ensures
        alike("log_destination"@, "LogDestination"@),
{
    reveal_strlit("log_destination");
    reveal_strlit("LogDestination");
    reveal_with_fuel(bare, 16);
    assert(bare("log_destination"@, 15) =~= bare("LogDestination"@, 14));
}

proof fn lemma_alike_log_destination_type()
    ensures
        alike("log_destination_type"@, "LogDestinationType"@),
{
    reveal_strlit("log_destination_type");
    reveal_strlit("LogDestinationType");
    reveal_with_fuel(bare, 21);
    assert(bare("log_destination_type"@, 20) =~= bare("LogDestinationType"@, 18));
}

proof fn lemma_alike_log_format()
    ensures
        alike("log_format"@, "LogFormat"@),
{
    reveal_strlit("log_format");
    reveal_strlit("LogFormat");
    reveal_with_fuel(bare, 11);
    assert(bare("log_format"@, 10) =~= bare("LogFormat"@, 9));
}

proof fn lemma_alike_log_group_name()
    ensures
        alike("log_group_name"@, "LogGroupName"@),
{
    reveal_strlit("log_group_name");
    reveal_strlit("LogGroupName");
    reveal_with_fuel(bare, 15);
    assert(bare("log_group_name"@, 14) =~= bare("LogGroupName"@, 12));
}

proof fn lemma_alike_max_aggregation_interval()
    ensures
        alike("max_aggregation_interval"@, "MaxAggregationInterval"@),
{
    reveal_strlit("max_aggregation_interval");
    reveal_strlit("MaxAggregationInterval");
    reveal_with_fuel(bare, 25);
    assert(bare("max_aggregation_interval"@, 24) =~= bare("MaxAggregationInterval"@, 22));
}

proof fn lemma_alike_resource_id()
    ensures
        alike("resource_id"@, "ResourceId"@),
{
    reveal_strlit("resource_id");
    reveal_strlit("ResourceId");
    reveal_with_fuel(bare, 12);
    assert(bare("resource_id"@, 11) =~= bare("ResourceId"@, 10));
}

proof fn lemma_alike_resource_type()
    ensures
        alike("resource_type"@, "ResourceType"@),
{
    reveal_strlit("resource_type");
    reveal_strlit("ResourceType");
    reveal_with_fuel(bare, 14);
    assert(bare("resource_type"@, 13) =~= bare("ResourceType"@, 12));
}

proof fn lemma_alike_traffic_type()
    ensures
        alike("traffic_type"@, "TrafficType"@),
{
    reveal_strlit("traffic_type");
    reveal_strlit("TrafficType");
    reveal_with_fuel(bare, 13);
    assert(bare("traffic_type"@, 12) =~= bare("TrafficType"@, 11));
}

proof fn lemma_alike_arn()
    ensures
        alike("arn"@, "Arn"@),
{
    reveal_strlit("arn");
    reveal_strlit("Arn");
    reveal_with_fuel(bare, 4);
    assert(bare("arn"@, 3) =~= bare("Arn"@, 3));
}

proof fn lemma_alike_default_resource_discovery_association_id()
    ensures
        alike("default_resource_discovery_association_id"@, "DefaultResourceDiscoveryAssociationId"@),
{
    reveal_strlit("default_resource_discovery_association_id");
    reveal_strlit("DefaultResourceDiscoveryAssociationId");
    reveal_with_fuel(bare, 42);
    assert(bare("default_resource_discovery_association_id"@, 41) =~= bare("DefaultResourceDiscoveryAssociationId"@, 37));
}

proof fn lemma_alike_default_resource_discovery_id()
    ensures
        alike("default_resource_discovery_id"@, "DefaultResourceDiscoveryId"@),
{
    reveal_strlit("default_resource_discovery_id");
    reveal_strlit("DefaultResourceDiscoveryId");
    reveal_with_fuel(bare, 30);
    assert(bare("default_resource_discovery_id"@, 29) =~= bare("DefaultResourceDiscoveryId"@, 26));
}

proof fn lemma_alike_default_resource_discovery_organizational_unit_exclusions()
    ensures
        alike("default_resource_discovery_organizational_unit_exclusions"@, "DefaultResourceDiscoveryOrganizationalUnitExclusions"@),
{
    reveal_strlit("default_resource_discovery_organizational_unit_exclusions");
    reveal_strlit("DefaultResourceDiscoveryOrganizationalUnitExclusions");
    reveal_with_fuel(bare, 58);
    assert(bare("default_resource_discovery_organizational_unit_exclusions"@, 57) =~= bare("DefaultResourceDiscoveryOrganizationalUnitExclusions"@, 52));
}

proof fn lemma_alike_enable_private_gua()
    ensures
        alike("enable_private_gua"@, "EnablePrivateGua"@),
{
    reveal_strlit("enable_private_gua");
    reveal_strlit("EnablePrivateGua");
    reveal_with_fuel(bare, 19);
    assert(bare("enable_private_gua"@, 18) =~= bare("EnablePrivateGua"@, 16));
}

proof fn lemma_alike_ipam_id()
    ensures
        alike("ipam_id"@, "IpamId"@),
{
    reveal_strlit("ipam_id");
    reveal_strlit("IpamId");
    reveal_with_fuel(bare, 8);
    assert(bare("ipam_id"@, 7) =~= bare("IpamId"@, 6));
}

proof fn lemma_alike_metered_account()
    ensures
        alike("metered_account"@, "MeteredAccount"@),
{
    reveal_strlit("metered_account");
    reveal_strlit("MeteredAccount");
    reveal_with_fuel(bare, 16);
    assert(bare("metered_account"@, 15) =~= bare("MeteredAccount"@, 14));
}

proof fn lemma_alike_operating_regions()
    ensures
        alike("operating_regions"@, "OperatingRegions"@),
{
    reveal_strlit("operating_regions");
    reveal_strlit("OperatingRegions");
    reveal_with_fuel(bare, 18);
    assert(bare("operating_regions"@, 17) =~= bare("OperatingRegions"@, 16));
}

proof fn lemma_alike_private_default_scope_id()
    ensures
        alike("private_default_scope_id"@, "PrivateDefaultScopeId"@),
{
    reveal_strlit("private_default_scope_id");
    reveal_strlit("PrivateDefaultScopeId");
    reveal_with_fuel(bare, 25);
    assert(bare("private_default_scope_id"@, 24) =~= bare("PrivateDefaultScopeId"@, 21));
}

proof fn lemma_alike_public_default_scope_id()
    ensures
        alike("public_default_scope_id"@, "PublicDefaultScopeId"@),
{
    reveal_strlit("public_default_scope_id");
    reveal_strlit("PublicDefaultScopeId");
    reveal_with_fuel(bare, 24);
    assert(bare("public_default_scope_id"@, 23) =~= bare("PublicDefaultScopeId"@, 20));
}

proof fn lemma_alike_resource_discovery_association_count()
    ensures
        alike("resource_discovery_association_count"@, "ResourceDiscoveryAssociationCount"@),
{
    reveal_strlit("resource_discovery_association_count");
    reveal_strlit("ResourceDiscoveryAssociationCount");
    reveal_with_fuel(bare, 37);
    assert(bare("resource_discovery_association_count"@, 36) =~= bare("ResourceDiscoveryAssociationCount"@, 33));
}

proof fn lemma_alike_scope_count()
    ensures
        alike("scope_count"@, "ScopeCount"@),
{
    reveal_strlit("scope_count");
    reveal_strlit("ScopeCount");
    reveal_with_fuel(bare, 12);
    assert(bare("scope_count"@, 11) =~= bare("ScopeCount"@, 10));
}

proof fn lemma_alike_tier()
    ensures
        alike("tier"@, "Tier"@),
{
    reveal_strlit("tier");
    reveal_strlit("Tier");
    reveal_with_fuel(bare, 5);
    assert(bare("tier"@, 4) =~= bare("Tier"@, 4));
}

proof fn lemma_alike_amazon_side_asn()
    ensures
        alike("amazon_side_asn"@, "AmazonSideAsn"@),
{
    reveal_strlit("amazon_side_asn");
    reveal_strlit("AmazonSideAsn");
    reveal_with_fuel(bare, 16);
    assert(bare("amazon_side_asn"@, 15) =~= bare("AmazonSideAsn"@, 13));
}

proof fn lemma_alike_type()
    ensures
        alike("type"@, "Type"@),
{
    reveal_strlit("type");
    reveal_strlit("Type");
    reveal_with_fuel(bare, 5);
    assert(bare("type"@, 4) =~= bare("Type"@, 4));
}

proof fn lemma_alike_vpn_gateway_id()
    ensures
        alike("vpn_gateway_id"@, "VPNGatewayId"@),
{
    reveal_strlit("vpn_gateway_id");
    reveal_strlit("VPNGatewayId");
    reveal_with_fuel(bare, 15);
    assert(bare("vpn_gateway_id"@, 14) =~= bare("VPNGatewayId"@, 12));
}

proof fn lemma_alike_association_default_route_table_id()
    ensures
        alike("association_default_route_table_id"@, "AssociationDefaultRouteTableId"@),
{
    reveal_strlit("association_default_route_table_id");
    reveal_strlit("AssociationDefaultRouteTableId");
    reveal_with_fuel(bare, 35);
    assert(bare("association_default_route_table_id"@, 34) =~= bare("AssociationDefaultRouteTableId"@, 30));
}

proof fn lemma_alike_auto_accept_shared_attachments()
    ensures
        alike("auto_accept_shared_attachments"@, "AutoAcceptSharedAttachments"@),
{
    reveal_strlit("auto_accept_shared_attachments");
    reveal_strlit("AutoAcceptSharedAttachments");
    reveal_with_fuel(bare, 31);
    assert(bare("auto_accept_shared_attachments"@, 30) =~= bare("AutoAcceptSharedAttachments"@, 27));
}

proof fn lemma_alike_default_route_table_association()
    ensures
        alike("default_route_table_association"@, "DefaultRouteTableAssociation"@),
{
    reveal_strlit("default_route_table_association");
    reveal_strlit("DefaultRouteTableAssociation");
    reveal_with_fuel(bare, 32);
    assert(bare("default_route_table_association"@, 31) =~= bare("DefaultRouteTableAssociation"@, 28));
}

proof fn lemma_alike_default_route_table_propagation()
    ensures
        alike("default_route_table_propagation"@, "DefaultRouteTablePropagation"@),
{
    reveal_strlit("default_route_table_propagation");
    reveal_strlit("DefaultRouteTablePropagation");
    reveal_with_fuel(bare, 32);
    assert(bare("default_route_table_propagation"@, 31) =~= bare("DefaultRouteTablePropagation"@, 28));
}

proof fn lemma_alike_dns_support()
    ensures
        alike("dns_support"@, "DnsSupport"@),
{
    reveal_strlit("dns_support");
    reveal_strlit("DnsSupport");
    reveal_with_fuel(bare, 12);
    assert(bare("dns_support"@, 11) =~= bare("DnsSupport"@, 10));
}

proof fn lemma_alike_encryption_support()
    ensures
        alike("encryption_support"@, "EncryptionSupport"@),
{
    reveal_strlit("encryption_support");
    reveal_strlit("EncryptionSupport");
    reveal_with_fuel(bare, 19);
    assert(bare("encryption_support"@, 18) =~= bare("EncryptionSupport"@, 17));
}

proof fn lemma_alike_encryption_support_state()
    ensures
        alike("encryption_support_state"@, "EncryptionSupportState"@),
{
    reveal_strlit("encryption_support_state");
    reveal_strlit("EncryptionSupportState");
    reveal_with_fuel(bare, 25);
    assert(bare("encryption_support_state"@, 24) =~= bare("EncryptionSupportState"@, 22));
}

proof fn lemma_alike_multicast_support()
    ensures
        alike("multicast_support"@, "MulticastSupport"@),
{
    reveal_strlit("multicast_support");
    reveal_strlit("MulticastSupport");
    reveal_with_fuel(bare, 18);
    assert(bare("multicast_support"@, 17) =~= bare("MulticastSupport"@, 16));
}

proof fn lemma_alike_propagation_default_route_table_id()
    ensures
        alike("propagation_default_route_table_id"@, "PropagationDefaultRouteTableId"@),
{
    reveal_strlit("propagation_default_route_table_id");
    reveal_strlit("PropagationDefaultRouteTableId");
    reveal_with_fuel(bare, 35);
    assert(bare("propagation_default_route_table_id"@, 34) =~= bare("PropagationDefaultRouteTableId"@, 30));
}

proof fn lemma_alike_security_group_referencing_support()
    ensures
        alike("security_group_referencing_support"@, "SecurityGroupReferencingSupport"@),
{
    reveal_strlit("security_group_referencing_support");
    reveal_strlit("SecurityGroupReferencingSupport");
    reveal_with_fuel(bare, 35);
    assert(bare("security_group_referencing_support"@, 34) =~= bare("SecurityGroupReferencingSupport"@, 31));
}

proof fn lemma_alike_transit_gateway_arn()
    ensures
        alike("transit_gateway_arn"@, "TransitGatewayArn"@),
{
    reveal_strlit("transit_gateway_arn");
    reveal_strlit("TransitGatewayArn");
    reveal_with_fuel(bare, 20);
    assert(bare("transit_gateway_arn"@, 19) =~= bare("TransitGatewayArn"@, 17));
}

proof fn lemma_alike_transit_gateway_cidr_blocks()
    ensures
        alike("transit_gateway_cidr_blocks"@, "TransitGatewayCidrBlocks"@),
{
    reveal_strlit("transit_gateway_cidr_blocks");
    reveal_strlit("TransitGatewayCidrBlocks");
    reveal_with_fuel(bare, 28);
    assert(bare("transit_gateway_cidr_blocks"@, 27) =~= bare("TransitGatewayCidrBlocks"@, 24));
}

proof fn lemma_alike_vpn_ecmp_support()
    ensures
        alike("vpn_ecmp_support"@, "VpnEcmpSupport"@),
{
    reveal_strlit("vpn_ecmp_support");
    reveal_strlit("VpnEcmpSupport");
    reveal_with_fuel(bare, 17);
    assert(bare("vpn_ecmp_support"@, 16) =~= bare("VpnEcmpSupport"@, 14));
}

proof fn lemma_alike_peer_owner_id()
    ensures
        alike("peer_owner_id"@, "PeerOwnerId"@),
{
    reveal_strlit("peer_owner_id");
    reveal_strlit("PeerOwnerId");
    reveal_with_fuel(bare, 14);
    assert(bare("peer_owner_id"@, 13) =~= bare("PeerOwnerId"@, 11));
}

proof fn lemma_alike_peer_region()
    ensures
        alike("peer_region"@, "PeerRegion"@),
{
    reveal_strlit("peer_region");
    reveal_strlit("PeerRegion");
    reveal_with_fuel(bare, 12);
    assert(bare("peer_region"@, 11) =~= bare("PeerRegion"@, 10));
}

proof fn lemma_alike_peer_role_arn()
    ensures
        alike("peer_role_arn"@, "PeerRoleArn"@),
{
    reveal_strlit("peer_role_arn");
    reveal_strlit("PeerRoleArn");
    reveal_with_fuel(bare, 14);
    assert(bare("peer_role_arn"@, 13) =~= bare("PeerRoleArn"@, 11));
}

proof fn lemma_alike_peer_vpc_id()
    ensures
        alike("peer_vpc_id"@, "PeerVpcId"@),
{
    reveal_strlit("peer_vpc_id");
    reveal_strlit("PeerVpcId");
    reveal_with_fuel(bare, 12);
    assert(bare("peer_vpc_id"@, 11) =~= bare("PeerVpcId"@, 9));
}

proof fn lemma_alike_abac_status()
    ensures
        alike("abac_status"@, "AbacStatus"@),
{
    reveal_strlit("abac_status");
    reveal_strlit("AbacStatus");
    reveal_with_fuel(bare, 12);
    assert(bare("abac_status"@, 11) =~= bare("AbacStatus"@, 10));
}

proof fn lemma_alike_accelerate_configuration()
    ensures
        alike("accelerate_configuration"@, "AccelerateConfiguration"@),
{
    reveal_strlit("accelerate_configuration");
    reveal_strlit("AccelerateConfiguration");
    reveal_with_fuel(bare, 25);
    assert(bare("accelerate_configuration"@, 24) =~= bare("AccelerateConfiguration"@, 23));
}

proof fn lemma_alike_access_control()
    ensures
        alike("access_control"@, "AccessControl"@),
{
    reveal_strlit("access_control");
    reveal_strlit("AccessControl");
    reveal_with_fuel(bare, 15);
    assert(bare("access_control"@, 14) =~= bare("AccessControl"@, 13));
}

proof fn lemma_alike_analytics_configurations()
    ensures
        alike("analytics_configurations"@, "AnalyticsConfigurations"@),
{
    reveal_strlit("analytics_configurations");
    reveal_strlit("AnalyticsConfigurations");
    reveal_with_fuel(bare, 25);
    assert(bare("analytics_configurations"@, 24) =~= bare("AnalyticsConfigurations"@, 23));
}

proof fn lemma_alike_bucket_encryption()
    ensures
        alike("bucket_encryption"@, "BucketEncryption"@),
{
    reveal_strlit("bucket_encryption");
    reveal_strlit("BucketEncryption");
    reveal_with_fuel(bare, 18);
    assert(bare("bucket_encryption"@, 17) =~= bare("BucketEncryption"@, 16));
}

proof fn lemma_alike_bucket_name()
    ensures
        alike("bucket_name"@, "BucketName"@),
{
    reveal_strlit("bucket_name");
    reveal_strlit("BucketName");
    reveal_with_fuel(bare, 12);
    assert(bare("bucket_name"@, 11) =~= bare("BucketName"@, 10));
}

proof fn lemma_alike_cors_configuration()
    ensures
        alike("cors_configuration"@, "CorsConfiguration"@),
{
    reveal_strlit("cors_configuration");
    reveal_strlit("CorsConfiguration");
    reveal_with_fuel(bare, 19);
    assert(bare("cors_configuration"@, 18) =~= bare("CorsConfiguration"@, 17));
}

proof fn lemma_alike_domain_name()
    ensures
        alike("domain_name"@, "DomainName"@),
{
    reveal_strlit("domain_name");
    reveal_strlit("DomainName");
    reveal_with_fuel(bare, 12);
    assert(bare("domain_name"@, 11) =~= bare("DomainName"@, 10));
}

proof fn lemma_alike_dual_stack_domain_name()
    ensures
        alike("dual_stack_domain_name"@, "DualStackDomainName"@),
{
    reveal_strlit("dual_stack_domain_name");
    reveal_strlit("DualStackDomainName");
    reveal_with_fuel(bare, 23);
    assert(bare("dual_stack_domain_name"@, 22) =~= bare("DualStackDomainName"@, 19));
}

proof fn lemma_alike_intelligent_tiering_configurations()
    ensures
        alike("intelligent_tiering_configurations"@, "IntelligentTieringConfigurations"@),
{
    reveal_strlit("intelligent_tiering_configurations");
    reveal_strlit("IntelligentTieringConfigurations");
    reveal_with_fuel(bare, 35);
    assert(bare("intelligent_tiering_configurations"@, 34) =~= bare("IntelligentTieringConfigurations"@, 32));
}

proof fn lemma_alike_inventory_configurations()
    ensures
        alike("inventory_configurations"@, "InventoryConfigurations"@),
{
    reveal_strlit("inventory_configurations");
    reveal_strlit("InventoryConfigurations");
    reveal_with_fuel(bare, 25);
    assert(bare("inventory_configurations"@, 24) =~= bare("InventoryConfigurations"@, 23));
}

proof fn lemma_alike_lifecycle_configuration()
    ensures
        alike("lifecycle_configuration"@, "LifecycleConfiguration"@),
{
    reveal_strlit("lifecycle_configuration");
    reveal_strlit("LifecycleConfiguration");
    reveal_with_fuel(bare, 24);
    assert(bare("lifecycle_configuration"@, 23) =~= bare("LifecycleConfiguration"@, 22));
}

proof fn lemma_alike_logging_configuration()
    ensures
        alike("logging_configuration"@, "LoggingConfiguration"@),
{
    reveal_strlit("logging_configuration");
    reveal_strlit("LoggingConfiguration");
    reveal_with_fuel(bare, 22);
    assert(bare("logging_configuration"@, 21) =~= bare("LoggingConfiguration"@, 20));
}

proof fn lemma_alike_metadata_configuration()
    ensures
        alike("metadata_configuration"@, "MetadataConfiguration"@),
{
    reveal_strlit("metadata_configuration");
    reveal_strlit("MetadataConfiguration");
    reveal_with_fuel(bare, 23);
    assert(bare("metadata_configuration"@, 22) =~= bare("MetadataConfiguration"@, 21));
}

proof fn lemma_alike_metadata_table_configuration()
    ensures
        alike("metadata_table_configuration"@, "MetadataTableConfiguration"@),
{
    reveal_strlit("metadata_table_configuration");
    reveal_strlit("MetadataTableConfiguration");
    reveal_with_fuel(bare, 29);
    assert(bare("metadata_table_configuration"@, 28) =~= bare("MetadataTableConfiguration"@, 26));
}

proof fn lemma_alike_metrics_configurations()
    ensures
        alike("metrics_configurations"@, "MetricsConfigurations"@),
{
    reveal_strlit("metrics_configurations");
    reveal_strlit("MetricsConfigurations");
    reveal_with_fuel(bare, 23);
    assert(bare("metrics_configurations"@, 22) =~= bare("MetricsConfigurations"@, 21));
}

proof fn lemma_alike_notification_configuration()
    ensures
        alike("notification_configuration"@, "NotificationConfiguration"@),
{
    reveal_strlit("notification_configuration");
    reveal_strlit("NotificationConfiguration");
    reveal_with_fuel(bare, 27);
    assert(bare("notification_configuration"@, 26) =~= bare("NotificationConfiguration"@, 25));
}

proof fn lemma_alike_object_lock_configuration()
    ensures
        alike("object_lock_configuration"@, "ObjectLockConfiguration"@),
{
    reveal_strlit("object_lock_configuration");
    reveal_strlit("ObjectLockConfiguration");
    reveal_with_fuel(bare, 26);
    assert(bare("object_lock_configuration"@, 25) =~= bare("ObjectLockConfiguration"@, 23));
}

proof fn lemma_alike_object_lock_enabled()
    ensures
        alike("object_lock_enabled"@, "ObjectLockEnabled"@),
{
    reveal_strlit("object_lock_enabled");
    reveal_strlit("ObjectLockEnabled");
    reveal_with_fuel(bare, 20);
    assert(bare("object_lock_enabled"@, 19) =~= bare("ObjectLockEnabled"@, 17));
}

proof fn lemma_alike_ownership_controls()
    ensures
        alike("ownership_controls"@, "OwnershipControls"@),
{
    reveal_strlit("ownership_controls");
    reveal_strlit("OwnershipControls");
    reveal_with_fuel(bare, 19);
    assert(bare("ownership_controls"@, 18) =~= bare("OwnershipControls"@, 17));
}

proof fn lemma_alike_public_access_block_configuration()
    ensures
        alike("public_access_block_configuration"@, "PublicAccessBlockConfiguration"@),
{
    reveal_strlit("public_access_block_configuration");
    reveal_strlit("PublicAccessBlockConfiguration");
    reveal_with_fuel(bare, 34);
    assert(bare("public_access_block_configuration"@, 33) =~= bare("PublicAccessBlockConfiguration"@, 30));
}

proof fn lemma_alike_regional_domain_name()
    ensures
        alike("regional_domain_name"@, "RegionalDomainName"@),
{
    reveal_strlit("regional_domain_name");
    reveal_strlit("RegionalDomainName");
    reveal_with_fuel(bare, 21);
    assert(bare("regional_domain_name"@, 20) =~= bare("RegionalDomainName"@, 18));
}

proof fn lemma_alike_replication_configuration()
    ensures
        alike("replication_configuration"@, "ReplicationConfiguration"@),
{
    reveal_strlit("replication_configuration");
    reveal_strlit("ReplicationConfiguration");
    reveal_with_fuel(bare, 26);
    assert(bare("replication_configuration"@, 25) =~= bare("ReplicationConfiguration"@, 24));
}

proof fn lemma_alike_versioning_configuration()
    ensures
        alike("versioning_configuration"@, "VersioningConfiguration"@),
{
    reveal_strlit("versioning_configuration");
    reveal_strlit("VersioningConfiguration");
    reveal_with_fuel(bare, 25);
    assert(bare("versioning_configuration"@, 24) =~= bare("VersioningConfiguration"@, 23));
}

proof fn lemma_alike_website_configuration()
    ensures
        alike("website_configuration"@, "WebsiteConfiguration"@),
{
    reveal_strlit("website_configuration");
    reveal_strlit("WebsiteConfiguration");
    reveal_with_fuel(bare, 22);
    assert(bare("website_configuration"@, 21) =~= bare("WebsiteConfiguration"@, 20));
}

proof fn lemma_alike_website_url()
    ensures
        alike("website_url"@, "WebsiteURL"@),
{
    reveal_strlit("website_url");
    reveal_strlit("WebsiteURL");
    reveal_with_fuel(bare, 12);
    assert(bare("website_url"@, 11) =~= bare("WebsiteURL"@, 10));
}

proof fn lemma_alike_assume_role_policy_document()
    ensures
        alike("assume_role_policy_document"@, "AssumeRolePolicyDocument"@),
{
    reveal_strlit("assume_role_policy_document");
    reveal_strlit("AssumeRolePolicyDocument");
    reveal_with_fuel(bare, 28);
    assert(bare("assume_role_policy_document"@, 27) =~= bare("AssumeRolePolicyDocument"@, 24));
}

proof fn lemma_alike_managed_policy_arns()
    ensures
        alike("managed_policy_arns"@, "ManagedPolicyArns"@),
{
    reveal_strlit("managed_policy_arns");
    reveal_strlit("ManagedPolicyArns");
    reveal_with_fuel(bare, 20);
    assert(bare("managed_policy_arns"@, 19) =~= bare("ManagedPolicyArns"@, 17));
}

proof fn lemma_alike_max_session_duration()
    ensures
        alike("max_session_duration"@, "MaxSessionDuration"@),
{
    reveal_strlit("max_session_duration");
    reveal_strlit("MaxSessionDuration");
    reveal_with_fuel(bare, 21);
    assert(bare("max_session_duration"@, 20) =~= bare("MaxSessionDuration"@, 18));
}

proof fn lemma_alike_path()
    ensures
        alike("path"@, "Path"@),
{
    reveal_strlit("path");
    reveal_strlit("Path");
    reveal_with_fuel(bare, 5);
    assert(bare("path"@, 4) =~= bare("Path"@, 4));
}

proof fn lemma_alike_permissions_boundary()
    ensures
        alike("permissions_boundary"@, "PermissionsBoundary"@),
{
    reveal_strlit("permissions_boundary");
    reveal_strlit("PermissionsBoundary");
    reveal_with_fuel(bare, 21);
    assert(bare("permissions_boundary"@, 20) =~= bare("PermissionsBoundary"@, 19));
}

proof fn lemma_alike_policies()
    ensures
        alike("policies"@, "Policies"@),
{
    reveal_strlit("policies");
    reveal_strlit("Policies");
    reveal_with_fuel(bare, 9);
    assert(bare("policies"@, 8) =~= bare("Policies"@, 8));
}

proof fn lemma_alike_role_id()
    ensures
        alike("role_id"@, "RoleId"@),
{
    reveal_strlit("role_id");
    reveal_strlit("RoleId");
    reveal_with_fuel(bare, 8);
    assert(bare("role_id"@, 7) =~= bare("RoleId"@, 6));
}

proof fn lemma_alike_role_name()
    ensures
        alike("role_name"@, "RoleName"@),
{
    reveal_strlit("role_name");
    reveal_strlit("RoleName");
    reveal_with_fuel(bare, 10);
    assert(bare("role_name"@, 9) =~= bare("RoleName"@, 8));
}

proof fn lemma_alike_data_protection_policy()
    ensures
        alike("data_protection_policy"@, "DataProtectionPolicy"@),
{
    reveal_strlit("data_protection_policy");
    reveal_strlit("DataProtectionPolicy");
    reveal_with_fuel(bare, 23);
    assert(bare("data_protection_policy"@, 22) =~= bare("DataProtectionPolicy"@, 20));
}

proof fn lemma_alike_deletion_protection_enabled()
    ensures
        alike("deletion_protection_enabled"@, "DeletionProtectionEnabled"@),
{
    reveal_strlit("deletion_protection_enabled");
    reveal_strlit("DeletionProtectionEnabled");
    reveal_with_fuel(bare, 28);
    assert(bare("deletion_protection_enabled"@, 27) =~= bare("DeletionProtectionEnabled"@, 25));
}

proof fn lemma_alike_field_index_policies()
    ensures
        alike("field_index_policies"@, "FieldIndexPolicies"@),
{
    reveal_strlit("field_index_policies");
    reveal_strlit("FieldIndexPolicies");
    reveal_with_fuel(bare, 21);
    assert(bare("field_index_policies"@, 20) =~= bare("FieldIndexPolicies"@, 18));
}

proof fn lemma_alike_kms_key_id()
    ensures
        alike("kms_key_id"@, "KmsKeyId"@),
{
    reveal_strlit("kms_key_id");
    reveal_strlit("KmsKeyId");
    reveal_with_fuel(bare, 11);
    assert(bare("kms_key_id"@, 10) =~= bare("KmsKeyId"@, 8));
}

proof fn lemma_alike_log_group_class()
    ensures
        alike("log_group_class"@, "LogGroupClass"@),
{
    reveal_strlit("log_group_class");
    reveal_strlit("LogGroupClass");
    reveal_with_fuel(bare, 16);
    assert(bare("log_group_class"@, 15) =~= bare("LogGroupClass"@, 13));
}

proof fn lemma_alike_resource_policy_document()
    ensures
        alike("resource_policy_document"@, "ResourcePolicyDocument"@),
{
    reveal_strlit("resource_policy_document");
    reveal_strlit("ResourcePolicyDocument");
    reveal_with_fuel(bare, 25);
    assert(bare("resource_policy_document"@, 24) =~= bare("ResourcePolicyDocument"@, 22));
}

proof fn lemma_alike_retention_in_days()
    ensures
        alike("retention_in_days"@, "RetentionInDays"@),
{
    reveal_strlit("retention_in_days");
    reveal_strlit("RetentionInDays");
    reveal_with_fuel(bare, 18);
    assert(bare("retention_in_days"@, 17) =~= bare("RetentionInDays"@, 15));
}

#[verifier::spinoff_prover]
#[verifier::rlimit(60)]
proof fn lemma_vpc()
    ensures
        all_alike(vpc::config().schema.attributes),
{
    lemma_alike_cidr_block();
    lemma_alike_cidr_block_associations();
    lemma_alike_default_network_acl();
    lemma_alike_default_security_group();
    lemma_alike_enable_dns_hostnames();
    lemma_alike_enable_dns_support();
    lemma_alike_instance_tenancy();
    lemma_alike_ipv4_ipam_pool_id();
    lemma_alike_ipv4_netmask_length();
    lemma_alike_ipv6_cidr_blocks();
    lemma_alike_tags();
    lemma_alike_vpc_id();
    lemma_stay_alike();
}

#[verifier::spinoff_prover]
#[verifier::rlimit(60)]
proof fn lemma_subnet()
    ensures
        all_alike(subnet::config().schema.attributes),
{
    lemma_alike_assign_ipv6_address_on_creation();
    lemma_alike_availability_zone();
    lemma_alike_availability_zone_id();
    lemma_alike_block_public_access_states();
    lemma_alike_cidr_block();
    lemma_alike_enable_dns64();
    lemma_alike_enable_lni_at_device_index();
    lemma_alike_ipv4_ipam_pool_id();
    lemma_alike_ipv4_netmask_length();
    lemma_alike_ipv6_cidr_block();
    lemma_alike_ipv6_cidr_blocks();
    lemma_alike_ipv6_ipam_pool_id();
    lemma_alike_ipv6_native();
    lemma_alike_ipv6_netmask_length();
    lemma_alike_map_public_ip_on_launch();
    lemma_alike_network_acl_association_id();
    lemma_alike_outpost_arn();
    lemma_alike_private_dns_name_options_on_launch();
    lemma_alike_subnet_id();
    lemma_alike_tags();
    lemma_alike_vpc_id();
    lemma_stay_alike();
}

#[verifier::spinoff_prover]
#[verifier::rlimit(60)]
proof fn lemma_eip()
    ensures
        all_alike(eip::config().schema.attributes),
{
    lemma_alike_address();
    lemma_alike_allocation_id();
    lemma_alike_domain();
    lemma_alike_instance_id();
    lemma_alike_ipam_pool_id();
    lemma_alike_network_border_group();
    lemma_alike_public_ip();
    lemma_alike_public_ipv4_pool();
    lemma_alike_tags();
    lemma_alike_transfer_address();
    lemma_stay_alike();
}

#[verifier::spinoff_prover]
#[verifier::rlimit(60)]
proof fn lemma_nat_gateway()
    ensures
        all_alike(nat_gateway::config().schema.attributes),
{
    lemma_alike_allocation_id();
    lemma_alike_auto_provision_zones();
    lemma_alike_auto_scaling_ips();
    lemma_alike_availability_mode();
    lemma_alike_availability_zone_addresses();
    lemma_alike_connectivity_type();
    lemma_alike_eni_id();
    lemma_alike_max_drain_duration_seconds();
    lemma_alike_nat_gateway_id();
    lemma_alike_private_ip_address();
    lemma_alike_route_table_id();
    lemma_alike_secondary_allocation_ids();
    lemma_alike_secondary_private_ip_address_count();
    lemma_alike_secondary_private_ip_addresses();
    lemma_alike_subnet_id();
    lemma_alike_tags();
    lemma_alike_vpc_id();
    lemma_stay_alike();
}

#[verifier::spinoff_prover]
#[verifier::rlimit(60)]
proof fn lemma_security_group()
    ensures
        all_alike(security_group::config().schema.attributes),
{
    lemma_alike_group_description();
    lemma_alike_group_id();
    lemma_alike_group_name();
    lemma_alike_id();
    lemma_alike_security_group_egress();
    lemma_alike_security_group_ingress();
    lemma_alike_tags();
    lemma_alike_vpc_id();
    lemma_stay_alike();
}

#[verifier::spinoff_prover]
#[verifier::rlimit(60)]
proof fn lemma_security_group_egress()
    ensures
        all_alike(security_group_egress::config().schema.attributes),
{
    lemma_alike_cidr_ip();
    lemma_alike_cidr_ipv6();
    lemma_alike_description();
    lemma_alike_destination_prefix_list_id();
    lemma_alike_destination_security_group_id();
    lemma_alike_from_port();
    lemma_alike_group_id();
    lemma_alike_id();
    lemma_alike_ip_protocol();
    lemma_alike_to_port();
    lemma_stay_alike();
}

#[verifier::spinoff_prover]
#[verifier::rlimit(60)]
proof fn lemma_vpc_endpoint()
    ensures
        all_alike(vpc_endpoint::config().schema.attributes),
{
    lemma_alike_creation_timestamp();
    lemma_alike_dns_entries();
    lemma_alike_dns_options();
    lemma_alike_id();
    lemma_alike_ip_address_type();
    lemma_alike_network_interface_ids();
    lemma_alike_policy_document();
    lemma_alike_private_dns_enabled();
    lemma_alike_resource_configuration_arn();
    lemma_alike_route_table_ids();
    lemma_alike_security_group_ids();
    lemma_alike_service_name();
    lemma_alike_service_network_arn();
    lemma_alike_service_region();
    lemma_alike_subnet_ids();
    lemma_alike_tags();
    lemma_alike_vpc_endpoint_type();
    lemma_alike_vpc_id();
    lemma_stay_alike();
}

#[verifier::spinoff_prover]
#[verifier::rlimit(60)]
proof fn lemma_flow_log()
    ensures
        all_alike(flow_log::config().schema.attributes),
{
    lemma_alike_deliver_cross_account_role();
    lemma_alike_deliver_logs_permission_arn();
    lemma_alike_destination_options();
    lemma_alike_id();
    lemma_alike_log_destination();
    lemma_alike_log_destination_type();
    lemma_alike_log_format();
    lemma_alike_log_group_name();
    lemma_alike_max_aggregation_interval();
    lemma_alike_resource_id();
    lemma_alike_resource_type();
    lemma_alike_tags();
    lemma_alike_traffic_type();
    lemma_stay_alike();
}

#[verifier::spinoff_prover]
#[verifier::rlimit(60)]
proof fn lemma_ipam()
    ensures
        all_alike(ipam::config().schema.attributes),
{
    lemma_alike_arn();
    lemma_alike_default_resource_discovery_association_id();
    lemma_alike_default_resource_discovery_id();
    lemma_alike_default_resource_discovery_organizational_unit_exclusions();
    lemma_alike_description();
    lemma_alike_enable_private_gua();
    lemma_alike_ipam_id();
    lemma_alike_metered_account();
    lemma_alike_operating_regions();
    lemma_alike_private_default_scope_id();
    lemma_alike_public_default_scope_id();
    lemma_alike_resource_discovery_association_count();
    lemma_alike_scope_count();
    lemma_alike_tags();
    lemma_alike_tier();
    lemma_stay_alike();
}

#[verifier::spinoff_prover]
#[verifier::rlimit(60)]
proof fn lemma_vpn_gateway()
    ensures
        all_alike(vpn_gateway::config().schema.attributes),
{
    lemma_alike_amazon_side_asn();
    lemma_alike_tags();
    lemma_alike_type();
    lemma_alike_vpn_gateway_id();
    lemma_stay_alike();
}

#[verifier::spinoff_prover]
#[verifier::rlimit(60)]
proof fn lemma_transit_gateway()
    ensures
        all_alike(transit_gateway::config().schema.attributes),
{
    lemma_alike_amazon_side_asn();
    lemma_alike_association_default_route_table_id();
    lemma_alike_auto_accept_shared_attachments();
    lemma_alike_default_route_table_association();
    lemma_alike_default_route_table_propagation();
    lemma_alike_description();
    lemma_alike_dns_support();
    lemma_alike_encryption_support();
    lemma_alike_encryption_support_state();
    lemma_alike_id();
    lemma_alike_multicast_support();
    lemma_alike_propagation_default_route_table_id();
    lemma_alike_security_group_referencing_support();
    lemma_alike_tags();
    lemma_alike_transit_gateway_arn();
    lemma_alike_transit_gateway_cidr_blocks();
    lemma_alike_vpn_ecmp_support();
    lemma_stay_alike();
}

#[verifier::spinoff_prover]
#[verifier::rlimit(60)]
proof fn lemma_vpc_peering_connection()
    ensures
        all_alike(vpc_peering_connection::config().schema.attributes),
{
    lemma_alike_id();
    lemma_alike_peer_owner_id();
    lemma_alike_peer_region();
    lemma_alike_peer_role_arn();
    lemma_alike_peer_vpc_id();
    lemma_alike_tags();
    lemma_alike_vpc_id();
    lemma_stay_alike();
}

#[verifier::spinoff_prover]
#[verifier::rlimit(60)]
proof fn lemma_egress_only_internet_gateway()
    ensures
        all_alike(egress_only_internet_gateway::config().schema.attributes),
{
    lemma_alike_id();
    lemma_alike_tags();
    lemma_alike_vpc_id();
    lemma_stay_alike();
}

#[verifier::spinoff_prover]
#[verifier::rlimit(60)]
proof fn lemma_bucket()
    ensures
        all_alike(bucket::config().schema.attributes),
{
    lemma_alike_abac_status();
    lemma_alike_accelerate_configuration();
    lemma_alike_access_control();
    lemma_alike_analytics_configurations();
    lemma_alike_arn();
    lemma_alike_bucket_encryption();
    lemma_alike_bucket_name();
    lemma_alike_cors_configuration();
    lemma_alike_domain_name();
    lemma_alike_dual_stack_domain_name();
    lemma_alike_intelligent_tiering_configurations();
    lemma_alike_inventory_configurations();
    lemma_alike_lifecycle_configuration();
    lemma_alike_logging_configuration();
    lemma_alike_metadata_configuration();
    lemma_alike_metadata_table_configuration();
    lemma_alike_metrics_configurations();
    lemma_alike_notification_configuration();
    lemma_alike_object_lock_configuration();
    lemma_alike_object_lock_enabled();
    lemma_alike_ownership_controls();
    lemma_alike_public_access_block_configuration();
    lemma_alike_regional_domain_name();
    lemma_alike_replication_configuration();
    lemma_alike_tags();
    lemma_alike_versioning_configuration();
    lemma_alike_website_configuration();
    lemma_alike_website_url();
    lemma_stay_alike();
}

#[verifier::spinoff_prover]
#[verifier::rlimit(60)]
proof fn lemma_iam_role()
    ensures
        all_alike(iam_role::config().schema.attributes),
{
    lemma_alike_arn();
    lemma_alike_assume_role_policy_document();
    lemma_alike_description();
    lemma_alike_managed_policy_arns();
    lemma_alike_max_session_duration();
    lemma_alike_path();
    lemma_alike_permissions_boundary();
    lemma_alike_policies();
    lemma_alike_role_id();
    lemma_alike_role_name();
    lemma_alike_tags();
    lemma_stay_alike();
}

#[verifier::spinoff_prover]
#[verifier::rlimit(60)]
proof fn lemma_log_group()
    ensures
        all_alike(log_group::config().schema.attributes),
{
    lemma_alike_arn();
    lemma_alike_data_protection_policy();
    lemma_alike_deletion_protection_enabled();
    lemma_alike_field_index_policies();
    lemma_alike_kms_key_id();
    lemma_alike_log_group_class();
    lemma_alike_log_group_name();
    lemma_alike_resource_policy_document();
    lemma_alike_retention_in_days();
    lemma_alike_tags();
    lemma_stay_alike();
}

/// In every schema, each attribute is named like the property that the service has
/// for it: the same letters and digits in the same order, in snake case.
pub proof fn law_attributes_are_named_like_their_properties(i: int, k: int)
    requires
        0 <= i < registry::all_configs().len(),
        0 <= k < registry::all_configs()[i].schema.attributes.len(),
    ensures
        ({
            let (name, a) = registry::all_configs()[i].schema.attributes[k];
            &&& a.name == name
            &&& a.provider_name matches Some(p) ==> alike(name, p)
        }),
{
    reveal(registry::all_configs);
    lemma_vpc();
    lemma_subnet();
    lemma_eip();
    lemma_nat_gateway();
    lemma_security_group();
    lemma_security_group_egress();
    lemma_vpc_endpoint();
    lemma_flow_log();
    lemma_ipam();
    lemma_vpn_gateway();
    lemma_transit_gateway();
    lemma_vpc_peering_connection();
    lemma_egress_only_internet_gateway();
    lemma_bucket();
    lemma_iam_role();
    lemma_log_group();
    assert(all_alike(registry::all_configs()[i].schema.attributes));
    assert(named_alike(registry::all_configs()[i].schema.attributes[k]));
}

/// The first `n` characters of the name of a type in lower case, without what stands
/// between its words.
pub open spec fn letters(s: Seq<char>, n: int) -> Seq<char>
    decreases n,
{
    if n <= 0 {
        Seq::empty()
    } else if s[n - 1] == '_' || s[n - 1] == ':' || s[n - 1] == '.' {
        letters(s, n - 1)
    } else {
        letters(s, n - 1).push(text::ascii_lower(s[n - 1]))
    }
}

/// The name of a type in CloudFormation and its own name behind `aws.` are the same
/// but for what stands between the words and the case of letters.
pub open spec fn same_type(c: ConfigView) -> bool {
    let own = "aws."@ + c.resource_type_name;
    letters(c.aws_type_name, c.aws_type_name.len() as int) == letters(own, own.len() as int)
}

proof fn lemma_type_vpc()
    ensures
        same_type(vpc::config()),
{
    reveal_strlit("AWS::EC2::VPC");
    reveal_strlit("ec2.vpc");
    reveal_strlit("aws.");
    reveal_with_fuel(letters, 14);
    let own = "aws."@ + "ec2.vpc"@;
    assert(letters("AWS::EC2::VPC"@, 13) =~= letters(own, 11));
}

proof fn lemma_type_subnet()
    ensures
        same_type(subnet::config()),
{
    reveal_strlit("AWS::EC2::Subnet");
    reveal_strlit("ec2.subnet");
    reveal_strlit("aws.");
    reveal_with_fuel(letters, 17);
    let own = "aws."@ + "ec2.subnet"@;
    assert(letters("AWS::EC2::Subnet"@, 16) =~= letters(own, 14));
}

proof fn lemma_type_eip()
    ensures
        same_type(eip::config()),
{
    reveal_strlit("AWS::EC2::EIP");
    reveal_strlit("ec2.eip");
    reveal_strlit("aws.");
    reveal_with_fuel(letters, 14);
    let own = "aws."@ + "ec2.eip"@;
    assert(letters("AWS::EC2::EIP"@, 13) =~= letters(own, 11));
}

proof fn lemma_type_nat_gateway()
    ensures
        same_type(nat_gateway::config()),
{
    reveal_strlit("AWS::EC2::NatGateway");
    reveal_strlit("ec2.nat_gateway");
    reveal_strlit("aws.");
    reveal_with_fuel(letters, 21);
    let own = "aws."@ + "ec2.nat_gateway"@;
    assert(letters("AWS::EC2::NatGateway"@, 20) =~= letters(own, 19));
}

proof fn lemma_type_security_group()
    ensures
        same_type(security_group::config()),
{
    reveal_strlit("AWS::EC2::SecurityGroup");
    reveal_strlit("ec2.security_group");
    reveal_strlit("aws.");
    reveal_with_fuel(letters, 24);
    let own = "aws."@ + "ec2.security_group"@;
    assert(letters("AWS::EC2::SecurityGroup"@, 23) =~= letters(own, 22));
}

proof fn lemma_type_security_group_egress()
    ensures
        same_type(security_group_egress::config()),
{
    reveal_strlit("AWS::EC2::SecurityGroupEgress");
    reveal_strlit("ec2.security_group_egress");
    reveal_strlit("aws.");
    reveal_with_fuel(letters, 30);
    let own = "aws."@ + "ec2.security_group_egress"@;
    assert(letters("AWS::EC2::SecurityGroupEgress"@, 29) =~= letters(own, 29));
}

proof fn lemma_type_vpc_endpoint()
    ensures
        same_type(vpc_endpoint::config()),
{
    reveal_strlit("AWS::EC2::VPCEndpoint");
    reveal_strlit("ec2.vpc_endpoint");
    reveal_strlit("aws.");
    reveal_with_fuel(letters, 22);
    let own = "aws."@ + "ec2.vpc_endpoint"@;
    assert(letters("AWS::EC2::VPCEndpoint"@, 21) =~= letters(own, 20));
}

proof fn lemma_type_flow_log()
    ensures
        same_type(flow_log::config()),
{
    reveal_strlit("AWS::EC2::FlowLog");
    reveal_strlit("ec2.flow_log");
    reveal_strlit("aws.");
    reveal_with_fuel(letters, 18);
    let own = "aws."@ + "ec2.flow_log"@;
    assert(letters("AWS::EC2::FlowLog"@, 17) =~= letters(own, 16));
}

proof fn lemma_type_ipam()
    ensures
        same_type(ipam::config()),
{
    reveal_strlit("AWS::EC2::IPAM");
    reveal_strlit("ec2.ipam");
    reveal_strlit("aws.");
    reveal_with_fuel(letters, 15);
    let own = "aws."@ + "ec2.ipam"@;
    assert(letters("AWS::EC2::IPAM"@, 14) =~= letters(own, 12));
}

proof fn lemma_type_vpn_gateway()
    ensures
        same_type(vpn_gateway::config()),
{
    reveal_strlit("AWS::EC2::VPNGateway");
    reveal_strlit("ec2.vpn_gateway");
    reveal_strlit("aws.");
    reveal_with_fuel(letters, 21);
    let own = "aws."@ + "ec2.vpn_gateway"@;
    assert(letters("AWS::EC2::VPNGateway"@, 20) =~= letters(own, 19));
}

proof fn lemma_type_transit_gateway()
    ensures
        same_type(transit_gateway::config()),
{
    reveal_strlit("AWS::EC2::TransitGateway");
    reveal_strlit("ec2.transit_gateway");
    reveal_strlit("aws.");
    reveal_with_fuel(letters, 25);
    let own = "aws."@ + "ec2.transit_gateway"@;
    assert(letters("AWS::EC2::TransitGateway"@, 24) =~= letters(own, 23));
}

proof fn lemma_type_vpc_peering_connection()
    ensures
        same_type(vpc_peering_connection::config()),
{
    reveal_strlit("AWS::EC2::VPCPeeringConnection");
    reveal_strlit("ec2.vpc_peering_connection");
    reveal_strlit("aws.");
    reveal_with_fuel(letters, 31);
    let own = "aws."@ + "ec2.vpc_peering_connection"@;
    assert(letters("AWS::EC2::VPCPeeringConnection"@, 30) =~= letters(own, 30));
}

proof fn lemma_type_egress_only_internet_gateway()
    ensures
        same_type(egress_only_internet_gateway::config()),
{
    reveal_strlit("AWS::EC2::EgressOnlyInternetGateway");
    reveal_strlit("ec2.egress_only_internet_gateway");
    reveal_strlit("aws.");
    reveal_with_fuel(letters, 37);
    let own = "aws."@ + "ec2.egress_only_internet_gateway"@;
    assert(letters("AWS::EC2::EgressOnlyInternetGateway"@, 35) =~= letters(own, 36));
}

proof fn lemma_type_bucket()
    ensures
        same_type(bucket::config()),
{
    reveal_strlit("AWS::S3::Bucket");
    reveal_strlit("s3.bucket");
    reveal_strlit("aws.");
    reveal_with_fuel(letters, 16);
    let own = "aws."@ + "s3.bucket"@;
    assert(letters("AWS::S3::Bucket"@, 15) =~= letters(own, 13));
}

proof fn lemma_type_iam_role()
    ensures
        same_type(iam_role::config()),
{
    reveal_strlit("AWS::IAM::Role");
    reveal_strlit("iam.role");
    reveal_strlit("aws.");
    reveal_with_fuel(letters, 15);
    let own = "aws."@ + "iam.role"@;
    assert(letters("AWS::IAM::Role"@, 14) =~= letters(own, 12));
}

proof fn lemma_type_log_group()
    ensures
        same_type(log_group::config()),
{
    reveal_strlit("AWS::Logs::LogGroup");
    reveal_strlit("logs.log_group");
    reveal_strlit("aws.");
    reveal_with_fuel(letters, 20);
    let own = "aws."@ + "logs.log_group"@;
    assert(letters("AWS::Logs::LogGroup"@, 19) =~= letters(own, 18));
}

/// Every type is named like the one that CloudFormation has for it: the service and
/// the resource, in the same letters and digits.
pub proof fn law_types_are_named_like_those_of_the_service(i: int)
    requires
        0 <= i < registry::all_configs().len(),
    ensures
        same_type(registry::all_configs()[i]),
{
    reveal(registry::all_configs);
    lemma_type_vpc();
    lemma_type_subnet();
    lemma_type_eip();
    lemma_type_nat_gateway();
    lemma_type_security_group();
    lemma_type_security_group_egress();
    lemma_type_vpc_endpoint();
    lemma_type_flow_log();
    lemma_type_ipam();
    lemma_type_vpn_gateway();
    lemma_type_transit_gateway();
    lemma_type_vpc_peering_connection();
    lemma_type_egress_only_internet_gateway();
    lemma_type_bucket();
    lemma_type_iam_role();
    lemma_type_log_group();
}

} // verus!
