//! What holds of the form of every schema.
use vstd::prelude::*;

use crate::keyed;
use crate::schema;
use crate::schema::{AttrView, FieldView, SchemaView, TypeView};
use crate::schemas::bucket;
use crate::schemas::egress_only_internet_gateway;
use crate::schemas::eip;
use crate::schemas::flow_log;
use crate::schemas::iam_role;
use crate::schemas::ipam;
use crate::schemas::log_group;
use crate::schemas::nat_gateway;
use crate::schemas::registry;
use crate::schemas::security_group;
use crate::schemas::security_group_egress;
use crate::schemas::subnet;
use crate::schemas::transit_gateway;
use crate::schemas::vpc;
use crate::schemas::vpc_endpoint;
use crate::schemas::vpc_peering_connection;
use crate::schemas::vpn_gateway;

verus! {

/// No attribute has a property.
spec fn is_free(attributes: Seq<(Seq<char>, AttrView)>, property: Option<Seq<char>>) -> bool {
    property is Some ==> forall|i: int| 0 <= i < attributes.len() ==> (#[trigger] attributes[i]).1.provider_name != property
}

/// A property that no attribute has stays free when one with another is added.
proof fn lemma_stays_free()
    ensures
        forall|s: SchemaView, a: AttrView, p: Option<Seq<char>>|
            is_free(s.attributes, p) && a.provider_name != p ==> #[trigger] is_free(s.attribute(a).attributes, p),
{
    assert forall|s: SchemaView, a: AttrView, p: Option<Seq<char>>|
        is_free(s.attributes, p) && a.provider_name != p implies #[trigger] is_free(s.attribute(a).attributes, p) by {
        let m = s.attributes;
        let out = s.attribute(a).attributes;
        keyed::lemma_index_from(m, a.name, 0);
        assert forall|i: int| p is Some && 0 <= i < out.len() implies (#[trigger] out[i]).1.provider_name != p by {
            if out[i] != (a.name, a) {
                assert(out[i] == m[i]);
            }
        }
    }
}

/// Adding an attribute whose property is free leaves the properties distinct.
proof fn lemma_stays_distinct()
    ensures
        forall|s: SchemaView, a: AttrView| #![trigger s.attribute(a)]
            {
                &&& schema::distinct_properties(s.attributes)
                &&& is_free(s.attributes, a.provider_name)
                &&& a.name != "tags"@ ==> a.provider_name != Some("Tags"@)
            } ==> schema::distinct_properties(s.attribute(a).attributes),
{
    assert forall|s: SchemaView, a: AttrView| #![trigger s.attribute(a)]
        {
            &&& schema::distinct_properties(s.attributes)
            &&& is_free(s.attributes, a.provider_name)
            &&& a.name != "tags"@ ==> a.provider_name != Some("Tags"@)
        } implies schema::distinct_properties(s.attribute(a).attributes) by {
        let m = s.attributes;
        let out = s.attribute(a).attributes;
        keyed::law_set_then_lookup(m, a.name, a, a.name);
        keyed::lemma_index_from(m, a.name, 0);
        let at = match keyed::index_from(m, a.name, 0) {
            Some(i) => i,
            None => m.len() as int,
        };
        assert(out[at] == (a.name, a));
        assert forall|i: int| 0 <= i < out.len() && i != at implies #[trigger] out[i] == m[i] by {}
        assert forall|i: int, j: int|
            0 <= i < out.len() && 0 <= j < out.len() && i != j && (#[trigger] out[i]).1.provider_name is Some implies
                out[i].1.provider_name != (#[trigger] out[j]).1.provider_name by {
            if i == at {
                assert(m[j].1.provider_name != a.provider_name);
            } else if j == at {
                assert(m[i].1.provider_name is Some);
                if a.provider_name is Some {
                    assert(m[i].1.provider_name != a.provider_name);
                }
            } else {
                assert(m[i].1.provider_name != m[j].1.provider_name);
            }
        }
        assert forall|i: int| 0 <= i < out.len() && (#[trigger] out[i]).0 != "tags"@ implies out[i].1.provider_name
            != Some("Tags"@) by {
            if i != at {
                assert(m[i].0 == out[i].0);
            }
        }
    }
}

#[verifier::spinoff_prover]
#[verifier::rlimit(60)]
proof fn lemma_vpc_properties()
    ensures
        schema::distinct_properties(vpc::config().schema.attributes),
{
    reveal_strlit("CidrBlock");
    assert("CidrBlock"@.len() == 9);
    reveal_strlit("CidrBlockAssociations");
    assert("CidrBlockAssociations"@.len() == 21);
    reveal_strlit("DefaultNetworkAcl");
    assert("DefaultNetworkAcl"@.len() == 17);
    reveal_strlit("DefaultSecurityGroup");
    assert("DefaultSecurityGroup"@.len() == 20);
    reveal_strlit("EnableDnsHostnames");
    assert("EnableDnsHostnames"@.len() == 18);
    reveal_strlit("EnableDnsSupport");
    assert("EnableDnsSupport"@.len() == 16);
    reveal_strlit("InstanceTenancy");
    assert("InstanceTenancy"@.len() == 15);
    reveal_strlit("Ipv4IpamPoolId");
    assert("Ipv4IpamPoolId"@.len() == 14);
    reveal_strlit("Ipv4NetmaskLength");
    assert("Ipv4NetmaskLength"@.len() == 17);
    reveal_strlit("Ipv6CidrBlocks");
    assert("Ipv6CidrBlocks"@.len() == 14);
    reveal_strlit("Tags");
    assert("Tags"@.len() == 4);
    reveal_strlit("VpcId");
    assert("VpcId"@.len() == 5);
    assert("DefaultNetworkAcl"@[0] != "Ipv4NetmaskLength"@[0]);
    assert("Ipv4IpamPoolId"@[3] != "Ipv6CidrBlocks"@[3]);
    lemma_stays_free();
    lemma_stays_distinct();
}

#[verifier::spinoff_prover]
#[verifier::rlimit(60)]
proof fn lemma_subnet_properties()
    ensures
        schema::distinct_properties(subnet::config().schema.attributes),
{
    reveal_strlit("AssignIpv6AddressOnCreation");
    assert("AssignIpv6AddressOnCreation"@.len() == 27);
    reveal_strlit("AvailabilityZone");
    assert("AvailabilityZone"@.len() == 16);
    reveal_strlit("AvailabilityZoneId");
    assert("AvailabilityZoneId"@.len() == 18);
    reveal_strlit("BlockPublicAccessStates");
    assert("BlockPublicAccessStates"@.len() == 23);
    reveal_strlit("CidrBlock");
    assert("CidrBlock"@.len() == 9);
    reveal_strlit("EnableDns64");
    assert("EnableDns64"@.len() == 11);
    reveal_strlit("EnableLniAtDeviceIndex");
    assert("EnableLniAtDeviceIndex"@.len() == 22);
    reveal_strlit("Ipv4IpamPoolId");
    assert("Ipv4IpamPoolId"@.len() == 14);
    reveal_strlit("Ipv4NetmaskLength");
    assert("Ipv4NetmaskLength"@.len() == 17);
    reveal_strlit("Ipv6CidrBlock");
    assert("Ipv6CidrBlock"@.len() == 13);
    reveal_strlit("Ipv6CidrBlocks");
    assert("Ipv6CidrBlocks"@.len() == 14);
    reveal_strlit("Ipv6IpamPoolId");
    assert("Ipv6IpamPoolId"@.len() == 14);
    reveal_strlit("Ipv6Native");
    assert("Ipv6Native"@.len() == 10);
    reveal_strlit("Ipv6NetmaskLength");
    assert("Ipv6NetmaskLength"@.len() == 17);
    reveal_strlit("MapPublicIpOnLaunch");
    assert("MapPublicIpOnLaunch"@.len() == 19);
    reveal_strlit("NetworkAclAssociationId");
    assert("NetworkAclAssociationId"@.len() == 23);
    reveal_strlit("OutpostArn");
    assert("OutpostArn"@.len() == 10);
    reveal_strlit("PrivateDnsNameOptionsOnLaunch");
    assert("PrivateDnsNameOptionsOnLaunch"@.len() == 29);
    reveal_strlit("SubnetId");
    assert("SubnetId"@.len() == 8);
    reveal_strlit("Tags");
    assert("Tags"@.len() == 4);
    reveal_strlit("VpcId");
    assert("VpcId"@.len() == 5);
    assert("BlockPublicAccessStates"@[0] != "NetworkAclAssociationId"@[0]);
    assert("Ipv4IpamPoolId"@[3] != "Ipv6CidrBlocks"@[3]);
    assert("Ipv4IpamPoolId"@[3] != "Ipv6IpamPoolId"@[3]);
    assert("Ipv4NetmaskLength"@[3] != "Ipv6NetmaskLength"@[3]);
    assert("Ipv6CidrBlocks"@[4] != "Ipv6IpamPoolId"@[4]);
    assert("Ipv6Native"@[0] != "OutpostArn"@[0]);
    lemma_stays_free();
    lemma_stays_distinct();
}

#[verifier::spinoff_prover]
#[verifier::rlimit(60)]
proof fn lemma_eip_properties()
    ensures
        schema::distinct_properties(eip::config().schema.attributes),
{
    reveal_strlit("Address");
    assert("Address"@.len() == 7);
    reveal_strlit("AllocationId");
    assert("AllocationId"@.len() == 12);
    reveal_strlit("Domain");
    assert("Domain"@.len() == 6);
    reveal_strlit("InstanceId");
    assert("InstanceId"@.len() == 10);
    reveal_strlit("IpamPoolId");
    assert("IpamPoolId"@.len() == 10);
    reveal_strlit("NetworkBorderGroup");
    assert("NetworkBorderGroup"@.len() == 18);
    reveal_strlit("PublicIp");
    assert("PublicIp"@.len() == 8);
    reveal_strlit("PublicIpv4Pool");
    assert("PublicIpv4Pool"@.len() == 14);
    reveal_strlit("Tags");
    assert("Tags"@.len() == 4);
    reveal_strlit("TransferAddress");
    assert("TransferAddress"@.len() == 15);
    assert("InstanceId"@[1] != "IpamPoolId"@[1]);
    lemma_stays_free();
    lemma_stays_distinct();
}

#[verifier::spinoff_prover]
#[verifier::rlimit(60)]
proof fn lemma_nat_gateway_properties()
    ensures
        schema::distinct_properties(nat_gateway::config().schema.attributes),
{
    reveal_strlit("AllocationId");
    assert("AllocationId"@.len() == 12);
    reveal_strlit("AutoProvisionZones");
    assert("AutoProvisionZones"@.len() == 18);
    reveal_strlit("AutoScalingIps");
    assert("AutoScalingIps"@.len() == 14);
    reveal_strlit("AvailabilityMode");
    assert("AvailabilityMode"@.len() == 16);
    reveal_strlit("AvailabilityZoneAddresses");
    assert("AvailabilityZoneAddresses"@.len() == 25);
    reveal_strlit("ConnectivityType");
    assert("ConnectivityType"@.len() == 16);
    reveal_strlit("EniId");
    assert("EniId"@.len() == 5);
    reveal_strlit("MaxDrainDurationSeconds");
    assert("MaxDrainDurationSeconds"@.len() == 23);
    reveal_strlit("NatGatewayId");
    assert("NatGatewayId"@.len() == 12);
    reveal_strlit("PrivateIpAddress");
    assert("PrivateIpAddress"@.len() == 16);
    reveal_strlit("RouteTableId");
    assert("RouteTableId"@.len() == 12);
    reveal_strlit("SecondaryAllocationIds");
    assert("SecondaryAllocationIds"@.len() == 22);
    reveal_strlit("SecondaryPrivateIpAddressCount");
    assert("SecondaryPrivateIpAddressCount"@.len() == 30);
    reveal_strlit("SecondaryPrivateIpAddresses");
    assert("SecondaryPrivateIpAddresses"@.len() == 27);
    reveal_strlit("SubnetId");
    assert("SubnetId"@.len() == 8);
    reveal_strlit("Tags");
    assert("Tags"@.len() == 4);
    reveal_strlit("VpcId");
    assert("VpcId"@.len() == 5);
    assert("AllocationId"@[0] != "NatGatewayId"@[0]);
    assert("AllocationId"@[0] != "RouteTableId"@[0]);
    assert("AvailabilityMode"@[0] != "ConnectivityType"@[0]);
    assert("AvailabilityMode"@[0] != "PrivateIpAddress"@[0]);
    assert("ConnectivityType"@[0] != "PrivateIpAddress"@[0]);
    assert("EniId"@[0] != "VpcId"@[0]);
    assert("NatGatewayId"@[0] != "RouteTableId"@[0]);
    lemma_stays_free();
    lemma_stays_distinct();
}

#[verifier::spinoff_prover]
#[verifier::rlimit(60)]
proof fn lemma_security_group_properties()
    ensures
        schema::distinct_properties(security_group::config().schema.attributes),
{
    reveal_strlit("GroupDescription");
    assert("GroupDescription"@.len() == 16);
    reveal_strlit("GroupId");
    assert("GroupId"@.len() == 7);
    reveal_strlit("GroupName");
    assert("GroupName"@.len() == 9);
    reveal_strlit("Id");
    assert("Id"@.len() == 2);
    reveal_strlit("SecurityGroupEgress");
    assert("SecurityGroupEgress"@.len() == 19);
    reveal_strlit("SecurityGroupIngress");
    assert("SecurityGroupIngress"@.len() == 20);
    reveal_strlit("Tags");
    assert("Tags"@.len() == 4);
    reveal_strlit("VpcId");
    assert("VpcId"@.len() == 5);
    lemma_stays_free();
    lemma_stays_distinct();
}

#[verifier::spinoff_prover]
#[verifier::rlimit(60)]
proof fn lemma_security_group_egress_properties()
    ensures
        schema::distinct_properties(security_group_egress::config().schema.attributes),
{
    reveal_strlit("CidrIp");
    assert("CidrIp"@.len() == 6);
    reveal_strlit("CidrIpv6");
    assert("CidrIpv6"@.len() == 8);
    reveal_strlit("Description");
    assert("Description"@.len() == 11);
    reveal_strlit("DestinationPrefixListId");
    assert("DestinationPrefixListId"@.len() == 23);
    reveal_strlit("DestinationSecurityGroupId");
    assert("DestinationSecurityGroupId"@.len() == 26);
    reveal_strlit("FromPort");
    assert("FromPort"@.len() == 8);
    reveal_strlit("GroupId");
    assert("GroupId"@.len() == 7);
    reveal_strlit("Id");
    assert("Id"@.len() == 2);
    reveal_strlit("IpProtocol");
    assert("IpProtocol"@.len() == 10);
    reveal_strlit("Tags");
    assert("Tags"@.len() == 4);
    reveal_strlit("ToPort");
    assert("ToPort"@.len() == 6);
    assert("CidrIp"@[0] != "ToPort"@[0]);
    assert("CidrIpv6"@[0] != "FromPort"@[0]);
    lemma_stays_free();
    lemma_stays_distinct();
}

#[verifier::spinoff_prover]
#[verifier::rlimit(60)]
proof fn lemma_vpc_endpoint_properties()
    ensures
        schema::distinct_properties(vpc_endpoint::config().schema.attributes),
{
    reveal_strlit("CreationTimestamp");
    assert("CreationTimestamp"@.len() == 17);
    reveal_strlit("DnsEntries");
    assert("DnsEntries"@.len() == 10);
    reveal_strlit("DnsOptions");
    assert("DnsOptions"@.len() == 10);
    reveal_strlit("Id");
    assert("Id"@.len() == 2);
    reveal_strlit("IpAddressType");
    assert("IpAddressType"@.len() == 13);
    reveal_strlit("NetworkInterfaceIds");
    assert("NetworkInterfaceIds"@.len() == 19);
    reveal_strlit("PolicyDocument");
    assert("PolicyDocument"@.len() == 14);
    reveal_strlit("PrivateDnsEnabled");
    assert("PrivateDnsEnabled"@.len() == 17);
    reveal_strlit("ResourceConfigurationArn");
    assert("ResourceConfigurationArn"@.len() == 24);
    reveal_strlit("RouteTableIds");
    assert("RouteTableIds"@.len() == 13);
    reveal_strlit("SecurityGroupIds");
    assert("SecurityGroupIds"@.len() == 16);
    reveal_strlit("ServiceName");
    assert("ServiceName"@.len() == 11);
    reveal_strlit("ServiceNetworkArn");
    assert("ServiceNetworkArn"@.len() == 17);
    reveal_strlit("ServiceRegion");
    assert("ServiceRegion"@.len() == 13);
    reveal_strlit("SubnetIds");
    assert("SubnetIds"@.len() == 9);
    reveal_strlit("Tags");
    assert("Tags"@.len() == 4);
    reveal_strlit("VpcEndpointType");
    assert("VpcEndpointType"@.len() == 15);
    reveal_strlit("VpcId");
    assert("VpcId"@.len() == 5);
    assert("CreationTimestamp"@[0] != "PrivateDnsEnabled"@[0]);
    assert("CreationTimestamp"@[0] != "ServiceNetworkArn"@[0]);
    assert("DnsEntries"@[3] != "DnsOptions"@[3]);
    assert("IpAddressType"@[0] != "RouteTableIds"@[0]);
    assert("IpAddressType"@[0] != "ServiceRegion"@[0]);
    assert("PrivateDnsEnabled"@[0] != "ServiceNetworkArn"@[0]);
    assert("RouteTableIds"@[0] != "ServiceRegion"@[0]);
    lemma_stays_free();
    lemma_stays_distinct();
}

#[verifier::spinoff_prover]
#[verifier::rlimit(60)]
proof fn lemma_flow_log_properties()
    ensures
        schema::distinct_properties(flow_log::config().schema.attributes),
{
    reveal_strlit("DeliverCrossAccountRole");
    assert("DeliverCrossAccountRole"@.len() == 23);
    reveal_strlit("DeliverLogsPermissionArn");
    assert("DeliverLogsPermissionArn"@.len() == 24);
    reveal_strlit("DestinationOptions");
    assert("DestinationOptions"@.len() == 18);
    reveal_strlit("Id");
    assert("Id"@.len() == 2);
    reveal_strlit("LogDestination");
    assert("LogDestination"@.len() == 14);
    reveal_strlit("LogDestinationType");
    assert("LogDestinationType"@.len() == 18);
    reveal_strlit("LogFormat");
    assert("LogFormat"@.len() == 9);
    reveal_strlit("LogGroupName");
    assert("LogGroupName"@.len() == 12);
    reveal_strlit("MaxAggregationInterval");
    assert("MaxAggregationInterval"@.len() == 22);
    reveal_strlit("ResourceId");
    assert("ResourceId"@.len() == 10);
    reveal_strlit("ResourceType");
    assert("ResourceType"@.len() == 12);
    reveal_strlit("Tags");
    assert("Tags"@.len() == 4);
    reveal_strlit("TrafficType");
    assert("TrafficType"@.len() == 11);
    assert("DestinationOptions"@[0] != "LogDestinationType"@[0]);
    assert("LogGroupName"@[0] != "ResourceType"@[0]);
    lemma_stays_free();
    lemma_stays_distinct();
}

#[verifier::spinoff_prover]
#[verifier::rlimit(60)]
proof fn lemma_ipam_properties()
    ensures
        schema::distinct_properties(ipam::config().schema.attributes),
{
    reveal_strlit("Arn");
    assert("Arn"@.len() == 3);
    reveal_strlit("DefaultResourceDiscoveryAssociationId");
    assert("DefaultResourceDiscoveryAssociationId"@.len() == 37);
    reveal_strlit("DefaultResourceDiscoveryId");
    assert("DefaultResourceDiscoveryId"@.len() == 26);
    reveal_strlit("DefaultResourceDiscoveryOrganizationalUnitExclusions");
    assert("DefaultResourceDiscoveryOrganizationalUnitExclusions"@.len() == 52);
    reveal_strlit("Description");
    assert("Description"@.len() == 11);
    reveal_strlit("EnablePrivateGua");
    assert("EnablePrivateGua"@.len() == 16);
    reveal_strlit("IpamId");
    assert("IpamId"@.len() == 6);
    reveal_strlit("MeteredAccount");
    assert("MeteredAccount"@.len() == 14);
    reveal_strlit("OperatingRegions");
    assert("OperatingRegions"@.len() == 16);
    reveal_strlit("PrivateDefaultScopeId");
    assert("PrivateDefaultScopeId"@.len() == 21);
    reveal_strlit("PublicDefaultScopeId");
    assert("PublicDefaultScopeId"@.len() == 20);
    reveal_strlit("ResourceDiscoveryAssociationCount");
    assert("ResourceDiscoveryAssociationCount"@.len() == 33);
    reveal_strlit("ScopeCount");
    assert("ScopeCount"@.len() == 10);
    reveal_strlit("Tags");
    assert("Tags"@.len() == 4);
    reveal_strlit("Tier");
    assert("Tier"@.len() == 4);
    assert("EnablePrivateGua"@[0] != "OperatingRegions"@[0]);
    assert("Tags"@[1] != "Tier"@[1]);
    lemma_stays_free();
    lemma_stays_distinct();
}

#[verifier::spinoff_prover]
#[verifier::rlimit(60)]
proof fn lemma_vpn_gateway_properties()
    ensures
        schema::distinct_properties(vpn_gateway::config().schema.attributes),
{
    reveal_strlit("AmazonSideAsn");
    assert("AmazonSideAsn"@.len() == 13);
    reveal_strlit("Tags");
    assert("Tags"@.len() == 4);
    reveal_strlit("Type");
    assert("Type"@.len() == 4);
    reveal_strlit("VPNGatewayId");
    assert("VPNGatewayId"@.len() == 12);
    assert("Tags"@[1] != "Type"@[1]);
    lemma_stays_free();
    lemma_stays_distinct();
}

#[verifier::spinoff_prover]
#[verifier::rlimit(60)]
proof fn lemma_transit_gateway_properties()
    ensures
        schema::distinct_properties(transit_gateway::config().schema.attributes),
{
    reveal_strlit("AmazonSideAsn");
    assert("AmazonSideAsn"@.len() == 13);
    reveal_strlit("AssociationDefaultRouteTableId");
    assert("AssociationDefaultRouteTableId"@.len() == 30);
    reveal_strlit("AutoAcceptSharedAttachments");
    assert("AutoAcceptSharedAttachments"@.len() == 27);
    reveal_strlit("DefaultRouteTableAssociation");
    assert("DefaultRouteTableAssociation"@.len() == 28);
    reveal_strlit("DefaultRouteTablePropagation");
    assert("DefaultRouteTablePropagation"@.len() == 28);
    reveal_strlit("Description");
    assert("Description"@.len() == 11);
    reveal_strlit("DnsSupport");
    assert("DnsSupport"@.len() == 10);
    reveal_strlit("EncryptionSupport");
    assert("EncryptionSupport"@.len() == 17);
    reveal_strlit("EncryptionSupportState");
    assert("EncryptionSupportState"@.len() == 22);
    reveal_strlit("Id");
    assert("Id"@.len() == 2);
    reveal_strlit("MulticastSupport");
    assert("MulticastSupport"@.len() == 16);
    reveal_strlit("PropagationDefaultRouteTableId");
    assert("PropagationDefaultRouteTableId"@.len() == 30);
    reveal_strlit("SecurityGroupReferencingSupport");
    assert("SecurityGroupReferencingSupport"@.len() == 31);
    reveal_strlit("Tags");
    assert("Tags"@.len() == 4);
    reveal_strlit("TransitGatewayArn");
    assert("TransitGatewayArn"@.len() == 17);
    reveal_strlit("TransitGatewayCidrBlocks");
    assert("TransitGatewayCidrBlocks"@.len() == 24);
    reveal_strlit("VpnEcmpSupport");
    assert("VpnEcmpSupport"@.len() == 14);
    assert("AssociationDefaultRouteTableId"@[0] != "PropagationDefaultRouteTableId"@[0]);
    assert("DefaultRouteTableAssociation"@[17] != "DefaultRouteTablePropagation"@[17]);
    assert("EncryptionSupport"@[0] != "TransitGatewayArn"@[0]);
    lemma_stays_free();
    lemma_stays_distinct();
}

#[verifier::spinoff_prover]
#[verifier::rlimit(60)]
proof fn lemma_vpc_peering_connection_properties()
    ensures
        schema::distinct_properties(vpc_peering_connection::config().schema.attributes),
{
    reveal_strlit("Id");
    assert("Id"@.len() == 2);
    reveal_strlit("PeerOwnerId");
    assert("PeerOwnerId"@.len() == 11);
    reveal_strlit("PeerRegion");
    assert("PeerRegion"@.len() == 10);
    reveal_strlit("PeerRoleArn");
    assert("PeerRoleArn"@.len() == 11);
    reveal_strlit("PeerVpcId");
    assert("PeerVpcId"@.len() == 9);
    reveal_strlit("Tags");
    assert("Tags"@.len() == 4);
    reveal_strlit("VpcId");
    assert("VpcId"@.len() == 5);
    assert("PeerOwnerId"@[4] != "PeerRoleArn"@[4]);
    lemma_stays_free();
    lemma_stays_distinct();
}

#[verifier::spinoff_prover]
#[verifier::rlimit(60)]
proof fn lemma_egress_only_internet_gateway_properties()
    ensures
        schema::distinct_properties(egress_only_internet_gateway::config().schema.attributes),
{
    reveal_strlit("Id");
    assert("Id"@.len() == 2);
    reveal_strlit("Tags");
    assert("Tags"@.len() == 4);
    reveal_strlit("VpcId");
    assert("VpcId"@.len() == 5);
    lemma_stays_free();
    lemma_stays_distinct();
}

#[verifier::spinoff_prover]
#[verifier::rlimit(60)]
proof fn lemma_bucket_properties()
    ensures
        schema::distinct_properties(bucket::config().schema.attributes),
{
    reveal_strlit("AbacStatus");
    assert("AbacStatus"@.len() == 10);
    reveal_strlit("AccelerateConfiguration");
    assert("AccelerateConfiguration"@.len() == 23);
    reveal_strlit("AccessControl");
    assert("AccessControl"@.len() == 13);
    reveal_strlit("AnalyticsConfigurations");
    assert("AnalyticsConfigurations"@.len() == 23);
    reveal_strlit("Arn");
    assert("Arn"@.len() == 3);
    reveal_strlit("BucketEncryption");
    assert("BucketEncryption"@.len() == 16);
    reveal_strlit("BucketName");
    assert("BucketName"@.len() == 10);
    reveal_strlit("CorsConfiguration");
    assert("CorsConfiguration"@.len() == 17);
    reveal_strlit("DomainName");
    assert("DomainName"@.len() == 10);
    reveal_strlit("DualStackDomainName");
    assert("DualStackDomainName"@.len() == 19);
    reveal_strlit("IntelligentTieringConfigurations");
    assert("IntelligentTieringConfigurations"@.len() == 32);
    reveal_strlit("InventoryConfigurations");
    assert("InventoryConfigurations"@.len() == 23);
    reveal_strlit("LifecycleConfiguration");
    assert("LifecycleConfiguration"@.len() == 22);
    reveal_strlit("LoggingConfiguration");
    assert("LoggingConfiguration"@.len() == 20);
    reveal_strlit("MetadataConfiguration");
    assert("MetadataConfiguration"@.len() == 21);
    reveal_strlit("MetadataTableConfiguration");
    assert("MetadataTableConfiguration"@.len() == 26);
    reveal_strlit("MetricsConfigurations");
    assert("MetricsConfigurations"@.len() == 21);
    reveal_strlit("NotificationConfiguration");
    assert("NotificationConfiguration"@.len() == 25);
    reveal_strlit("ObjectLockConfiguration");
    assert("ObjectLockConfiguration"@.len() == 23);
    reveal_strlit("ObjectLockEnabled");
    assert("ObjectLockEnabled"@.len() == 17);
    reveal_strlit("OwnershipControls");
    assert("OwnershipControls"@.len() == 17);
    reveal_strlit("PublicAccessBlockConfiguration");
    assert("PublicAccessBlockConfiguration"@.len() == 30);
    reveal_strlit("RegionalDomainName");
    assert("RegionalDomainName"@.len() == 18);
    reveal_strlit("ReplicationConfiguration");
    assert("ReplicationConfiguration"@.len() == 24);
    reveal_strlit("Tags");
    assert("Tags"@.len() == 4);
    reveal_strlit("VersioningConfiguration");
    assert("VersioningConfiguration"@.len() == 23);
    reveal_strlit("WebsiteConfiguration");
    assert("WebsiteConfiguration"@.len() == 20);
    reveal_strlit("WebsiteURL");
    assert("WebsiteURL"@.len() == 10);
    assert("AbacStatus"@[0] != "BucketName"@[0]);
    assert("AbacStatus"@[0] != "DomainName"@[0]);
    assert("AbacStatus"@[0] != "WebsiteURL"@[0]);
    assert("AccelerateConfiguration"@[1] != "AnalyticsConfigurations"@[1]);
    assert("AccelerateConfiguration"@[0] != "InventoryConfigurations"@[0]);
    assert("AccelerateConfiguration"@[0] != "ObjectLockConfiguration"@[0]);
    assert("AccelerateConfiguration"@[0] != "VersioningConfiguration"@[0]);
    assert("AnalyticsConfigurations"@[0] != "InventoryConfigurations"@[0]);
    assert("AnalyticsConfigurations"@[0] != "ObjectLockConfiguration"@[0]);
    assert("AnalyticsConfigurations"@[0] != "VersioningConfiguration"@[0]);
    assert("BucketName"@[0] != "DomainName"@[0]);
    assert("BucketName"@[0] != "WebsiteURL"@[0]);
    assert("CorsConfiguration"@[0] != "ObjectLockEnabled"@[0]);
    assert("CorsConfiguration"@[0] != "OwnershipControls"@[0]);
    assert("DomainName"@[0] != "WebsiteURL"@[0]);
    assert("InventoryConfigurations"@[0] != "ObjectLockConfiguration"@[0]);
    assert("InventoryConfigurations"@[0] != "VersioningConfiguration"@[0]);
    assert("LoggingConfiguration"@[0] != "WebsiteConfiguration"@[0]);
    assert("MetadataConfiguration"@[3] != "MetricsConfigurations"@[3]);
    assert("ObjectLockConfiguration"@[0] != "VersioningConfiguration"@[0]);
    assert("ObjectLockEnabled"@[1] != "OwnershipControls"@[1]);
    lemma_stays_free();
    lemma_stays_distinct();
}

#[verifier::spinoff_prover]
#[verifier::rlimit(60)]
proof fn lemma_iam_role_properties()
    ensures
        schema::distinct_properties(iam_role::config().schema.attributes),
{
    reveal_strlit("Arn");
    assert("Arn"@.len() == 3);
    reveal_strlit("AssumeRolePolicyDocument");
    assert("AssumeRolePolicyDocument"@.len() == 24);
    reveal_strlit("Description");
    assert("Description"@.len() == 11);
    reveal_strlit("ManagedPolicyArns");
    assert("ManagedPolicyArns"@.len() == 17);
    reveal_strlit("MaxSessionDuration");
    assert("MaxSessionDuration"@.len() == 18);
    reveal_strlit("Path");
    assert("Path"@.len() == 4);
    reveal_strlit("PermissionsBoundary");
    assert("PermissionsBoundary"@.len() == 19);
    reveal_strlit("Policies");
    assert("Policies"@.len() == 8);
    reveal_strlit("RoleId");
    assert("RoleId"@.len() == 6);
    reveal_strlit("RoleName");
    assert("RoleName"@.len() == 8);
    reveal_strlit("Tags");
    assert("Tags"@.len() == 4);
    assert("Path"@[0] != "Tags"@[0]);
    assert("Policies"@[0] != "RoleName"@[0]);
    lemma_stays_free();
    lemma_stays_distinct();
}

#[verifier::spinoff_prover]
#[verifier::rlimit(60)]
proof fn lemma_log_group_properties()
    ensures
        schema::distinct_properties(log_group::config().schema.attributes),
{
    reveal_strlit("Arn");
    assert("Arn"@.len() == 3);
    reveal_strlit("DataProtectionPolicy");
    assert("DataProtectionPolicy"@.len() == 20);
    reveal_strlit("DeletionProtectionEnabled");
    assert("DeletionProtectionEnabled"@.len() == 25);
    reveal_strlit("FieldIndexPolicies");
    assert("FieldIndexPolicies"@.len() == 18);
    reveal_strlit("KmsKeyId");
    assert("KmsKeyId"@.len() == 8);
    reveal_strlit("LogGroupClass");
    assert("LogGroupClass"@.len() == 13);
    reveal_strlit("LogGroupName");
    assert("LogGroupName"@.len() == 12);
    reveal_strlit("ResourcePolicyDocument");
    assert("ResourcePolicyDocument"@.len() == 22);
    reveal_strlit("RetentionInDays");
    assert("RetentionInDays"@.len() == 15);
    reveal_strlit("Tags");
    assert("Tags"@.len() == 4);
    lemma_stays_free();
    lemma_stays_distinct();
}

/// In every schema no two attributes have the same name, no two the same property,
/// and none but `tags` the property of the tags.
pub proof fn law_properties_are_distinct(i: int)
    requires
        0 <= i < registry::all_configs().len(),
    ensures
        schema::distinct_properties(registry::all_configs()[i].schema.attributes),
{
    reveal(registry::all_configs);
    lemma_vpc_properties();
    lemma_subnet_properties();
    lemma_eip_properties();
    lemma_nat_gateway_properties();
    lemma_security_group_properties();
    lemma_security_group_egress_properties();
    lemma_vpc_endpoint_properties();
    lemma_flow_log_properties();
    lemma_ipam_properties();
    lemma_vpn_gateway_properties();
    lemma_transit_gateway_properties();
    lemma_vpc_peering_connection_properties();
    lemma_egress_only_internet_gateway_properties();
    lemma_bucket_properties();
    lemma_iam_role_properties();
    lemma_log_group_properties();
}

/// Adding a field that has a name for its blocks, if it needs one, leaves all named.
proof fn lemma_fields_stay_named()
    ensures
        forall|t: TypeView, f: FieldView| #![trigger t.field(f)]
            schema::has_block_names(t) && schema::field_has_block_name(f) && schema::has_block_names(f.field_type)
                ==> schema::has_block_names(t.field(f)),
        forall|name: Seq<char>| schema::has_block_names(#[trigger] TypeView::structure(name)),
        forall|t: TypeView| schema::has_block_names(t) ==> schema::has_block_names(#[trigger] TypeView::list(t)),
        forall|t: TypeView| schema::has_block_names(t) ==> schema::has_block_names(#[trigger] TypeView::unordered_list(t)),
        forall|t: TypeView| schema::has_block_names(t) ==> schema::has_block_names(#[trigger] TypeView::map_of(t)),
{
    assert forall|t: TypeView, f: FieldView| #![trigger t.field(f)]
        schema::has_block_names(t) && schema::field_has_block_name(f) && schema::has_block_names(
            f.field_type,
        ) implies schema::has_block_names(t.field(f)) by {
        if let TypeView::Struct { name, fields } = t {
            let more = fields.push(f);
            assert forall|i: int| 0 <= i < more.len() implies schema::field_has_block_name(#[trigger] more[i])
                && schema::has_block_names(more[i].field_type) by {
                if i < fields.len() {
                    assert(more[i] == t->fields[i]);
                }
            }
            assert(t.field(f) == TypeView::Struct { name, fields: more });
        }
    }
}

/// Adding an attribute whose lists of structs have names for their blocks leaves
/// all named.
proof fn lemma_attributes_stay_named()
    ensures
        forall|s: SchemaView, a: AttrView| #![trigger s.attribute(a)]
            schema::all_block_names(s.attributes) && schema::attribute_has_block_names(a) ==> schema::all_block_names(
                s.attribute(a).attributes,
            ),
{
    assert forall|s: SchemaView, a: AttrView| #![trigger s.attribute(a)]
        schema::all_block_names(s.attributes) && schema::attribute_has_block_names(a) implies schema::all_block_names(
        s.attribute(a).attributes,
    ) by {
        let m = s.attributes;
        let out = s.attribute(a).attributes;
        keyed::lemma_index_from(m, a.name, 0);
        assert forall|i: int| 0 <= i < out.len() implies schema::attribute_has_block_names((#[trigger] out[i]).1) by {
            if out[i] != (a.name, a) {
                assert(out[i] == m[i]);
            }
        }
    }
}

#[verifier::spinoff_prover]
#[verifier::rlimit(60)]
proof fn lemma_vpc_block_names()
    ensures
        schema::all_block_names(vpc::config().schema.attributes),
{
    lemma_fields_stay_named();
    lemma_attributes_stay_named();
}

#[verifier::spinoff_prover]
#[verifier::rlimit(60)]
proof fn lemma_subnet_block_names()
    ensures
        schema::all_block_names(subnet::config().schema.attributes),
{
    lemma_fields_stay_named();
    lemma_attributes_stay_named();
}

#[verifier::spinoff_prover]
#[verifier::rlimit(60)]
proof fn lemma_eip_block_names()
    ensures
        schema::all_block_names(eip::config().schema.attributes),
{
    lemma_fields_stay_named();
    lemma_attributes_stay_named();
}

#[verifier::spinoff_prover]
#[verifier::rlimit(60)]
proof fn lemma_nat_gateway_availability_zone_addresses()
    ensures
        schema::attribute_has_block_names(nat_gateway::availability_zone_addresses_view()),
{
    lemma_fields_stay_named();
}

#[verifier::spinoff_prover]
#[verifier::rlimit(60)]
proof fn lemma_nat_gateway_block_names()
    ensures
        schema::all_block_names(nat_gateway::config().schema.attributes),
{
    lemma_nat_gateway_availability_zone_addresses();
    lemma_fields_stay_named();
    lemma_attributes_stay_named();
}

#[verifier::spinoff_prover]
#[verifier::rlimit(60)]
proof fn lemma_security_group_security_group_egress()
    ensures
        schema::attribute_has_block_names(security_group::security_group_egress_view()),
{
    lemma_fields_stay_named();
}

#[verifier::spinoff_prover]
#[verifier::rlimit(60)]
proof fn lemma_security_group_security_group_ingress()
    ensures
        schema::attribute_has_block_names(security_group::security_group_ingress_view()),
{
    lemma_fields_stay_named();
}

#[verifier::spinoff_prover]
#[verifier::rlimit(60)]
proof fn lemma_security_group_block_names()
    ensures
        schema::all_block_names(security_group::config().schema.attributes),
{
    lemma_security_group_security_group_egress();
    lemma_security_group_security_group_ingress();
    lemma_fields_stay_named();
    lemma_attributes_stay_named();
}

#[verifier::spinoff_prover]
#[verifier::rlimit(60)]
proof fn lemma_security_group_egress_block_names()
    ensures
        schema::all_block_names(security_group_egress::config().schema.attributes),
{
    lemma_fields_stay_named();
    lemma_attributes_stay_named();
}

#[verifier::spinoff_prover]
#[verifier::rlimit(60)]
proof fn lemma_vpc_endpoint_dns_options()
    ensures
        schema::attribute_has_block_names(vpc_endpoint::dns_options_view()),
{
    lemma_fields_stay_named();
}

#[verifier::spinoff_prover]
#[verifier::rlimit(60)]
proof fn lemma_vpc_endpoint_block_names()
    ensures
        schema::all_block_names(vpc_endpoint::config().schema.attributes),
{
    lemma_vpc_endpoint_dns_options();
    lemma_fields_stay_named();
    lemma_attributes_stay_named();
}

#[verifier::spinoff_prover]
#[verifier::rlimit(60)]
proof fn lemma_flow_log_block_names()
    ensures
        schema::all_block_names(flow_log::config().schema.attributes),
{
    lemma_fields_stay_named();
    lemma_attributes_stay_named();
}

#[verifier::spinoff_prover]
#[verifier::rlimit(60)]
proof fn lemma_ipam_block_names()
    ensures
        schema::all_block_names(ipam::config().schema.attributes),
{
    lemma_fields_stay_named();
    lemma_attributes_stay_named();
}

#[verifier::spinoff_prover]
#[verifier::rlimit(60)]
proof fn lemma_vpn_gateway_block_names()
    ensures
        schema::all_block_names(vpn_gateway::config().schema.attributes),
{
    lemma_fields_stay_named();
    lemma_attributes_stay_named();
}

#[verifier::spinoff_prover]
#[verifier::rlimit(60)]
proof fn lemma_transit_gateway_block_names()
    ensures
        schema::all_block_names(transit_gateway::config().schema.attributes),
{
    lemma_fields_stay_named();
    lemma_attributes_stay_named();
}

#[verifier::spinoff_prover]
#[verifier::rlimit(60)]
proof fn lemma_vpc_peering_connection_block_names()
    ensures
        schema::all_block_names(vpc_peering_connection::config().schema.attributes),
{
    lemma_fields_stay_named();
    lemma_attributes_stay_named();
}

#[verifier::spinoff_prover]
#[verifier::rlimit(60)]
proof fn lemma_egress_only_internet_gateway_block_names()
    ensures
        schema::all_block_names(egress_only_internet_gateway::config().schema.attributes),
{
    lemma_fields_stay_named();
    lemma_attributes_stay_named();
}

#[verifier::spinoff_prover]
#[verifier::rlimit(60)]
proof fn lemma_bucket_analytics_configurations()
    ensures
        schema::attribute_has_block_names(bucket::analytics_configurations_view()),
{
    lemma_fields_stay_named();
}

#[verifier::spinoff_prover]
#[verifier::rlimit(60)]
proof fn lemma_bucket_bucket_encryption()
    ensures
        schema::attribute_has_block_names(bucket::bucket_encryption_view()),
{
    lemma_fields_stay_named();
}

#[verifier::spinoff_prover]
#[verifier::rlimit(60)]
proof fn lemma_bucket_cors_configuration()
    ensures
        schema::attribute_has_block_names(bucket::cors_configuration_view()),
{
    lemma_fields_stay_named();
}

#[verifier::spinoff_prover]
#[verifier::rlimit(60)]
proof fn lemma_bucket_intelligent_tiering_configurations()
    ensures
        schema::attribute_has_block_names(bucket::intelligent_tiering_configurations_view()),
{
    lemma_fields_stay_named();
}

#[verifier::spinoff_prover]
#[verifier::rlimit(60)]
proof fn lemma_bucket_inventory_configurations()
    ensures
        schema::attribute_has_block_names(bucket::inventory_configurations_view()),
{
    lemma_fields_stay_named();
}

#[verifier::spinoff_prover]
#[verifier::rlimit(60)]
proof fn lemma_bucket_lifecycle_configuration()
    ensures
        schema::attribute_has_block_names(bucket::lifecycle_configuration_view()),
{
    lemma_fields_stay_named();
}

#[verifier::spinoff_prover]
#[verifier::rlimit(60)]
proof fn lemma_bucket_metadata_configuration()
    ensures
        schema::attribute_has_block_names(bucket::metadata_configuration_view()),
{
    lemma_fields_stay_named();
}

#[verifier::spinoff_prover]
#[verifier::rlimit(60)]
proof fn lemma_bucket_metadata_table_configuration()
    ensures
        schema::attribute_has_block_names(bucket::metadata_table_configuration_view()),
{
    lemma_fields_stay_named();
}

#[verifier::spinoff_prover]
#[verifier::rlimit(60)]
proof fn lemma_bucket_metrics_configurations()
    ensures
        schema::attribute_has_block_names(bucket::metrics_configurations_view()),
{
    lemma_fields_stay_named();
}

#[verifier::spinoff_prover]
#[verifier::rlimit(60)]
proof fn lemma_bucket_notification_configuration()
    ensures
        schema::attribute_has_block_names(bucket::notification_configuration_view()),
{
    lemma_fields_stay_named();
}

#[verifier::spinoff_prover]
#[verifier::rlimit(60)]
proof fn lemma_bucket_object_lock_configuration()
    ensures
        schema::attribute_has_block_names(bucket::object_lock_configuration_view()),
{
    lemma_fields_stay_named();
}

#[verifier::spinoff_prover]
#[verifier::rlimit(60)]
proof fn lemma_bucket_public_access_block_configuration()
    ensures
        schema::attribute_has_block_names(bucket::public_access_block_configuration_view()),
{
    lemma_fields_stay_named();
}

#[verifier::spinoff_prover]
#[verifier::rlimit(60)]
proof fn lemma_bucket_replication_configuration()
    ensures
        schema::attribute_has_block_names(bucket::replication_configuration_view()),
{
    lemma_fields_stay_named();
}

#[verifier::spinoff_prover]
#[verifier::rlimit(60)]
proof fn lemma_bucket_website_configuration()
    ensures
        schema::attribute_has_block_names(bucket::website_configuration_view()),
{
    lemma_fields_stay_named();
}

#[verifier::spinoff_prover]
#[verifier::rlimit(60)]
proof fn lemma_bucket_block_names()
    ensures
        schema::all_block_names(bucket::config().schema.attributes),
{
    lemma_bucket_analytics_configurations();
    lemma_bucket_bucket_encryption();
    lemma_bucket_cors_configuration();
    lemma_bucket_intelligent_tiering_configurations();
    lemma_bucket_inventory_configurations();
    lemma_bucket_lifecycle_configuration();
    lemma_bucket_metadata_configuration();
    lemma_bucket_metadata_table_configuration();
    lemma_bucket_metrics_configurations();
    lemma_bucket_notification_configuration();
    lemma_bucket_object_lock_configuration();
    lemma_bucket_public_access_block_configuration();
    lemma_bucket_replication_configuration();
    lemma_bucket_website_configuration();
    lemma_fields_stay_named();
    lemma_attributes_stay_named();
}

#[verifier::spinoff_prover]
#[verifier::rlimit(60)]
proof fn lemma_iam_role_block_names()
    ensures
        schema::all_block_names(iam_role::config().schema.attributes),
{
    lemma_fields_stay_named();
    lemma_attributes_stay_named();
}

#[verifier::spinoff_prover]
#[verifier::rlimit(60)]
proof fn lemma_log_group_block_names()
    ensures
        schema::all_block_names(log_group::config().schema.attributes),
{
    lemma_fields_stay_named();
    lemma_attributes_stay_named();
}

/// In every schema each list of structs, also one within a struct, has a name for
/// the blocks that it is written as.
pub proof fn law_struct_lists_have_block_names(i: int)
    requires
        0 <= i < registry::all_configs().len(),
    ensures
        schema::all_block_names(registry::all_configs()[i].schema.attributes),
{
    reveal(registry::all_configs);
    lemma_vpc_block_names();
    lemma_subnet_block_names();
    lemma_eip_block_names();
    lemma_nat_gateway_block_names();
    lemma_security_group_block_names();
    lemma_security_group_egress_block_names();
    lemma_vpc_endpoint_block_names();
    lemma_flow_log_block_names();
    lemma_ipam_block_names();
    lemma_vpn_gateway_block_names();
    lemma_transit_gateway_block_names();
    lemma_vpc_peering_connection_block_names();
    lemma_egress_only_internet_gateway_block_names();
    lemma_bucket_block_names();
    lemma_iam_role_block_names();
    lemma_log_group_block_names();
}

} // verus!
