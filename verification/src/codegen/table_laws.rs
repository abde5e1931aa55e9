//! What the code generator knows of properties agrees with the schemas.
use vstd::prelude::*;

use crate::codegen::tables;
use crate::schemas::eip;
use crate::schemas::nat_gateway;
use crate::schemas::security_group;
use crate::schemas::security_group_egress;
use crate::schemas::transit_gateway;

verus! {

/// A property has the values in the generator that an attribute has in a schema.
pub open spec fn knows(property: Seq<char>, values: Seq<Seq<char>>) -> bool {
    tables::enum_table().contains((property, values))
}

/// An attribute of a schema has these values.
pub open spec fn lists(table: Seq<(Seq<char>, Seq<Seq<char>>)>, name: Seq<char>, values: Seq<Seq<char>>) -> bool {
    table.contains((name, values))
}

proof fn lemma_connectivity_type()
    ensures
        exists|values: Seq<Seq<char>>| #[trigger] knows("ConnectivityType"@, values) && lists(nat_gateway::enum_table(), "connectivity_type"@, values),
{
    let values = nat_gateway::enum_table()[1].1;
    assert(nat_gateway::enum_table()[1] == ("connectivity_type"@, values));
    assert(tables::enum_table()[1].1 =~= values);
    assert(tables::enum_table()[1] == ("ConnectivityType"@, values));
    assert(knows("ConnectivityType"@, values) && lists(nat_gateway::enum_table(), "connectivity_type"@, values));
}

proof fn lemma_availability_mode()
    ensures
        exists|values: Seq<Seq<char>>| #[trigger] knows("AvailabilityMode"@, values) && lists(nat_gateway::enum_table(), "availability_mode"@, values),
{
    let values = nat_gateway::enum_table()[0].1;
    assert(nat_gateway::enum_table()[0] == ("availability_mode"@, values));
    assert(tables::enum_table()[2].1 =~= values);
    assert(tables::enum_table()[2] == ("AvailabilityMode"@, values));
    assert(knows("AvailabilityMode"@, values) && lists(nat_gateway::enum_table(), "availability_mode"@, values));
}

proof fn lemma_domain()
    ensures
        exists|values: Seq<Seq<char>>| #[trigger] knows("Domain"@, values) && lists(eip::enum_table(), "domain"@, values),
{
    let values = eip::enum_table()[0].1;
    assert(eip::enum_table()[0] == ("domain"@, values));
    assert(tables::enum_table()[4].1 =~= values);
    assert(tables::enum_table()[4] == ("Domain"@, values));
    assert(knows("Domain"@, values) && lists(eip::enum_table(), "domain"@, values));
}

proof fn lemma_auto_accept_shared_attachments()
    ensures
        exists|values: Seq<Seq<char>>| #[trigger] knows("AutoAcceptSharedAttachments"@, values) && lists(transit_gateway::enum_table(), "auto_accept_shared_attachments"@, values),
{
    let values = transit_gateway::enum_table()[0].1;
    assert(transit_gateway::enum_table()[0] == ("auto_accept_shared_attachments"@, values));
    assert(tables::enum_table()[6].1 =~= values);
    assert(tables::enum_table()[6] == ("AutoAcceptSharedAttachments"@, values));
    assert(knows("AutoAcceptSharedAttachments"@, values) && lists(transit_gateway::enum_table(), "auto_accept_shared_attachments"@, values));
}

proof fn lemma_default_route_table_association()
    ensures
        exists|values: Seq<Seq<char>>| #[trigger] knows("DefaultRouteTableAssociation"@, values) && lists(transit_gateway::enum_table(), "default_route_table_association"@, values),
{
    let values = transit_gateway::enum_table()[1].1;
    assert(transit_gateway::enum_table()[1] == ("default_route_table_association"@, values));
    assert(tables::enum_table()[7].1 =~= values);
    assert(tables::enum_table()[7] == ("DefaultRouteTableAssociation"@, values));
    assert(knows("DefaultRouteTableAssociation"@, values) && lists(transit_gateway::enum_table(), "default_route_table_association"@, values));
}

proof fn lemma_default_route_table_propagation()
    ensures
        exists|values: Seq<Seq<char>>| #[trigger] knows("DefaultRouteTablePropagation"@, values) && lists(transit_gateway::enum_table(), "default_route_table_propagation"@, values),
{
    let values = transit_gateway::enum_table()[2].1;
    assert(transit_gateway::enum_table()[2] == ("default_route_table_propagation"@, values));
    assert(tables::enum_table()[8].1 =~= values);
    assert(tables::enum_table()[8] == ("DefaultRouteTablePropagation"@, values));
    assert(knows("DefaultRouteTablePropagation"@, values) && lists(transit_gateway::enum_table(), "default_route_table_propagation"@, values));
}

proof fn lemma_dns_support()
    ensures
        exists|values: Seq<Seq<char>>| #[trigger] knows("DnsSupport"@, values) && lists(transit_gateway::enum_table(), "dns_support"@, values),
{
    let values = transit_gateway::enum_table()[3].1;
    assert(transit_gateway::enum_table()[3] == ("dns_support"@, values));
    assert(tables::enum_table()[9].1 =~= values);
    assert(tables::enum_table()[9] == ("DnsSupport"@, values));
    assert(knows("DnsSupport"@, values) && lists(transit_gateway::enum_table(), "dns_support"@, values));
}

proof fn lemma_multicast_support()
    ensures
        exists|values: Seq<Seq<char>>| #[trigger] knows("MulticastSupport"@, values) && lists(transit_gateway::enum_table(), "multicast_support"@, values),
{
    let values = transit_gateway::enum_table()[5].1;
    assert(transit_gateway::enum_table()[5] == ("multicast_support"@, values));
    assert(tables::enum_table()[10].1 =~= values);
    assert(tables::enum_table()[10] == ("MulticastSupport"@, values));
    assert(knows("MulticastSupport"@, values) && lists(transit_gateway::enum_table(), "multicast_support"@, values));
}

proof fn lemma_security_group_referencing_support()
    ensures
        exists|values: Seq<Seq<char>>| #[trigger] knows("SecurityGroupReferencingSupport"@, values) && lists(transit_gateway::enum_table(), "security_group_referencing_support"@, values),
{
    let values = transit_gateway::enum_table()[6].1;
    assert(transit_gateway::enum_table()[6] == ("security_group_referencing_support"@, values));
    assert(tables::enum_table()[11].1 =~= values);
    assert(tables::enum_table()[11] == ("SecurityGroupReferencingSupport"@, values));
    assert(knows("SecurityGroupReferencingSupport"@, values) && lists(transit_gateway::enum_table(), "security_group_referencing_support"@, values));
}

proof fn lemma_vpn_ecmp_support()
    ensures
        exists|values: Seq<Seq<char>>| #[trigger] knows("VpnEcmpSupport"@, values) && lists(transit_gateway::enum_table(), "vpn_ecmp_support"@, values),
{
    let values = transit_gateway::enum_table()[7].1;
    assert(transit_gateway::enum_table()[7] == ("vpn_ecmp_support"@, values));
    assert(tables::enum_table()[12].1 =~= values);
    assert(tables::enum_table()[12] == ("VpnEcmpSupport"@, values));
    assert(knows("VpnEcmpSupport"@, values) && lists(transit_gateway::enum_table(), "vpn_ecmp_support"@, values));
}

/// The values that the generator knows by the name of a property are those that the
/// schemas have for it.
pub proof fn law_known_values_are_those_of_the_schemas()
    ensures
        exists|values: Seq<Seq<char>>| #[trigger] knows("ConnectivityType"@, values) && lists(
            nat_gateway::enum_table(),
            "connectivity_type"@,
            values,
        ),
        exists|values: Seq<Seq<char>>| #[trigger] knows("AvailabilityMode"@, values) && lists(
            nat_gateway::enum_table(),
            "availability_mode"@,
            values,
        ),
        exists|values: Seq<Seq<char>>| #[trigger] knows("Domain"@, values) && lists(
            eip::enum_table(),
            "domain"@,
            values,
        ),
        exists|values: Seq<Seq<char>>| #[trigger] knows("AutoAcceptSharedAttachments"@, values) && lists(
            transit_gateway::enum_table(),
            "auto_accept_shared_attachments"@,
            values,
        ),
        exists|values: Seq<Seq<char>>| #[trigger] knows("DefaultRouteTableAssociation"@, values) && lists(
            transit_gateway::enum_table(),
            "default_route_table_association"@,
            values,
        ),
        exists|values: Seq<Seq<char>>| #[trigger] knows("DefaultRouteTablePropagation"@, values) && lists(
            transit_gateway::enum_table(),
            "default_route_table_propagation"@,
            values,
        ),
        exists|values: Seq<Seq<char>>| #[trigger] knows("DnsSupport"@, values) && lists(
            transit_gateway::enum_table(),
            "dns_support"@,
            values,
        ),
        exists|values: Seq<Seq<char>>| #[trigger] knows("MulticastSupport"@, values) && lists(
            transit_gateway::enum_table(),
            "multicast_support"@,
            values,
        ),
        exists|values: Seq<Seq<char>>| #[trigger] knows("SecurityGroupReferencingSupport"@, values) && lists(
            transit_gateway::enum_table(),
            "security_group_referencing_support"@,
            values,
        ),
        exists|values: Seq<Seq<char>>| #[trigger] knows("VpnEcmpSupport"@, values) && lists(
            transit_gateway::enum_table(),
            "vpn_ecmp_support"@,
            values,
        ),
{
    lemma_connectivity_type();
    lemma_availability_mode();
    lemma_domain();
    lemma_auto_accept_shared_attachments();
    lemma_default_route_table_association();
    lemma_default_route_table_propagation();
    lemma_dns_support();
    lemma_multicast_support();
    lemma_security_group_referencing_support();
    lemma_vpn_ecmp_support();
}

/// The protocols of the rules of security groups are those that the generator knows,
/// with `all` as another name for the last.
pub proof fn law_protocols_are_those_of_the_schemas()
    ensures
        exists|values: Seq<Seq<char>>| #[trigger]
            knows("IpProtocol"@, values) && values.last() == "-1"@ && lists(
                security_group::enum_table(),
                "ip_protocol"@,
                values.push("all"@),
            ) && lists(security_group_egress::enum_table(), "ip_protocol"@, values.push("all"@)),
{
    let values = tables::enum_table()[0].1;
    assert(security_group::enum_table()[0].1 =~= values.push("all"@));
    assert(security_group_egress::enum_table()[0].1 =~= values.push("all"@));
    assert(security_group::enum_table()[0] == ("ip_protocol"@, values.push("all"@)));
    assert(security_group_egress::enum_table()[0] == ("ip_protocol"@, values.push("all"@)));
    assert(tables::enum_table()[0] == ("IpProtocol"@, values));
    assert(knows("IpProtocol"@, values));
}

/// Every known range holds at least one number.
pub proof fn law_known_ranges_are_not_empty(i: int)
    requires
        0 <= i < tables::int_range_table().len(),
    ensures
        ({
            let range = tables::int_range_table()[i].1;
            range.0 <= range.1
        }),
{
}

} // verus!
