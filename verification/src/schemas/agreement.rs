//! What the schemas and the tables of their modules have in common.
use vstd::prelude::*;

use crate::keyed;
use crate::schema::{AttrView, CheckView, ConfigView, FieldView, SchemaView, TypeView};
use crate::schemas::bucket;
use crate::schemas::egress_only_internet_gateway;
use crate::schemas::eip;
use crate::schemas::flow_log;
use crate::schemas::iam_role;
use crate::schemas::ipam;
use crate::schemas::log_group;
use crate::schemas::nat_gateway;
use crate::schemas::registry;
use crate::schemas::security_group;
use crate::schemas::security_group_egress;
use crate::schemas::subnet;
use crate::schemas::transit_gateway;
use crate::schemas::vpc;
use crate::schemas::vpc_endpoint;
use crate::schemas::vpc_peering_connection;
use crate::schemas::vpn_gateway;

verus! {

/// The values of an enum in a namespace, and the namespace.
pub open spec fn enum_of(t: TypeView) -> Option<(Seq<Seq<char>>, Option<Seq<char>>)> {
    match t {
        TypeView::StringEnum { values, namespace, .. } => Some((values, namespace)),
        TypeView::Custom { check: CheckView::NamespacedEnum(values), namespace, .. } => Some((values, namespace)),
        _ => None,
    }
}

/// The fields of a struct, or of the structs of a list.
pub open spec fn inner_fields(t: TypeView) -> Seq<FieldView> {
    match t {
        TypeView::Struct { fields, .. } => fields,
        TypeView::List { inner, .. } => match *inner {
            TypeView::Struct { fields, .. } => fields,
            _ => Seq::empty(),
        },
        _ => Seq::empty(),
    }
}

/// A type is the enum with the values of a row, in the namespace of the resource
/// type.
pub open spec fn is_of_row(t: TypeView, c: ConfigView, row: (Seq<char>, Seq<Seq<char>>)) -> bool {
    enum_of(t) == Some((row.1, Some(c.schema.resource_type)))
}

/// The attribute that a row names has the values of the row.
pub open spec fn row_of_attribute(c: ConfigView, row: (Seq<char>, Seq<Seq<char>>)) -> bool {
    match keyed::lookup(c.schema.attributes, row.0) {
        Some(a) => is_of_row(a.attr_type, c, row),
        None => false,
    }
}

/// A field that a row names, of a struct attribute, has the values of the row.
pub open spec fn row_in_field(c: ConfigView, row: (Seq<char>, Seq<Seq<char>>), attribute: Seq<char>, j: int) -> bool {
    match keyed::lookup(c.schema.attributes, attribute) {
        Some(a) => {
            let fields = inner_fields(a.attr_type);
            0 <= j < fields.len() && fields[j].name == row.0 && is_of_row(fields[j].field_type, c, row)
        },
        None => false,
    }
}

/// A row of a table is one of a config: it has the name and the values of an
/// attribute, or of a field of a struct attribute.
pub open spec fn row_of_config(c: ConfigView, row: (Seq<char>, Seq<Seq<char>>)) -> bool {
    row_of_attribute(c, row) || exists|attribute: Seq<char>, j: int| row_in_field(c, row, attribute, j)
}

/// The values of an attribute that is an enum stand in a table.
pub open spec fn is_listed(a: AttrView, table: Seq<(Seq<char>, Seq<Seq<char>>)>) -> bool {
    match enum_of(a.attr_type) {
        Some((values, _)) => keyed::lookup(table, a.name) == Some(values),
        None => true,
    }
}

/// The values of all attributes that are enums stand in a table.
pub open spec fn listed(attributes: Seq<(Seq<char>, AttrView)>, table: Seq<(Seq<char>, Seq<Seq<char>>)>) -> bool {
    forall|i: int| 0 <= i < attributes.len() ==> is_listed((#[trigger] attributes[i]).1, table)
}

/// The enums of a config are those of a table.
pub open spec fn agree(c: ConfigView, table: Seq<(Seq<char>, Seq<Seq<char>>)>) -> bool {
    &&& forall|i: int| 0 <= i < table.len() ==> row_of_config(c, #[trigger] table[i])
    &&& listed(c.schema.attributes, table)
}

/// What is found after an attribute was added.
proof fn lemma_attribute_lookup()
    ensures
        forall|s: SchemaView, a: AttrView, name: Seq<char>| #[trigger]
            keyed::lookup(s.attribute(a).attributes, name) == if name == a.name {
                Some(a)
            } else {
                keyed::lookup(s.attributes, name)
            },
{
    assert forall|s: SchemaView, a: AttrView, name: Seq<char>| #[trigger]
        keyed::lookup(s.attribute(a).attributes, name) == if name == a.name {
            Some(a)
        } else {
            keyed::lookup(s.attributes, name)
        } by {
        keyed::law_set_then_lookup(s.attributes, a.name, a, name);
    }
}

/// Adding an attribute whose values stand in a table leaves all listed.
proof fn lemma_attribute_listed(table: Seq<(Seq<char>, Seq<Seq<char>>)>)
    ensures
        forall|s: SchemaView, a: AttrView| #![trigger s.attribute(a)]
            listed(s.attributes, table) && is_listed(a, table) ==> listed(s.attribute(a).attributes, table),
{
    assert forall|s: SchemaView, a: AttrView| #![trigger s.attribute(a)] listed(s.attributes, table) && is_listed(
        a,
        table,
    ) implies listed(s.attribute(a).attributes, table) by {
        let m = s.attributes;
        let out = s.attribute(a).attributes;
        keyed::lemma_index_from(m, a.name, 0);
        assert forall|i: int| 0 <= i < out.len() implies is_listed((#[trigger] out[i]).1, table) by {
            if out[i] != (a.name, a) {
                assert(out[i] == m[i]);
            }
        }
    }
}

#[verifier::spinoff_prover]
#[verifier::rlimit(60)]
proof fn lemma_vpc_rows()
    ensures
        forall|i: int| 0 <= i < vpc::enum_table().len() ==> row_of_config(vpc::config(), #[trigger] vpc::enum_table()[i]),
{
    reveal_strlit("cidr_block");
    assert("cidr_block"@.len() == 10);
    reveal_strlit("cidr_block_associations");
    assert("cidr_block_associations"@.len() == 23);
    reveal_strlit("default_network_acl");
    assert("default_network_acl"@.len() == 19);
    reveal_strlit("default_security_group");
    assert("default_security_group"@.len() == 22);
    reveal_strlit("enable_dns_hostnames");
    assert("enable_dns_hostnames"@.len() == 20);
    reveal_strlit("enable_dns_support");
    assert("enable_dns_support"@.len() == 18);
    reveal_strlit("instance_tenancy");
    assert("instance_tenancy"@.len() == 16);
    reveal_strlit("ipv4_ipam_pool_id");
    assert("ipv4_ipam_pool_id"@.len() == 17);
    reveal_strlit("ipv4_netmask_length");
    assert("ipv4_netmask_length"@.len() == 19);
    reveal_strlit("ipv6_cidr_blocks");
    assert("ipv6_cidr_blocks"@.len() == 16);
    reveal_strlit("tags");
    assert("tags"@.len() == 4);
    reveal_strlit("vpc_id");
    assert("vpc_id"@.len() == 6);
    assert("instance_tenancy"@[1] != "ipv6_cidr_blocks"@[1]);
    reveal_with_fuel(keyed::index_from, 2);
    let c = vpc::config();
    let table = vpc::enum_table();
    lemma_attribute_lookup();
    assert(table[0].0 == "instance_tenancy"@);
    assert(keyed::lookup(c.schema.attributes, "instance_tenancy"@) is Some);
    assert(row_of_attribute(c, table[0]));
}

#[verifier::spinoff_prover]
#[verifier::rlimit(60)]
proof fn lemma_vpc_listed()
    ensures
        listed(vpc::config().schema.attributes, vpc::enum_table()),
{
    reveal_strlit("instance_tenancy");
    assert("instance_tenancy"@.len() == 16);
    reveal_with_fuel(keyed::index_from, 2);
    lemma_attribute_listed(vpc::enum_table());
}

proof fn lemma_vpc()
    ensures
        agree(vpc::config(), vpc::enum_table()),
{
    lemma_vpc_rows();
    lemma_vpc_listed();
}

#[verifier::spinoff_prover]
#[verifier::rlimit(60)]
proof fn lemma_subnet_listed()
    ensures
        listed(subnet::config().schema.attributes, subnet::enum_table()),
{
    lemma_attribute_listed(subnet::enum_table());
}

proof fn lemma_subnet()
    ensures
        agree(subnet::config(), subnet::enum_table()),
{
    lemma_subnet_listed();
}

#[verifier::spinoff_prover]
#[verifier::rlimit(60)]
proof fn lemma_eip_rows()
    ensures
        forall|i: int| 0 <= i < eip::enum_table().len() ==> row_of_config(eip::config(), #[trigger] eip::enum_table()[i]),
{
    reveal_strlit("address");
    assert("address"@.len() == 7);
    reveal_strlit("allocation_id");
    assert("allocation_id"@.len() == 13);
    reveal_strlit("domain");
    assert("domain"@.len() == 6);
    reveal_strlit("instance_id");
    assert("instance_id"@.len() == 11);
    reveal_strlit("ipam_pool_id");
    assert("ipam_pool_id"@.len() == 12);
    reveal_strlit("network_border_group");
    assert("network_border_group"@.len() == 20);
    reveal_strlit("public_ip");
    assert("public_ip"@.len() == 9);
    reveal_strlit("public_ipv4_pool");
    assert("public_ipv4_pool"@.len() == 16);
    reveal_strlit("tags");
    assert("tags"@.len() == 4);
    reveal_strlit("transfer_address");
    assert("transfer_address"@.len() == 16);
    reveal_with_fuel(keyed::index_from, 2);
    let c = eip::config();
    let table = eip::enum_table();
    lemma_attribute_lookup();
    assert(table[0].0 == "domain"@);
    assert(keyed::lookup(c.schema.attributes, "domain"@) is Some);
    assert(row_of_attribute(c, table[0]));
}

#[verifier::spinoff_prover]
#[verifier::rlimit(60)]
proof fn lemma_eip_listed()
    ensures
        listed(eip::config().schema.attributes, eip::enum_table()),
{
    reveal_strlit("domain");
    assert("domain"@.len() == 6);
    reveal_with_fuel(keyed::index_from, 2);
    lemma_attribute_listed(eip::enum_table());
}

proof fn lemma_eip()
    ensures
        agree(eip::config(), eip::enum_table()),
{
    lemma_eip_rows();
    lemma_eip_listed();
}

#[verifier::spinoff_prover]
#[verifier::rlimit(60)]
proof fn lemma_nat_gateway_rows()
    ensures
        forall|i: int| 0 <= i < nat_gateway::enum_table().len() ==> row_of_config(nat_gateway::config(), #[trigger] nat_gateway::enum_table()[i]),
{
    reveal_strlit("allocation_id");
    assert("allocation_id"@.len() == 13);
    reveal_strlit("auto_provision_zones");
    assert("auto_provision_zones"@.len() == 20);
    reveal_strlit("auto_scaling_ips");
    assert("auto_scaling_ips"@.len() == 16);
    reveal_strlit("availability_mode");
    assert("availability_mode"@.len() == 17);
    reveal_strlit("availability_zone_addresses");
    assert("availability_zone_addresses"@.len() == 27);
    reveal_strlit("connectivity_type");
    assert("connectivity_type"@.len() == 17);
    reveal_strlit("eni_id");
    assert("eni_id"@.len() == 6);
    reveal_strlit("max_drain_duration_seconds");
    assert("max_drain_duration_seconds"@.len() == 26);
    reveal_strlit("nat_gateway_id");
    assert("nat_gateway_id"@.len() == 14);
    reveal_strlit("private_ip_address");
    assert("private_ip_address"@.len() == 18);
    reveal_strlit("route_table_id");
    assert("route_table_id"@.len() == 14);
    reveal_strlit("secondary_allocation_ids");
    assert("secondary_allocation_ids"@.len() == 24);
    reveal_strlit("secondary_private_ip_address_count");
    assert("secondary_private_ip_address_count"@.len() == 34);
    reveal_strlit("secondary_private_ip_addresses");
    assert("secondary_private_ip_addresses"@.len() == 30);
    reveal_strlit("subnet_id");
    assert("subnet_id"@.len() == 9);
    reveal_strlit("tags");
    assert("tags"@.len() == 4);
    reveal_strlit("vpc_id");
    assert("vpc_id"@.len() == 6);
    assert("availability_mode"@[0] != "connectivity_type"@[0]);
    reveal_with_fuel(keyed::index_from, 3);
    let c = nat_gateway::config();
    let table = nat_gateway::enum_table();
    lemma_attribute_lookup();
    assert(table[0].0 == "availability_mode"@);
    assert(keyed::lookup(c.schema.attributes, "availability_mode"@) is Some);
    assert(row_of_attribute(c, table[0]));
    assert(table[1].0 == "connectivity_type"@);
    assert(keyed::lookup(c.schema.attributes, "connectivity_type"@) is Some);
    assert(row_of_attribute(c, table[1]));
}

#[verifier::spinoff_prover]
#[verifier::rlimit(60)]
proof fn lemma_nat_gateway_listed()
    ensures
        listed(nat_gateway::config().schema.attributes, nat_gateway::enum_table()),
{
    reveal_strlit("availability_mode");
    assert("availability_mode"@.len() == 17);
    reveal_strlit("connectivity_type");
    assert("connectivity_type"@.len() == 17);
    assert("availability_mode"@[0] != "connectivity_type"@[0]);
    reveal_with_fuel(keyed::index_from, 3);
    lemma_attribute_listed(nat_gateway::enum_table());
}

proof fn lemma_nat_gateway()
    ensures
        agree(nat_gateway::config(), nat_gateway::enum_table()),
{
    lemma_nat_gateway_rows();
    lemma_nat_gateway_listed();
}

#[verifier::spinoff_prover]
#[verifier::rlimit(60)]
proof fn lemma_security_group_rows()
    ensures
        forall|i: int| 0 <= i < security_group::enum_table().len() ==> row_of_config(security_group::config(), #[trigger] security_group::enum_table()[i]),
{
    reveal_strlit("group_description");
    assert("group_description"@.len() == 17);
    reveal_strlit("group_id");
    assert("group_id"@.len() == 8);
    reveal_strlit("group_name");
    assert("group_name"@.len() == 10);
    reveal_strlit("id");
    assert("id"@.len() == 2);
    reveal_strlit("security_group_egress");
    assert("security_group_egress"@.len() == 21);
    reveal_strlit("security_group_ingress");
    assert("security_group_ingress"@.len() == 22);
    reveal_strlit("tags");
    assert("tags"@.len() == 4);
    reveal_strlit("vpc_id");
    assert("vpc_id"@.len() == 6);
    reveal_strlit("ip_protocol");
    assert("ip_protocol"@.len() == 11);
    reveal_with_fuel(keyed::index_from, 2);
    let c = security_group::config();
    let table = security_group::enum_table();
    lemma_attribute_lookup();
    assert(table[0].0 == "ip_protocol"@);
    assert(keyed::lookup(c.schema.attributes, "security_group_egress"@) is Some);
    let f = inner_fields(keyed::lookup(c.schema.attributes, "security_group_egress"@)->0.attr_type)[6];
    assert(f.name == "ip_protocol"@);
    assert(is_of_row(f.field_type, c, table[0]));
    assert(row_in_field(c, table[0], "security_group_egress"@, 6));
}

#[verifier::spinoff_prover]
#[verifier::rlimit(60)]
proof fn lemma_security_group_listed()
    ensures
        listed(security_group::config().schema.attributes, security_group::enum_table()),
{
    reveal_strlit("ip_protocol");
    assert("ip_protocol"@.len() == 11);
    reveal_with_fuel(keyed::index_from, 2);
    lemma_attribute_listed(security_group::enum_table());
}

proof fn lemma_security_group()
    ensures
        agree(security_group::config(), security_group::enum_table()),
{
    lemma_security_group_rows();
    lemma_security_group_listed();
}

#[verifier::spinoff_prover]
#[verifier::rlimit(60)]
proof fn lemma_security_group_egress_rows()
    ensures
        forall|i: int| 0 <= i < security_group_egress::enum_table().len() ==> row_of_config(security_group_egress::config(), #[trigger] security_group_egress::enum_table()[i]),
{
    reveal_strlit("cidr_ip");
    assert("cidr_ip"@.len() == 7);
    reveal_strlit("cidr_ipv6");
    assert("cidr_ipv6"@.len() == 9);
    reveal_strlit("description");
    assert("description"@.len() == 11);
    reveal_strlit("destination_prefix_list_id");
    assert("destination_prefix_list_id"@.len() == 26);
    reveal_strlit("destination_security_group_id");
    assert("destination_security_group_id"@.len() == 29);
    reveal_strlit("from_port");
    assert("from_port"@.len() == 9);
    reveal_strlit("group_id");
    assert("group_id"@.len() == 8);
    reveal_strlit("id");
    assert("id"@.len() == 2);
    reveal_strlit("ip_protocol");
    assert("ip_protocol"@.len() == 11);
    reveal_strlit("to_port");
    assert("to_port"@.len() == 7);
    reveal_with_fuel(keyed::index_from, 2);
    let c = security_group_egress::config();
    let table = security_group_egress::enum_table();
    lemma_attribute_lookup();
    assert(table[0].0 == "ip_protocol"@);
    assert(keyed::lookup(c.schema.attributes, "ip_protocol"@) is Some);
    assert(row_of_attribute(c, table[0]));
}

#[verifier::spinoff_prover]
#[verifier::rlimit(60)]
proof fn lemma_security_group_egress_listed()
    ensures
        listed(security_group_egress::config().schema.attributes, security_group_egress::enum_table()),
{
    reveal_strlit("ip_protocol");
    assert("ip_protocol"@.len() == 11);
    reveal_with_fuel(keyed::index_from, 2);
    lemma_attribute_listed(security_group_egress::enum_table());
}

proof fn lemma_security_group_egress()
    ensures
        agree(security_group_egress::config(), security_group_egress::enum_table()),
{
    lemma_security_group_egress_rows();
    lemma_security_group_egress_listed();
}

#[verifier::spinoff_prover]
#[verifier::rlimit(60)]
proof fn lemma_vpc_endpoint_rows()
    ensures
        forall|i: int| 0 <= i < vpc_endpoint::enum_table().len() ==> row_of_config(vpc_endpoint::config(), #[trigger] vpc_endpoint::enum_table()[i]),
{
    reveal_strlit("creation_timestamp");
    assert("creation_timestamp"@.len() == 18);
    reveal_strlit("dns_entries");
    assert("dns_entries"@.len() == 11);
    reveal_strlit("dns_options");
    assert("dns_options"@.len() == 11);
    reveal_strlit("id");
    assert("id"@.len() == 2);
    reveal_strlit("ip_address_type");
    assert("ip_address_type"@.len() == 15);
    reveal_strlit("network_interface_ids");
    assert("network_interface_ids"@.len() == 21);
    reveal_strlit("policy_document");
    assert("policy_document"@.len() == 15);
    reveal_strlit("private_dns_enabled");
    assert("private_dns_enabled"@.len() == 19);
    reveal_strlit("resource_configuration_arn");
    assert("resource_configuration_arn"@.len() == 26);
    reveal_strlit("route_table_ids");
    assert("route_table_ids"@.len() == 15);
    reveal_strlit("security_group_ids");
    assert("security_group_ids"@.len() == 18);
    reveal_strlit("service_name");
    assert("service_name"@.len() == 12);
    reveal_strlit("service_network_arn");
    assert("service_network_arn"@.len() == 19);
    reveal_strlit("service_region");
    assert("service_region"@.len() == 14);
    reveal_strlit("subnet_ids");
    assert("subnet_ids"@.len() == 10);
    reveal_strlit("tags");
    assert("tags"@.len() == 4);
    reveal_strlit("vpc_endpoint_type");
    assert("vpc_endpoint_type"@.len() == 17);
    reveal_strlit("vpc_id");
    assert("vpc_id"@.len() == 6);
    assert("ip_address_type"@[0] != "policy_document"@[0]);
    assert("ip_address_type"@[0] != "route_table_ids"@[0]);
    reveal_strlit("dns_record_ip_type");
    assert("dns_record_ip_type"@.len() == 18);
    reveal_strlit("private_dns_only_for_inbound_resolver_endpoint");
    assert("private_dns_only_for_inbound_resolver_endpoint"@.len() == 46);
    reveal_strlit("private_dns_preference");
    assert("private_dns_preference"@.len() == 22);
    reveal_with_fuel(keyed::index_from, 6);
    let c = vpc_endpoint::config();
    let table = vpc_endpoint::enum_table();
    lemma_attribute_lookup();
    assert(table[0].0 == "dns_record_ip_type"@);
    assert(keyed::lookup(c.schema.attributes, "dns_options"@) is Some);
    let f = inner_fields(keyed::lookup(c.schema.attributes, "dns_options"@)->0.attr_type)[0];
    assert(f.name == "dns_record_ip_type"@);
    assert(is_of_row(f.field_type, c, table[0]));
    assert(row_in_field(c, table[0], "dns_options"@, 0));
    assert(table[1].0 == "private_dns_only_for_inbound_resolver_endpoint"@);
    assert(keyed::lookup(c.schema.attributes, "dns_options"@) is Some);
    let f = inner_fields(keyed::lookup(c.schema.attributes, "dns_options"@)->0.attr_type)[1];
    assert(f.name == "private_dns_only_for_inbound_resolver_endpoint"@);
    assert(is_of_row(f.field_type, c, table[1]));
    assert(row_in_field(c, table[1], "dns_options"@, 1));
    assert(table[2].0 == "private_dns_preference"@);
    assert(keyed::lookup(c.schema.attributes, "dns_options"@) is Some);
    let f = inner_fields(keyed::lookup(c.schema.attributes, "dns_options"@)->0.attr_type)[2];
    assert(f.name == "private_dns_preference"@);
    assert(is_of_row(f.field_type, c, table[2]));
    assert(row_in_field(c, table[2], "dns_options"@, 2));
    assert(table[3].0 == "ip_address_type"@);
    assert(keyed::lookup(c.schema.attributes, "ip_address_type"@) is Some);
    assert(row_of_attribute(c, table[3]));
    assert(table[4].0 == "vpc_endpoint_type"@);
    assert(keyed::lookup(c.schema.attributes, "vpc_endpoint_type"@) is Some);
    assert(row_of_attribute(c, table[4]));
}

#[verifier::spinoff_prover]
#[verifier::rlimit(60)]
proof fn lemma_vpc_endpoint_listed()
    ensures
        listed(vpc_endpoint::config().schema.attributes, vpc_endpoint::enum_table()),
{
    reveal_strlit("dns_record_ip_type");
    assert("dns_record_ip_type"@.len() == 18);
    reveal_strlit("private_dns_only_for_inbound_resolver_endpoint");
    assert("private_dns_only_for_inbound_resolver_endpoint"@.len() == 46);
    reveal_strlit("private_dns_preference");
    assert("private_dns_preference"@.len() == 22);
    reveal_strlit("ip_address_type");
    assert("ip_address_type"@.len() == 15);
    reveal_strlit("vpc_endpoint_type");
    assert("vpc_endpoint_type"@.len() == 17);
    reveal_with_fuel(keyed::index_from, 6);
    lemma_attribute_listed(vpc_endpoint::enum_table());
}

proof fn lemma_vpc_endpoint()
    ensures
        agree(vpc_endpoint::config(), vpc_endpoint::enum_table()),
{
    lemma_vpc_endpoint_rows();
    lemma_vpc_endpoint_listed();
}

#[verifier::spinoff_prover]
#[verifier::rlimit(60)]
proof fn lemma_flow_log_rows()
    ensures
        forall|i: int| 0 <= i < flow_log::enum_table().len() ==> row_of_config(flow_log::config(), #[trigger] flow_log::enum_table()[i]),
{
    reveal_strlit("deliver_cross_account_role");
    assert("deliver_cross_account_role"@.len() == 26);
    reveal_strlit("deliver_logs_permission_arn");
    assert("deliver_logs_permission_arn"@.len() == 27);
    reveal_strlit("destination_options");
    assert("destination_options"@.len() == 19);
    reveal_strlit("id");
    assert("id"@.len() == 2);
    reveal_strlit("log_destination");
    assert("log_destination"@.len() == 15);
    reveal_strlit("log_destination_type");
    assert("log_destination_type"@.len() == 20);
    reveal_strlit("log_format");
    assert("log_format"@.len() == 10);
    reveal_strlit("log_group_name");
    assert("log_group_name"@.len() == 14);
    reveal_strlit("max_aggregation_interval");
    assert("max_aggregation_interval"@.len() == 24);
    reveal_strlit("resource_id");
    assert("resource_id"@.len() == 11);
    reveal_strlit("resource_type");
    assert("resource_type"@.len() == 13);
    reveal_strlit("tags");
    assert("tags"@.len() == 4);
    reveal_strlit("traffic_type");
    assert("traffic_type"@.len() == 12);
    reveal_with_fuel(keyed::index_from, 4);
    let c = flow_log::config();
    let table = flow_log::enum_table();
    lemma_attribute_lookup();
    assert(table[0].0 == "log_destination_type"@);
    assert(keyed::lookup(c.schema.attributes, "log_destination_type"@) is Some);
    assert(row_of_attribute(c, table[0]));
    assert(table[1].0 == "resource_type"@);
    assert(keyed::lookup(c.schema.attributes, "resource_type"@) is Some);
    assert(row_of_attribute(c, table[1]));
    assert(table[2].0 == "traffic_type"@);
    assert(keyed::lookup(c.schema.attributes, "traffic_type"@) is Some);
    assert(row_of_attribute(c, table[2]));
}

#[verifier::spinoff_prover]
#[verifier::rlimit(60)]
proof fn lemma_flow_log_listed()
    ensures
        listed(flow_log::config().schema.attributes, flow_log::enum_table()),
{
    reveal_strlit("log_destination_type");
    assert("log_destination_type"@.len() == 20);
    reveal_strlit("resource_type");
    assert("resource_type"@.len() == 13);
    reveal_strlit("traffic_type");
    assert("traffic_type"@.len() == 12);
    reveal_with_fuel(keyed::index_from, 4);
    lemma_attribute_listed(flow_log::enum_table());
}

proof fn lemma_flow_log()
    ensures
        agree(flow_log::config(), flow_log::enum_table()),
{
    lemma_flow_log_rows();
    lemma_flow_log_listed();
}

#[verifier::spinoff_prover]
#[verifier::rlimit(60)]
proof fn lemma_ipam_rows()
    ensures
        forall|i: int| 0 <= i < ipam::enum_table().len() ==> row_of_config(ipam::config(), #[trigger] ipam::enum_table()[i]),
{
    reveal_strlit("arn");
    assert("arn"@.len() == 3);
    reveal_strlit("default_resource_discovery_association_id");
    assert("default_resource_discovery_association_id"@.len() == 41);
    reveal_strlit("default_resource_discovery_id");
    assert("default_resource_discovery_id"@.len() == 29);
    reveal_strlit("default_resource_discovery_organizational_unit_exclusions");
    assert("default_resource_discovery_organizational_unit_exclusions"@.len() == 57);
    reveal_strlit("description");
    assert("description"@.len() == 11);
    reveal_strlit("enable_private_gua");
    assert("enable_private_gua"@.len() == 18);
    reveal_strlit("ipam_id");
    assert("ipam_id"@.len() == 7);
    reveal_strlit("metered_account");
    assert("metered_account"@.len() == 15);
    reveal_strlit("operating_regions");
    assert("operating_regions"@.len() == 17);
    reveal_strlit("private_default_scope_id");
    assert("private_default_scope_id"@.len() == 24);
    reveal_strlit("public_default_scope_id");
    assert("public_default_scope_id"@.len() == 23);
    reveal_strlit("resource_discovery_association_count");
    assert("resource_discovery_association_count"@.len() == 36);
    reveal_strlit("scope_count");
    assert("scope_count"@.len() == 11);
    reveal_strlit("tags");
    assert("tags"@.len() == 4);
    reveal_strlit("tier");
    assert("tier"@.len() == 4);
    reveal_with_fuel(keyed::index_from, 3);
    let c = ipam::config();
    let table = ipam::enum_table();
    lemma_attribute_lookup();
    assert(table[0].0 == "metered_account"@);
    assert(keyed::lookup(c.schema.attributes, "metered_account"@) is Some);
    assert(row_of_attribute(c, table[0]));
    assert(table[1].0 == "tier"@);
    assert(keyed::lookup(c.schema.attributes, "tier"@) is Some);
    assert(row_of_attribute(c, table[1]));
}

#[verifier::spinoff_prover]
#[verifier::rlimit(60)]
proof fn lemma_ipam_listed()
    ensures
        listed(ipam::config().schema.attributes, ipam::enum_table()),
{
    reveal_strlit("metered_account");
    assert("metered_account"@.len() == 15);
    reveal_strlit("tier");
    assert("tier"@.len() == 4);
    reveal_with_fuel(keyed::index_from, 3);
    lemma_attribute_listed(ipam::enum_table());
}

proof fn lemma_ipam()
    ensures
        agree(ipam::config(), ipam::enum_table()),
{
    lemma_ipam_rows();
    lemma_ipam_listed();
}

#[verifier::spinoff_prover]
#[verifier::rlimit(60)]
proof fn lemma_vpn_gateway_listed()
    ensures
        listed(vpn_gateway::config().schema.attributes, vpn_gateway::enum_table()),
{
    lemma_attribute_listed(vpn_gateway::enum_table());
}

proof fn lemma_vpn_gateway()
    ensures
        agree(vpn_gateway::config(), vpn_gateway::enum_table()),
{
    lemma_vpn_gateway_listed();
}

#[verifier::spinoff_prover]
#[verifier::rlimit(60)]
proof fn lemma_transit_gateway_rows()
    ensures
        forall|i: int| 0 <= i < transit_gateway::enum_table().len() ==> row_of_config(transit_gateway::config(), #[trigger] transit_gateway::enum_table()[i]),
{
    reveal_strlit("amazon_side_asn");
    assert("amazon_side_asn"@.len() == 15);
    reveal_strlit("association_default_route_table_id");
    assert("association_default_route_table_id"@.len() == 34);
    reveal_strlit("auto_accept_shared_attachments");
    assert("auto_accept_shared_attachments"@.len() == 30);
    reveal_strlit("default_route_table_association");
    assert("default_route_table_association"@.len() == 31);
    reveal_strlit("default_route_table_propagation");
    assert("default_route_table_propagation"@.len() == 31);
    reveal_strlit("description");
    assert("description"@.len() == 11);
    reveal_strlit("dns_support");
    assert("dns_support"@.len() == 11);
    reveal_strlit("encryption_support");
    assert("encryption_support"@.len() == 18);
    reveal_strlit("encryption_support_state");
    assert("encryption_support_state"@.len() == 24);
    reveal_strlit("id");
    assert("id"@.len() == 2);
    reveal_strlit("multicast_support");
    assert("multicast_support"@.len() == 17);
    reveal_strlit("propagation_default_route_table_id");
    assert("propagation_default_route_table_id"@.len() == 34);
    reveal_strlit("security_group_referencing_support");
    assert("security_group_referencing_support"@.len() == 34);
    reveal_strlit("tags");
    assert("tags"@.len() == 4);
    reveal_strlit("transit_gateway_arn");
    assert("transit_gateway_arn"@.len() == 19);
    reveal_strlit("transit_gateway_cidr_blocks");
    assert("transit_gateway_cidr_blocks"@.len() == 27);
    reveal_strlit("vpn_ecmp_support");
    assert("vpn_ecmp_support"@.len() == 16);
    assert("default_route_table_association"@[20] != "default_route_table_propagation"@[20]);
    reveal_with_fuel(keyed::index_from, 9);
    let c = transit_gateway::config();
    let table = transit_gateway::enum_table();
    lemma_attribute_lookup();
    assert(table[0].0 == "auto_accept_shared_attachments"@);
    assert(keyed::lookup(c.schema.attributes, "auto_accept_shared_attachments"@) is Some);
    assert(row_of_attribute(c, table[0]));
    assert(table[1].0 == "default_route_table_association"@);
    assert(keyed::lookup(c.schema.attributes, "default_route_table_association"@) is Some);
    assert(row_of_attribute(c, table[1]));
    assert(table[2].0 == "default_route_table_propagation"@);
    assert(keyed::lookup(c.schema.attributes, "default_route_table_propagation"@) is Some);
    assert(row_of_attribute(c, table[2]));
    assert(table[3].0 == "dns_support"@);
    assert(keyed::lookup(c.schema.attributes, "dns_support"@) is Some);
    assert(row_of_attribute(c, table[3]));
    assert(table[4].0 == "encryption_support"@);
    assert(keyed::lookup(c.schema.attributes, "encryption_support"@) is Some);
    assert(row_of_attribute(c, table[4]));
    assert(table[5].0 == "multicast_support"@);
    assert(keyed::lookup(c.schema.attributes, "multicast_support"@) is Some);
    assert(row_of_attribute(c, table[5]));
    assert(table[6].0 == "security_group_referencing_support"@);
    assert(keyed::lookup(c.schema.attributes, "security_group_referencing_support"@) is Some);
    assert(row_of_attribute(c, table[6]));
    assert(table[7].0 == "vpn_ecmp_support"@);
    assert(keyed::lookup(c.schema.attributes, "vpn_ecmp_support"@) is Some);
    assert(row_of_attribute(c, table[7]));
}

#[verifier::spinoff_prover]
#[verifier::rlimit(60)]
proof fn lemma_transit_gateway_listed()
    ensures
        listed(transit_gateway::config().schema.attributes, transit_gateway::enum_table()),
{
    reveal_strlit("auto_accept_shared_attachments");
    assert("auto_accept_shared_attachments"@.len() == 30);
    reveal_strlit("default_route_table_association");
    assert("default_route_table_association"@.len() == 31);
    reveal_strlit("default_route_table_propagation");
    assert("default_route_table_propagation"@.len() == 31);
    reveal_strlit("dns_support");
    assert("dns_support"@.len() == 11);
    reveal_strlit("encryption_support");
    assert("encryption_support"@.len() == 18);
    reveal_strlit("multicast_support");
    assert("multicast_support"@.len() == 17);
    reveal_strlit("security_group_referencing_support");
    assert("security_group_referencing_support"@.len() == 34);
    reveal_strlit("vpn_ecmp_support");
    assert("vpn_ecmp_support"@.len() == 16);
    assert("default_route_table_association"@[20] != "default_route_table_propagation"@[20]);
    reveal_with_fuel(keyed::index_from, 9);
    lemma_attribute_listed(transit_gateway::enum_table());
}

proof fn lemma_transit_gateway()
    ensures
        agree(transit_gateway::config(), transit_gateway::enum_table()),
{
    lemma_transit_gateway_rows();
    lemma_transit_gateway_listed();
}

#[verifier::spinoff_prover]
#[verifier::rlimit(60)]
proof fn lemma_vpc_peering_connection_listed()
    ensures
        listed(vpc_peering_connection::config().schema.attributes, vpc_peering_connection::enum_table()),
{
    lemma_attribute_listed(vpc_peering_connection::enum_table());
}

proof fn lemma_vpc_peering_connection()
    ensures
        agree(vpc_peering_connection::config(), vpc_peering_connection::enum_table()),
{
    lemma_vpc_peering_connection_listed();
}

#[verifier::spinoff_prover]
#[verifier::rlimit(60)]
proof fn lemma_egress_only_internet_gateway_listed()
    ensures
        listed(egress_only_internet_gateway::config().schema.attributes, egress_only_internet_gateway::enum_table()),
{
    lemma_attribute_listed(egress_only_internet_gateway::enum_table());
}

proof fn lemma_egress_only_internet_gateway()
    ensures
        agree(egress_only_internet_gateway::config(), egress_only_internet_gateway::enum_table()),
{
    lemma_egress_only_internet_gateway_listed();
}

#[verifier::spinoff_prover]
#[verifier::rlimit(60)]
proof fn lemma_bucket_rows()
    ensures
        forall|i: int| 0 <= i < bucket::enum_table().len() ==> row_of_config(bucket::config(), #[trigger] bucket::enum_table()[i]),
{
    reveal_strlit("abac_status");
    assert("abac_status"@.len() == 11);
    reveal_strlit("accelerate_configuration");
    assert("accelerate_configuration"@.len() == 24);
    reveal_strlit("access_control");
    assert("access_control"@.len() == 14);
    reveal_strlit("analytics_configurations");
    assert("analytics_configurations"@.len() == 24);
    reveal_strlit("arn");
    assert("arn"@.len() == 3);
    reveal_strlit("bucket_encryption");
    assert("bucket_encryption"@.len() == 17);
    reveal_strlit("bucket_name");
    assert("bucket_name"@.len() == 11);
    reveal_strlit("cors_configuration");
    assert("cors_configuration"@.len() == 18);
    reveal_strlit("domain_name");
    assert("domain_name"@.len() == 11);
    reveal_strlit("dual_stack_domain_name");
    assert("dual_stack_domain_name"@.len() == 22);
    reveal_strlit("intelligent_tiering_configurations");
    assert("intelligent_tiering_configurations"@.len() == 34);
    reveal_strlit("inventory_configurations");
    assert("inventory_configurations"@.len() == 24);
    reveal_strlit("lifecycle_configuration");
    assert("lifecycle_configuration"@.len() == 23);
    reveal_strlit("logging_configuration");
    assert("logging_configuration"@.len() == 21);
    reveal_strlit("metadata_configuration");
    assert("metadata_configuration"@.len() == 22);
    reveal_strlit("metadata_table_configuration");
    assert("metadata_table_configuration"@.len() == 28);
    reveal_strlit("metrics_configurations");
    assert("metrics_configurations"@.len() == 22);
    reveal_strlit("notification_configuration");
    assert("notification_configuration"@.len() == 26);
    reveal_strlit("object_lock_configuration");
    assert("object_lock_configuration"@.len() == 25);
    reveal_strlit("object_lock_enabled");
    assert("object_lock_enabled"@.len() == 19);
    reveal_strlit("ownership_controls");
    assert("ownership_controls"@.len() == 18);
    reveal_strlit("public_access_block_configuration");
    assert("public_access_block_configuration"@.len() == 33);
    reveal_strlit("regional_domain_name");
    assert("regional_domain_name"@.len() == 20);
    reveal_strlit("replication_configuration");
    assert("replication_configuration"@.len() == 25);
    reveal_strlit("tags");
    assert("tags"@.len() == 4);
    reveal_strlit("versioning_configuration");
    assert("versioning_configuration"@.len() == 24);
    reveal_strlit("website_configuration");
    assert("website_configuration"@.len() == 21);
    reveal_strlit("website_url");
    assert("website_url"@.len() == 11);
    assert("abac_status"@[0] != "bucket_name"@[0]);
    assert("abac_status"@[0] != "domain_name"@[0]);
    assert("abac_status"@[0] != "website_url"@[0]);
    reveal_with_fuel(keyed::index_from, 3);
    let c = bucket::config();
    let table = bucket::enum_table();
    lemma_attribute_lookup();
    assert(table[0].0 == "abac_status"@);
    assert(keyed::lookup(c.schema.attributes, "abac_status"@) is Some);
    assert(row_of_attribute(c, table[0]));
    assert(table[1].0 == "access_control"@);
    assert(keyed::lookup(c.schema.attributes, "access_control"@) is Some);
    assert(row_of_attribute(c, table[1]));
}

#[verifier::spinoff_prover]
#[verifier::rlimit(60)]
proof fn lemma_bucket_listed()
    ensures
        listed(bucket::config().schema.attributes, bucket::enum_table()),
{
    reveal_strlit("abac_status");
    assert("abac_status"@.len() == 11);
    reveal_strlit("access_control");
    assert("access_control"@.len() == 14);
    reveal_with_fuel(keyed::index_from, 3);
    lemma_attribute_listed(bucket::enum_table());
}

proof fn lemma_bucket()
    ensures
        agree(bucket::config(), bucket::enum_table()),
{
    lemma_bucket_rows();
    lemma_bucket_listed();
}

#[verifier::spinoff_prover]
#[verifier::rlimit(60)]
proof fn lemma_iam_role_listed()
    ensures
        listed(iam_role::config().schema.attributes, iam_role::enum_table()),
{
    lemma_attribute_listed(iam_role::enum_table());
}

proof fn lemma_iam_role()
    ensures
        agree(iam_role::config(), iam_role::enum_table()),
{
    lemma_iam_role_listed();
}

#[verifier::spinoff_prover]
#[verifier::rlimit(60)]
proof fn lemma_log_group_rows()
    ensures
        forall|i: int| 0 <= i < log_group::enum_table().len() ==> row_of_config(log_group::config(), #[trigger] log_group::enum_table()[i]),
{
    reveal_strlit("arn");
    assert("arn"@.len() == 3);
    reveal_strlit("data_protection_policy");
    assert("data_protection_policy"@.len() == 22);
    reveal_strlit("deletion_protection_enabled");
    assert("deletion_protection_enabled"@.len() == 27);
    reveal_strlit("field_index_policies");
    assert("field_index_policies"@.len() == 20);
    reveal_strlit("kms_key_id");
    assert("kms_key_id"@.len() == 10);
    reveal_strlit("log_group_class");
    assert("log_group_class"@.len() == 15);
    reveal_strlit("log_group_name");
    assert("log_group_name"@.len() == 14);
    reveal_strlit("resource_policy_document");
    assert("resource_policy_document"@.len() == 24);
    reveal_strlit("retention_in_days");
    assert("retention_in_days"@.len() == 17);
    reveal_strlit("tags");
    assert("tags"@.len() == 4);
    reveal_with_fuel(keyed::index_from, 2);
    let c = log_group::config();
    let table = log_group::enum_table();
    lemma_attribute_lookup();
    assert(table[0].0 == "log_group_class"@);
    assert(keyed::lookup(c.schema.attributes, "log_group_class"@) is Some);
    assert(row_of_attribute(c, table[0]));
}

#[verifier::spinoff_prover]
#[verifier::rlimit(60)]
proof fn lemma_log_group_listed()
    ensures
        listed(log_group::config().schema.attributes, log_group::enum_table()),
{
    reveal_strlit("log_group_class");
    assert("log_group_class"@.len() == 15);
    reveal_with_fuel(keyed::index_from, 2);
    lemma_attribute_listed(log_group::enum_table());
}

proof fn lemma_log_group()
    ensures
        agree(log_group::config(), log_group::enum_table()),
{
    lemma_log_group_rows();
    lemma_log_group_listed();
}

/// The table of each resource type is found under its name.
proof fn lemma_types_differ()
    ensures
        registry::values_of("ec2.vpc"@) == Some(vpc::enum_table()),
        registry::values_of("ec2.subnet"@) == Some(subnet::enum_table()),
        registry::values_of("ec2.eip"@) == Some(eip::enum_table()),
        registry::values_of("ec2.nat_gateway"@) == Some(nat_gateway::enum_table()),
        registry::values_of("ec2.security_group"@) == Some(security_group::enum_table()),
        registry::values_of("ec2.security_group_egress"@) == Some(security_group_egress::enum_table()),
        registry::values_of("ec2.vpc_endpoint"@) == Some(vpc_endpoint::enum_table()),
        registry::values_of("ec2.flow_log"@) == Some(flow_log::enum_table()),
        registry::values_of("ec2.ipam"@) == Some(ipam::enum_table()),
        registry::values_of("ec2.vpn_gateway"@) == Some(vpn_gateway::enum_table()),
        registry::values_of("ec2.transit_gateway"@) == Some(transit_gateway::enum_table()),
        registry::values_of("ec2.vpc_peering_connection"@) == Some(vpc_peering_connection::enum_table()),
        registry::values_of("ec2.egress_only_internet_gateway"@) == Some(egress_only_internet_gateway::enum_table()),
        registry::values_of("s3.bucket"@) == Some(bucket::enum_table()),
        registry::values_of("iam.role"@) == Some(iam_role::enum_table()),
        registry::values_of("logs.log_group"@) == Some(log_group::enum_table()),
{
    reveal_strlit("ec2.vpc");
    assert("ec2.vpc"@.len() == 7);
    reveal_strlit("ec2.subnet");
    assert("ec2.subnet"@.len() == 10);
    reveal_strlit("ec2.eip");
    assert("ec2.eip"@.len() == 7);
    reveal_strlit("ec2.nat_gateway");
    assert("ec2.nat_gateway"@.len() == 15);
    reveal_strlit("ec2.security_group");
    assert("ec2.security_group"@.len() == 18);
    reveal_strlit("ec2.security_group_egress");
    assert("ec2.security_group_egress"@.len() == 25);
    reveal_strlit("ec2.vpc_endpoint");
    assert("ec2.vpc_endpoint"@.len() == 16);
    reveal_strlit("ec2.flow_log");
    assert("ec2.flow_log"@.len() == 12);
    reveal_strlit("ec2.ipam");
    assert("ec2.ipam"@.len() == 8);
    reveal_strlit("ec2.vpn_gateway");
    assert("ec2.vpn_gateway"@.len() == 15);
    reveal_strlit("ec2.transit_gateway");
    assert("ec2.transit_gateway"@.len() == 19);
    reveal_strlit("ec2.vpc_peering_connection");
    assert("ec2.vpc_peering_connection"@.len() == 26);
    reveal_strlit("ec2.egress_only_internet_gateway");
    assert("ec2.egress_only_internet_gateway"@.len() == 32);
    reveal_strlit("s3.bucket");
    assert("s3.bucket"@.len() == 9);
    reveal_strlit("iam.role");
    assert("iam.role"@.len() == 8);
    reveal_strlit("logs.log_group");
    assert("logs.log_group"@.len() == 14);
    assert("ec2.vpc"@[4] != "ec2.eip"@[4]);
    assert("ec2.nat_gateway"@[4] != "ec2.vpn_gateway"@[4]);
    assert("ec2.ipam"@[0] != "iam.role"@[0]);
}

/// The enum attributes of a resource type are those of its table: each row has
/// the name and the values of an attribute or of a field of a struct attribute,
/// in the namespace of the type, and the values of each attribute that is an enum
/// stand in the table.
pub proof fn law_enums_are_those_of_the_table(i: int)
    requires
        0 <= i < registry::all_configs().len(),
    ensures
        ({
            let c = registry::all_configs()[i];
            registry::values_of(c.resource_type_name) is Some && agree(
                c,
                registry::values_of(c.resource_type_name)->0,
            )
        }),
{
    reveal(registry::all_configs);
    lemma_vpc();
    lemma_subnet();
    lemma_eip();
    lemma_nat_gateway();
    lemma_security_group();
    lemma_security_group_egress();
    lemma_vpc_endpoint();
    lemma_flow_log();
    lemma_ipam();
    lemma_vpn_gateway();
    lemma_transit_gateway();
    lemma_vpc_peering_connection();
    lemma_egress_only_internet_gateway();
    lemma_bucket();
    lemma_iam_role();
    lemma_log_group();
    lemma_types_differ();
}

/// What an alias stands for is one of the values in the table.
pub proof fn law_aliases_stand_for_listed_values(resource_type: Seq<char>, name: Seq<char>, value: Seq<char>)
    ensures
        registry::alias_target(resource_type, name, value) matches Some(target) ==> {
            &&& registry::values_of(resource_type) is Some
            &&& keyed::lookup(registry::values_of(resource_type)->0, name) matches Some(values) && values.contains(
                target,
            )
        },
{
    if let Some(target) = registry::alias_target(resource_type, name, value) {
        assert(security_group::enum_table()[0].1[4] == "-1"@);
        assert(security_group_egress::enum_table()[0].1[4] == "-1"@);
        reveal_with_fuel(keyed::index_from, 2);
    }
}

/// Only one attribute may be required: the one with a name.
pub open spec fn only_required(attributes: Seq<(Seq<char>, AttrView)>, name: Seq<char>) -> bool {
    forall|i: int| 0 <= i < attributes.len() && (#[trigger] attributes[i]).1.required ==> attributes[i].1.name == name
}

/// A VPC endpoint needs its VPC and nothing else.
pub proof fn law_endpoint_needs_its_vpc()
    ensures
        keyed::lookup(vpc_endpoint::config().schema.attributes, "vpc_id"@) matches Some(a) && a.required,
        only_required(vpc_endpoint::config().schema.attributes, "vpc_id"@),
{
    lemma_attribute_lookup();
    assert forall|s: SchemaView, a: AttrView| #![trigger s.attribute(a)] only_required(s.attributes, "vpc_id"@) && (
    a.required ==> a.name == "vpc_id"@) implies only_required(s.attribute(a).attributes, "vpc_id"@) by {
        let m = s.attributes;
        let out = s.attribute(a).attributes;
        keyed::lemma_index_from(m, a.name, 0);
        assert forall|i: int| 0 <= i < out.len() && (#[trigger] out[i]).1.required implies out[i].1.name == "vpc_id"@ by {
            if out[i] != (a.name, a) {
                assert(out[i] == m[i]);
            }
        }
    }
}

} // verus!
