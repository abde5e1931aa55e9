//! Which resource types are known, and under which names.
use vstd::prelude::*;

use crate::keyed;
use crate::schema::{AttrView, ConfigView, SchemaView};
use crate::schemas::bucket;
use crate::schemas::egress_only_internet_gateway;
use crate::schemas::eip;
use crate::schemas::flow_log;
use crate::schemas::iam_role;
use crate::schemas::ipam;
use crate::schemas::log_group;
use crate::schemas::nat_gateway;
use crate::schemas::registry;
use crate::schemas::security_group;
use crate::schemas::security_group_egress;
use crate::schemas::subnet;
use crate::schemas::transit_gateway;
use crate::schemas::vpc;
use crate::schemas::vpc_endpoint;
use crate::schemas::vpc_peering_connection;
use crate::schemas::vpn_gateway;

verus! {

/// What is found under a name is the config of a known type with that name, and
/// nothing is found exactly where no known type has the name.
pub proof fn law_configs_are_found_by_name(name: Seq<char>)
    ensures
        registry::config_of(name) matches Some(c) ==> c.resource_type_name == name && registry::all_configs().contains(c),
        registry::config_of(name) is None <==> forall|i: int|
            0 <= i < registry::all_configs().len() ==> (#[trigger] registry::all_configs()[i]).resource_type_name != name,
{
    registry::law_lookups_agree(name);
    lemma_named(name, 0);
    if registry::config_of(name) is None {
        assert forall|i: int| 0 <= i < registry::all_configs().len() implies (
        #[trigger] registry::all_configs()[i]).resource_type_name != name by {}
    }
}

proof fn lemma_named(name: Seq<char>, from: int)
    requires
        0 <= from,
    ensures
        match registry::named_from(registry::all_configs(), name, from) {
            Some(k) => from <= k < registry::all_configs().len() && registry::all_configs()[k].resource_type_name == name
                && forall|i: int|
                from <= i < k ==> (#[trigger] registry::all_configs()[i]).resource_type_name != name,
            None => forall|i: int|
                from <= i < registry::all_configs().len() ==> (
                #[trigger] registry::all_configs()[i]).resource_type_name != name,
        },
    decreases registry::all_configs().len() - from,
{
    if from < registry::all_configs().len() && registry::all_configs()[from].resource_type_name != name {
        lemma_named(name, from + 1);
    }
}

/// No two known types have the same name.
pub proof fn law_names_are_distinct(i: int, j: int)
    requires
        0 <= i < j < registry::all_configs().len(),
    ensures
        registry::all_configs()[i].resource_type_name != registry::all_configs()[j].resource_type_name,
{
    reveal(registry::all_configs);
    reveal_strlit("ec2.vpc");
    reveal_strlit("ec2.subnet");
    reveal_strlit("ec2.eip");
    reveal_strlit("ec2.nat_gateway");
    reveal_strlit("ec2.security_group");
    reveal_strlit("ec2.security_group_egress");
    reveal_strlit("ec2.vpc_endpoint");
    reveal_strlit("ec2.flow_log");
    reveal_strlit("ec2.ipam");
    reveal_strlit("ec2.vpn_gateway");
    reveal_strlit("ec2.transit_gateway");
    reveal_strlit("ec2.vpc_peering_connection");
    reveal_strlit("ec2.egress_only_internet_gateway");
    reveal_strlit("s3.bucket");
    reveal_strlit("iam.role");
    reveal_strlit("logs.log_group");
    assert("ec2.vpc"@.len() == 7 && "ec2.subnet"@.len() == 10 && "ec2.eip"@.len() == 7);
    assert("ec2.nat_gateway"@.len() == 15 && "ec2.security_group"@.len() == 18);
    assert("ec2.security_group_egress"@.len() == 25 && "ec2.vpc_endpoint"@.len() == 16);
    assert("ec2.flow_log"@.len() == 12 && "ec2.ipam"@.len() == 8 && "ec2.vpn_gateway"@.len() == 15);
    assert("ec2.transit_gateway"@.len() == 19 && "ec2.vpc_peering_connection"@.len() == 26);
    assert("ec2.egress_only_internet_gateway"@.len() == 32 && "s3.bucket"@.len() == 9);
    assert("iam.role"@.len() == 8 && "logs.log_group"@.len() == 14);
    assert("ec2.vpc"@[4] != "ec2.eip"@[4]);
    assert("ec2.nat_gateway"@[4] != "ec2.vpn_gateway"@[4]);
    assert("ec2.ipam"@[0] != "iam.role"@[0]);
}

/// Every known type is found under its name.
pub proof fn law_every_type_is_found(i: int)
    requires
        0 <= i < registry::all_configs().len(),
    ensures
        ({
            let c = registry::all_configs()[i];
            registry::config_of(c.resource_type_name) == Some(c) && registry::config_named(c.resource_type_name) == Some(c)
        }),
{
    let name = registry::all_configs()[i].resource_type_name;
    registry::law_lookups_agree(name);
    lemma_named(name, 0);
    let k = registry::named_from(registry::all_configs(), name, 0)->0;
    if k < i {
        law_names_are_distinct(k, i);
    } else if i < k {
        law_names_are_distinct(i, k);
    }
}

/// The only other spelling of a value is `all`, which stands for every protocol in
/// the rules of security groups.
pub proof fn law_all_stands_for_every_protocol(resource_type: Seq<char>, name: Seq<char>, value: Seq<char>)
    ensures
        registry::alias_target(resource_type, name, value) is Some <==> (resource_type == "ec2.security_group"@
            || resource_type == "ec2.security_group_egress"@) && name == "ip_protocol"@ && value == "all"@,
        registry::alias_target(resource_type, name, value) matches Some(target) ==> target == "-1"@,
{
    reveal_strlit("ec2.vpc");
    reveal_strlit("ec2.subnet");
    reveal_strlit("ec2.eip");
    reveal_strlit("ec2.nat_gateway");
    reveal_strlit("ec2.security_group");
    reveal_strlit("ec2.security_group_egress");
    assert("ec2.vpc"@.len() == 7 && "ec2.subnet"@.len() == 10 && "ec2.eip"@.len() == 7);
    assert("ec2.nat_gateway"@.len() == 15 && "ec2.security_group"@.len() == 18);
    assert("ec2.security_group_egress"@.len() == 25);
}

/// A type has tags exactly where its schema has the attribute for them.
pub open spec fn is_tagged_alike(c: ConfigView) -> bool {
    c.has_tags <==> keyed::lookup(c.schema.attributes, "tags"@) is Some
}

/// What is found under `tags` after an attribute was added.
proof fn lemma_tags_lookup()
    ensures
        forall|s: SchemaView, a: AttrView| #[trigger]
            keyed::lookup(s.attribute(a).attributes, "tags"@) == if a.name == "tags"@ {
                Some(a)
            } else {
                keyed::lookup(s.attributes, "tags"@)
            },
{
    assert forall|s: SchemaView, a: AttrView| #[trigger]
        keyed::lookup(s.attribute(a).attributes, "tags"@) == if a.name == "tags"@ {
            Some(a)
        } else {
            keyed::lookup(s.attributes, "tags"@)
        } by {
        keyed::law_set_then_lookup(s.attributes, a.name, a, "tags"@);
    }
}

#[verifier::spinoff_prover]
proof fn lemma_vpc_tags()
    ensures
        is_tagged_alike(vpc::config()),
{
    lemma_tags_lookup();
}

#[verifier::spinoff_prover]
proof fn lemma_subnet_tags()
    ensures
        is_tagged_alike(subnet::config()),
{
    lemma_tags_lookup();
}

#[verifier::spinoff_prover]
proof fn lemma_eip_tags()
    ensures
        is_tagged_alike(eip::config()),
{
    lemma_tags_lookup();
}

#[verifier::spinoff_prover]
proof fn lemma_nat_gateway_tags()
    ensures
        is_tagged_alike(nat_gateway::config()),
{
    lemma_tags_lookup();
}

#[verifier::spinoff_prover]
proof fn lemma_security_group_tags()
    ensures
        is_tagged_alike(security_group::config()),
{
    lemma_tags_lookup();
}

#[verifier::spinoff_prover]
proof fn lemma_security_group_egress_tags()
    ensures
        is_tagged_alike(security_group_egress::config()),
{
    reveal_strlit("tags");
    assert("tags"@.len() == 4);
    reveal_strlit("cidr_ip");
    assert("cidr_ip"@.len() == 7);
    reveal_strlit("cidr_ipv6");
    assert("cidr_ipv6"@.len() == 9);
    reveal_strlit("description");
    assert("description"@.len() == 11);
    reveal_strlit("destination_prefix_list_id");
    assert("destination_prefix_list_id"@.len() == 26);
    reveal_strlit("destination_security_group_id");
    assert("destination_security_group_id"@.len() == 29);
    reveal_strlit("from_port");
    assert("from_port"@.len() == 9);
    reveal_strlit("group_id");
    assert("group_id"@.len() == 8);
    reveal_strlit("id");
    assert("id"@.len() == 2);
    reveal_strlit("ip_protocol");
    assert("ip_protocol"@.len() == 11);
    reveal_strlit("to_port");
    assert("to_port"@.len() == 7);
    lemma_tags_lookup();
}

#[verifier::spinoff_prover]
proof fn lemma_vpc_endpoint_tags()
    ensures
        is_tagged_alike(vpc_endpoint::config()),
{
    lemma_tags_lookup();
}

#[verifier::spinoff_prover]
proof fn lemma_flow_log_tags()
    ensures
        is_tagged_alike(flow_log::config()),
{
    lemma_tags_lookup();
}

#[verifier::spinoff_prover]
proof fn lemma_ipam_tags()
    ensures
        is_tagged_alike(ipam::config()),
{
    lemma_tags_lookup();
}

#[verifier::spinoff_prover]
proof fn lemma_vpn_gateway_tags()
    ensures
        is_tagged_alike(vpn_gateway::config()),
{
    lemma_tags_lookup();
}

#[verifier::spinoff_prover]
proof fn lemma_transit_gateway_tags()
    ensures
        is_tagged_alike(transit_gateway::config()),
{
    lemma_tags_lookup();
}

#[verifier::spinoff_prover]
proof fn lemma_vpc_peering_connection_tags()
    ensures
        is_tagged_alike(vpc_peering_connection::config()),
{
    lemma_tags_lookup();
}

#[verifier::spinoff_prover]
proof fn lemma_egress_only_internet_gateway_tags()
    ensures
        is_tagged_alike(egress_only_internet_gateway::config()),
{
    lemma_tags_lookup();
}

#[verifier::spinoff_prover]
proof fn lemma_bucket_tags()
    ensures
        is_tagged_alike(bucket::config()),
{
    lemma_tags_lookup();
}

#[verifier::spinoff_prover]
proof fn lemma_iam_role_tags()
    ensures
        is_tagged_alike(iam_role::config()),
{
    lemma_tags_lookup();
}

#[verifier::spinoff_prover]
proof fn lemma_log_group_tags()
    ensures
        is_tagged_alike(log_group::config()),
{
    lemma_tags_lookup();
}

/// A type has tags exactly where its schema has the attribute for them.
pub proof fn law_types_with_tags_have_the_attribute(i: int)
    requires
        0 <= i < registry::all_configs().len(),
    ensures
        is_tagged_alike(registry::all_configs()[i]),
{
    reveal(registry::all_configs);
    lemma_vpc_tags();
    lemma_subnet_tags();
    lemma_eip_tags();
    lemma_nat_gateway_tags();
    lemma_security_group_tags();
    lemma_security_group_egress_tags();
    lemma_vpc_endpoint_tags();
    lemma_flow_log_tags();
    lemma_ipam_tags();
    lemma_vpn_gateway_tags();
    lemma_transit_gateway_tags();
    lemma_vpc_peering_connection_tags();
    lemma_egress_only_internet_gateway_tags();
    lemma_bucket_tags();
    lemma_iam_role_tags();
    lemma_log_group_tags();
}

/// The schemas are those of the configs, one for each, in the same order.
pub proof fn law_schemas_are_those_of_the_configs(i: int)
    ensures
        registry::all_schemas().len() == registry::all_configs().len(),
        0 <= i < registry::all_configs().len() ==> registry::all_schemas()[i] == registry::all_configs()[i].schema,
{
}

} // verus!
