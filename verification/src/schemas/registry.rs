//! The registry of the resource types.
use vstd::prelude::*;
use vstd::string::*;

use crate::keyed;
use crate::schema::{AwsccSchemaConfig, ConfigView, ResourceSchema, SchemaView};
use crate::schemas::bucket;
use crate::schemas::egress_only_internet_gateway;
use crate::schemas::eip;
use crate::schemas::flow_log;
use crate::schemas::iam_role;
use crate::schemas::ipam;
use crate::schemas::log_group;
use crate::schemas::nat_gateway;
use crate::schemas::security_group;
use crate::schemas::security_group_egress;
use crate::schemas::subnet;
use crate::schemas::transit_gateway;
use crate::schemas::vpc;
use crate::schemas::vpc_endpoint;
use crate::schemas::vpc_peering_connection;
use crate::schemas::vpn_gateway;
use crate::text;

verus! {

/// The views of a list of configs.
pub open spec fn configs_view(s: Seq<AwsccSchemaConfig>) -> Seq<ConfigView> {
    Seq::new(s.len(), |i: int| s[i]@)
}

/// All resource types.
#[verifier::opaque]
pub open spec fn all_configs() -> Seq<ConfigView> {
    Seq::empty()
        .push(vpc::config())
        .push(subnet::config())
        .push(eip::config())
        .push(nat_gateway::config())
        .push(security_group::config())
        .push(security_group_egress::config())
        .push(vpc_endpoint::config())
        .push(flow_log::config())
        .push(ipam::config())
        .push(vpn_gateway::config())
        .push(transit_gateway::config())
        .push(vpc_peering_connection::config())
        .push(egress_only_internet_gateway::config())
        .push(bucket::config())
        .push(iam_role::config())
        .push(log_group::config())
}

fn register(list: &mut Vec<AwsccSchemaConfig>, c: AwsccSchemaConfig)
    ensures
        configs_view(final(list)@) == configs_view(old(list)@).push(c@),
{
    let ghost before = configs_view(list@);
    let ghost view = c@;
    list.push(c);
    assert(configs_view(list@) =~= before.push(view));
}

/// All resource types.
pub fn configs() -> (r: Vec<AwsccSchemaConfig>)
    ensures
        configs_view(r@) == all_configs(),
{
    proof {
        reveal(all_configs);
    }
    let mut list: Vec<AwsccSchemaConfig> = Vec::new();
    assert(configs_view(list@) =~= Seq::empty());
    register(&mut list, vpc::ec2_vpc_config());
    register(&mut list, subnet::ec2_subnet_config());
    register(&mut list, eip::ec2_eip_config());
    register(&mut list, nat_gateway::ec2_nat_gateway_config());
    register(&mut list, security_group::ec2_security_group_config());
    register(&mut list, security_group_egress::ec2_security_group_egress_config());
    register(&mut list, vpc_endpoint::ec2_vpc_endpoint_config());
    register(&mut list, flow_log::ec2_flow_log_config());
    register(&mut list, ipam::ec2_ipam_config());
    register(&mut list, vpn_gateway::ec2_vpn_gateway_config());
    register(&mut list, transit_gateway::ec2_transit_gateway_config());
    register(&mut list, vpc_peering_connection::ec2_vpc_peering_connection_config());
    register(&mut list, egress_only_internet_gateway::ec2_egress_only_internet_gateway_config());
    register(&mut list, bucket::s3_bucket_config());
    register(&mut list, iam_role::iam_role_config());
    register(&mut list, log_group::logs_log_group_config());
    list
}

/// The schemas of all resource types.
pub open spec fn all_schemas() -> Seq<SchemaView> {
    all_configs().map_values(|c: ConfigView| c.schema)
}

/// The views of a list of schemas.
pub open spec fn schemas_view(s: Seq<ResourceSchema>) -> Seq<SchemaView> {
    Seq::new(s.len(), |i: int| s[i]@)
}

fn schemas_of(list: Vec<AwsccSchemaConfig>) -> (r: Vec<ResourceSchema>)
    ensures
        schemas_view(r@) == configs_view(list@).map_values(|c: ConfigView| c.schema),
{
    let ghost all = configs_view(list@);
    let mut rest = list;
    let mut out: Vec<ResourceSchema> = Vec::new();
    assert(configs_view(rest@) =~= all.skip(0));
    while rest.len() > 0
        invariant
            out.len() + rest.len() == all.len(),
            configs_view(rest@) == all.skip(out.len() as int),
            schemas_view(out@) == all.take(out.len() as int).map_values(|c: ConfigView| c.schema),
        decreases rest.len(),
    {
        let ghost before = schemas_view(out@);
        let ghost n = out.len() as int;
        let ghost left = rest@;
        let c = rest.remove(0);
        let ghost view = c@;
        proof {
            assert(view == configs_view(left)[0]);
            assert(view == all[n]);
            assert forall|i: int| 0 <= i < rest@.len() implies configs_view(rest@)[i] == #[trigger] all.skip(n + 1)[i] by {
                assert(rest@[i] == left[i + 1]);
                assert(configs_view(left)[i + 1] == all.skip(n)[i + 1]);
            }
            assert(configs_view(rest@) =~= all.skip(n + 1));
        }
        out.push(c.schema);
        proof {
            assert(schemas_view(out@) =~= before.push(view.schema));
            assert(all.take(n + 1).map_values(|c: ConfigView| c.schema) =~= all.take(n).map_values(
                |c: ConfigView| c.schema,
            ).push(view.schema));
        }
    }
    assert(all.take(out.len() as int) =~= all);
    out
}

/// The schemas of all resource types.
pub fn schemas() -> (r: Vec<ResourceSchema>)
    ensures
        schemas_view(r@) == all_schemas(),
{
    schemas_of(configs())
}

/// The schema of a config has a resource type.
pub open spec fn has_type(c: ConfigView, resource_type: Seq<char>) -> bool {
    text::after_prefix(c.schema.resource_type, "awscc."@) == Some(resource_type)
}

/// The first config from `i` on whose schema has a resource type.
pub open spec fn typed_from(cs: Seq<ConfigView>, resource_type: Seq<char>, i: int) -> Option<int>
    decreases cs.len() - i,
{
    if i < 0 || i >= cs.len() {
        None
    } else if has_type(cs[i], resource_type) {
        Some(i)
    } else {
        typed_from(cs, resource_type, i + 1)
    }
}

/// The config of a resource type.
pub open spec fn config_of(resource_type: Seq<char>) -> Option<ConfigView> {
    match typed_from(all_configs(), resource_type, 0) {
        Some(i) => Some(all_configs()[i]),
        None => None,
    }
}

/// Finds the config of a resource type in the list of all configs.
pub fn find_config<'a>(list: &'a Vec<AwsccSchemaConfig>, resource_type: &str) -> (r: Option<&'a AwsccSchemaConfig>)
    requires
        configs_view(list@) == all_configs(),
    ensures
        match r {
            Some(c) => config_of(resource_type@) == Some(c@),
            None => config_of(resource_type@) is None,
        },
{
    let mut i: usize = 0;
    let ghost all = configs_view(list@);
    while i < list.len()
        invariant
            i <= list.len(),
            all == configs_view(list@),
            all == all_configs(),
            typed_from(all, resource_type@, 0) == typed_from(all, resource_type@, i as int),
        decreases list.len() - i,
    {
        assert(all[i as int] == list@[i as int]@);
        if let Some(t) = text::strip_prefix(list[i].schema.resource_type.as_str(), "awscc.") {
            if text::same(t, resource_type) {
                return Some(&list[i]);
            }
        }
        i = i + 1;
    }
    None
}

/// The config of a resource type, such as `ec2.vpc`.
pub fn get_schema_config(resource_type: &str) -> (r: Option<AwsccSchemaConfig>)
    ensures
        match r {
            Some(c) => config_of(resource_type@) == Some(c@),
            None => config_of(resource_type@) is None,
        },
{
    let mut list = configs();
    let mut i: usize = 0;
    let ghost all = configs_view(list@);
    while i < list.len()
        invariant
            i <= list.len(),
            all == configs_view(list@),
            all == all_configs(),
            typed_from(all, resource_type@, 0) == typed_from(all, resource_type@, i as int),
        decreases list.len() - i,
    {
        assert(all[i as int] == list@[i as int]@);
        let found = match text::strip_prefix(list[i].schema.resource_type.as_str(), "awscc.") {
            Some(t) => text::same(t, resource_type),
            None => false,
        };
        if found {
            return Some(list.swap_remove(i));
        }
        i = i + 1;
    }
    None
}

/// The first config from `i` on that has a resource type name.
pub open spec fn named_from(cs: Seq<ConfigView>, name: Seq<char>, i: int) -> Option<int>
    decreases cs.len() - i,
{
    if i < 0 || i >= cs.len() {
        None
    } else if cs[i].resource_type_name == name {
        Some(i)
    } else {
        named_from(cs, name, i + 1)
    }
}

/// The config that has a resource type name.
pub open spec fn config_named(name: Seq<char>) -> Option<ConfigView> {
    match named_from(all_configs(), name, 0) {
        Some(i) => Some(all_configs()[i]),
        None => None,
    }
}

/// Finds the config that has a resource type name.
pub fn find_named<'a>(list: &'a Vec<AwsccSchemaConfig>, name: &str) -> (r: Option<&'a AwsccSchemaConfig>)
    requires
        configs_view(list@) == all_configs(),
    ensures
        match r {
            Some(c) => config_named(name@) == Some(c@),
            None => config_named(name@) is None,
        },
{
    let mut i: usize = 0;
    let ghost all = configs_view(list@);
    while i < list.len()
        invariant
            i <= list.len(),
            all == configs_view(list@),
            all == all_configs(),
            named_from(all, name@, 0) == named_from(all, name@, i as int),
        decreases list.len() - i,
    {
        assert(all[i as int] == list@[i as int]@);
        if text::same(list[i].resource_type_name, name) {
            return Some(&list[i]);
        }
        i = i + 1;
    }
    None
}

/// The enum attributes of a resource type and their values.
pub open spec fn values_of(resource_type: Seq<char>) -> Option<Seq<(Seq<char>, Seq<Seq<char>>)>> {
    if resource_type == "ec2.vpc"@ {
        Some(vpc::enum_table())
    } else if resource_type == "ec2.subnet"@ {
        Some(subnet::enum_table())
    } else if resource_type == "ec2.eip"@ {
        Some(eip::enum_table())
    } else if resource_type == "ec2.nat_gateway"@ {
        Some(nat_gateway::enum_table())
    } else if resource_type == "ec2.security_group"@ {
        Some(security_group::enum_table())
    } else if resource_type == "ec2.security_group_egress"@ {
        Some(security_group_egress::enum_table())
    } else if resource_type == "ec2.vpc_endpoint"@ {
        Some(vpc_endpoint::enum_table())
    } else if resource_type == "ec2.flow_log"@ {
        Some(flow_log::enum_table())
    } else if resource_type == "ec2.ipam"@ {
        Some(ipam::enum_table())
    } else if resource_type == "ec2.vpn_gateway"@ {
        Some(vpn_gateway::enum_table())
    } else if resource_type == "ec2.transit_gateway"@ {
        Some(transit_gateway::enum_table())
    } else if resource_type == "ec2.vpc_peering_connection"@ {
        Some(vpc_peering_connection::enum_table())
    } else if resource_type == "ec2.egress_only_internet_gateway"@ {
        Some(egress_only_internet_gateway::enum_table())
    } else if resource_type == "s3.bucket"@ {
        Some(bucket::enum_table())
    } else if resource_type == "iam.role"@ {
        Some(iam_role::enum_table())
    } else if resource_type == "logs.log_group"@ {
        Some(log_group::enum_table())
    } else {
        None
    }
}

/// The values of an enum attribute.
pub open spec fn valid_values(resource_type: Seq<char>, attr_name: Seq<char>) -> Option<Seq<Seq<char>>> {
    match values_of(resource_type) {
        Some(table) => keyed::lookup(table, attr_name),
        None => None,
    }
}

fn own(values: Option<&Vec<String>>) -> (r: Option<Vec<String>>)
    ensures
        match (values, r) {
            (Some(v), Some(w)) => text::strings(v@) == text::strings(w@),
            (None, None) => true,
            _ => false,
        },
{
    match values {
        Some(v) => {
            let mut out: Vec<String> = Vec::new();
            let mut i: usize = 0;
            let ghost all = text::strings(v@);
            while i < v.len()
                invariant
                    i <= v.len(),
                    all == text::strings(v@),
                    text::strings(out@) == all.take(i as int),
                decreases v.len() - i,
            {
                let ghost before = text::strings(out@);
                out.push(v[i].clone());
                assert(text::strings(out@) =~= before.push(v@[i as int]@));
                assert(all.take(i + 1) =~= all.take(i as int).push(v@[i as int]@));
                i = i + 1;
            }
            assert(all.take(i as int) =~= all);
            Some(out)
        },
        None => None,
    }
}

/// The values of an enum attribute of a resource type.
pub fn get_enum_valid_values(resource_type: &str, attr_name: &str) -> (r: Option<Vec<String>>)
    ensures
        match r {
            Some(v) => valid_values(resource_type@, attr_name@) == Some(text::strings(v@)),
            None => valid_values(resource_type@, attr_name@) is None,
        },
{
    if text::same(resource_type, "ec2.vpc") {
        return own(vpc::enum_valid_values().1.get(attr_name));
    }
    if text::same(resource_type, "ec2.subnet") {
        return own(subnet::enum_valid_values().1.get(attr_name));
    }
    if text::same(resource_type, "ec2.eip") {
        return own(eip::enum_valid_values().1.get(attr_name));
    }
    if text::same(resource_type, "ec2.nat_gateway") {
        return own(nat_gateway::enum_valid_values().1.get(attr_name));
    }
    if text::same(resource_type, "ec2.security_group") {
        return own(security_group::enum_valid_values().1.get(attr_name));
    }
    if text::same(resource_type, "ec2.security_group_egress") {
        return own(security_group_egress::enum_valid_values().1.get(attr_name));
    }
    if text::same(resource_type, "ec2.vpc_endpoint") {
        return own(vpc_endpoint::enum_valid_values().1.get(attr_name));
    }
    if text::same(resource_type, "ec2.flow_log") {
        return own(flow_log::enum_valid_values().1.get(attr_name));
    }
    if text::same(resource_type, "ec2.ipam") {
        return own(ipam::enum_valid_values().1.get(attr_name));
    }
    if text::same(resource_type, "ec2.vpn_gateway") {
        return own(vpn_gateway::enum_valid_values().1.get(attr_name));
    }
    if text::same(resource_type, "ec2.transit_gateway") {
        return own(transit_gateway::enum_valid_values().1.get(attr_name));
    }
    if text::same(resource_type, "ec2.vpc_peering_connection") {
        return own(vpc_peering_connection::enum_valid_values().1.get(attr_name));
    }
    if text::same(resource_type, "ec2.egress_only_internet_gateway") {
        return own(egress_only_internet_gateway::enum_valid_values().1.get(attr_name));
    }
    if text::same(resource_type, "s3.bucket") {
        return own(bucket::enum_valid_values().1.get(attr_name));
    }
    if text::same(resource_type, "iam.role") {
        return own(iam_role::enum_valid_values().1.get(attr_name));
    }
    if text::same(resource_type, "logs.log_group") {
        return own(log_group::enum_valid_values().1.get(attr_name));
    }
    None
}

/// The provider's value for a value of an attribute that has another spelling
/// in the configuration language.
pub open spec fn alias_target(resource_type: Seq<char>, attr_name: Seq<char>, value: Seq<char>) -> Option<Seq<char>> {
    if resource_type == "ec2.vpc"@ {
        vpc::alias_reverse(attr_name, value)
    } else if resource_type == "ec2.subnet"@ {
        subnet::alias_reverse(attr_name, value)
    } else if resource_type == "ec2.eip"@ {
        eip::alias_reverse(attr_name, value)
    } else if resource_type == "ec2.nat_gateway"@ {
        nat_gateway::alias_reverse(attr_name, value)
    } else if resource_type == "ec2.security_group"@ {
        security_group::alias_reverse(attr_name, value)
    } else if resource_type == "ec2.security_group_egress"@ {
        security_group_egress::alias_reverse(attr_name, value)
    } else if resource_type == "ec2.vpc_endpoint"@ {
        vpc_endpoint::alias_reverse(attr_name, value)
    } else if resource_type == "ec2.flow_log"@ {
        flow_log::alias_reverse(attr_name, value)
    } else if resource_type == "ec2.ipam"@ {
        ipam::alias_reverse(attr_name, value)
    } else if resource_type == "ec2.vpn_gateway"@ {
        vpn_gateway::alias_reverse(attr_name, value)
    } else if resource_type == "ec2.transit_gateway"@ {
        transit_gateway::alias_reverse(attr_name, value)
    } else if resource_type == "ec2.vpc_peering_connection"@ {
        vpc_peering_connection::alias_reverse(attr_name, value)
    } else if resource_type == "ec2.egress_only_internet_gateway"@ {
        egress_only_internet_gateway::alias_reverse(attr_name, value)
    } else if resource_type == "s3.bucket"@ {
        bucket::alias_reverse(attr_name, value)
    } else if resource_type == "iam.role"@ {
        iam_role::alias_reverse(attr_name, value)
    } else if resource_type == "logs.log_group"@ {
        log_group::alias_reverse(attr_name, value)
    } else {
        None
    }
}

/// The provider's value for a value of an attribute that has another spelling
/// in the configuration language.
pub fn get_enum_alias_reverse(resource_type: &str, attr_name: &str, value: &str) -> (r: Option<&'static str>)
    ensures
        text::opt_slice(r) == alias_target(resource_type@, attr_name@, value@),
{
    if text::same(resource_type, "ec2.vpc") {
        return vpc::enum_alias_reverse(attr_name, value);
    }
    if text::same(resource_type, "ec2.subnet") {
        return subnet::enum_alias_reverse(attr_name, value);
    }
    if text::same(resource_type, "ec2.eip") {
        return eip::enum_alias_reverse(attr_name, value);
    }
    if text::same(resource_type, "ec2.nat_gateway") {
        return nat_gateway::enum_alias_reverse(attr_name, value);
    }
    if text::same(resource_type, "ec2.security_group") {
        return security_group::enum_alias_reverse(attr_name, value);
    }
    if text::same(resource_type, "ec2.security_group_egress") {
        return security_group_egress::enum_alias_reverse(attr_name, value);
    }
    if text::same(resource_type, "ec2.vpc_endpoint") {
        return vpc_endpoint::enum_alias_reverse(attr_name, value);
    }
    if text::same(resource_type, "ec2.flow_log") {
        return flow_log::enum_alias_reverse(attr_name, value);
    }
    if text::same(resource_type, "ec2.ipam") {
        return ipam::enum_alias_reverse(attr_name, value);
    }
    if text::same(resource_type, "ec2.vpn_gateway") {
        return vpn_gateway::enum_alias_reverse(attr_name, value);
    }
    if text::same(resource_type, "ec2.transit_gateway") {
        return transit_gateway::enum_alias_reverse(attr_name, value);
    }
    if text::same(resource_type, "ec2.vpc_peering_connection") {
        return vpc_peering_connection::enum_alias_reverse(attr_name, value);
    }
    if text::same(resource_type, "ec2.egress_only_internet_gateway") {
        return egress_only_internet_gateway::enum_alias_reverse(attr_name, value);
    }
    if text::same(resource_type, "s3.bucket") {
        return bucket::enum_alias_reverse(attr_name, value);
    }
    if text::same(resource_type, "iam.role") {
        return iam_role::enum_alias_reverse(attr_name, value);
    }
    if text::same(resource_type, "logs.log_group") {
        return log_group::enum_alias_reverse(attr_name, value);
    }
    None
}

/// The resource type of the schema of a config is its resource type name
/// behind the name of the provider.
pub open spec fn names_agree(c: ConfigView) -> bool {
    c.schema.resource_type == "awscc."@ + c.resource_type_name
}

proof fn lemma_vpc()
    ensures
        names_agree(vpc::config()),
{
    reveal_strlit("awscc.");
    reveal_strlit("ec2.vpc");
    reveal_strlit("awscc.ec2.vpc");
    assert("awscc.ec2.vpc"@ =~= "awscc."@ + "ec2.vpc"@);
}

proof fn lemma_subnet()
    ensures
        names_agree(subnet::config()),
{
    reveal_strlit("awscc.");
    reveal_strlit("ec2.subnet");
    reveal_strlit("awscc.ec2.subnet");
    assert("awscc.ec2.subnet"@ =~= "awscc."@ + "ec2.subnet"@);
}

proof fn lemma_eip()
    ensures
        names_agree(eip::config()),
{
    reveal_strlit("awscc.");
    reveal_strlit("ec2.eip");
    reveal_strlit("awscc.ec2.eip");
    assert("awscc.ec2.eip"@ =~= "awscc."@ + "ec2.eip"@);
}

proof fn lemma_nat_gateway()
    ensures
        names_agree(nat_gateway::config()),
{
    reveal_strlit("awscc.");
    reveal_strlit("ec2.nat_gateway");
    reveal_strlit("awscc.ec2.nat_gateway");
    assert("awscc.ec2.nat_gateway"@ =~= "awscc."@ + "ec2.nat_gateway"@);
}

proof fn lemma_security_group()
    ensures
        names_agree(security_group::config()),
{
    reveal_strlit("awscc.");
    reveal_strlit("ec2.security_group");
    reveal_strlit("awscc.ec2.security_group");
    assert("awscc.ec2.security_group"@ =~= "awscc."@ + "ec2.security_group"@);
}

proof fn lemma_security_group_egress()
    ensures
        names_agree(security_group_egress::config()),
{
    reveal_strlit("awscc.");
    reveal_strlit("ec2.security_group_egress");
    reveal_strlit("awscc.ec2.security_group_egress");
    assert("awscc.ec2.security_group_egress"@ =~= "awscc."@ + "ec2.security_group_egress"@);
}

proof fn lemma_vpc_endpoint()
    ensures
        names_agree(vpc_endpoint::config()),
{
    reveal_strlit("awscc.");
    reveal_strlit("ec2.vpc_endpoint");
    reveal_strlit("awscc.ec2.vpc_endpoint");
    assert("awscc.ec2.vpc_endpoint"@ =~= "awscc."@ + "ec2.vpc_endpoint"@);
}

proof fn lemma_flow_log()
    ensures
        names_agree(flow_log::config()),
{
    reveal_strlit("awscc.");
    reveal_strlit("ec2.flow_log");
    reveal_strlit("awscc.ec2.flow_log");
    assert("awscc.ec2.flow_log"@ =~= "awscc."@ + "ec2.flow_log"@);
}

proof fn lemma_ipam()
    ensures
        names_agree(ipam::config()),
{
    reveal_strlit("awscc.");
    reveal_strlit("ec2.ipam");
    reveal_strlit("awscc.ec2.ipam");
    assert("awscc.ec2.ipam"@ =~= "awscc."@ + "ec2.ipam"@);
}

proof fn lemma_vpn_gateway()
    ensures
        names_agree(vpn_gateway::config()),
{
    reveal_strlit("awscc.");
    reveal_strlit("ec2.vpn_gateway");
    reveal_strlit("awscc.ec2.vpn_gateway");
    assert("awscc.ec2.vpn_gateway"@ =~= "awscc."@ + "ec2.vpn_gateway"@);
}

proof fn lemma_transit_gateway()
    ensures
        names_agree(transit_gateway::config()),
{
    reveal_strlit("awscc.");
    reveal_strlit("ec2.transit_gateway");
    reveal_strlit("awscc.ec2.transit_gateway");
    assert("awscc.ec2.transit_gateway"@ =~= "awscc."@ + "ec2.transit_gateway"@);
}

proof fn lemma_vpc_peering_connection()
    ensures
        names_agree(vpc_peering_connection::config()),
{
    reveal_strlit("awscc.");
    reveal_strlit("ec2.vpc_peering_connection");
    reveal_strlit("awscc.ec2.vpc_peering_connection");
    assert("awscc.ec2.vpc_peering_connection"@ =~= "awscc."@ + "ec2.vpc_peering_connection"@);
}

proof fn lemma_egress_only_internet_gateway()
    ensures
        names_agree(egress_only_internet_gateway::config()),
{
    reveal_strlit("awscc.");
    reveal_strlit("ec2.egress_only_internet_gateway");
    reveal_strlit("awscc.ec2.egress_only_internet_gateway");
    assert("awscc.ec2.egress_only_internet_gateway"@ =~= "awscc."@ + "ec2.egress_only_internet_gateway"@);
}

proof fn lemma_bucket()
    ensures
        names_agree(bucket::config()),
{
    reveal_strlit("awscc.");
    reveal_strlit("s3.bucket");
    reveal_strlit("awscc.s3.bucket");
    assert("awscc.s3.bucket"@ =~= "awscc."@ + "s3.bucket"@);
}

proof fn lemma_iam_role()
    ensures
        names_agree(iam_role::config()),
{
    reveal_strlit("awscc.");
    reveal_strlit("iam.role");
    reveal_strlit("awscc.iam.role");
    assert("awscc.iam.role"@ =~= "awscc."@ + "iam.role"@);
}

proof fn lemma_log_group()
    ensures
        names_agree(log_group::config()),
{
    reveal_strlit("awscc.");
    reveal_strlit("logs.log_group");
    reveal_strlit("awscc.logs.log_group");
    assert("awscc.logs.log_group"@ =~= "awscc."@ + "logs.log_group"@);
}

/// A resource type is found under the same name whether its config or its
/// schema is asked for it.
pub proof fn law_names_agree(i: int)
    requires
        0 <= i < all_configs().len(),
    ensures
        names_agree(all_configs()[i]),
{
    reveal(all_configs);
    lemma_vpc();
    lemma_subnet();
    lemma_eip();
    lemma_nat_gateway();
    lemma_security_group();
    lemma_security_group_egress();
    lemma_vpc_endpoint();
    lemma_flow_log();
    lemma_ipam();
    lemma_vpn_gateway();
    lemma_transit_gateway();
    lemma_vpc_peering_connection();
    lemma_egress_only_internet_gateway();
    lemma_bucket();
    lemma_iam_role();
    lemma_log_group();
}

proof fn lemma_same_index(name: Seq<char>, i: int)
    requires
        0 <= i,
    ensures
        typed_from(all_configs(), name, i) == named_from(all_configs(), name, i),
    decreases all_configs().len() - i,
{
    if i < all_configs().len() {
        law_names_agree(i);
        let c = all_configs()[i];
        let p = "awscc."@;
        assert(c.schema.resource_type.subrange(0, p.len() as int) =~= p);
        assert(c.schema.resource_type.skip(p.len() as int) =~= c.resource_type_name);
        lemma_same_index(name, i + 1);
    }
}

/// Looking a config up by the type of its schema or by its own name is the same.
pub proof fn law_lookups_agree(name: Seq<char>)
    ensures
        config_of(name) == config_named(name),
{
    lemma_same_index(name, 0);
}

} // verus!
