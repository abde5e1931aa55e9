//! What a property's name says of its type.
use vstd::prelude::*;
use vstd::string::*;

use crate::codegen::casing;
use crate::codegen::tables;
use crate::keyed;
use crate::text;

verus! {

/// The kinds of resource identifier that a property name can tell apart.
#[derive(Debug, Clone, Copy, PartialEq, Eq, Structural)]
pub enum ResourceIdKind {
    VpcId,
    SubnetId,
    SecurityGroupId,
    EgressOnlyInternetGatewayId,
    InternetGatewayId,
    RouteTableId,
    NatGatewayId,
    VpcPeeringConnectionId,
    TransitGatewayId,
    VpnGatewayId,
    VpcEndpointId,
    Generic,
}

/// Endings of names that hold a resource identifier of the form prefix-hex.
pub open spec fn id_endings() -> Seq<Seq<char>> {
    seq![
        "vpcid"@, "subnetid"@, "groupid"@, "gatewayid"@, "routetableid"@, "allocationid"@,
        "networkinterfaceid"@, "instanceid"@, "endpointid"@, "connectionid"@, "prefixlistid"@,
        "eniid"@,
    ]
}

/// Names in lower case whose value is no prefix-hex identifier, whatever they end in.
pub open spec fn never_prefixed(lower: Seq<char>) -> bool {
    text::holds(lower, "owner"@) || text::holds(lower, "availabilityzone"@) || lower == "resourceid"@
}

/// A name in lower case without the plural `s` of `ids`.
pub open spec fn singular_id(lower: Seq<char>) -> Seq<char> {
    if text::finishes_with(lower, "ids"@) {
        lower.take(lower.len() - 1)
    } else {
        lower
    }
}

/// A name in lower case that ends like a resource identifier, in the singular or the plural.
pub open spec fn names_resource_id(lower: Seq<char>) -> bool {
    &&& !never_prefixed(lower)
    &&& exists|k: int| #![trigger id_endings()[k]]
        0 <= k < id_endings().len() && (text::finishes_with(lower, id_endings()[k])
            || text::finishes_with(singular_id(lower), id_endings()[k]))
}

/// A name in lower case that ends like an IPAM pool identifier.
pub open spec fn names_ipam_pool_id(lower: Seq<char>) -> bool {
    !never_prefixed(lower) && text::finishes_with(lower, "poolid"@)
}

/// The kind of identifier that a name in lower case stands for. The more
/// special patterns come before the more general ones.
pub open spec fn kind_of(lower: Seq<char>) -> ResourceIdKind {
    let id = text::finishes_with(lower, "id"@);
    if text::finishes_with(lower, "vpcid"@) {
        ResourceIdKind::VpcId
    } else if text::finishes_with(lower, "subnetid"@) {
        ResourceIdKind::SubnetId
    } else if (text::holds(lower, "securitygroup"@) || text::holds(lower, "groupid"@)) && id {
        ResourceIdKind::SecurityGroupId
    } else if text::holds(lower, "egressonlyinternetgateway"@) && id {
        ResourceIdKind::EgressOnlyInternetGatewayId
    } else if text::holds(lower, "internetgateway"@) && id {
        ResourceIdKind::InternetGatewayId
    } else if text::holds(lower, "routetable"@) && id {
        ResourceIdKind::RouteTableId
    } else if text::holds(lower, "natgateway"@) && id {
        ResourceIdKind::NatGatewayId
    } else if text::holds(lower, "peeringconnection"@) && id {
        ResourceIdKind::VpcPeeringConnectionId
    } else if text::holds(lower, "transitgateway"@) && id {
        ResourceIdKind::TransitGatewayId
    } else if text::holds(lower, "vpngateway"@) && id {
        ResourceIdKind::VpnGatewayId
    } else if text::holds(lower, "vpcendpoint"@) && id {
        ResourceIdKind::VpcEndpointId
    } else {
        ResourceIdKind::Generic
    }
}

/// The type function for a kind of identifier.
pub open spec fn type_of_kind(kind: ResourceIdKind) -> Seq<char> {
    match kind {
        ResourceIdKind::VpcId => "super::vpc_id()"@,
        ResourceIdKind::SubnetId => "super::subnet_id()"@,
        ResourceIdKind::SecurityGroupId => "super::security_group_id()"@,
        ResourceIdKind::EgressOnlyInternetGatewayId => "super::egress_only_internet_gateway_id()"@,
        ResourceIdKind::InternetGatewayId => "super::internet_gateway_id()"@,
        ResourceIdKind::RouteTableId => "super::route_table_id()"@,
        ResourceIdKind::NatGatewayId => "super::nat_gateway_id()"@,
        ResourceIdKind::VpcPeeringConnectionId => "super::vpc_peering_connection_id()"@,
        ResourceIdKind::TransitGatewayId => "super::transit_gateway_id()"@,
        ResourceIdKind::VpnGatewayId => "super::vpn_gateway_id()"@,
        ResourceIdKind::VpcEndpointId => "super::vpc_endpoint_id()"@,
        ResourceIdKind::Generic => "super::aws_resource_id()"@,
    }
}

/// The name that reference pages give a kind of identifier.
pub open spec fn display_of_kind(kind: ResourceIdKind) -> Seq<char> {
    match kind {
        ResourceIdKind::VpcId => "VpcId"@,
        ResourceIdKind::SubnetId => "SubnetId"@,
        ResourceIdKind::SecurityGroupId => "SecurityGroupId"@,
        ResourceIdKind::EgressOnlyInternetGatewayId => "EgressOnlyInternetGatewayId"@,
        ResourceIdKind::InternetGatewayId => "InternetGatewayId"@,
        ResourceIdKind::RouteTableId => "RouteTableId"@,
        ResourceIdKind::NatGatewayId => "NatGatewayId"@,
        ResourceIdKind::VpcPeeringConnectionId => "VpcPeeringConnectionId"@,
        ResourceIdKind::TransitGatewayId => "TransitGatewayId"@,
        ResourceIdKind::VpnGatewayId => "VpnGatewayId"@,
        ResourceIdKind::VpcEndpointId => "VpcEndpointId"@,
        ResourceIdKind::Generic => "AwsResourceId"@,
    }
}

fn never_prefixed_lowered(lower: &str) -> (r: bool)
    ensures
        r == never_prefixed(lower@),
{
    text::contains(lower, "owner") || text::contains(lower, "availabilityzone") || text::same(lower, "resourceid")
}

/// Whether a name, given in lower case, holds a resource identifier.
pub fn is_resource_id_lowered(lower: &str) -> (r: bool)
    ensures
        r == names_resource_id(lower@),
{
    let endings: Vec<&'static str> = vec![
        "vpcid", "subnetid", "groupid", "gatewayid", "routetableid", "allocationid",
        "networkinterfaceid", "instanceid", "endpointid", "connectionid", "prefixlistid", "eniid",
    ];
    assert(text::slices(endings@) =~= id_endings());
    if never_prefixed_lowered(lower) {
        return false;
    }
    let singular = if text::ends_with(lower, "ids") {
        proof {
            reveal_strlit("ids");
        }
        lower.substring_char(0, lower.unicode_len() - 1)
    } else {
        lower
    };
    assert(singular@ =~= singular_id(lower@));
    let mut k: usize = 0;
    while k < endings.len()
        invariant
            k <= endings.len(),
            text::slices(endings@) == id_endings(),
            singular@ == singular_id(lower@),
            !never_prefixed(lower@),
            forall|j: int| #![trigger id_endings()[j]] 0 <= j < k ==> !text::finishes_with(lower@, id_endings()[j])
                && !text::finishes_with(singular_id(lower@), id_endings()[j]),
        decreases endings.len() - k,
    {
        assert(text::slices(endings@)[k as int] == endings@[k as int]@);
        if text::ends_with(lower, endings[k]) || text::ends_with(singular, endings[k]) {
            return true;
        }
        k = k + 1;
    }
    assert(text::slices(endings@).len() == endings@.len());
    false
}

/// Whether a property name stands for a resource identifier of the form
/// prefix-hex, such as `vpc-1a2b3c4d`.
pub fn is_aws_resource_id_property(prop_name: &str) -> (r: bool)
    ensures
        r == names_resource_id(text::lowercase(prop_name@)),
{
    is_resource_id_lowered(text::to_lower(prop_name).as_str())
}

/// Whether a name, given in lower case, holds an IPAM pool identifier.
pub fn is_ipam_pool_id_lowered(lower: &str) -> (r: bool)
    ensures
        r == names_ipam_pool_id(lower@),
{
    if never_prefixed_lowered(lower) {
        return false;
    }
    text::ends_with(lower, "poolid")
}

/// Whether a property name stands for an IPAM pool identifier.
pub fn is_ipam_pool_id_property(prop_name: &str) -> (r: bool)
    ensures
        r == names_ipam_pool_id(text::lowercase(prop_name@)),
{
    is_ipam_pool_id_lowered(text::to_lower(prop_name).as_str())
}

/// The kind of identifier that a name, given in lower case, stands for.
pub fn classify_lowered(lower: &str) -> (r: ResourceIdKind)
    ensures
        r == kind_of(lower@),
{
    let id = text::ends_with(lower, "id");
    if text::ends_with(lower, "vpcid") {
        return ResourceIdKind::VpcId;
    }
    if text::ends_with(lower, "subnetid") {
        return ResourceIdKind::SubnetId;
    }
    if (text::contains(lower, "securitygroup") || text::contains(lower, "groupid")) && id {
        return ResourceIdKind::SecurityGroupId;
    }
    if text::contains(lower, "egressonlyinternetgateway") && id {
        return ResourceIdKind::EgressOnlyInternetGatewayId;
    }
    if text::contains(lower, "internetgateway") && id {
        return ResourceIdKind::InternetGatewayId;
    }
    if text::contains(lower, "routetable") && id {
        return ResourceIdKind::RouteTableId;
    }
    if text::contains(lower, "natgateway") && id {
        return ResourceIdKind::NatGatewayId;
    }
    if text::contains(lower, "peeringconnection") && id {
        return ResourceIdKind::VpcPeeringConnectionId;
    }
    if text::contains(lower, "transitgateway") && id {
        return ResourceIdKind::TransitGatewayId;
    }
    if text::contains(lower, "vpngateway") && id {
        return ResourceIdKind::VpnGatewayId;
    }
    if text::contains(lower, "vpcendpoint") && id {
        return ResourceIdKind::VpcEndpointId;
    }
    ResourceIdKind::Generic
}

/// The kind of identifier that a property name stands for.
pub fn classify_resource_id(prop_name: &str) -> (r: ResourceIdKind)
    ensures
        r == kind_of(text::lowercase(prop_name@)),
{
    classify_lowered(text::to_lower(prop_name).as_str())
}

/// The type function for a kind of identifier.
pub fn kind_type(kind: ResourceIdKind) -> (r: &'static str)
    ensures
        r@ == type_of_kind(kind),
{
    match kind {
        ResourceIdKind::VpcId => "super::vpc_id()",
        ResourceIdKind::SubnetId => "super::subnet_id()",
        ResourceIdKind::SecurityGroupId => "super::security_group_id()",
        ResourceIdKind::EgressOnlyInternetGatewayId => "super::egress_only_internet_gateway_id()",
        ResourceIdKind::InternetGatewayId => "super::internet_gateway_id()",
        ResourceIdKind::RouteTableId => "super::route_table_id()",
        ResourceIdKind::NatGatewayId => "super::nat_gateway_id()",
        ResourceIdKind::VpcPeeringConnectionId => "super::vpc_peering_connection_id()",
        ResourceIdKind::TransitGatewayId => "super::transit_gateway_id()",
        ResourceIdKind::VpnGatewayId => "super::vpn_gateway_id()",
        ResourceIdKind::VpcEndpointId => "super::vpc_endpoint_id()",
        ResourceIdKind::Generic => "super::aws_resource_id()",
    }
}

/// The type function for the identifier that a property name stands for.
pub fn get_resource_id_type(prop_name: &str) -> (r: &'static str)
    ensures
        r@ == type_of_kind(kind_of(text::lowercase(prop_name@))),
{
    kind_type(classify_resource_id(prop_name))
}

/// The name that reference pages give a kind of identifier.
pub fn kind_display_name(kind: ResourceIdKind) -> (r: &'static str)
    ensures
        r@ == display_of_kind(kind),
{
    match kind {
        ResourceIdKind::VpcId => "VpcId",
        ResourceIdKind::SubnetId => "SubnetId",
        ResourceIdKind::SecurityGroupId => "SecurityGroupId",
        ResourceIdKind::EgressOnlyInternetGatewayId => "EgressOnlyInternetGatewayId",
        ResourceIdKind::InternetGatewayId => "InternetGatewayId",
        ResourceIdKind::RouteTableId => "RouteTableId",
        ResourceIdKind::NatGatewayId => "NatGatewayId",
        ResourceIdKind::VpcPeeringConnectionId => "VpcPeeringConnectionId",
        ResourceIdKind::TransitGatewayId => "TransitGatewayId",
        ResourceIdKind::VpnGatewayId => "VpnGatewayId",
        ResourceIdKind::VpcEndpointId => "VpcEndpointId",
        ResourceIdKind::Generic => "AwsResourceId",
    }
}

/// The name that reference pages give the identifier that a property name stands for.
pub fn get_resource_id_display_name(prop_name: &str) -> (r: &'static str)
    ensures
        r@ == display_of_kind(kind_of(text::lowercase(prop_name@))),
{
    kind_display_name(classify_resource_id(prop_name))
}

/// A name in lower case that ends or reads like an ARN.
pub open spec fn names_arn(lower: Seq<char>) -> bool {
    text::finishes_with(lower, "arn"@) || text::finishes_with(lower, "arns"@) || text::holds(lower, "_arn"@)
}

/// A name in lower case that reads like an IP address.
pub open spec fn names_ip_address(lower: Seq<char>) -> bool {
    &&& text::holds(lower, "ipaddress"@) || text::finishes_with(lower, "ip"@) || text::holds(lower, "ipaddresses"@)
    &&& !text::holds(lower, "cidr"@)
    &&& !text::holds(lower, "count"@)
    &&& !text::holds(lower, "type"@)
}

/// Whether a name, given in lower case, ends or reads like an ARN.
pub fn is_arn_lowered(lower: &str) -> (r: bool)
    ensures
        r == names_arn(lower@),
{
    text::ends_with(lower, "arn") || text::ends_with(lower, "arns") || text::contains(lower, "_arn")
}

/// Whether a name, given in lower case, reads like an IP address.
pub fn is_ip_address_lowered(lower: &str) -> (r: bool)
    ensures
        r == names_ip_address(lower@),
{
    (text::contains(lower, "ipaddress") || text::ends_with(lower, "ip") || text::contains(lower, "ipaddresses"))
        && !text::contains(lower, "cidr") && !text::contains(lower, "count") && !text::contains(lower, "type")
}

/// The type that a property of one resource type has, whatever its name alone says.
pub open spec fn resource_specific_type(resource_type: Seq<char>, prop_name: Seq<char>) -> Option<Seq<char>> {
    if resource_type == "AWS::IAM::Role"@ && prop_name == "Arn"@ {
        Some("super::iam_role_arn()"@)
    } else {
        None
    }
}

/// The type that a property of one resource type has, whatever its name alone says.
pub fn resource_specific_type_overrides(resource_type: &str, prop_name: &str) -> (r: Option<&'static str>)
    ensures
        text::opt_slice(r) == resource_specific_type(resource_type@, prop_name@),
{
    if text::same(resource_type, "AWS::IAM::Role") && text::same(prop_name, "Arn") {
        Some("super::iam_role_arn()")
    } else {
        None
    }
}

/// The type that the names of a property and of its resource give it. `lower`
/// is the property's name in lower case.
pub open spec fn inferred_type(prop_name: Seq<char>, lower: Seq<char>, resource_type: Seq<char>) -> Option<Seq<char>> {
    if resource_specific_type(resource_type, prop_name) is Some {
        resource_specific_type(resource_type, prop_name)
    } else if keyed::lookup(tables::string_type_table(), prop_name) is Some {
        keyed::lookup(tables::string_type_table(), prop_name)
    } else if names_arn(lower) {
        Some("super::arn()"@)
    } else if names_resource_id(lower) {
        Some(type_of_kind(kind_of(lower)))
    } else {
        None
    }
}

/// The type that the names of a property and of its resource give it, with the
/// property's name in lower case at hand.
pub fn infer_string_type_lowered(prop_name: &str, lower: &str, resource_type: &str) -> (r: Option<String>)
    ensures
        text::opt_string(r) == inferred_type(prop_name@, lower@, resource_type@),
{
    if let Some(t) = resource_specific_type_overrides(resource_type, prop_name) {
        return Some(t.to_owned());
    }
    if let Some(t) = tables::string_type_override(prop_name) {
        return Some(t.to_owned());
    }
    if is_arn_lowered(lower) {
        return Some("super::arn()".to_owned());
    }
    if is_resource_id_lowered(lower) {
        return Some(kind_type(classify_lowered(lower)).to_owned());
    }
    None
}

/// The type that the names of a property and of its resource give it, if they
/// say anything.
pub fn infer_string_type(prop_name: &str, resource_type: &str) -> (r: Option<String>)
    ensures
        text::opt_string(r) == inferred_type(prop_name@, text::lowercase(prop_name@), resource_type@),
{
    infer_string_type_lowered(prop_name, text::to_lower(prop_name).as_str(), resource_type)
}

/// The name that reference pages give a type of the string type table.
pub open spec fn display_of_type(t: Seq<char>) -> Seq<char> {
    if t == "super::security_group_id()"@ {
        "SecurityGroupId"@
    } else if t == "super::aws_resource_id()"@ {
        "AwsResourceId"@
    } else if t == "super::iam_role_arn()"@ {
        "IamRoleArn"@
    } else if t == "super::iam_policy_arn()"@ {
        "IamPolicyArn"@
    } else if t == "super::kms_key_arn()"@ {
        "KmsKeyArn"@
    } else if t == "super::kms_key_id()"@ {
        "KmsKeyId"@
    } else {
        "String"@
    }
}

/// The name that reference pages give a type of the string type table.
pub fn override_type_to_display_name(override_type: &str) -> (r: &'static str)
    ensures
        r@ == display_of_type(override_type@),
{
    if text::same(override_type, "super::security_group_id()") {
        "SecurityGroupId"
    } else if text::same(override_type, "super::aws_resource_id()") {
        "AwsResourceId"
    } else if text::same(override_type, "super::iam_role_arn()") {
        "IamRoleArn"
    } else if text::same(override_type, "super::iam_policy_arn()") {
        "IamPolicyArn"
    } else if text::same(override_type, "super::kms_key_arn()") {
        "KmsKeyArn"
    } else if text::same(override_type, "super::kms_key_id()") {
        "KmsKeyId"
    } else {
        "String"
    }
}

/// A property name without the plural `s` of identifiers and ARNs.
pub open spec fn singular_name(prop_name: Seq<char>) -> Seq<char> {
    if text::finishes_with(prop_name, "Ids"@) || text::finishes_with(prop_name, "ids"@)
        || text::finishes_with(prop_name, "Arns"@) || text::finishes_with(prop_name, "arns"@) {
        prop_name.take(prop_name.len() - 1)
    } else {
        prop_name
    }
}

/// What reference pages call the type of a string property that no table
/// names. `lower` is the property's singular name in lower case.
pub open spec fn display_by_pattern(lower: Seq<char>) -> Seq<char> {
    if text::holds(lower, "cidr"@) {
        if text::holds(lower, "ipv6"@) {
            "Ipv6Cidr"@
        } else {
            "Ipv4Cidr"@
        }
    } else if names_ip_address(lower) {
        if text::holds(lower, "ipv6"@) {
            "Ipv6Address"@
        } else {
            "Ipv4Address"@
        }
    } else if lower == "availabilityzone"@ || lower == "availabilityzones"@ {
        "AvailabilityZone"@
    } else if names_arn(lower) {
        "Arn"@
    } else if names_ipam_pool_id(lower) {
        "IpamPoolId"@
    } else if names_resource_id(lower) {
        display_of_kind(kind_of(lower))
    } else {
        "String"@
    }
}

/// What reference pages call the type of a string property.
pub open spec fn string_display(prop_name: Seq<char>) -> Seq<char> {
    let singular = singular_name(prop_name);
    if keyed::lookup(tables::string_type_table(), prop_name) is Some {
        display_of_type(keyed::lookup(tables::string_type_table(), prop_name)->0)
    } else if keyed::lookup(tables::string_type_table(), singular) is Some {
        display_of_type(keyed::lookup(tables::string_type_table(), singular)->0)
    } else {
        display_by_pattern(text::lowercase(singular))
    }
}

/// What reference pages call the type of a string property that no table
/// names, from its singular name in lower case.
pub fn infer_display_lowered(lower: &str) -> (r: String)
    ensures
        r@ == display_by_pattern(lower@),
{
    if text::contains(lower, "cidr") {
        if text::contains(lower, "ipv6") {
            "Ipv6Cidr".to_owned()
        } else {
            "Ipv4Cidr".to_owned()
        }
    } else if is_ip_address_lowered(lower) {
        if text::contains(lower, "ipv6") {
            "Ipv6Address".to_owned()
        } else {
            "Ipv4Address".to_owned()
        }
    } else if text::same(lower, "availabilityzone") || text::same(lower, "availabilityzones") {
        "AvailabilityZone".to_owned()
    } else if is_arn_lowered(lower) {
        "Arn".to_owned()
    } else if is_ipam_pool_id_lowered(lower) {
        "IpamPoolId".to_owned()
    } else if is_resource_id_lowered(lower) {
        kind_display_name(classify_lowered(lower)).to_owned()
    } else {
        "String".to_owned()
    }
}

/// What reference pages call the type of a string property, by its name in the
/// singular or the plural.
pub fn infer_string_type_display(prop_name: &str) -> (r: String)
    ensures
        r@ == string_display(prop_name@),
{
    if let Some(t) = tables::string_type_override(prop_name) {
        return override_type_to_display_name(t).to_owned();
    }
    let plural = text::ends_with(prop_name, "Ids") || text::ends_with(prop_name, "ids")
        || text::ends_with(prop_name, "Arns") || text::ends_with(prop_name, "arns");
    let singular = if plural {
        proof {
            reveal_strlit("Ids");
            reveal_strlit("ids");
            reveal_strlit("Arns");
            reveal_strlit("arns");
        }
        prop_name.substring_char(0, prop_name.unicode_len() - 1)
    } else {
        prop_name
    };
    assert(singular@ =~= singular_name(prop_name@));
    if let Some(t) = tables::string_type_override(singular) {
        return override_type_to_display_name(t).to_owned();
    }
    infer_display_lowered(text::to_lower(singular).as_str())
}

/// A name gets the generic identifier type exactly when it is classified as
/// generic, and exactly then the generic display name.
pub proof fn law_generic_kind_is_consistent(lower: Seq<char>)
    ensures
        kind_of(lower) == ResourceIdKind::Generic <==> type_of_kind(kind_of(lower)) == "super::aws_resource_id()"@,
        kind_of(lower) == ResourceIdKind::Generic <==> display_of_kind(kind_of(lower)) == "AwsResourceId"@,
{
    lemma_generic_type_is_alone(kind_of(lower));
    lemma_generic_display_is_alone(kind_of(lower));
}

proof fn lemma_generic_type_is_alone(kind: ResourceIdKind)
    ensures
        kind != ResourceIdKind::Generic ==> type_of_kind(kind) != "super::aws_resource_id()"@,
{
    let g = "super::aws_resource_id()"@;
    reveal_strlit("super::aws_resource_id()");
    reveal_strlit("super::vpc_id()");
    reveal_strlit("super::subnet_id()");
    reveal_strlit("super::security_group_id()");
    reveal_strlit("super::egress_only_internet_gateway_id()");
    reveal_strlit("super::internet_gateway_id()");
    reveal_strlit("super::route_table_id()");
    reveal_strlit("super::nat_gateway_id()");
    reveal_strlit("super::vpc_peering_connection_id()");
    reveal_strlit("super::transit_gateway_id()");
    reveal_strlit("super::vpn_gateway_id()");
    reveal_strlit("super::vpc_endpoint_id()");
    assert(g[7] == 'a');
    assert(kind != ResourceIdKind::Generic ==> type_of_kind(kind)[7] != 'a');
}

proof fn lemma_generic_display_is_alone(kind: ResourceIdKind)
    ensures
        kind != ResourceIdKind::Generic ==> display_of_kind(kind) != "AwsResourceId"@,
{
    let g = "AwsResourceId"@;
    reveal_strlit("AwsResourceId");
    reveal_strlit("VpcId");
    reveal_strlit("SubnetId");
    reveal_strlit("SecurityGroupId");
    reveal_strlit("EgressOnlyInternetGatewayId");
    reveal_strlit("InternetGatewayId");
    reveal_strlit("RouteTableId");
    reveal_strlit("NatGatewayId");
    reveal_strlit("VpcPeeringConnectionId");
    reveal_strlit("TransitGatewayId");
    reveal_strlit("VpnGatewayId");
    reveal_strlit("VpcEndpointId");
    assert(g[0] == 'A');
    assert(kind != ResourceIdKind::Generic ==> display_of_kind(kind)[0] != 'A');
}

/// The call of the type function that is named like a display name.
pub open spec fn super_call(display: Seq<char>) -> Seq<char> {
    "super::"@ + casing::snake_case(display) + "()"@
}

/// The type function of a kind of identifier is its display name in snake case.
pub proof fn law_type_is_named_like_display(lower: Seq<char>)
    ensures
        type_of_kind(kind_of(lower)) == super_call(display_of_kind(kind_of(lower))),
{
    match kind_of(lower) {
        ResourceIdKind::VpcId => lemma_vpc_id(),
        ResourceIdKind::SubnetId => lemma_subnet_id(),
        ResourceIdKind::SecurityGroupId => lemma_security_group_id(),
        ResourceIdKind::EgressOnlyInternetGatewayId => lemma_egress_only_internet_gateway_id(),
        ResourceIdKind::InternetGatewayId => lemma_internet_gateway_id(),
        ResourceIdKind::RouteTableId => lemma_route_table_id(),
        ResourceIdKind::NatGatewayId => lemma_nat_gateway_id(),
        ResourceIdKind::VpcPeeringConnectionId => lemma_vpc_peering_connection_id(),
        ResourceIdKind::TransitGatewayId => lemma_transit_gateway_id(),
        ResourceIdKind::VpnGatewayId => lemma_vpn_gateway_id(),
        ResourceIdKind::VpcEndpointId => lemma_vpc_endpoint_id(),
        ResourceIdKind::Generic => lemma_aws_resource_id(),
    }
}

proof fn lemma_vpc_id()
    ensures
        super_call("VpcId"@) == "super::vpc_id()"@,
{
    reveal_strlit("VpcId");
    reveal_strlit("super::vpc_id()");
    reveal_strlit("super::");
    reveal_strlit("()");
    reveal_with_fuel(casing::snaked, 6);
    assert(super_call("VpcId"@) =~= "super::vpc_id()"@);
}

proof fn lemma_subnet_id()
    ensures
        super_call("SubnetId"@) == "super::subnet_id()"@,
{
    reveal_strlit("SubnetId");
    reveal_strlit("super::subnet_id()");
    reveal_strlit("super::");
    reveal_strlit("()");
    reveal_with_fuel(casing::snaked, 9);
    assert(super_call("SubnetId"@) =~= "super::subnet_id()"@);
}

proof fn lemma_security_group_id()
    ensures
        super_call("SecurityGroupId"@) == "super::security_group_id()"@,
{
    reveal_strlit("SecurityGroupId");
    reveal_strlit("super::security_group_id()");
    reveal_strlit("super::");
    reveal_strlit("()");
    reveal_with_fuel(casing::snaked, 16);
    assert(super_call("SecurityGroupId"@) =~= "super::security_group_id()"@);
}

proof fn lemma_egress_only_internet_gateway_id()
    ensures
        super_call("EgressOnlyInternetGatewayId"@) == "super::egress_only_internet_gateway_id()"@,
{
    reveal_strlit("EgressOnlyInternetGatewayId");
    reveal_strlit("super::egress_only_internet_gateway_id()");
    reveal_strlit("super::");
    reveal_strlit("()");
    reveal_with_fuel(casing::snaked, 28);
    assert(super_call("EgressOnlyInternetGatewayId"@) =~= "super::egress_only_internet_gateway_id()"@);
}

proof fn lemma_internet_gateway_id()
    ensures
        super_call("InternetGatewayId"@) == "super::internet_gateway_id()"@,
{
    reveal_strlit("InternetGatewayId");
    reveal_strlit("super::internet_gateway_id()");
    reveal_strlit("super::");
    reveal_strlit("()");
    reveal_with_fuel(casing::snaked, 18);
    assert(super_call("InternetGatewayId"@) =~= "super::internet_gateway_id()"@);
}

proof fn lemma_route_table_id()
    ensures
        super_call("RouteTableId"@) == "super::route_table_id()"@,
{
    reveal_strlit("RouteTableId");
    reveal_strlit("super::route_table_id()");
    reveal_strlit("super::");
    reveal_strlit("()");
    reveal_with_fuel(casing::snaked, 13);
    assert(super_call("RouteTableId"@) =~= "super::route_table_id()"@);
}

proof fn lemma_nat_gateway_id()
    ensures
        super_call("NatGatewayId"@) == "super::nat_gateway_id()"@,
{
    reveal_strlit("NatGatewayId");
    reveal_strlit("super::nat_gateway_id()");
    reveal_strlit("super::");
    reveal_strlit("()");
    reveal_with_fuel(casing::snaked, 13);
    assert(super_call("NatGatewayId"@) =~= "super::nat_gateway_id()"@);
}

proof fn lemma_vpc_peering_connection_id()
    ensures
        super_call("VpcPeeringConnectionId"@) == "super::vpc_peering_connection_id()"@,
{
    reveal_strlit("VpcPeeringConnectionId");
    reveal_strlit("super::vpc_peering_connection_id()");
    reveal_strlit("super::");
    reveal_strlit("()");
    reveal_with_fuel(casing::snaked, 23);
    assert(super_call("VpcPeeringConnectionId"@) =~= "super::vpc_peering_connection_id()"@);
}

proof fn lemma_transit_gateway_id()
    ensures
        super_call("TransitGatewayId"@) == "super::transit_gateway_id()"@,
{
    reveal_strlit("TransitGatewayId");
    reveal_strlit("super::transit_gateway_id()");
    reveal_strlit("super::");
    reveal_strlit("()");
    reveal_with_fuel(casing::snaked, 17);
    assert(super_call("TransitGatewayId"@) =~= "super::transit_gateway_id()"@);
}

proof fn lemma_vpn_gateway_id()
    ensures
        super_call("VpnGatewayId"@) == "super::vpn_gateway_id()"@,
{
    reveal_strlit("VpnGatewayId");
    reveal_strlit("super::vpn_gateway_id()");
    reveal_strlit("super::");
    reveal_strlit("()");
    reveal_with_fuel(casing::snaked, 13);
    assert(super_call("VpnGatewayId"@) =~= "super::vpn_gateway_id()"@);
}

proof fn lemma_vpc_endpoint_id()
    ensures
        super_call("VpcEndpointId"@) == "super::vpc_endpoint_id()"@,
{
    reveal_strlit("VpcEndpointId");
    reveal_strlit("super::vpc_endpoint_id()");
    reveal_strlit("super::");
    reveal_strlit("()");
    reveal_with_fuel(casing::snaked, 14);
    assert(super_call("VpcEndpointId"@) =~= "super::vpc_endpoint_id()"@);
}

proof fn lemma_aws_resource_id()
    ensures
        super_call("AwsResourceId"@) == "super::aws_resource_id()"@,
{
    reveal_strlit("AwsResourceId");
    reveal_strlit("super::aws_resource_id()");
    reveal_strlit("super::");
    reveal_strlit("()");
    reveal_with_fuel(casing::snaked, 14);
    assert(super_call("AwsResourceId"@) =~= "super::aws_resource_id()"@);
}

/// No name is both an IPAM pool identifier and a resource identifier.
pub proof fn law_pool_ids_are_no_resource_ids(lower: Seq<char>)
    ensures
        !(names_ipam_pool_id(lower) && names_resource_id(lower)),
{
    if names_ipam_pool_id(lower) && names_resource_id(lower) {
        reveal_strlit("poolid");
        reveal_strlit("ids");
        let n = lower.len();
        assert(lower.subrange(n - 6, n as int)[5] == 'd');
        assert(lower.subrange(n - 6, n as int)[3] == 'l');
        assert(lower[n - 1] == 'd');
        assert(lower[n - 3] == 'l');
        if text::finishes_with(lower, "ids"@) {
            assert(lower.subrange(n - 3, n as int)[2] == 's');
            assert(false);
        }
        let k = choose|k: int| #![trigger id_endings()[k]]
            0 <= k < id_endings().len() && (text::finishes_with(lower, id_endings()[k])
                || text::finishes_with(singular_id(lower), id_endings()[k]));
        let e = id_endings()[k];
        lemma_endings(k);
        assert(lower.subrange(n - e.len(), n as int)[e.len() - 3] == e[e.len() - 3]);
        assert(false);
    }
}

proof fn lemma_endings(k: int)
    requires
        0 <= k < id_endings().len(),
    ensures
        id_endings()[k].len() >= 5,
        id_endings()[k][id_endings()[k].len() - 3] != 'l',
{
    reveal_strlit("vpcid");
    reveal_strlit("subnetid");
    reveal_strlit("groupid");
    reveal_strlit("gatewayid");
    reveal_strlit("routetableid");
    reveal_strlit("allocationid");
    reveal_strlit("networkinterfaceid");
    reveal_strlit("instanceid");
    reveal_strlit("endpointid");
    reveal_strlit("connectionid");
    reveal_strlit("prefixlistid");
    reveal_strlit("eniid");
}

} // verus!
