//! Types that resource schemas share, and what they ask of values.
use vstd::prelude::*;
use vstd::string::*;

use crate::enums;
use crate::schema::{AttributeType, Check, CheckView, FieldView, StructField, ToDsl, ToDslView, TypeView};
use crate::text;
use crate::value;
use crate::value::{DslValue, ValueView};

verus! {

/// Tags: a map from names to strings.
pub open spec fn tags_view() -> TypeView {
    TypeView::map_of(TypeView::String)
}

/// Tags: a map from names to strings.
pub fn tags_type() -> (r: AttributeType)
    ensures
        r@ == tags_view(),
{
    AttributeType::map_of(AttributeType::String)
}

/// A region, as `awscc.Region.ap_northeast_1`, `ap-northeast-1` or `ap_northeast_1`.
pub open spec fn region_view() -> TypeView {
    TypeView::custom("Region"@, TypeView::String, CheckView::Region, Some("awscc"@), Some(ToDslView::hyphens()))
}

/// A region, as `awscc.Region.ap_northeast_1`, `ap-northeast-1` or `ap_northeast_1`.
pub fn awscc_region() -> (r: AttributeType)
    ensures
        r@ == region_view(),
{
    AttributeType::custom("Region", AttributeType::String, Check::Region, Some("awscc"), Some(ToDsl::hyphens()))
}

/// An availability zone: a region and one letter, such as `us-east-1a`.
pub open spec fn zone_view() -> TypeView {
    TypeView::custom("AvailabilityZone"@, TypeView::String, CheckView::Zone, Some("awscc"@), Some(ToDslView::hyphens()))
}

/// An availability zone: a region and one letter, such as `us-east-1a`.
pub fn availability_zone() -> (r: AttributeType)
    ensures
        r@ == zone_view(),
{
    AttributeType::custom(
        "AvailabilityZone",
        AttributeType::String,
        Check::Zone,
        Some("awscc"),
        Some(ToDsl::hyphens()),
    )
}

/// One string or a list of strings.
pub open spec fn strings_view() -> TypeView {
    TypeView::union().or(TypeView::list(TypeView::String)).or(TypeView::String)
}

fn strings_type() -> (r: AttributeType)
    ensures
        r@ == strings_view(),
{
    AttributeType::union().or(AttributeType::list(AttributeType::String)).or(AttributeType::String)
}

/// Whom a statement of a policy is about.
pub open spec fn principal_view() -> TypeView {
    TypeView::union().or(
        TypeView::structure("IamPolicyPrincipal"@)
            .field(FieldView::new("service"@, strings_view()).with_provider_name("Service"@))
            .field(FieldView::new("aws"@, strings_view()).with_provider_name("AWS"@))
            .field(FieldView::new("federated"@, strings_view()).with_provider_name("Federated"@))
            .field(FieldView::new("canonical_user"@, strings_view()).with_provider_name("CanonicalUser"@)),
    ).or(TypeView::String)
}

fn principal_type() -> (r: AttributeType)
    ensures
        r@ == principal_view(),
{
    AttributeType::union().or(
        AttributeType::structure("IamPolicyPrincipal")
            .field(StructField::new("service", strings_type()).with_provider_name("Service"))
            .field(StructField::new("aws", strings_type()).with_provider_name("AWS"))
            .field(StructField::new("federated", strings_type()).with_provider_name("Federated"))
            .field(StructField::new("canonical_user", strings_type()).with_provider_name("CanonicalUser")),
    ).or(AttributeType::String)
}

/// One statement of a policy.
pub open spec fn statement_view() -> TypeView {
    TypeView::structure("IamPolicyStatement"@)
        .field(FieldView::new("sid"@, TypeView::String).with_provider_name("Sid"@))
        .field(FieldView::new("effect"@, TypeView::String).with_provider_name("Effect"@))
        .field(FieldView::new("principal"@, principal_view()).with_provider_name("Principal"@))
        .field(FieldView::new("not_principal"@, principal_view()).with_provider_name("NotPrincipal"@))
        .field(FieldView::new("action"@, strings_view()).with_provider_name("Action"@))
        .field(FieldView::new("not_action"@, strings_view()).with_provider_name("NotAction"@))
        .field(FieldView::new("resource"@, strings_view()).with_provider_name("Resource"@))
        .field(FieldView::new("not_resource"@, strings_view()).with_provider_name("NotResource"@))
        .field(
            FieldView::new("condition"@, TypeView::map_of(TypeView::map_of(strings_view()))).with_provider_name(
                "Condition"@,
            ),
        )
}

fn statement_type() -> (r: AttributeType)
    ensures
        r@ == statement_view(),
{
    AttributeType::structure("IamPolicyStatement")
        .field(StructField::new("sid", AttributeType::String).with_provider_name("Sid"))
        .field(StructField::new("effect", AttributeType::String).with_provider_name("Effect"))
        .field(StructField::new("principal", principal_type()).with_provider_name("Principal"))
        .field(StructField::new("not_principal", principal_type()).with_provider_name("NotPrincipal"))
        .field(StructField::new("action", strings_type()).with_provider_name("Action"))
        .field(StructField::new("not_action", strings_type()).with_provider_name("NotAction"))
        .field(StructField::new("resource", strings_type()).with_provider_name("Resource"))
        .field(StructField::new("not_resource", strings_type()).with_provider_name("NotResource"))
        .field(
            StructField::new(
                "condition",
                AttributeType::map_of(AttributeType::map_of(strings_type())),
            ).with_provider_name("Condition"),
        )
}

/// An IAM policy document, with the keys of the configuration language in
/// snake case and those of the provider in Pascal case.
pub open spec fn policy_view() -> TypeView {
    TypeView::structure("IamPolicyDocument"@)
        .field(FieldView::new("version"@, TypeView::String).with_provider_name("Version"@))
        .field(FieldView::new("id"@, TypeView::String).with_provider_name("Id"@))
        .field(
            FieldView::new("statement"@, TypeView::list(statement_view())).with_provider_name(
                "Statement"@,
            ).with_block_name("statement"@),
        )
}

/// An IAM policy document.
pub fn iam_policy_document() -> (r: AttributeType)
    ensures
        r@ == policy_view(),
{
    AttributeType::structure("IamPolicyDocument")
        .field(StructField::new("version", AttributeType::String).with_provider_name("Version"))
        .field(StructField::new("id", AttributeType::String).with_provider_name("Id"))
        .field(
            StructField::new("statement", AttributeType::list(statement_type())).with_provider_name(
                "Statement",
            ).with_block_name("statement"),
        )
}

/// How a named format is checked.
#[derive(Debug, Clone, Copy, PartialEq, Eq)]
pub enum Validator {
    Arn,
    AvailabilityZone,
    AwsResourceId,
    IamRoleId,
    AwsAccountId,
    KmsKeyId,
    IpamPoolId,
    AvailabilityZoneId,
    /// An identifier that begins with the prefix and a hyphen.
    PrefixedResourceId(&'static str),
    /// An ARN of the service whose resource part begins with the prefix.
    ServiceArn(&'static str, Option<&'static str>),
}

/// The validators, by the name of the format.
pub open spec fn validator_table() -> Seq<(&'static str, Validator)> {
    seq![
        ("arn", Validator::Arn),
        ("availability_zone", Validator::AvailabilityZone),
        ("aws_resource_id", Validator::AwsResourceId),
        ("iam_role_id", Validator::IamRoleId),
        ("aws_account_id", Validator::AwsAccountId),
        ("kms_key_id", Validator::KmsKeyId),
        ("ipam_pool_id", Validator::IpamPoolId),
        ("availability_zone_id", Validator::AvailabilityZoneId),
        ("vpc_id", Validator::PrefixedResourceId("vpc")),
        ("subnet_id", Validator::PrefixedResourceId("subnet")),
        ("security_group_id", Validator::PrefixedResourceId("sg")),
        ("internet_gateway_id", Validator::PrefixedResourceId("igw")),
        ("route_table_id", Validator::PrefixedResourceId("rtb")),
        ("nat_gateway_id", Validator::PrefixedResourceId("nat")),
        ("transit_gateway_id", Validator::PrefixedResourceId("tgw")),
        ("vpn_gateway_id", Validator::PrefixedResourceId("vgw")),
        ("network_interface_id", Validator::PrefixedResourceId("eni")),
        ("allocation_id", Validator::PrefixedResourceId("eipalloc")),
        ("vpc_endpoint_id", Validator::PrefixedResourceId("vpce")),
        ("vpc_peering_connection_id", Validator::PrefixedResourceId("pcx")),
        ("instance_id", Validator::PrefixedResourceId("i")),
        ("prefix_list_id", Validator::PrefixedResourceId("pl")),
        ("carrier_gateway_id", Validator::PrefixedResourceId("cagw")),
        ("local_gateway_id", Validator::PrefixedResourceId("lgw")),
        ("network_acl_id", Validator::PrefixedResourceId("acl")),
        ("transit_gateway_attachment_id", Validator::PrefixedResourceId("tgw-attach")),
        ("flow_log_id", Validator::PrefixedResourceId("fl")),
        ("ipam_id", Validator::PrefixedResourceId("ipam")),
        ("subnet_route_table_association_id", Validator::PrefixedResourceId("rtbassoc")),
        ("security_group_rule_id", Validator::PrefixedResourceId("sgr")),
        ("vpc_cidr_block_association_id", Validator::PrefixedResourceId("vpc-cidr-assoc")),
        ("tgw_route_table_id", Validator::PrefixedResourceId("tgw-rtb")),
        ("egress_only_internet_gateway_id", Validator::PrefixedResourceId("eigw")),
        ("iam_role_arn", Validator::ServiceArn("iam", Some("role/"))),
        ("iam_policy_arn", Validator::ServiceArn("iam", Some("policy/"))),
        ("kms_key_arn", Validator::KmsKeyId),
    ]
}

/// The validators, by the name of the format.
pub fn awscc_validators() -> (r: Vec<(&'static str, Validator)>)
    ensures
        r@ == validator_table(),
{
    let r = vec![
        ("arn", Validator::Arn),
        ("availability_zone", Validator::AvailabilityZone),
        ("aws_resource_id", Validator::AwsResourceId),
        ("iam_role_id", Validator::IamRoleId),
        ("aws_account_id", Validator::AwsAccountId),
        ("kms_key_id", Validator::KmsKeyId),
        ("ipam_pool_id", Validator::IpamPoolId),
        ("availability_zone_id", Validator::AvailabilityZoneId),
        ("vpc_id", Validator::PrefixedResourceId("vpc")),
        ("subnet_id", Validator::PrefixedResourceId("subnet")),
        ("security_group_id", Validator::PrefixedResourceId("sg")),
        ("internet_gateway_id", Validator::PrefixedResourceId("igw")),
        ("route_table_id", Validator::PrefixedResourceId("rtb")),
        ("nat_gateway_id", Validator::PrefixedResourceId("nat")),
        ("transit_gateway_id", Validator::PrefixedResourceId("tgw")),
        ("vpn_gateway_id", Validator::PrefixedResourceId("vgw")),
        ("network_interface_id", Validator::PrefixedResourceId("eni")),
        ("allocation_id", Validator::PrefixedResourceId("eipalloc")),
        ("vpc_endpoint_id", Validator::PrefixedResourceId("vpce")),
        ("vpc_peering_connection_id", Validator::PrefixedResourceId("pcx")),
        ("instance_id", Validator::PrefixedResourceId("i")),
        ("prefix_list_id", Validator::PrefixedResourceId("pl")),
        ("carrier_gateway_id", Validator::PrefixedResourceId("cagw")),
        ("local_gateway_id", Validator::PrefixedResourceId("lgw")),
        ("network_acl_id", Validator::PrefixedResourceId("acl")),
        ("transit_gateway_attachment_id", Validator::PrefixedResourceId("tgw-attach")),
        ("flow_log_id", Validator::PrefixedResourceId("fl")),
        ("ipam_id", Validator::PrefixedResourceId("ipam")),
        ("subnet_route_table_association_id", Validator::PrefixedResourceId("rtbassoc")),
        ("security_group_rule_id", Validator::PrefixedResourceId("sgr")),
        ("vpc_cidr_block_association_id", Validator::PrefixedResourceId("vpc-cidr-assoc")),
        ("tgw_route_table_id", Validator::PrefixedResourceId("tgw-rtb")),
        ("egress_only_internet_gateway_id", Validator::PrefixedResourceId("eigw")),
        ("iam_role_arn", Validator::ServiceArn("iam", Some("role/"))),
        ("iam_policy_arn", Validator::ServiceArn("iam", Some("policy/"))),
        ("kms_key_arn", Validator::KmsKeyId),
    ];
    assert(r@ =~= validator_table());
    r
}

/// A range of integers as text.
pub open spec fn range_text(min: Option<i64>, max: Option<i64>) -> Seq<char> {
    (match min {
        Some(a) => text::decimal(a as int),
        None => ""@,
    }) + ".."@ + (match max {
        Some(b) => "="@ + text::decimal(b as int),
        None => ""@,
    })
}

fn print_range(min: Option<i64>, max: Option<i64>) -> (r: String)
    ensures
        r@ == range_text(min, max),
{
    let mut s = match min {
        Some(a) => text::print_i64(a),
        None => "".to_owned(),
    };
    s.append("..");
    let tail = match max {
        Some(b) => {
            let mut t = "=".to_owned();
            t.append(text::print_i64(b).as_str());
            t
        },
        None => "".to_owned(),
    };
    s.append(tail.as_str());
    s
}

/// What is wrong with a value of an integer range, if anything is.
pub open spec fn int_fault(v: ValueView, min: Option<i64>, max: Option<i64>) -> Option<Seq<char>> {
    match v {
        ValueView::Int(n) => if (min is Some && n < min->0) || (max is Some && n > max->0) {
            Some("Value "@ + text::decimal(n as int) + " is out of range "@ + range_text(min, max))
        } else {
            None
        },
        _ => Some("Expected integer"@),
    }
}

/// A number between two bounds as text.
pub open spec fn between_text(min: u64, max: u64) -> Seq<char> {
    text::digits(min as nat) + "..="@ + text::digits(max as nat)
}

/// What is wrong with the length of a string, if anything is; what is no
/// string is not looked at.
pub open spec fn length_fault(v: ValueView, min: u64, max: u64) -> Option<Seq<char>> {
    match v {
        ValueView::String(s) => if s.len() < min || s.len() > max {
            Some("String length "@ + text::digits(s.len()) + " is out of range "@ + between_text(min, max))
        } else {
            None
        },
        _ => None,
    }
}

/// What is wrong with the number of items of a list, if anything is.
pub open spec fn items_fault(v: ValueView, min: u64, max: u64) -> Option<Seq<char>> {
    match v {
        ValueView::List(items) => if items.len() < min || items.len() > max {
            Some("List has "@ + text::digits(items.len()) + " items, expected "@ + between_text(min, max))
        } else {
            None
        },
        _ => Some("Expected list"@),
    }
}

/// The outcome of a check: nothing, or what is wrong.
pub open spec fn outcome(r: Result<(), String>) -> Option<Seq<char>> {
    match r {
        Ok(_) => None,
        Err(e) => Some(e@),
    }
}

/// Whether a value is an integer in a range.
pub fn validate_int_range(v: &DslValue, min: Option<i64>, max: Option<i64>) -> (r: Result<(), String>)
    ensures
        outcome(r) == int_fault(v@, min, max),
{
    match v {
        DslValue::Int(n) => {
            let low = match min {
                Some(a) => *n < a,
                None => false,
            };
            let high = match max {
                Some(b) => *n > b,
                None => false,
            };
            if low || high {
                let mut e = "Value ".to_owned();
                e.append(text::print_i64(*n).as_str());
                e.append(" is out of range ");
                e.append(print_range(min, max).as_str());
                Err(e)
            } else {
                Ok(())
            }
        },
        _ => Err("Expected integer".to_owned()),
    }
}

fn print_between(min: u64, max: u64) -> (r: String)
    ensures
        r@ == between_text(min, max),
{
    let mut s = text::print_u64(min);
    s.append("..=");
    s.append(text::print_u64(max).as_str());
    s
}

/// Whether the length of a string lies between bounds.
pub fn validate_string_length(v: &DslValue, min: u64, max: u64) -> (r: Result<(), String>)
    ensures
        outcome(r) == length_fault(v@, min, max),
{
    match v {
        DslValue::String(s) => {
            let n: u64 = s.as_str().unicode_len() as u64;
            if n < min || n > max {
                let mut e = "String length ".to_owned();
                e.append(text::print_u64(n).as_str());
                e.append(" is out of range ");
                e.append(print_between(min, max).as_str());
                Err(e)
            } else {
                Ok(())
            }
        },
        _ => Ok(()),
    }
}

/// Whether the number of items of a list lies between bounds.
pub fn validate_list_items(v: &DslValue, min: u64, max: u64) -> (r: Result<(), String>)
    ensures
        outcome(r) == items_fault(v@, min, max),
{
    match v {
        DslValue::List(items) => {
            proof {
                value::lemma_values(items@);
            }
            let n: u64 = items.len() as u64;
            if n < min || n > max {
                let mut e = "List has ".to_owned();
                e.append(text::print_u64(n).as_str());
                e.append(" items, expected ");
                e.append(print_between(min, max).as_str());
                Err(e)
            } else {
                Ok(())
            }
        },
        _ => Err("Expected list".to_owned()),
    }
}

/// What is wrong with a region, if anything is. `regions` are the regions
/// that there are.
pub open spec fn region_fault(v: ValueView, regions: Seq<Seq<char>>) -> Option<Seq<char>> {
    match v {
        ValueView::String(s) => if !enums::namespace_fits(s, "Region"@, "awscc"@) {
            Some("Invalid region '"@ + s + "': "@ + enums::namespace_reason("Region"@, "awscc"@))
        } else if regions.contains(text::swapped(enums::last_part(s), '_', '-')) {
            None
        } else {
            Some(
                "Invalid region '"@ + s + "', expected one of: "@ + text::join(regions, ", "@)
                    + " or DSL format like awscc.Region.ap_northeast_1"@,
            )
        },
        _ => Some("Expected string"@),
    }
}

/// Whether a value is one of the given regions, in any of the forms that a
/// region may be written in.
pub fn validate_region(v: &DslValue, regions: &Vec<String>) -> (r: Result<(), String>)
    ensures
        outcome(r) == region_fault(v@, text::strings(regions@)),
{
    match v {
        DslValue::String(s) => {
            if let Err(reason) = enums::validate_enum_namespace(s.as_str(), "Region", "awscc") {
                let mut e = "Invalid region '".to_owned();
                e.append(s.as_str());
                e.append("': ");
                e.append(reason.as_str());
                return Err(e);
            }
            let normalized = text::swap_char(enums::extract_enum_value(s.as_str()).as_str(), '_', '-');
            if text::listed(regions, normalized.as_str()) {
                Ok(())
            } else {
                let mut e = "Invalid region '".to_owned();
                e.append(s.as_str());
                e.append("', expected one of: ");
                e.append(text::joined(regions, ", ").as_str());
                e.append(" or DSL format like awscc.Region.ap_northeast_1");
                Err(e)
            }
        },
        _ => Err("Expected string".to_owned()),
    }
}

/// A region followed by one letter from `a` to `z`.
pub open spec fn is_zone(s: Seq<char>, regions: Seq<Seq<char>>) -> bool {
    s.len() > 0 && 'a' <= s.last() && s.last() <= 'z' && regions.contains(s.drop_last())
}

/// What is wrong with an availability zone, if anything is.
pub open spec fn zone_fault(v: ValueView, regions: Seq<Seq<char>>) -> Option<Seq<char>> {
    match v {
        ValueView::String(s) => if !enums::namespace_fits(s, "AvailabilityZone"@, "awscc"@) {
            Some(
                "Invalid availability zone '"@ + s + "': "@ + enums::namespace_reason("AvailabilityZone"@, "awscc"@),
            )
        } else if is_zone(text::swapped(enums::last_part(s), '_', '-'), regions) {
            None
        } else {
            Some("Invalid availability zone '"@ + s + "': "@ + "expected a region and a zone letter"@)
        },
        _ => Some("Expected string"@),
    }
}

fn is_zone_name(s: &str, regions: &Vec<String>) -> (r: bool)
    ensures
        r == is_zone(s@, text::strings(regions@)),
{
    let v = text::chars_of(s);
    let n: usize = v.len();
    if n == 0 {
        return false;
    }
    let last: char = v[n - 1];
    let head = text::string_of(&v, 0, n - 1);
    assert(head@ =~= s@.drop_last());
    'a' <= last && last <= 'z' && text::listed(regions, head.as_str())
}

/// Whether a value is an availability zone of one of the given regions, in
/// any of the forms that a zone may be written in.
pub fn validate_zone(v: &DslValue, regions: &Vec<String>) -> (r: Result<(), String>)
    ensures
        outcome(r) == zone_fault(v@, text::strings(regions@)),
{
    match v {
        DslValue::String(s) => {
            let mut e = "Invalid availability zone '".to_owned();
            e.append(s.as_str());
            e.append("': ");
            if let Err(reason) = enums::validate_enum_namespace(s.as_str(), "AvailabilityZone", "awscc") {
                e.append(reason.as_str());
                return Err(e);
            }
            let normalized = text::swap_char(enums::extract_enum_value(s.as_str()).as_str(), '_', '-');
            if is_zone_name(normalized.as_str(), regions) {
                Ok(())
            } else {
                e.append("expected a region and a zone letter");
                Err(e)
            }
        },
        _ => Err("Expected string".to_owned()),
    }
}

/// What the check of a custom type says of a value, where the check is one of
/// those that need no format of their own.
pub open spec fn custom_fault(t: TypeView, v: ValueView, regions: Seq<Seq<char>>) -> Option<Option<Seq<char>>> {
    match t {
        TypeView::Custom { name, base, check, namespace, to_dsl } => match check {
            CheckView::IntRange(min, max) => Some(int_fault(v, min, max)),
            CheckView::StringLength(min, max) => Some(length_fault(v, min, max)),
            CheckView::ListItems(min, max) => Some(items_fault(v, min, max)),
            CheckView::NamespacedEnum(values) => match namespace {
                Some(ns) => Some(
                    match (enums::enum_fault(v, name, ns, values), v) {
                        (Some(reason), ValueView::String(s)) => Some(
                            "Invalid "@ + name + " '"@ + s + "': "@ + reason,
                        ),
                        (fault, _) => fault,
                    },
                ),
                None => None,
            },
            CheckView::Region => Some(region_fault(v, regions)),
            CheckView::Zone => Some(zone_fault(v, regions)),
            CheckView::Format => None,
        },
        _ => None,
    }
}

/// The outcome of an optional check.
pub open spec fn opt_outcome(r: Option<Result<(), String>>) -> Option<Option<Seq<char>>> {
    match r {
        Some(o) => Some(outcome(o)),
        None => None,
    }
}

/// Checks a value against a custom type; nothing is said of types whose format
/// has a check of its own, nor of types that are not custom.
pub fn validate_custom(t: &AttributeType, v: &DslValue, regions: &Vec<String>) -> (r: Option<Result<(), String>>)
    ensures
        opt_outcome(r) == custom_fault(t@, v@, text::strings(regions@)),
{
    match t {
        AttributeType::Custom { name, base: _, check, namespace, to_dsl: _ } => match check {
            Check::IntRange(min, max) => Some(validate_int_range(v, *min, *max)),
            Check::StringLength(min, max) => Some(validate_string_length(v, *min, *max)),
            Check::ListItems(min, max) => Some(validate_list_items(v, *min, *max)),
            Check::NamespacedEnum(values) => match namespace {
                Some(ns) => Some(
                    match enums::validate_namespaced_enum(v, name.as_str(), ns.as_str(), values) {
                        Ok(_) => Ok(()),
                        Err(reason) => match v {
                            DslValue::String(s) => {
                                let mut e = "Invalid ".to_owned();
                                e.append(name.as_str());
                                e.append(" '");
                                e.append(s.as_str());
                                e.append("': ");
                                e.append(reason.as_str());
                                Err(e)
                            },
                            _ => Err(reason),
                        },
                    },
                ),
                None => None,
            },
            Check::Region => Some(validate_region(v, regions)),
            Check::Zone => Some(validate_zone(v, regions)),
            Check::Format => None,
        },
        _ => None,
    }
}

} // verus!
