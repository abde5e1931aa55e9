//! The schema of `AWS::EC2::VPCEndpoint`.
use vstd::prelude::*;

use crate::schema::{AttributeSchema, AttributeType, AttrView, AwsccSchemaConfig, Check, CheckView, ConfigView, FieldView, ResourceSchema, SchemaView, StructField, ToDsl, ToDslView, TypeView, Words};
use crate::schemas::types;
use crate::schemas::values::EnumValues;
use crate::text;

verus! {

pub open spec fn dns_options_view() -> AttrView {
    AttrView::new("dns_options"@, TypeView::structure("DnsOptionsSpecification"@)
            .field(FieldView::new("dns_record_ip_type"@, TypeView::string_enum("DnsRecordIpType"@, seq!["ipv4"@].push("ipv6"@).push("dualstack"@).push("service-defined"@).push("not-specified"@), "awscc.ec2.vpc_endpoint"@, Some(ToDslView::hyphens())))
                .with_description("The DNS records created for the endpoint."@)
                .with_provider_name("DnsRecordIpType"@))
            .field(FieldView::new("private_dns_only_for_inbound_resolver_endpoint"@, TypeView::string_enum("PrivateDnsOnlyForInboundResolverEndpoint"@, seq!["OnlyInboundResolver"@].push("AllResolvers"@).push("NotSpecified"@), "awscc.ec2.vpc_endpoint"@, None))
                .with_description("Indicates whether to enable private DNS only for inbound endpoints. This option is available only for services that support both gateway and interface..."@)
                .with_provider_name("PrivateDnsOnlyForInboundResolverEndpoint"@))
            .field(FieldView::new("private_dns_preference"@, TypeView::string_enum("PrivateDnsPreference"@, seq!["VERIFIED_DOMAINS_ONLY"@].push("ALL_DOMAINS"@).push("VERIFIED_DOMAINS_AND_SPECIFIED_DOMAINS"@).push("SPECIFIED_DOMAINS_ONLY"@), "awscc.ec2.vpc_endpoint"@, None))
                .with_description("The preference for which private domains have a private hosted zone created for and associated with the specified VPC. Only supported when private DNS..."@)
                .with_provider_name("PrivateDnsPreference"@))
            .field(FieldView::new("private_dns_specified_domains"@, TypeView::custom("List(1..=10)"@, TypeView::list(TypeView::custom("String(len: 1..=255)"@, TypeView::String, CheckView::StringLength(1u64, 255u64), None, None)), CheckView::ListItems(1u64, 10u64), None, None))
                .with_description("Indicates which of the private domains to create private hosted zones for and associate with the specified VPC. Only supported when private DNS is ena..."@)
                .with_provider_name("PrivateDnsSpecifiedDomains"@)))
        .with_description("Describes the DNS options for an endpoint."@)
        .with_provider_name("DnsOptions"@)
}

fn dns_options_attribute() -> (r: AttributeSchema)
    ensures
        r@ == dns_options_view(),
{
    AttributeSchema::new("dns_options", AttributeType::structure("DnsOptionsSpecification")
            .field(StructField::new("dns_record_ip_type", AttributeType::string_enum("DnsRecordIpType", Words::of("ipv4").and("ipv6").and("dualstack").and("service-defined").and("not-specified"), "awscc.ec2.vpc_endpoint", Some(ToDsl::hyphens())))
                .with_description("The DNS records created for the endpoint.")
                .with_provider_name("DnsRecordIpType"))
            .field(StructField::new("private_dns_only_for_inbound_resolver_endpoint", AttributeType::string_enum("PrivateDnsOnlyForInboundResolverEndpoint", Words::of("OnlyInboundResolver").and("AllResolvers").and("NotSpecified"), "awscc.ec2.vpc_endpoint", None))
                .with_description("Indicates whether to enable private DNS only for inbound endpoints. This option is available only for services that support both gateway and interface...")
                .with_provider_name("PrivateDnsOnlyForInboundResolverEndpoint"))
            .field(StructField::new("private_dns_preference", AttributeType::string_enum("PrivateDnsPreference", Words::of("VERIFIED_DOMAINS_ONLY").and("ALL_DOMAINS").and("VERIFIED_DOMAINS_AND_SPECIFIED_DOMAINS").and("SPECIFIED_DOMAINS_ONLY"), "awscc.ec2.vpc_endpoint", None))
                .with_description("The preference for which private domains have a private hosted zone created for and associated with the specified VPC. Only supported when private DNS...")
                .with_provider_name("PrivateDnsPreference"))
            .field(StructField::new("private_dns_specified_domains", AttributeType::custom("List(1..=10)", AttributeType::list(AttributeType::custom("String(len: 1..=255)", AttributeType::String, Check::StringLength(1u64, 255u64), None, None)), Check::ListItems(1u64, 10u64), None, None))
                .with_description("Indicates which of the private domains to create private hosted zones for and associate with the specified VPC. Only supported when private DNS is ena...")
                .with_provider_name("PrivateDnsSpecifiedDomains")))
        .with_description("Describes the DNS options for an endpoint.")
        .with_provider_name("DnsOptions")
}

/// The schema of `AWS::EC2::VPCEndpoint`.
pub open spec fn config() -> ConfigView {
    ConfigView {
        aws_type_name: "AWS::EC2::VPCEndpoint"@,
        resource_type_name: "ec2.vpc_endpoint"@,
        has_tags: true,
        schema: SchemaView::new("awscc.ec2.vpc_endpoint"@)
            .with_description("Specifies a VPC endpoint. A VPC endpoint provides a private connection between your VPC and an endpoint service. You can use an endpoint service provided by AWS, an MKT Partner, or another AWS account..."@)
            .attribute(
                AttrView::new("creation_timestamp"@, TypeView::String)
                    .read_only()
                    .with_description(" (read-only)"@)
                    .with_provider_name("CreationTimestamp"@),
            )
            .attribute(
                AttrView::new("dns_entries"@, TypeView::list(TypeView::String))
                    .read_only()
                    .with_description(" (read-only)"@)
                    .with_provider_name("DnsEntries"@),
            )
            .attribute(dns_options_view())
            .attribute(
                AttrView::new("id"@, TypeView::format("VpcEndpointId"@))
                    .read_only()
                    .with_description(" (read-only)"@)
                    .with_provider_name("Id"@),
            )
            .attribute(
                AttrView::new("ip_address_type"@, TypeView::string_enum("IpAddressType"@, seq!["ipv4"@].push("ipv6"@).push("dualstack"@).push("not-specified"@), "awscc.ec2.vpc_endpoint"@, Some(ToDslView::hyphens())))
                    .with_description("The supported IP address types."@)
                    .with_provider_name("IpAddressType"@),
            )
            .attribute(
                AttrView::new("network_interface_ids"@, TypeView::list(TypeView::format("NetworkInterfaceId"@)))
                    .read_only()
                    .with_description(" (read-only)"@)
                    .with_provider_name("NetworkInterfaceIds"@),
            )
            .attribute(
                AttrView::new("policy_document"@, types::policy_view())
                    .with_description("An endpoint policy, which controls access to the service from the VPC. The default endpoint policy allows full access to the service. Endpoint policie..."@)
                    .with_provider_name("PolicyDocument"@),
            )
            .attribute(
                AttrView::new("private_dns_enabled"@, TypeView::Bool)
                    .with_description("Indicate whether to associate a private hosted zone with the specified VPC. The private hosted zone contains a record set for the default public DNS n..."@)
                    .with_provider_name("PrivateDnsEnabled"@),
            )
            .attribute(
                AttrView::new("resource_configuration_arn"@, TypeView::format("Arn"@))
                    .create_only()
                    .with_description("The Amazon Resource Name (ARN) of the resource configuration."@)
                    .with_provider_name("ResourceConfigurationArn"@),
            )
            .attribute(
                AttrView::new("route_table_ids"@, TypeView::list(TypeView::format("RouteTableId"@)))
                    .with_description("The IDs of the route tables. Routing is supported only for gateway endpoints."@)
                    .with_provider_name("RouteTableIds"@),
            )
            .attribute(
                AttrView::new("security_group_ids"@, TypeView::list(TypeView::format("SecurityGroupId"@)))
                    .with_description("The IDs of the security groups to associate with the endpoint network interfaces. If this parameter is not specified, we use the default security grou..."@)
                    .with_provider_name("SecurityGroupIds"@),
            )
            .attribute(
                AttrView::new("service_name"@, TypeView::String)
                    .create_only()
                    .with_description("The name of the endpoint service."@)
                    .with_provider_name("ServiceName"@),
            )
            .attribute(
                AttrView::new("service_network_arn"@, TypeView::format("Arn"@))
                    .create_only()
                    .with_description("The Amazon Resource Name (ARN) of the service network."@)
                    .with_provider_name("ServiceNetworkArn"@),
            )
            .attribute(
                AttrView::new("service_region"@, types::region_view())
                    .create_only()
                    .with_description("Describes a Region."@)
                    .with_provider_name("ServiceRegion"@),
            )
            .attribute(
                AttrView::new("subnet_ids"@, TypeView::list(TypeView::format("SubnetId"@)))
                    .with_description("The IDs of the subnets in which to create endpoint network interfaces. You must specify this property for an interface endpoint or a Gateway Load Bala..."@)
                    .with_provider_name("SubnetIds"@),
            )
            .attribute(
                AttrView::new("tags"@, types::tags_view())
                    .with_description("The tags to associate with the endpoint."@)
                    .with_provider_name("Tags"@),
            )
            .attribute(
                AttrView::new("vpc_endpoint_type"@, TypeView::string_enum("VpcEndpointType"@, seq!["Interface"@].push("Gateway"@).push("GatewayLoadBalancer"@).push("ServiceNetwork"@).push("Resource"@), "awscc.ec2.vpc_endpoint"@, None))
                    .create_only()
                    .with_description("The type of endpoint. Default: Gateway"@)
                    .with_provider_name("VpcEndpointType"@),
            )
            .attribute(
                AttrView::new("vpc_id"@, TypeView::format("VpcId"@))
                    .required()
                    .create_only()
                    .with_description("The ID of the VPC."@)
                    .with_provider_name("VpcId"@),
            ),
    }
}

/// The schema of `AWS::EC2::VPCEndpoint`.
pub fn ec2_vpc_endpoint_config() -> (r: AwsccSchemaConfig)
    ensures
        r@ == config(),
{
    AwsccSchemaConfig {
        aws_type_name: "AWS::EC2::VPCEndpoint",
        resource_type_name: "ec2.vpc_endpoint",
        has_tags: true,
        schema: ResourceSchema::new("awscc.ec2.vpc_endpoint")
            .with_description("Specifies a VPC endpoint. A VPC endpoint provides a private connection between your VPC and an endpoint service. You can use an endpoint service provided by AWS, an MKT Partner, or another AWS account...")
            .attribute(
                AttributeSchema::new("creation_timestamp", AttributeType::String)
                    .read_only()
                    .with_description(" (read-only)")
                    .with_provider_name("CreationTimestamp"),
            )
            .attribute(
                AttributeSchema::new("dns_entries", AttributeType::list(AttributeType::String))
                    .read_only()
                    .with_description(" (read-only)")
                    .with_provider_name("DnsEntries"),
            )
            .attribute(dns_options_attribute())
            .attribute(
                AttributeSchema::new("id", AttributeType::format("VpcEndpointId"))
                    .read_only()
                    .with_description(" (read-only)")
                    .with_provider_name("Id"),
            )
            .attribute(
                AttributeSchema::new("ip_address_type", AttributeType::string_enum("IpAddressType", Words::of("ipv4").and("ipv6").and("dualstack").and("not-specified"), "awscc.ec2.vpc_endpoint", Some(ToDsl::hyphens())))
                    .with_description("The supported IP address types.")
                    .with_provider_name("IpAddressType"),
            )
            .attribute(
                AttributeSchema::new("network_interface_ids", AttributeType::list(AttributeType::format("NetworkInterfaceId")))
                    .read_only()
                    .with_description(" (read-only)")
                    .with_provider_name("NetworkInterfaceIds"),
            )
            .attribute(
                AttributeSchema::new("policy_document", types::iam_policy_document())
                    .with_description("An endpoint policy, which controls access to the service from the VPC. The default endpoint policy allows full access to the service. Endpoint policie...")
                    .with_provider_name("PolicyDocument"),
            )
            .attribute(
                AttributeSchema::new("private_dns_enabled", AttributeType::Bool)
                    .with_description("Indicate whether to associate a private hosted zone with the specified VPC. The private hosted zone contains a record set for the default public DNS n...")
                    .with_provider_name("PrivateDnsEnabled"),
            )
            .attribute(
                AttributeSchema::new("resource_configuration_arn", AttributeType::format("Arn"))
                    .create_only()
                    .with_description("The Amazon Resource Name (ARN) of the resource configuration.")
                    .with_provider_name("ResourceConfigurationArn"),
            )
            .attribute(
                AttributeSchema::new("route_table_ids", AttributeType::list(AttributeType::format("RouteTableId")))
                    .with_description("The IDs of the route tables. Routing is supported only for gateway endpoints.")
                    .with_provider_name("RouteTableIds"),
            )
            .attribute(
                AttributeSchema::new("security_group_ids", AttributeType::list(AttributeType::format("SecurityGroupId")))
                    .with_description("The IDs of the security groups to associate with the endpoint network interfaces. If this parameter is not specified, we use the default security grou...")
                    .with_provider_name("SecurityGroupIds"),
            )
            .attribute(
                AttributeSchema::new("service_name", AttributeType::String)
                    .create_only()
                    .with_description("The name of the endpoint service.")
                    .with_provider_name("ServiceName"),
            )
            .attribute(
                AttributeSchema::new("service_network_arn", AttributeType::format("Arn"))
                    .create_only()
                    .with_description("The Amazon Resource Name (ARN) of the service network.")
                    .with_provider_name("ServiceNetworkArn"),
            )
            .attribute(
                AttributeSchema::new("service_region", types::awscc_region())
                    .create_only()
                    .with_description("Describes a Region.")
                    .with_provider_name("ServiceRegion"),
            )
            .attribute(
                AttributeSchema::new("subnet_ids", AttributeType::list(AttributeType::format("SubnetId")))
                    .with_description("The IDs of the subnets in which to create endpoint network interfaces. You must specify this property for an interface endpoint or a Gateway Load Bala...")
                    .with_provider_name("SubnetIds"),
            )
            .attribute(
                AttributeSchema::new("tags", types::tags_type())
                    .with_description("The tags to associate with the endpoint.")
                    .with_provider_name("Tags"),
            )
            .attribute(
                AttributeSchema::new("vpc_endpoint_type", AttributeType::string_enum("VpcEndpointType", Words::of("Interface").and("Gateway").and("GatewayLoadBalancer").and("ServiceNetwork").and("Resource"), "awscc.ec2.vpc_endpoint", None))
                    .create_only()
                    .with_description("The type of endpoint. Default: Gateway")
                    .with_provider_name("VpcEndpointType"),
            )
            .attribute(
                AttributeSchema::new("vpc_id", AttributeType::format("VpcId"))
                    .required()
                    .create_only()
                    .with_description("The ID of the VPC.")
                    .with_provider_name("VpcId"),
            ),
    }
}

/// The enum attributes and their values.
pub open spec fn enum_table() -> Seq<(Seq<char>, Seq<Seq<char>>)> {
    Seq::empty()
        .push(("dns_record_ip_type"@, seq!["ipv4"@].push("ipv6"@).push("dualstack"@).push("service-defined"@).push("not-specified"@)))
        .push(("private_dns_only_for_inbound_resolver_endpoint"@, seq!["OnlyInboundResolver"@].push("AllResolvers"@).push("NotSpecified"@)))
        .push(("private_dns_preference"@, seq!["VERIFIED_DOMAINS_ONLY"@].push("ALL_DOMAINS"@).push("VERIFIED_DOMAINS_AND_SPECIFIED_DOMAINS"@).push("SPECIFIED_DOMAINS_ONLY"@)))
        .push(("ip_address_type"@, seq!["ipv4"@].push("ipv6"@).push("dualstack"@).push("not-specified"@)))
        .push(("vpc_endpoint_type"@, seq!["Interface"@].push("Gateway"@).push("GatewayLoadBalancer"@).push("ServiceNetwork"@).push("Resource"@)))
}

/// The resource type, and its enum attributes with their values.
pub fn enum_valid_values() -> (r: (&'static str, EnumValues))
    ensures
        r.0@ == "ec2.vpc_endpoint"@,
        r.1@ == enum_table(),
{
    let mut values = EnumValues::new();
    values.add("dns_record_ip_type", Words::of("ipv4").and("ipv6").and("dualstack").and("service-defined").and("not-specified"));
    values.add("private_dns_only_for_inbound_resolver_endpoint", Words::of("OnlyInboundResolver").and("AllResolvers").and("NotSpecified"));
    values.add("private_dns_preference", Words::of("VERIFIED_DOMAINS_ONLY").and("ALL_DOMAINS").and("VERIFIED_DOMAINS_AND_SPECIFIED_DOMAINS").and("SPECIFIED_DOMAINS_ONLY"));
    values.add("ip_address_type", Words::of("ipv4").and("ipv6").and("dualstack").and("not-specified"));
    values.add("vpc_endpoint_type", Words::of("Interface").and("Gateway").and("GatewayLoadBalancer").and("ServiceNetwork").and("Resource"));
    ("ec2.vpc_endpoint", values)
}

/// The provider's value for a value that has another spelling in the
/// configuration language: there is none.
pub open spec fn alias_reverse(attr_name: Seq<char>, value: Seq<char>) -> Option<Seq<char>> {
    None
}

/// The provider's value for a value that has another spelling in the
/// configuration language.
pub fn enum_alias_reverse(attr_name: &str, value: &str) -> (r: Option<&'static str>)
    ensures
        text::opt_slice(r) == alias_reverse(attr_name@, value@),
{
    None
}

} // verus!
