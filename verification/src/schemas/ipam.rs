//! The schema of `AWS::EC2::IPAM`.
use vstd::prelude::*;

use crate::schema::{AttributeSchema, AttributeType, AttrView, AwsccSchemaConfig, ConfigView, FieldView, ResourceSchema, SchemaView, StructField, TypeView, Words};
use crate::schemas::types;
use crate::schemas::values::EnumValues;
use crate::text;

verus! {

/// The schema of `AWS::EC2::IPAM`.
pub open spec fn config() -> ConfigView {
    ConfigView {
        aws_type_name: "AWS::EC2::IPAM"@,
        resource_type_name: "ec2.ipam"@,
        has_tags: true,
        schema: SchemaView::new("awscc.ec2.ipam"@)
            .with_description("Resource Schema of AWS::EC2::IPAM Type"@)
            .attribute(
                AttrView::new("arn"@, TypeView::format("Arn"@))
                    .with_description("The Amazon Resource Name (ARN) of the IPAM. (read-only)"@)
                    .with_provider_name("Arn"@),
            )
            .attribute(
                AttrView::new("default_resource_discovery_association_id"@, TypeView::String)
                    .with_description("The Id of the default association to the default resource discovery, created with this IPAM. (read-only)"@)
                    .with_provider_name("DefaultResourceDiscoveryAssociationId"@),
            )
            .attribute(
                AttrView::new("default_resource_discovery_id"@, TypeView::String)
                    .with_description("The Id of the default resource discovery, created with this IPAM. (read-only)"@)
                    .with_provider_name("DefaultResourceDiscoveryId"@),
            )
            .attribute(
                AttrView::new("default_resource_discovery_organizational_unit_exclusions"@, TypeView::list(TypeView::structure("IpamOrganizationalUnitExclusion"@)
                        .field(FieldView::new("organizations_entity_path"@, TypeView::String)
                            .required()
                            .with_description("An AWS Organizations entity path. Build the path for the OU(s) using AWS Organizations IDs separated by a '/'. Include all child OUs by ending the pat..."@)
                            .with_provider_name("OrganizationsEntityPath"@))))
                    .with_description("A set of organizational unit (OU) exclusions for the default resource discovery, created with this IPAM."@)
                    .with_provider_name("DefaultResourceDiscoveryOrganizationalUnitExclusions"@)
                    .with_block_name("default_resource_discovery_organizational_unit_exclusion"@),
            )
            .attribute(
                AttrView::new("description"@, TypeView::String)
                    .with_provider_name("Description"@),
            )
            .attribute(
                AttrView::new("enable_private_gua"@, TypeView::Bool)
                    .with_description("Enable provisioning of GUA space in private pools."@)
                    .with_provider_name("EnablePrivateGua"@),
            )
            .attribute(
                AttrView::new("ipam_id"@, TypeView::String)
                    .with_description("Id of the IPAM. (read-only)"@)
                    .with_provider_name("IpamId"@),
            )
            .attribute(
                AttrView::new("metered_account"@, TypeView::custom_enum("MeteredAccount"@, seq!["ipam-owner"@].push("resource-owner"@), "awscc.ec2.ipam"@, None))
                    .with_description("A metered account is an account that is charged for active IP addresses managed in IPAM"@)
                    .with_provider_name("MeteredAccount"@),
            )
            .attribute(
                AttrView::new("operating_regions"@, TypeView::list(TypeView::structure("IpamOperatingRegion"@)
                        .field(FieldView::new("region_name"@, TypeView::String)
                            .required()
                            .with_description("The name of the region."@)
                            .with_provider_name("RegionName"@))))
                    .with_description("The regions IPAM is enabled for. Allows pools to be created in these regions, as well as enabling monitoring"@)
                    .with_provider_name("OperatingRegions"@)
                    .with_block_name("operating_region"@),
            )
            .attribute(
                AttrView::new("private_default_scope_id"@, TypeView::String)
                    .with_description("The Id of the default scope for publicly routable IP space, created with this IPAM. (read-only)"@)
                    .with_provider_name("PrivateDefaultScopeId"@),
            )
            .attribute(
                AttrView::new("public_default_scope_id"@, TypeView::String)
                    .with_description("The Id of the default scope for publicly routable IP space, created with this IPAM. (read-only)"@)
                    .with_provider_name("PublicDefaultScopeId"@),
            )
            .attribute(
                AttrView::new("resource_discovery_association_count"@, TypeView::Int)
                    .with_description("The count of resource discoveries associated with this IPAM. (read-only)"@)
                    .with_provider_name("ResourceDiscoveryAssociationCount"@),
            )
            .attribute(
                AttrView::new("scope_count"@, TypeView::Int)
                    .with_description("The number of scopes that currently exist in this IPAM. (read-only)"@)
                    .with_provider_name("ScopeCount"@),
            )
            .attribute(
                AttrView::new("tags"@, types::tags_view())
                    .with_description("An array of key-value pairs to apply to this resource."@)
                    .with_provider_name("Tags"@),
            )
            .attribute(
                AttrView::new("tier"@, TypeView::custom_enum("Tier"@, seq!["free"@].push("advanced"@), "awscc.ec2.ipam"@, None))
                    .with_description("The tier of the IPAM."@)
                    .with_provider_name("Tier"@),
            ),
    }
}

/// The schema of `AWS::EC2::IPAM`.
pub fn ec2_ipam_config() -> (r: AwsccSchemaConfig)
    ensures
        r@ == config(),
{
    AwsccSchemaConfig {
        aws_type_name: "AWS::EC2::IPAM",
        resource_type_name: "ec2.ipam",
        has_tags: true,
        schema: ResourceSchema::new("awscc.ec2.ipam")
            .with_description("Resource Schema of AWS::EC2::IPAM Type")
            .attribute(
                AttributeSchema::new("arn", AttributeType::format("Arn"))
                    .with_description("The Amazon Resource Name (ARN) of the IPAM. (read-only)")
                    .with_provider_name("Arn"),
            )
            .attribute(
                AttributeSchema::new("default_resource_discovery_association_id", AttributeType::String)
                    .with_description("The Id of the default association to the default resource discovery, created with this IPAM. (read-only)")
                    .with_provider_name("DefaultResourceDiscoveryAssociationId"),
            )
            .attribute(
                AttributeSchema::new("default_resource_discovery_id", AttributeType::String)
                    .with_description("The Id of the default resource discovery, created with this IPAM. (read-only)")
                    .with_provider_name("DefaultResourceDiscoveryId"),
            )
            .attribute(
                AttributeSchema::new("default_resource_discovery_organizational_unit_exclusions", AttributeType::list(AttributeType::structure("IpamOrganizationalUnitExclusion")
                        .field(StructField::new("organizations_entity_path", AttributeType::String)
                            .required()
                            .with_description("An AWS Organizations entity path. Build the path for the OU(s) using AWS Organizations IDs separated by a '/'. Include all child OUs by ending the pat...")
                            .with_provider_name("OrganizationsEntityPath"))))
                    .with_description("A set of organizational unit (OU) exclusions for the default resource discovery, created with this IPAM.")
                    .with_provider_name("DefaultResourceDiscoveryOrganizationalUnitExclusions")
                    .with_block_name("default_resource_discovery_organizational_unit_exclusion"),
            )
            .attribute(
                AttributeSchema::new("description", AttributeType::String)
                    .with_provider_name("Description"),
            )
            .attribute(
                AttributeSchema::new("enable_private_gua", AttributeType::Bool)
                    .with_description("Enable provisioning of GUA space in private pools.")
                    .with_provider_name("EnablePrivateGua"),
            )
            .attribute(
                AttributeSchema::new("ipam_id", AttributeType::String)
                    .with_description("Id of the IPAM. (read-only)")
                    .with_provider_name("IpamId"),
            )
            .attribute(
                AttributeSchema::new("metered_account", AttributeType::custom_enum("MeteredAccount", Words::of("ipam-owner").and("resource-owner"), "awscc.ec2.ipam", None))
                    .with_description("A metered account is an account that is charged for active IP addresses managed in IPAM")
                    .with_provider_name("MeteredAccount"),
            )
            .attribute(
                AttributeSchema::new("operating_regions", AttributeType::list(AttributeType::structure("IpamOperatingRegion")
                        .field(StructField::new("region_name", AttributeType::String)
                            .required()
                            .with_description("The name of the region.")
                            .with_provider_name("RegionName"))))
                    .with_description("The regions IPAM is enabled for. Allows pools to be created in these regions, as well as enabling monitoring")
                    .with_provider_name("OperatingRegions")
                    .with_block_name("operating_region"),
            )
            .attribute(
                AttributeSchema::new("private_default_scope_id", AttributeType::String)
                    .with_description("The Id of the default scope for publicly routable IP space, created with this IPAM. (read-only)")
                    .with_provider_name("PrivateDefaultScopeId"),
            )
            .attribute(
                AttributeSchema::new("public_default_scope_id", AttributeType::String)
                    .with_description("The Id of the default scope for publicly routable IP space, created with this IPAM. (read-only)")
                    .with_provider_name("PublicDefaultScopeId"),
            )
            .attribute(
                AttributeSchema::new("resource_discovery_association_count", AttributeType::Int)
                    .with_description("The count of resource discoveries associated with this IPAM. (read-only)")
                    .with_provider_name("ResourceDiscoveryAssociationCount"),
            )
            .attribute(
                AttributeSchema::new("scope_count", AttributeType::Int)
                    .with_description("The number of scopes that currently exist in this IPAM. (read-only)")
                    .with_provider_name("ScopeCount"),
            )
            .attribute(
                AttributeSchema::new("tags", types::tags_type())
                    .with_description("An array of key-value pairs to apply to this resource.")
                    .with_provider_name("Tags"),
            )
            .attribute(
                AttributeSchema::new("tier", AttributeType::custom_enum("Tier", Words::of("free").and("advanced"), "awscc.ec2.ipam", None))
                    .with_description("The tier of the IPAM.")
                    .with_provider_name("Tier"),
            ),
    }
}

/// The enum attributes and their values.
pub open spec fn enum_table() -> Seq<(Seq<char>, Seq<Seq<char>>)> {
    Seq::empty()
        .push(("metered_account"@, seq!["ipam-owner"@].push("resource-owner"@)))
        .push(("tier"@, seq!["free"@].push("advanced"@)))
}

/// The resource type, and its enum attributes with their values.
pub fn enum_valid_values() -> (r: (&'static str, EnumValues))
    ensures
        r.0@ == "ec2.ipam"@,
        r.1@ == enum_table(),
{
    let mut values = EnumValues::new();
    values.add("metered_account", Words::of("ipam-owner").and("resource-owner"));
    values.add("tier", Words::of("free").and("advanced"));
    ("ec2.ipam", values)
}

/// The provider's value for a value that has another spelling in the
/// configuration language: there is none.
pub open spec fn alias_reverse(attr_name: Seq<char>, value: Seq<char>) -> Option<Seq<char>> {
    None
}

/// The provider's value for a value that has another spelling in the
/// configuration language.
pub fn enum_alias_reverse(attr_name: &str, value: &str) -> (r: Option<&'static str>)
    ensures
        text::opt_slice(r) == alias_reverse(attr_name@, value@),
{
    None
}

} // verus!
