//! The schema of `AWS::STS::CallerIdentity`.
use vstd::prelude::*;

use crate::schema::{AttributeSchema, AttributeType, AttrView, AwsccSchemaConfig, ConfigView, ResourceSchema, SchemaView, TypeView};
use crate::schemas::values::EnumValues;
use crate::text;

verus! {

/// The schema of `AWS::STS::CallerIdentity`.
pub open spec fn config() -> ConfigView {
    ConfigView {
        aws_type_name: "AWS::STS::CallerIdentity"@,
        resource_type_name: "sts.caller_identity"@,
        has_tags: false,
        schema: SchemaView::new("awscc.sts.caller_identity"@)
            .with_description("Data source: STS GetCallerIdentity"@)
            .attribute(
                AttrView::new("account_id"@, TypeView::String)
                    .with_description("The AWS account ID of the caller. (read-only)"@)
                    .with_provider_name("AccountId"@),
            )
            .attribute(
                AttrView::new("arn"@, TypeView::String)
                    .with_description("The ARN of the IAM principal making the call. (read-only)"@)
                    .with_provider_name("Arn"@),
            )
            .attribute(
                AttrView::new("user_id"@, TypeView::String)
                    .with_description("The unique identifier of the calling entity. (read-only)"@)
                    .with_provider_name("UserId"@),
            ),
    }
}

/// The schema of `AWS::STS::CallerIdentity`.
pub fn sts_caller_identity_config() -> (r: AwsccSchemaConfig)
    ensures
        r@ == config(),
{
    AwsccSchemaConfig {
        aws_type_name: "AWS::STS::CallerIdentity",
        resource_type_name: "sts.caller_identity",
        has_tags: false,
        schema: ResourceSchema::new("awscc.sts.caller_identity")
            .with_description("Data source: STS GetCallerIdentity")
            .attribute(
                AttributeSchema::new("account_id", AttributeType::String)
                    .with_description("The AWS account ID of the caller. (read-only)")
                    .with_provider_name("AccountId"),
            )
            .attribute(
                AttributeSchema::new("arn", AttributeType::String)
                    .with_description("The ARN of the IAM principal making the call. (read-only)")
                    .with_provider_name("Arn"),
            )
            .attribute(
                AttributeSchema::new("user_id", AttributeType::String)
                    .with_description("The unique identifier of the calling entity. (read-only)")
                    .with_provider_name("UserId"),
            ),
    }
}

/// The enum attributes and their values.
pub open spec fn enum_table() -> Seq<(Seq<char>, Seq<Seq<char>>)> {
    Seq::empty()
}

/// The resource type, and its enum attributes with their values.
pub fn enum_valid_values() -> (r: (&'static str, EnumValues))
    ensures
        r.0@ == "sts.caller_identity"@,
        r.1@ == enum_table(),
{
    let values = EnumValues::new();
    ("sts.caller_identity", values)
}

/// The provider's value for a value that has another spelling in the
/// configuration language: there is none.
pub open spec fn alias_reverse(attr_name: Seq<char>, value: Seq<char>) -> Option<Seq<char>> {
    None
}

/// The provider's value for a value that has another spelling in the
/// configuration language.
pub fn enum_alias_reverse(attr_name: &str, value: &str) -> (r: Option<&'static str>)
    ensures
        text::opt_slice(r) == alias_reverse(attr_name@, value@),
{
    None
}

} // verus!
