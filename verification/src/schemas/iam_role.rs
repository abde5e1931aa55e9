//! The schema of `AWS::IAM::Role`.
use vstd::prelude::*;

use crate::schema::{AttributeSchema, AttributeType, AttrView, AwsccSchemaConfig, ConfigView, FieldView, ResourceSchema, SchemaView, StructField, TypeView};
use crate::schemas::types;
use crate::schemas::values::EnumValues;
use crate::text;

verus! {

/// The schema of `AWS::IAM::Role`.
pub open spec fn config() -> ConfigView {
    ConfigView {
        aws_type_name: "AWS::IAM::Role"@,
        resource_type_name: "iam.role"@,
        has_tags: true,
        schema: SchemaView::new("awscc.iam.role"@)
            .with_description("Creates a new role for your AWS-account.   For more information about roles, see [IAM roles](https://docs.aws.amazon.com/IAM/latest/UserGuide/id_roles.html) in the *IAM User Guide*. For information ab..."@)
            .attribute(
                AttrView::new("arn"@, TypeView::format("IamRoleArn"@))
                    .with_description(" (read-only)"@)
                    .with_provider_name("Arn"@),
            )
            .attribute(
                AttrView::new("assume_role_policy_document"@, types::policy_view())
                    .required()
                    .with_description("The trust policy that is associated with this role. Trust policies define which entities can assume the role. You can associate only one trust policy ..."@)
                    .with_provider_name("AssumeRolePolicyDocument"@),
            )
            .attribute(
                AttrView::new("description"@, TypeView::String)
                    .with_description("A description of the role that you provide."@)
                    .with_provider_name("Description"@),
            )
            .attribute(
                AttrView::new("managed_policy_arns"@, TypeView::list(TypeView::format("IamPolicyArn"@)))
                    .with_description("A list of Amazon Resource Names (ARNs) of the IAM managed policies that you want to attach to the role. For more information about ARNs, see [Amazon R..."@)
                    .with_provider_name("ManagedPolicyArns"@),
            )
            .attribute(
                AttrView::new("max_session_duration"@, TypeView::int_range("Int(3600..=43200)"@, Some(3600i64), Some(43200i64)))
                    .with_description("The maximum session duration (in seconds) that you want to set for the specified role. If you do not specify a value for this setting, the default val..."@)
                    .with_provider_name("MaxSessionDuration"@),
            )
            .attribute(
                AttrView::new("path"@, TypeView::String)
                    .create_only()
                    .with_description("The path to the role. For more information about paths, see [IAM Identifiers](https://docs.aws.amazon.com/IAM/latest/UserGuide/Using_Identifiers.html)..."@)
                    .with_provider_name("Path"@),
            )
            .attribute(
                AttrView::new("permissions_boundary"@, TypeView::format("IamPolicyArn"@))
                    .with_description("The ARN of the policy used to set the permissions boundary for the role. For more information about permissions boundaries, see [Permissions boundarie..."@)
                    .with_provider_name("PermissionsBoundary"@),
            )
            .attribute(
                AttrView::new("policies"@, TypeView::list(TypeView::structure("Policy"@)
                        .field(FieldView::new("policy_document"@, types::policy_view())
                            .required()
                            .with_description("The entire contents of the policy that defines permissions. For more information, see [Overview of JSON policies](https://docs.aws.amazon.com/IAM/late..."@)
                            .with_provider_name("PolicyDocument"@))
                        .field(FieldView::new("policy_name"@, TypeView::String)
                            .required()
                            .with_description("The friendly name (not ARN) identifying the policy."@)
                            .with_provider_name("PolicyName"@))))
                    .with_description("Adds or updates an inline policy document that is embedded in the specified IAM role. When you embed an inline policy in a role, the inline policy is ..."@)
                    .with_provider_name("Policies"@)
                    .with_block_name("policy"@),
            )
            .attribute(
                AttrView::new("role_id"@, TypeView::String)
                    .with_description(" (read-only)"@)
                    .with_provider_name("RoleId"@),
            )
            .attribute(
                AttrView::new("role_name"@, TypeView::String)
                    .create_only()
                    .with_description("A name for the IAM role, up to 64 characters in length. For valid values, see the ``RoleName`` parameter for the [CreateRole](https://docs.aws.amazon...."@)
                    .with_provider_name("RoleName"@),
            )
            .attribute(
                AttrView::new("tags"@, types::tags_view())
                    .with_description("A list of tags that are attached to the role. For more information about tagging, see [Tagging IAM resources](https://docs.aws.amazon.com/IAM/latest/U..."@)
                    .with_provider_name("Tags"@),
            ),
    }
}

/// The schema of `AWS::IAM::Role`.
pub fn iam_role_config() -> (r: AwsccSchemaConfig)
    ensures
        r@ == config(),
{
    AwsccSchemaConfig {
        aws_type_name: "AWS::IAM::Role",
        resource_type_name: "iam.role",
        has_tags: true,
        schema: ResourceSchema::new("awscc.iam.role")
            .with_description("Creates a new role for your AWS-account.   For more information about roles, see [IAM roles](https://docs.aws.amazon.com/IAM/latest/UserGuide/id_roles.html) in the *IAM User Guide*. For information ab...")
            .attribute(
                AttributeSchema::new("arn", AttributeType::format("IamRoleArn"))
                    .with_description(" (read-only)")
                    .with_provider_name("Arn"),
            )
            .attribute(
                AttributeSchema::new("assume_role_policy_document", types::iam_policy_document())
                    .required()
                    .with_description("The trust policy that is associated with this role. Trust policies define which entities can assume the role. You can associate only one trust policy ...")
                    .with_provider_name("AssumeRolePolicyDocument"),
            )
            .attribute(
                AttributeSchema::new("description", AttributeType::String)
                    .with_description("A description of the role that you provide.")
                    .with_provider_name("Description"),
            )
            .attribute(
                AttributeSchema::new("managed_policy_arns", AttributeType::list(AttributeType::format("IamPolicyArn")))
                    .with_description("A list of Amazon Resource Names (ARNs) of the IAM managed policies that you want to attach to the role. For more information about ARNs, see [Amazon R...")
                    .with_provider_name("ManagedPolicyArns"),
            )
            .attribute(
                AttributeSchema::new("max_session_duration", AttributeType::int_range("Int(3600..=43200)", Some(3600i64), Some(43200i64)))
                    .with_description("The maximum session duration (in seconds) that you want to set for the specified role. If you do not specify a value for this setting, the default val...")
                    .with_provider_name("MaxSessionDuration"),
            )
            .attribute(
                AttributeSchema::new("path", AttributeType::String)
                    .create_only()
                    .with_description("The path to the role. For more information about paths, see [IAM Identifiers](https://docs.aws.amazon.com/IAM/latest/UserGuide/Using_Identifiers.html)...")
                    .with_provider_name("Path"),
            )
            .attribute(
                AttributeSchema::new("permissions_boundary", AttributeType::format("IamPolicyArn"))
                    .with_description("The ARN of the policy used to set the permissions boundary for the role. For more information about permissions boundaries, see [Permissions boundarie...")
                    .with_provider_name("PermissionsBoundary"),
            )
            .attribute(
                AttributeSchema::new("policies", AttributeType::list(AttributeType::structure("Policy")
                        .field(StructField::new("policy_document", types::iam_policy_document())
                            .required()
                            .with_description("The entire contents of the policy that defines permissions. For more information, see [Overview of JSON policies](https://docs.aws.amazon.com/IAM/late...")
                            .with_provider_name("PolicyDocument"))
                        .field(StructField::new("policy_name", AttributeType::String)
                            .required()
                            .with_description("The friendly name (not ARN) identifying the policy.")
                            .with_provider_name("PolicyName"))))
                    .with_description("Adds or updates an inline policy document that is embedded in the specified IAM role. When you embed an inline policy in a role, the inline policy is ...")
                    .with_provider_name("Policies")
                    .with_block_name("policy"),
            )
            .attribute(
                AttributeSchema::new("role_id", AttributeType::String)
                    .with_description(" (read-only)")
                    .with_provider_name("RoleId"),
            )
            .attribute(
                AttributeSchema::new("role_name", AttributeType::String)
                    .create_only()
                    .with_description("A name for the IAM role, up to 64 characters in length. For valid values, see the ``RoleName`` parameter for the [CreateRole](https://docs.aws.amazon....")
                    .with_provider_name("RoleName"),
            )
            .attribute(
                AttributeSchema::new("tags", types::tags_type())
                    .with_description("A list of tags that are attached to the role. For more information about tagging, see [Tagging IAM resources](https://docs.aws.amazon.com/IAM/latest/U...")
                    .with_provider_name("Tags"),
            ),
    }
}

/// The enum attributes and their values.
pub open spec fn enum_table() -> Seq<(Seq<char>, Seq<Seq<char>>)> {
    Seq::empty()
}

/// The resource type, and its enum attributes with their values.
pub fn enum_valid_values() -> (r: (&'static str, EnumValues))
    ensures
        r.0@ == "iam.role"@,
        r.1@ == enum_table(),
{
    let values = EnumValues::new();
    ("iam.role", values)
}

/// The provider's value for a value that has another spelling in the
/// configuration language: there is none.
pub open spec fn alias_reverse(attr_name: Seq<char>, value: Seq<char>) -> Option<Seq<char>> {
    None
}

/// The provider's value for a value that has another spelling in the
/// configuration language.
pub fn enum_alias_reverse(attr_name: &str, value: &str) -> (r: Option<&'static str>)
    ensures
        text::opt_slice(r) == alias_reverse(attr_name@, value@),
{
    None
}

} // verus!
