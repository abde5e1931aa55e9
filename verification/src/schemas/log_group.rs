//! The schema of `AWS::Logs::LogGroup`.
use vstd::prelude::*;

use crate::schema::{AttributeSchema, AttributeType, AttrView, AwsccSchemaConfig, ConfigView, ResourceSchema, SchemaView, TypeView, Words};
use crate::schemas::types;
use crate::schemas::values::EnumValues;
use crate::text;

verus! {

/// The schema of `AWS::Logs::LogGroup`.
pub open spec fn config() -> ConfigView {
    ConfigView {
        aws_type_name: "AWS::Logs::LogGroup"@,
        resource_type_name: "logs.log_group"@,
        has_tags: true,
        schema: SchemaView::new("awscc.logs.log_group"@)
            .with_description("The ``AWS::Logs::LogGroup`` resource specifies a log group. A log group defines common properties for log streams, such as their retention and access control rules. Each log stream must belong to one ..."@)
            .attribute(
                AttrView::new("arn"@, TypeView::format("Arn"@))
                    .with_description(" (read-only)"@)
                    .with_provider_name("Arn"@),
            )
            .attribute(
                AttrView::new("data_protection_policy"@, TypeView::map_of(TypeView::String))
                    .with_description("Creates a data protection policy and assigns it to the log group. A data protection policy can help safeguard sensitive data that's ingested by the lo..."@)
                    .with_provider_name("DataProtectionPolicy"@),
            )
            .attribute(
                AttrView::new("deletion_protection_enabled"@, TypeView::Bool)
                    .with_description("Indicates whether deletion protection is enabled for this log group. When enabled, deletion protection blocks all deletion operations until it is expl..."@)
                    .with_provider_name("DeletionProtectionEnabled"@),
            )
            .attribute(
                AttrView::new("field_index_policies"@, TypeView::list(TypeView::map_of(TypeView::String)))
                    .with_description("Creates or updates a *field index policy* for the specified log group. Only log groups in the Standard log class support field index policies. For mor..."@)
                    .with_provider_name("FieldIndexPolicies"@),
            )
            .attribute(
                AttrView::new("kms_key_id"@, TypeView::String)
                    .with_description("The Amazon Resource Name (ARN) of the KMS key to use when encrypting log data. To associate an KMS key with the log group, specify the ARN of that KMS..."@)
                    .with_provider_name("KmsKeyId"@),
            )
            .attribute(
                AttrView::new("log_group_class"@, TypeView::custom_enum("LogGroupClass"@, seq!["STANDARD"@].push("INFREQUENT_ACCESS"@).push("DELIVERY"@), "awscc.logs.log_group"@, None))
                    .with_description("Specifies the log group class for this log group. There are two classes:  + The ``Standard`` log class supports all CWL features.  + The ``Infrequent ..."@)
                    .with_provider_name("LogGroupClass"@),
            )
            .attribute(
                AttrView::new("log_group_name"@, TypeView::String)
                    .with_description("The name of the log group. If you don't specify a name, CFNlong generates a unique ID for the log group."@)
                    .with_provider_name("LogGroupName"@),
            )
            .attribute(
                AttrView::new("resource_policy_document"@, types::policy_view())
                    .with_description("Creates or updates a resource policy for the specified log group that allows other services to put log events to this account. A LogGroup can have 1 r..."@)
                    .with_provider_name("ResourcePolicyDocument"@),
            )
            .attribute(
                AttrView::new("retention_in_days"@, TypeView::Int)
                    .with_description("The number of days to retain the log events in the specified log group. Possible values are: 1, 3, 5, 7, 14, 30, 60, 90, 120, 150, 180, 365, 400, 545,..."@)
                    .with_provider_name("RetentionInDays"@),
            )
            .attribute(
                AttrView::new("tags"@, types::tags_view())
                    .with_description("An array of key-value pairs to apply to the log group. For more information, see [Tag](https://docs.aws.amazon.com/AWSCloudFormation/latest/UserGuide/..."@)
                    .with_provider_name("Tags"@),
            ),
    }
}

/// The schema of `AWS::Logs::LogGroup`.
pub fn logs_log_group_config() -> (r: AwsccSchemaConfig)
    ensures
        r@ == config(),
{
    AwsccSchemaConfig {
        aws_type_name: "AWS::Logs::LogGroup",
        resource_type_name: "logs.log_group",
        has_tags: true,
        schema: ResourceSchema::new("awscc.logs.log_group")
            .with_description("The ``AWS::Logs::LogGroup`` resource specifies a log group. A log group defines common properties for log streams, such as their retention and access control rules. Each log stream must belong to one ...")
            .attribute(
                AttributeSchema::new("arn", AttributeType::format("Arn"))
                    .with_description(" (read-only)")
                    .with_provider_name("Arn"),
            )
            .attribute(
                AttributeSchema::new("data_protection_policy", AttributeType::map_of(AttributeType::String))
                    .with_description("Creates a data protection policy and assigns it to the log group. A data protection policy can help safeguard sensitive data that's ingested by the lo...")
                    .with_provider_name("DataProtectionPolicy"),
            )
            .attribute(
                AttributeSchema::new("deletion_protection_enabled", AttributeType::Bool)
                    .with_description("Indicates whether deletion protection is enabled for this log group. When enabled, deletion protection blocks all deletion operations until it is expl...")
                    .with_provider_name("DeletionProtectionEnabled"),
            )
            .attribute(
                AttributeSchema::new("field_index_policies", AttributeType::list(AttributeType::map_of(AttributeType::String)))
                    .with_description("Creates or updates a *field index policy* for the specified log group. Only log groups in the Standard log class support field index policies. For mor...")
                    .with_provider_name("FieldIndexPolicies"),
            )
            .attribute(
                AttributeSchema::new("kms_key_id", AttributeType::String)
                    .with_description("The Amazon Resource Name (ARN) of the KMS key to use when encrypting log data. To associate an KMS key with the log group, specify the ARN of that KMS...")
                    .with_provider_name("KmsKeyId"),
            )
            .attribute(
                AttributeSchema::new("log_group_class", AttributeType::custom_enum("LogGroupClass", Words::of("STANDARD").and("INFREQUENT_ACCESS").and("DELIVERY"), "awscc.logs.log_group", None))
                    .with_description("Specifies the log group class for this log group. There are two classes:  + The ``Standard`` log class supports all CWL features.  + The ``Infrequent ...")
                    .with_provider_name("LogGroupClass"),
            )
            .attribute(
                AttributeSchema::new("log_group_name", AttributeType::String)
                    .with_description("The name of the log group. If you don't specify a name, CFNlong generates a unique ID for the log group.")
                    .with_provider_name("LogGroupName"),
            )
            .attribute(
                AttributeSchema::new("resource_policy_document", types::iam_policy_document())
                    .with_description("Creates or updates a resource policy for the specified log group that allows other services to put log events to this account. A LogGroup can have 1 r...")
                    .with_provider_name("ResourcePolicyDocument"),
            )
            .attribute(
                AttributeSchema::new("retention_in_days", AttributeType::Int)
                    .with_description("The number of days to retain the log events in the specified log group. Possible values are: 1, 3, 5, 7, 14, 30, 60, 90, 120, 150, 180, 365, 400, 545,...")
                    .with_provider_name("RetentionInDays"),
            )
            .attribute(
                AttributeSchema::new("tags", types::tags_type())
                    .with_description("An array of key-value pairs to apply to the log group. For more information, see [Tag](https://docs.aws.amazon.com/AWSCloudFormation/latest/UserGuide/...")
                    .with_provider_name("Tags"),
            ),
    }
}

/// The enum attributes and their values.
pub open spec fn enum_table() -> Seq<(Seq<char>, Seq<Seq<char>>)> {
    Seq::empty()
        .push(("log_group_class"@, seq!["STANDARD"@].push("INFREQUENT_ACCESS"@).push("DELIVERY"@)))
}

/// The resource type, and its enum attributes with their values.
pub fn enum_valid_values() -> (r: (&'static str, EnumValues))
    ensures
        r.0@ == "logs.log_group"@,
        r.1@ == enum_table(),
{
    let mut values = EnumValues::new();
    values.add("log_group_class", Words::of("STANDARD").and("INFREQUENT_ACCESS").and("DELIVERY"));
    ("logs.log_group", values)
}

/// The provider's value for a value that has another spelling in the
/// configuration language: there is none.
pub open spec fn alias_reverse(attr_name: Seq<char>, value: Seq<char>) -> Option<Seq<char>> {
    None
}

/// The provider's value for a value that has another spelling in the
/// configuration language.
pub fn enum_alias_reverse(attr_name: &str, value: &str) -> (r: Option<&'static str>)
    ensures
        text::opt_slice(r) == alias_reverse(attr_name@, value@),
{
    None
}

} // verus!
