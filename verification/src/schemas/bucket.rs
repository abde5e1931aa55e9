//! The schema of `AWS::S3::Bucket`.
use vstd::prelude::*;

use crate::schema::{AttributeSchema, AttributeType, AttrView, AwsccSchemaConfig, ConfigView, FieldView, ResourceSchema, SchemaView, StructField, TypeView, Words};
use crate::schemas::types;
use crate::schemas::values::EnumValues;
use crate::text;

verus! {

pub open spec fn analytics_configurations_view() -> AttrView {
    AttrView::new("analytics_configurations"@, TypeView::list(TypeView::structure("AnalyticsConfiguration"@)
            .field(FieldView::new("id"@, TypeView::String)
                .required()
                .with_description("The ID that identifies the analytics configuration."@)
                .with_provider_name("Id"@))
            .field(FieldView::new("prefix"@, TypeView::String)
                .with_description("The prefix that an object must have to be included in the analytics results."@)
                .with_provider_name("Prefix"@))
            .field(FieldView::new("storage_class_analysis"@, TypeView::structure("StorageClassAnalysis"@)
                    .field(FieldView::new("data_export"@, TypeView::structure("DataExport"@)
                            .field(FieldView::new("destination"@, TypeView::structure("Destination"@)
                                    .field(FieldView::new("bucket_account_id"@, TypeView::String)
                                        .with_description("The account ID that owns the destination S3 bucket. If no account ID is provided, the owner is not validated before exporting data.  Although this val..."@)
                                        .with_provider_name("BucketAccountId"@))
                                    .field(FieldView::new("bucket_arn"@, TypeView::format("Arn"@))
                                        .required()
                                        .with_description("The Amazon Resource Name (ARN) of the bucket to which data is exported."@)
                                        .with_provider_name("BucketArn"@))
                                    .field(FieldView::new("format"@, TypeView::Enum(seq!["CSV"@].push("ORC"@).push("Parquet"@)))
                                        .required()
                                        .with_description("Specifies the file format used when exporting data to Amazon S3. *Allowed values*: ``CSV`` | ``ORC`` | ``Parquet``"@)
                                        .with_provider_name("Format"@))
                                    .field(FieldView::new("prefix"@, TypeView::String)
                                        .with_description("The prefix to use when exporting data. The prefix is prepended to all results."@)
                                        .with_provider_name("Prefix"@)))
                                .required()
                                .with_description("The place to store the data for an analysis."@)
                                .with_provider_name("Destination"@))
                            .field(FieldView::new("output_schema_version"@, TypeView::String)
                                .required()
                                .with_description("The version of the output schema to use when exporting data. Must be ``V_1``."@)
                                .with_provider_name("OutputSchemaVersion"@)))
                        .with_description("Specifies how data related to the storage class analysis for an Amazon S3 bucket should be exported."@)
                        .with_provider_name("DataExport"@)))
                .required()
                .with_description("Contains data related to access patterns to be collected and made available to analyze the tradeoffs between different storage classes."@)
                .with_provider_name("StorageClassAnalysis"@))
            .field(FieldView::new("tag_filters"@, TypeView::list(types::tags_view()))
                .with_description("The tags to use when evaluating an analytics filter. The analytics only includes objects that meet the filter's criteria. If no filter is specified, a..."@)
                .with_provider_name("TagFilters"@))))
        .with_description("Specifies the configuration and any analyses for the analytics filter of an Amazon S3 bucket."@)
        .with_provider_name("AnalyticsConfigurations"@)
        .with_block_name("analytics_configuration"@)
}

fn analytics_configurations_attribute() -> (r: AttributeSchema)
    ensures
        r@ == analytics_configurations_view(),
{
    AttributeSchema::new("analytics_configurations", AttributeType::list(AttributeType::structure("AnalyticsConfiguration")
            .field(StructField::new("id", AttributeType::String)
                .required()
                .with_description("The ID that identifies the analytics configuration.")
                .with_provider_name("Id"))
            .field(StructField::new("prefix", AttributeType::String)
                .with_description("The prefix that an object must have to be included in the analytics results.")
                .with_provider_name("Prefix"))
            .field(StructField::new("storage_class_analysis", AttributeType::structure("StorageClassAnalysis")
                    .field(StructField::new("data_export", AttributeType::structure("DataExport")
                            .field(StructField::new("destination", AttributeType::structure("Destination")
                                    .field(StructField::new("bucket_account_id", AttributeType::String)
                                        .with_description("The account ID that owns the destination S3 bucket. If no account ID is provided, the owner is not validated before exporting data.  Although this val...")
                                        .with_provider_name("BucketAccountId"))
                                    .field(StructField::new("bucket_arn", AttributeType::format("Arn"))
                                        .required()
                                        .with_description("The Amazon Resource Name (ARN) of the bucket to which data is exported.")
                                        .with_provider_name("BucketArn"))
                                    .field(StructField::new("format", AttributeType::one_of(Words::of("CSV").and("ORC").and("Parquet")))
                                        .required()
                                        .with_description("Specifies the file format used when exporting data to Amazon S3. *Allowed values*: ``CSV`` | ``ORC`` | ``Parquet``")
                                        .with_provider_name("Format"))
                                    .field(StructField::new("prefix", AttributeType::String)
                                        .with_description("The prefix to use when exporting data. The prefix is prepended to all results.")
                                        .with_provider_name("Prefix")))
                                .required()
                                .with_description("The place to store the data for an analysis.")
                                .with_provider_name("Destination"))
                            .field(StructField::new("output_schema_version", AttributeType::String)
                                .required()
                                .with_description("The version of the output schema to use when exporting data. Must be ``V_1``.")
                                .with_provider_name("OutputSchemaVersion")))
                        .with_description("Specifies how data related to the storage class analysis for an Amazon S3 bucket should be exported.")
                        .with_provider_name("DataExport")))
                .required()
                .with_description("Contains data related to access patterns to be collected and made available to analyze the tradeoffs between different storage classes.")
                .with_provider_name("StorageClassAnalysis"))
            .field(StructField::new("tag_filters", AttributeType::list(types::tags_type()))
                .with_description("The tags to use when evaluating an analytics filter. The analytics only includes objects that meet the filter's criteria. If no filter is specified, a...")
                .with_provider_name("TagFilters"))))
        .with_description("Specifies the configuration and any analyses for the analytics filter of an Amazon S3 bucket.")
        .with_provider_name("AnalyticsConfigurations")
        .with_block_name("analytics_configuration")
}

pub open spec fn bucket_encryption_view() -> AttrView {
    AttrView::new("bucket_encryption"@, TypeView::structure("BucketEncryption"@)
            .field(FieldView::new("server_side_encryption_configuration"@, TypeView::list(TypeView::structure("ServerSideEncryptionRule"@)
                    .field(FieldView::new("blocked_encryption_types"@, TypeView::structure("BlockedEncryptionTypes"@)
                            .field(FieldView::new("encryption_type"@, TypeView::String)
                                .with_description("The object encryption type that you want to block or unblock for an Amazon S3 general purpose bucket.  Currently, this parameter only supports blockin..."@)
                                .with_provider_name("EncryptionType"@)))
                        .with_description("A bucket-level setting for Amazon S3 general purpose buckets used to prevent the upload of new objects encrypted with the specified server-side encryp..."@)
                        .with_provider_name("BlockedEncryptionTypes"@))
                    .field(FieldView::new("bucket_key_enabled"@, TypeView::Bool)
                        .with_description("Specifies whether Amazon S3 should use an S3 Bucket Key with server-side encryption using KMS (SSE-KMS) for new objects in the bucket. Existing object..."@)
                        .with_provider_name("BucketKeyEnabled"@))
                    .field(FieldView::new("server_side_encryption_by_default"@, TypeView::structure("ServerSideEncryptionByDefault"@)
                            .field(FieldView::new("kms_master_key_id"@, TypeView::format("KmsKeyArn"@))
                                .with_description("AWS Key Management Service (KMS) customer managed key ID to use for the default encryption.   + *General purpose buckets* - This parameter is allowed ..."@)
                                .with_provider_name("KMSMasterKeyID"@))
                            .field(FieldView::new("sse_algorithm"@, TypeView::Enum(seq!["aws:kms"@].push("AES256"@).push("aws:kms:dsse"@)))
                                .required()
                                .with_description("Server-side encryption algorithm to use for the default encryption.  For directory buckets, there are only two supported values for server-side encryp..."@)
                                .with_provider_name("SSEAlgorithm"@)))
                        .with_description("Specifies the default server-side encryption to apply to new objects in the bucket. If a PUT Object request doesn't specify any server-side encryption..."@)
                        .with_provider_name("ServerSideEncryptionByDefault"@))))
                .required()
                .with_description("Specifies the default server-side-encryption configuration."@)
                .with_provider_name("ServerSideEncryptionConfiguration"@)
                .with_block_name("server_side_encryption_configuration"@)))
        .with_description("Specifies default encryption for a bucket using server-side encryption with Amazon S3-managed keys (SSE-S3), AWS KMS-managed keys (SSE-KMS), or dual-l..."@)
        .with_provider_name("BucketEncryption"@)
}

fn bucket_encryption_attribute() -> (r: AttributeSchema)
    ensures
        r@ == bucket_encryption_view(),
{
    AttributeSchema::new("bucket_encryption", AttributeType::structure("BucketEncryption")
            .field(StructField::new("server_side_encryption_configuration", AttributeType::list(AttributeType::structure("ServerSideEncryptionRule")
                    .field(StructField::new("blocked_encryption_types", AttributeType::structure("BlockedEncryptionTypes")
                            .field(StructField::new("encryption_type", AttributeType::String)
                                .with_description("The object encryption type that you want to block or unblock for an Amazon S3 general purpose bucket.  Currently, this parameter only supports blockin...")
                                .with_provider_name("EncryptionType")))
                        .with_description("A bucket-level setting for Amazon S3 general purpose buckets used to prevent the upload of new objects encrypted with the specified server-side encryp...")
                        .with_provider_name("BlockedEncryptionTypes"))
                    .field(StructField::new("bucket_key_enabled", AttributeType::Bool)
                        .with_description("Specifies whether Amazon S3 should use an S3 Bucket Key with server-side encryption using KMS (SSE-KMS) for new objects in the bucket. Existing object...")
                        .with_provider_name("BucketKeyEnabled"))
                    .field(StructField::new("server_side_encryption_by_default", AttributeType::structure("ServerSideEncryptionByDefault")
                            .field(StructField::new("kms_master_key_id", AttributeType::format("KmsKeyArn"))
                                .with_description("AWS Key Management Service (KMS) customer managed key ID to use for the default encryption.   + *General purpose buckets* - This parameter is allowed ...")
                                .with_provider_name("KMSMasterKeyID"))
                            .field(StructField::new("sse_algorithm", AttributeType::one_of(Words::of("aws:kms").and("AES256").and("aws:kms:dsse")))
                                .required()
                                .with_description("Server-side encryption algorithm to use for the default encryption.  For directory buckets, there are only two supported values for server-side encryp...")
                                .with_provider_name("SSEAlgorithm")))
                        .with_description("Specifies the default server-side encryption to apply to new objects in the bucket. If a PUT Object request doesn't specify any server-side encryption...")
                        .with_provider_name("ServerSideEncryptionByDefault"))))
                .required()
                .with_description("Specifies the default server-side-encryption configuration.")
                .with_provider_name("ServerSideEncryptionConfiguration")
                .with_block_name("server_side_encryption_configuration")))
        .with_description("Specifies default encryption for a bucket using server-side encryption with Amazon S3-managed keys (SSE-S3), AWS KMS-managed keys (SSE-KMS), or dual-l...")
        .with_provider_name("BucketEncryption")
}

pub open spec fn cors_configuration_view() -> AttrView {
    AttrView::new("cors_configuration"@, TypeView::structure("CorsConfiguration"@)
            .field(FieldView::new("cors_rules"@, TypeView::list(TypeView::structure("CorsRule"@)
                    .field(FieldView::new("allowed_headers"@, TypeView::list(TypeView::String))
                        .with_description("Headers that are specified in the ``Access-Control-Request-Headers`` header. These headers are allowed in a preflight OPTIONS request. In response to ..."@)
                        .with_provider_name("AllowedHeaders"@))
                    .field(FieldView::new("allowed_methods"@, TypeView::list(TypeView::String))
                        .required()
                        .with_description("An HTTP method that you allow the origin to run. *Allowed values*: ``GET`` | ``PUT`` | ``HEAD`` | ``POST`` | ``DELETE``"@)
                        .with_provider_name("AllowedMethods"@))
                    .field(FieldView::new("allowed_origins"@, TypeView::list(TypeView::String))
                        .required()
                        .with_description("One or more origins you want customers to be able to access the bucket from."@)
                        .with_provider_name("AllowedOrigins"@))
                    .field(FieldView::new("exposed_headers"@, TypeView::list(TypeView::String))
                        .with_description("One or more headers in the response that you want customers to be able to access from their applications (for example, from a JavaScript ``XMLHttpRequ..."@)
                        .with_provider_name("ExposedHeaders"@))
                    .field(FieldView::new("id"@, TypeView::String)
                        .with_description("A unique identifier for this rule. The value must be no more than 255 characters."@)
                        .with_provider_name("Id"@))
                    .field(FieldView::new("max_age"@, TypeView::Int)
                        .with_description("The time in seconds that your browser is to cache the preflight response for the specified resource."@)
                        .with_provider_name("MaxAge"@))))
                .required()
                .with_description("A set of origins and methods (cross-origin access that you want to allow). You can add up to 100 rules to the configuration."@)
                .with_provider_name("CorsRules"@)
                .with_block_name("cors_rule"@)))
        .with_description("Describes the cross-origin access configuration for objects in an Amazon S3 bucket. For more information, see [Enabling Cross-Origin Resource Sharing]..."@)
        .with_provider_name("CorsConfiguration"@)
}

fn cors_configuration_attribute() -> (r: AttributeSchema)
    ensures
        r@ == cors_configuration_view(),
{
    AttributeSchema::new("cors_configuration", AttributeType::structure("CorsConfiguration")
            .field(StructField::new("cors_rules", AttributeType::list(AttributeType::structure("CorsRule")
                    .field(StructField::new("allowed_headers", AttributeType::list(AttributeType::String))
                        .with_description("Headers that are specified in the ``Access-Control-Request-Headers`` header. These headers are allowed in a preflight OPTIONS request. In response to ...")
                        .with_provider_name("AllowedHeaders"))
                    .field(StructField::new("allowed_methods", AttributeType::list(AttributeType::String))
                        .required()
                        .with_description("An HTTP method that you allow the origin to run. *Allowed values*: ``GET`` | ``PUT`` | ``HEAD`` | ``POST`` | ``DELETE``")
                        .with_provider_name("AllowedMethods"))
                    .field(StructField::new("allowed_origins", AttributeType::list(AttributeType::String))
                        .required()
                        .with_description("One or more origins you want customers to be able to access the bucket from.")
                        .with_provider_name("AllowedOrigins"))
                    .field(StructField::new("exposed_headers", AttributeType::list(AttributeType::String))
                        .with_description("One or more headers in the response that you want customers to be able to access from their applications (for example, from a JavaScript ``XMLHttpRequ...")
                        .with_provider_name("ExposedHeaders"))
                    .field(StructField::new("id", AttributeType::String)
                        .with_description("A unique identifier for this rule. The value must be no more than 255 characters.")
                        .with_provider_name("Id"))
                    .field(StructField::new("max_age", AttributeType::Int)
                        .with_description("The time in seconds that your browser is to cache the preflight response for the specified resource.")
                        .with_provider_name("MaxAge"))))
                .required()
                .with_description("A set of origins and methods (cross-origin access that you want to allow). You can add up to 100 rules to the configuration.")
                .with_provider_name("CorsRules")
                .with_block_name("cors_rule")))
        .with_description("Describes the cross-origin access configuration for objects in an Amazon S3 bucket. For more information, see [Enabling Cross-Origin Resource Sharing]...")
        .with_provider_name("CorsConfiguration")
}

pub open spec fn intelligent_tiering_configurations_view() -> AttrView {
    AttrView::new("intelligent_tiering_configurations"@, TypeView::list(TypeView::structure("IntelligentTieringConfiguration"@)
            .field(FieldView::new("id"@, TypeView::String)
                .required()
                .with_description("The ID used to identify the S3 Intelligent-Tiering configuration."@)
                .with_provider_name("Id"@))
            .field(FieldView::new("prefix"@, TypeView::String)
                .with_description("An object key name prefix that identifies the subset of objects to which the rule applies."@)
                .with_provider_name("Prefix"@))
            .field(FieldView::new("status"@, TypeView::Enum(seq!["Disabled"@].push("Enabled"@)))
                .required()
                .with_description("Specifies the status of the configuration."@)
                .with_provider_name("Status"@))
            .field(FieldView::new("tag_filters"@, TypeView::list(types::tags_view()))
                .with_description("A container for a key-value pair."@)
                .with_provider_name("TagFilters"@))
            .field(FieldView::new("tierings"@, TypeView::list(TypeView::structure("Tiering"@)
                    .field(FieldView::new("access_tier"@, TypeView::Enum(seq!["ARCHIVE_ACCESS"@].push("DEEP_ARCHIVE_ACCESS"@)))
                        .required()
                        .with_description("S3 Intelligent-Tiering access tier. See [Storage class for automatically optimizing frequently and infrequently accessed objects](https://docs.aws.ama..."@)
                        .with_provider_name("AccessTier"@))
                    .field(FieldView::new("days"@, TypeView::Int)
                        .required()
                        .with_description("The number of consecutive days of no access after which an object will be eligible to be transitioned to the corresponding tier. The minimum number of..."@)
                        .with_provider_name("Days"@))))
                .required()
                .with_description("Specifies a list of S3 Intelligent-Tiering storage class tiers in the configuration. At least one tier must be defined in the list. At most, you can s..."@)
                .with_provider_name("Tierings"@)
                .with_block_name("tiering"@))))
        .with_description("Defines how Amazon S3 handles Intelligent-Tiering storage."@)
        .with_provider_name("IntelligentTieringConfigurations"@)
        .with_block_name("intelligent_tiering_configuration"@)
}

fn intelligent_tiering_configurations_attribute() -> (r: AttributeSchema)
    ensures
        r@ == intelligent_tiering_configurations_view(),
{
    AttributeSchema::new("intelligent_tiering_configurations", AttributeType::list(AttributeType::structure("IntelligentTieringConfiguration")
            .field(StructField::new("id", AttributeType::String)
                .required()
                .with_description("The ID used to identify the S3 Intelligent-Tiering configuration.")
                .with_provider_name("Id"))
            .field(StructField::new("prefix", AttributeType::String)
                .with_description("An object key name prefix that identifies the subset of objects to which the rule applies.")
                .with_provider_name("Prefix"))
            .field(StructField::new("status", AttributeType::one_of(Words::of("Disabled").and("Enabled")))
                .required()
                .with_description("Specifies the status of the configuration.")
                .with_provider_name("Status"))
            .field(StructField::new("tag_filters", AttributeType::list(types::tags_type()))
                .with_description("A container for a key-value pair.")
                .with_provider_name("TagFilters"))
            .field(StructField::new("tierings", AttributeType::list(AttributeType::structure("Tiering")
                    .field(StructField::new("access_tier", AttributeType::one_of(Words::of("ARCHIVE_ACCESS").and("DEEP_ARCHIVE_ACCESS")))
                        .required()
                        .with_description("S3 Intelligent-Tiering access tier. See [Storage class for automatically optimizing frequently and infrequently accessed objects](https://docs.aws.ama...")
                        .with_provider_name("AccessTier"))
                    .field(StructField::new("days", AttributeType::Int)
                        .required()
                        .with_description("The number of consecutive days of no access after which an object will be eligible to be transitioned to the corresponding tier. The minimum number of...")
                        .with_provider_name("Days"))))
                .required()
                .with_description("Specifies a list of S3 Intelligent-Tiering storage class tiers in the configuration. At least one tier must be defined in the list. At most, you can s...")
                .with_provider_name("Tierings")
                .with_block_name("tiering"))))
        .with_description("Defines how Amazon S3 handles Intelligent-Tiering storage.")
        .with_provider_name("IntelligentTieringConfigurations")
        .with_block_name("intelligent_tiering_configuration")
}

pub open spec fn inventory_configurations_view() -> AttrView {
    AttrView::new("inventory_configurations"@, TypeView::list(TypeView::structure("InventoryConfiguration"@)
            .field(FieldView::new("destination"@, TypeView::structure("Destination"@)
                    .field(FieldView::new("bucket_account_id"@, TypeView::String)
                        .with_description("The account ID that owns the destination S3 bucket. If no account ID is provided, the owner is not validated before exporting data.  Although this val..."@)
                        .with_provider_name("BucketAccountId"@))
                    .field(FieldView::new("bucket_arn"@, TypeView::format("Arn"@))
                        .required()
                        .with_description("The Amazon Resource Name (ARN) of the bucket to which data is exported."@)
                        .with_provider_name("BucketArn"@))
                    .field(FieldView::new("format"@, TypeView::Enum(seq!["CSV"@].push("ORC"@).push("Parquet"@)))
                        .required()
                        .with_description("Specifies the file format used when exporting data to Amazon S3. *Allowed values*: ``CSV`` | ``ORC`` | ``Parquet``"@)
                        .with_provider_name("Format"@))
                    .field(FieldView::new("prefix"@, TypeView::String)
                        .with_description("The prefix to use when exporting data. The prefix is prepended to all results."@)
                        .with_provider_name("Prefix"@)))
                .required()
                .with_description("Contains information about where to publish the inventory results."@)
                .with_provider_name("Destination"@))
            .field(FieldView::new("enabled"@, TypeView::Bool)
                .required()
                .with_description("Specifies whether the inventory is enabled or disabled. If set to ``True``, an inventory list is generated. If set to ``False``, no inventory list is ..."@)
                .with_provider_name("Enabled"@))
            .field(FieldView::new("id"@, TypeView::String)
                .required()
                .with_description("The ID used to identify the inventory configuration."@)
                .with_provider_name("Id"@))
            .field(FieldView::new("included_object_versions"@, TypeView::Enum(seq!["All"@].push("Current"@)))
                .required()
                .with_description("Object versions to include in the inventory list. If set to ``All``, the list includes all the object versions, which adds the version-related fields ..."@)
                .with_provider_name("IncludedObjectVersions"@))
            .field(FieldView::new("optional_fields"@, TypeView::list(TypeView::String))
                .with_description("Contains the optional fields that are included in the inventory results."@)
                .with_provider_name("OptionalFields"@))
            .field(FieldView::new("prefix"@, TypeView::String)
                .with_description("Specifies the inventory filter prefix."@)
                .with_provider_name("Prefix"@))
            .field(FieldView::new("schedule_frequency"@, TypeView::Enum(seq!["Daily"@].push("Weekly"@)))
                .required()
                .with_description("Specifies the schedule for generating inventory results."@)
                .with_provider_name("ScheduleFrequency"@))))
        .with_description("Specifies the S3 Inventory configuration for an Amazon S3 bucket. For more information, see [GET Bucket inventory](https://docs.aws.amazon.com/AmazonS..."@)
        .with_provider_name("InventoryConfigurations"@)
        .with_block_name("inventory_configuration"@)
}

fn inventory_configurations_attribute() -> (r: AttributeSchema)
    ensures
        r@ == inventory_configurations_view(),
{
    AttributeSchema::new("inventory_configurations", AttributeType::list(AttributeType::structure("InventoryConfiguration")
            .field(StructField::new("destination", AttributeType::structure("Destination")
                    .field(StructField::new("bucket_account_id", AttributeType::String)
                        .with_description("The account ID that owns the destination S3 bucket. If no account ID is provided, the owner is not validated before exporting data.  Although this val...")
                        .with_provider_name("BucketAccountId"))
                    .field(StructField::new("bucket_arn", AttributeType::format("Arn"))
                        .required()
                        .with_description("The Amazon Resource Name (ARN) of the bucket to which data is exported.")
                        .with_provider_name("BucketArn"))
                    .field(StructField::new("format", AttributeType::one_of(Words::of("CSV").and("ORC").and("Parquet")))
                        .required()
                        .with_description("Specifies the file format used when exporting data to Amazon S3. *Allowed values*: ``CSV`` | ``ORC`` | ``Parquet``")
                        .with_provider_name("Format"))
                    .field(StructField::new("prefix", AttributeType::String)
                        .with_description("The prefix to use when exporting data. The prefix is prepended to all results.")
                        .with_provider_name("Prefix")))
                .required()
                .with_description("Contains information about where to publish the inventory results.")
                .with_provider_name("Destination"))
            .field(StructField::new("enabled", AttributeType::Bool)
                .required()
                .with_description("Specifies whether the inventory is enabled or disabled. If set to ``True``, an inventory list is generated. If set to ``False``, no inventory list is ...")
                .with_provider_name("Enabled"))
            .field(StructField::new("id", AttributeType::String)
                .required()
                .with_description("The ID used to identify the inventory configuration.")
                .with_provider_name("Id"))
            .field(StructField::new("included_object_versions", AttributeType::one_of(Words::of("All").and("Current")))
                .required()
                .with_description("Object versions to include in the inventory list. If set to ``All``, the list includes all the object versions, which adds the version-related fields ...")
                .with_provider_name("IncludedObjectVersions"))
            .field(StructField::new("optional_fields", AttributeType::list(AttributeType::String))
                .with_description("Contains the optional fields that are included in the inventory results.")
                .with_provider_name("OptionalFields"))
            .field(StructField::new("prefix", AttributeType::String)
                .with_description("Specifies the inventory filter prefix.")
                .with_provider_name("Prefix"))
            .field(StructField::new("schedule_frequency", AttributeType::one_of(Words::of("Daily").and("Weekly")))
                .required()
                .with_description("Specifies the schedule for generating inventory results.")
                .with_provider_name("ScheduleFrequency"))))
        .with_description("Specifies the S3 Inventory configuration for an Amazon S3 bucket. For more information, see [GET Bucket inventory](https://docs.aws.amazon.com/AmazonS...")
        .with_provider_name("InventoryConfigurations")
        .with_block_name("inventory_configuration")
}

pub open spec fn lifecycle_configuration_view() -> AttrView {
    AttrView::new("lifecycle_configuration"@, TypeView::structure("LifecycleConfiguration"@)
            .field(FieldView::new("rules"@, TypeView::list(TypeView::structure("Rule"@)
                    .field(FieldView::new("abort_incomplete_multipart_upload"@, TypeView::structure("AbortIncompleteMultipartUpload"@)
                            .field(FieldView::new("days_after_initiation"@, TypeView::Int)
                                .required()
                                .with_description("Specifies the number of days after which Amazon S3 stops an incomplete multipart upload."@)
                                .with_provider_name("DaysAfterInitiation"@)))
                        .with_description("Specifies a lifecycle rule that stops incomplete multipart uploads to an Amazon S3 bucket."@)
                        .with_provider_name("AbortIncompleteMultipartUpload"@))
                    .field(FieldView::new("expiration_date"@, TypeView::String)
                        .with_description("Indicates when objects are deleted from Amazon S3 and Amazon S3 Glacier. The date value must be in ISO 8601 format. The time is always midnight UTC. I..."@)
                        .with_provider_name("ExpirationDate"@))
                    .field(FieldView::new("expiration_in_days"@, TypeView::Int)
                        .with_description("Indicates the number of days after creation when objects are deleted from Amazon S3 and Amazon S3 Glacier. If you specify an expiration and transition..."@)
                        .with_provider_name("ExpirationInDays"@))
                    .field(FieldView::new("expired_object_delete_marker"@, TypeView::Bool)
                        .with_description("Indicates whether Amazon S3 will remove a delete marker without any noncurrent versions. If set to true, the delete marker will be removed if there ar..."@)
                        .with_provider_name("ExpiredObjectDeleteMarker"@))
                    .field(FieldView::new("id"@, TypeView::String)
                        .with_description("Unique identifier for the rule. The value can't be longer than 255 characters."@)
                        .with_provider_name("Id"@))
                    .field(FieldView::new("noncurrent_version_expiration"@, TypeView::structure("NoncurrentVersionExpiration"@)
                            .field(FieldView::new("newer_noncurrent_versions"@, TypeView::Int)
                                .with_description("Specifies how many noncurrent versions S3 will retain. If there are this many more recent noncurrent versions, S3 will take the associated action. For..."@)
                                .with_provider_name("NewerNoncurrentVersions"@))
                            .field(FieldView::new("noncurrent_days"@, TypeView::Int)
                                .required()
                                .with_description("Specifies the number of days an object is noncurrent before S3 can perform the associated action. For information about the noncurrent days calculatio..."@)
                                .with_provider_name("NoncurrentDays"@)))
                        .with_description("Specifies when noncurrent object versions expire. Upon expiration, S3 permanently deletes the noncurrent object versions. You set this lifecycle confi..."@)
                        .with_provider_name("NoncurrentVersionExpiration"@))
                    .field(FieldView::new("noncurrent_version_expiration_in_days"@, TypeView::Int)
                        .with_description("(Deprecated.) For buckets with versioning enabled (or suspended), specifies the time, in days, between when a new version of the object is uploaded to..."@)
                        .with_provider_name("NoncurrentVersionExpirationInDays"@))
                    .field(FieldView::new("noncurrent_version_transition"@, TypeView::structure("NoncurrentVersionTransition"@)
                            .field(FieldView::new("newer_noncurrent_versions"@, TypeView::Int)
                                .with_description("Specifies how many noncurrent versions S3 will retain. If there are this many more recent noncurrent versions, S3 will take the associated action. For..."@)
                                .with_provider_name("NewerNoncurrentVersions"@))
                            .field(FieldView::new("storage_class"@, TypeView::Enum(seq!["DEEP_ARCHIVE"@].push("GLACIER"@).push("Glacier"@).push("GLACIER_IR"@).push("INTELLIGENT_TIERING"@).push("ONEZONE_IA"@).push("STANDARD_IA"@)))
                                .required()
                                .with_description("The class of storage used to store the object."@)
                                .with_provider_name("StorageClass"@))
                            .field(FieldView::new("transition_in_days"@, TypeView::Int)
                                .required()
                                .with_description("Specifies the number of days an object is noncurrent before Amazon S3 can perform the associated action. For information about the noncurrent days cal..."@)
                                .with_provider_name("TransitionInDays"@)))
                        .with_description("(Deprecated.) For buckets with versioning enabled (or suspended), specifies when non-current objects transition to a specified storage class. If you s..."@)
                        .with_provider_name("NoncurrentVersionTransition"@))
                    .field(FieldView::new("noncurrent_version_transitions"@, TypeView::list(TypeView::structure("NoncurrentVersionTransition"@)
                            .field(FieldView::new("newer_noncurrent_versions"@, TypeView::Int)
                                .with_description("Specifies how many noncurrent versions S3 will retain. If there are this many more recent noncurrent versions, S3 will take the associated action. For..."@)
                                .with_provider_name("NewerNoncurrentVersions"@))
                            .field(FieldView::new("storage_class"@, TypeView::Enum(seq!["DEEP_ARCHIVE"@].push("GLACIER"@).push("Glacier"@).push("GLACIER_IR"@).push("INTELLIGENT_TIERING"@).push("ONEZONE_IA"@).push("STANDARD_IA"@)))
                                .required()
                                .with_description("The class of storage used to store the object."@)
                                .with_provider_name("StorageClass"@))
                            .field(FieldView::new("transition_in_days"@, TypeView::Int)
                                .required()
                                .with_description("Specifies the number of days an object is noncurrent before Amazon S3 can perform the associated action. For information about the noncurrent days cal..."@)
                                .with_provider_name("TransitionInDays"@))))
                        .with_description("For buckets with versioning enabled (or suspended), one or more transition rules that specify when non-current objects transition to a specified stora..."@)
                        .with_provider_name("NoncurrentVersionTransitions"@)
                        .with_block_name("noncurrent_version_transition"@))
                    .field(FieldView::new("object_size_greater_than"@, TypeView::String)
                        .with_description("Specifies the minimum object size in bytes for this rule to apply to. Objects must be larger than this value in bytes. For more information about size..."@)
                        .with_provider_name("ObjectSizeGreaterThan"@))
                    .field(FieldView::new("object_size_less_than"@, TypeView::String)
                        .with_description("Specifies the maximum object size in bytes for this rule to apply to. Objects must be smaller than this value in bytes. For more information about siz..."@)
                        .with_provider_name("ObjectSizeLessThan"@))
                    .field(FieldView::new("prefix"@, TypeView::String)
                        .with_description("Object key prefix that identifies one or more objects to which this rule applies.  Replacement must be made for object keys containing special charact..."@)
                        .with_provider_name("Prefix"@))
                    .field(FieldView::new("status"@, TypeView::Enum(seq!["Enabled"@].push("Disabled"@)))
                        .required()
                        .with_description("If ``Enabled``, the rule is currently being applied. If ``Disabled``, the rule is not currently being applied."@)
                        .with_provider_name("Status"@))
                    .field(FieldView::new("tag_filters"@, TypeView::list(types::tags_view()))
                        .with_description("Tags to use to identify a subset of objects to which the lifecycle rule applies."@)
                        .with_provider_name("TagFilters"@))
                    .field(FieldView::new("transition"@, TypeView::structure("Transition"@)
                            .field(FieldView::new("storage_class"@, TypeView::Enum(seq!["DEEP_ARCHIVE"@].push("GLACIER"@).push("Glacier"@).push("GLACIER_IR"@).push("INTELLIGENT_TIERING"@).push("ONEZONE_IA"@).push("STANDARD_IA"@)))
                                .required()
                                .with_description("The storage class to which you want the object to transition."@)
                                .with_provider_name("StorageClass"@))
                            .field(FieldView::new("transition_date"@, TypeView::String)
                                .with_description("Indicates when objects are transitioned to the specified storage class. The date value must be in ISO 8601 format. The time is always midnight UTC."@)
                                .with_provider_name("TransitionDate"@))
                            .field(FieldView::new("transition_in_days"@, TypeView::Int)
                                .with_description("Indicates the number of days after creation when objects are transitioned to the specified storage class. If the specified storage class is ``INTELLIG..."@)
                                .with_provider_name("TransitionInDays"@)))
                        .with_description("(Deprecated.) Specifies when an object transitions to a specified storage class. If you specify an expiration and transition time, you must use the sa..."@)
                        .with_provider_name("Transition"@))
                    .field(FieldView::new("transitions"@, TypeView::list(TypeView::structure("Transition"@)
                            .field(FieldView::new("storage_class"@, TypeView::Enum(seq!["DEEP_ARCHIVE"@].push("GLACIER"@).push("Glacier"@).push("GLACIER_IR"@).push("INTELLIGENT_TIERING"@).push("ONEZONE_IA"@).push("STANDARD_IA"@)))
                                .required()
                                .with_description("The storage class to which you want the object to transition."@)
                                .with_provider_name("StorageClass"@))
                            .field(FieldView::new("transition_date"@, TypeView::String)
                                .with_description("Indicates when objects are transitioned to the specified storage class. The date value must be in ISO 8601 format. The time is always midnight UTC."@)
                                .with_provider_name("TransitionDate"@))
                            .field(FieldView::new("transition_in_days"@, TypeView::Int)
                                .with_description("Indicates the number of days after creation when objects are transitioned to the specified storage class. If the specified storage class is ``INTELLIG..."@)
                                .with_provider_name("TransitionInDays"@))))
                        .with_description("One or more transition rules that specify when an object transitions to a specified storage class. If you specify an expiration and transition time, y..."@)
                        .with_provider_name("Transitions"@)
                        .with_block_name("transition"@))))
                .required()
                .with_description("A lifecycle rule for individual objects in an Amazon S3 bucket."@)
                .with_provider_name("Rules"@)
                .with_block_name("rule"@))
            .field(FieldView::new("transition_default_minimum_object_size"@, TypeView::Enum(seq!["varies_by_storage_class"@].push("all_storage_classes_128K"@)))
                .with_description("Indicates which default minimum object size behavior is applied to the lifecycle configuration.  This parameter applies to general purpose buckets onl..."@)
                .with_provider_name("TransitionDefaultMinimumObjectSize"@)))
        .with_description("Specifies the lifecycle configuration for objects in an Amazon S3 bucket. For more information, see [Object Lifecycle Management](https://docs.aws.ama..."@)
        .with_provider_name("LifecycleConfiguration"@)
}

fn lifecycle_configuration_attribute() -> (r: AttributeSchema)
    ensures
        r@ == lifecycle_configuration_view(),
{
    AttributeSchema::new("lifecycle_configuration", AttributeType::structure("LifecycleConfiguration")
            .field(StructField::new("rules", AttributeType::list(AttributeType::structure("Rule")
                    .field(StructField::new("abort_incomplete_multipart_upload", AttributeType::structure("AbortIncompleteMultipartUpload")
                            .field(StructField::new("days_after_initiation", AttributeType::Int)
                                .required()
                                .with_description("Specifies the number of days after which Amazon S3 stops an incomplete multipart upload.")
                                .with_provider_name("DaysAfterInitiation")))
                        .with_description("Specifies a lifecycle rule that stops incomplete multipart uploads to an Amazon S3 bucket.")
                        .with_provider_name("AbortIncompleteMultipartUpload"))
                    .field(StructField::new("expiration_date", AttributeType::String)
                        .with_description("Indicates when objects are deleted from Amazon S3 and Amazon S3 Glacier. The date value must be in ISO 8601 format. The time is always midnight UTC. I...")
                        .with_provider_name("ExpirationDate"))
                    .field(StructField::new("expiration_in_days", AttributeType::Int)
                        .with_description("Indicates the number of days after creation when objects are deleted from Amazon S3 and Amazon S3 Glacier. If you specify an expiration and transition...")
                        .with_provider_name("ExpirationInDays"))
                    .field(StructField::new("expired_object_delete_marker", AttributeType::Bool)
                        .with_description("Indicates whether Amazon S3 will remove a delete marker without any noncurrent versions. If set to true, the delete marker will be removed if there ar...")
                        .with_provider_name("ExpiredObjectDeleteMarker"))
                    .field(StructField::new("id", AttributeType::String)
                        .with_description("Unique identifier for the rule. The value can't be longer than 255 characters.")
                        .with_provider_name("Id"))
                    .field(StructField::new("noncurrent_version_expiration", AttributeType::structure("NoncurrentVersionExpiration")
                            .field(StructField::new("newer_noncurrent_versions", AttributeType::Int)
                                .with_description("Specifies how many noncurrent versions S3 will retain. If there are this many more recent noncurrent versions, S3 will take the associated action. For...")
                                .with_provider_name("NewerNoncurrentVersions"))
                            .field(StructField::new("noncurrent_days", AttributeType::Int)
                                .required()
                                .with_description("Specifies the number of days an object is noncurrent before S3 can perform the associated action. For information about the noncurrent days calculatio...")
                                .with_provider_name("NoncurrentDays")))
                        .with_description("Specifies when noncurrent object versions expire. Upon expiration, S3 permanently deletes the noncurrent object versions. You set this lifecycle confi...")
                        .with_provider_name("NoncurrentVersionExpiration"))
                    .field(StructField::new("noncurrent_version_expiration_in_days", AttributeType::Int)
                        .with_description("(Deprecated.) For buckets with versioning enabled (or suspended), specifies the time, in days, between when a new version of the object is uploaded to...")
                        .with_provider_name("NoncurrentVersionExpirationInDays"))
                    .field(StructField::new("noncurrent_version_transition", AttributeType::structure("NoncurrentVersionTransition")
                            .field(StructField::new("newer_noncurrent_versions", AttributeType::Int)
                                .with_description("Specifies how many noncurrent versions S3 will retain. If there are this many more recent noncurrent versions, S3 will take the associated action. For...")
                                .with_provider_name("NewerNoncurrentVersions"))
                            .field(StructField::new("storage_class", AttributeType::one_of(Words::of("DEEP_ARCHIVE").and("GLACIER").and("Glacier").and("GLACIER_IR").and("INTELLIGENT_TIERING").and("ONEZONE_IA").and("STANDARD_IA")))
                                .required()
                                .with_description("The class of storage used to store the object.")
                                .with_provider_name("StorageClass"))
                            .field(StructField::new("transition_in_days", AttributeType::Int)
                                .required()
                                .with_description("Specifies the number of days an object is noncurrent before Amazon S3 can perform the associated action. For information about the noncurrent days cal...")
                                .with_provider_name("TransitionInDays")))
                        .with_description("(Deprecated.) For buckets with versioning enabled (or suspended), specifies when non-current objects transition to a specified storage class. If you s...")
                        .with_provider_name("NoncurrentVersionTransition"))
                    .field(StructField::new("noncurrent_version_transitions", AttributeType::list(AttributeType::structure("NoncurrentVersionTransition")
                            .field(StructField::new("newer_noncurrent_versions", AttributeType::Int)
                                .with_description("Specifies how many noncurrent versions S3 will retain. If there are this many more recent noncurrent versions, S3 will take the associated action. For...")
                                .with_provider_name("NewerNoncurrentVersions"))
                            .field(StructField::new("storage_class", AttributeType::one_of(Words::of("DEEP_ARCHIVE").and("GLACIER").and("Glacier").and("GLACIER_IR").and("INTELLIGENT_TIERING").and("ONEZONE_IA").and("STANDARD_IA")))
                                .required()
                                .with_description("The class of storage used to store the object.")
                                .with_provider_name("StorageClass"))
                            .field(StructField::new("transition_in_days", AttributeType::Int)
                                .required()
                                .with_description("Specifies the number of days an object is noncurrent before Amazon S3 can perform the associated action. For information about the noncurrent days cal...")
                                .with_provider_name("TransitionInDays"))))
                        .with_description("For buckets with versioning enabled (or suspended), one or more transition rules that specify when non-current objects transition to a specified stora...")
                        .with_provider_name("NoncurrentVersionTransitions")
                        .with_block_name("noncurrent_version_transition"))
                    .field(StructField::new("object_size_greater_than", AttributeType::String)
                        .with_description("Specifies the minimum object size in bytes for this rule to apply to. Objects must be larger than this value in bytes. For more information about size...")
                        .with_provider_name("ObjectSizeGreaterThan"))
                    .field(StructField::new("object_size_less_than", AttributeType::String)
                        .with_description("Specifies the maximum object size in bytes for this rule to apply to. Objects must be smaller than this value in bytes. For more information about siz...")
                        .with_provider_name("ObjectSizeLessThan"))
                    .field(StructField::new("prefix", AttributeType::String)
                        .with_description("Object key prefix that identifies one or more objects to which this rule applies.  Replacement must be made for object keys containing special charact...")
                        .with_provider_name("Prefix"))
                    .field(StructField::new("status", AttributeType::one_of(Words::of("Enabled").and("Disabled")))
                        .required()
                        .with_description("If ``Enabled``, the rule is currently being applied. If ``Disabled``, the rule is not currently being applied.")
                        .with_provider_name("Status"))
                    .field(StructField::new("tag_filters", AttributeType::list(types::tags_type()))
                        .with_description("Tags to use to identify a subset of objects to which the lifecycle rule applies.")
                        .with_provider_name("TagFilters"))
                    .field(StructField::new("transition", AttributeType::structure("Transition")
                            .field(StructField::new("storage_class", AttributeType::one_of(Words::of("DEEP_ARCHIVE").and("GLACIER").and("Glacier").and("GLACIER_IR").and("INTELLIGENT_TIERING").and("ONEZONE_IA").and("STANDARD_IA")))
                                .required()
                                .with_description("The storage class to which you want the object to transition.")
                                .with_provider_name("StorageClass"))
                            .field(StructField::new("transition_date", AttributeType::String)
                                .with_description("Indicates when objects are transitioned to the specified storage class. The date value must be in ISO 8601 format. The time is always midnight UTC.")
                                .with_provider_name("TransitionDate"))
                            .field(StructField::new("transition_in_days", AttributeType::Int)
                                .with_description("Indicates the number of days after creation when objects are transitioned to the specified storage class. If the specified storage class is ``INTELLIG...")
                                .with_provider_name("TransitionInDays")))
                        .with_description("(Deprecated.) Specifies when an object transitions to a specified storage class. If you specify an expiration and transition time, you must use the sa...")
                        .with_provider_name("Transition"))
                    .field(StructField::new("transitions", AttributeType::list(AttributeType::structure("Transition")
                            .field(StructField::new("storage_class", AttributeType::one_of(Words::of("DEEP_ARCHIVE").and("GLACIER").and("Glacier").and("GLACIER_IR").and("INTELLIGENT_TIERING").and("ONEZONE_IA").and("STANDARD_IA")))
                                .required()
                                .with_description("The storage class to which you want the object to transition.")
                                .with_provider_name("StorageClass"))
                            .field(StructField::new("transition_date", AttributeType::String)
                                .with_description("Indicates when objects are transitioned to the specified storage class. The date value must be in ISO 8601 format. The time is always midnight UTC.")
                                .with_provider_name("TransitionDate"))
                            .field(StructField::new("transition_in_days", AttributeType::Int)
                                .with_description("Indicates the number of days after creation when objects are transitioned to the specified storage class. If the specified storage class is ``INTELLIG...")
                                .with_provider_name("TransitionInDays"))))
                        .with_description("One or more transition rules that specify when an object transitions to a specified storage class. If you specify an expiration and transition time, y...")
                        .with_provider_name("Transitions")
                        .with_block_name("transition"))))
                .required()
                .with_description("A lifecycle rule for individual objects in an Amazon S3 bucket.")
                .with_provider_name("Rules")
                .with_block_name("rule"))
            .field(StructField::new("transition_default_minimum_object_size", AttributeType::one_of(Words::of("varies_by_storage_class").and("all_storage_classes_128K")))
                .with_description("Indicates which default minimum object size behavior is applied to the lifecycle configuration.  This parameter applies to general purpose buckets onl...")
                .with_provider_name("TransitionDefaultMinimumObjectSize")))
        .with_description("Specifies the lifecycle configuration for objects in an Amazon S3 bucket. For more information, see [Object Lifecycle Management](https://docs.aws.ama...")
        .with_provider_name("LifecycleConfiguration")
}

pub open spec fn metadata_configuration_view() -> AttrView {
    AttrView::new("metadata_configuration"@, TypeView::structure("MetadataConfiguration"@)
            .field(FieldView::new("destination"@, TypeView::structure("MetadataDestination"@)
                    .field(FieldView::new("table_bucket_arn"@, TypeView::format("Arn"@))
                        .with_description("The Amazon Resource Name (ARN) of the table bucket where the metadata configuration is stored."@)
                        .with_provider_name("TableBucketArn"@))
                    .field(FieldView::new("table_bucket_type"@, TypeView::Enum(seq!["aws"@].push("customer"@)))
                        .required()
                        .with_description("The type of the table bucket where the metadata configuration is stored. The ``aws`` value indicates an AWS managed table bucket, and the ``customer``..."@)
                        .with_provider_name("TableBucketType"@))
                    .field(FieldView::new("table_namespace"@, TypeView::String)
                        .with_description("The namespace in the table bucket where the metadata tables for a metadata configuration are stored."@)
                        .with_provider_name("TableNamespace"@)))
                .with_description("The destination information for the S3 Metadata configuration."@)
                .with_provider_name("Destination"@))
            .field(FieldView::new("inventory_table_configuration"@, TypeView::structure("InventoryTableConfiguration"@)
                    .field(FieldView::new("configuration_state"@, TypeView::Enum(seq!["ENABLED"@].push("DISABLED"@)))
                        .required()
                        .with_description("The configuration state of the inventory table, indicating whether the inventory table is enabled or disabled."@)
                        .with_provider_name("ConfigurationState"@))
                    .field(FieldView::new("encryption_configuration"@, TypeView::structure("MetadataTableEncryptionConfiguration"@)
                            .field(FieldView::new("kms_key_arn"@, TypeView::format("KmsKeyArn"@))
                                .with_description("If server-side encryption with KMSlong (KMS) keys (SSE-KMS) is specified, you must also specify the KMS key Amazon Resource Name (ARN). You must speci..."@)
                                .with_provider_name("KmsKeyArn"@))
                            .field(FieldView::new("sse_algorithm"@, TypeView::Enum(seq!["aws:kms"@].push("AES256"@)))
                                .required()
                                .with_description("The encryption type specified for a metadata table. To specify server-side encryption with KMSlong (KMS) keys (SSE-KMS), use the ``aws:kms`` value. To..."@)
                                .with_provider_name("SseAlgorithm"@)))
                        .with_description("The encryption configuration for the inventory table."@)
                        .with_provider_name("EncryptionConfiguration"@))
                    .field(FieldView::new("table_arn"@, TypeView::format("Arn"@))
                        .with_description("The Amazon Resource Name (ARN) for the inventory table."@)
                        .with_provider_name("TableArn"@))
                    .field(FieldView::new("table_name"@, TypeView::String)
                        .with_description("The name of the inventory table."@)
                        .with_provider_name("TableName"@)))
                .with_description("The inventory table configuration for a metadata configuration."@)
                .with_provider_name("InventoryTableConfiguration"@))
            .field(FieldView::new("journal_table_configuration"@, TypeView::structure("JournalTableConfiguration"@)
                    .field(FieldView::new("encryption_configuration"@, TypeView::structure("MetadataTableEncryptionConfiguration"@)
                            .field(FieldView::new("kms_key_arn"@, TypeView::format("KmsKeyArn"@))
                                .with_description("If server-side encryption with KMSlong (KMS) keys (SSE-KMS) is specified, you must also specify the KMS key Amazon Resource Name (ARN). You must speci..."@)
                                .with_provider_name("KmsKeyArn"@))
                            .field(FieldView::new("sse_algorithm"@, TypeView::Enum(seq!["aws:kms"@].push("AES256"@)))
                                .required()
                                .with_description("The encryption type specified for a metadata table. To specify server-side encryption with KMSlong (KMS) keys (SSE-KMS), use the ``aws:kms`` value. To..."@)
                                .with_provider_name("SseAlgorithm"@)))
                        .with_description("The encryption configuration for the journal table."@)
                        .with_provider_name("EncryptionConfiguration"@))
                    .field(FieldView::new("record_expiration"@, TypeView::structure("RecordExpiration"@)
                            .field(FieldView::new("days"@, TypeView::Int)
                                .with_description("If you enable journal table record expiration, you can set the number of days to retain your journal table records. Journal table records must be reta..."@)
                                .with_provider_name("Days"@))
                            .field(FieldView::new("expiration"@, TypeView::Enum(seq!["ENABLED"@].push("DISABLED"@)))
                                .required()
                                .with_description("Specifies whether journal table record expiration is enabled or disabled."@)
                                .with_provider_name("Expiration"@)))
                        .required()
                        .with_description("The journal table record expiration settings for the journal table."@)
                        .with_provider_name("RecordExpiration"@))
                    .field(FieldView::new("table_arn"@, TypeView::format("Arn"@))
                        .with_description("The Amazon Resource Name (ARN) for the journal table."@)
                        .with_provider_name("TableArn"@))
                    .field(FieldView::new("table_name"@, TypeView::String)
                        .with_description("The name of the journal table."@)
                        .with_provider_name("TableName"@)))
                .required()
                .with_description("The journal table configuration for a metadata configuration."@)
                .with_provider_name("JournalTableConfiguration"@)))
        .with_description("The S3 Metadata configuration for a general purpose bucket."@)
        .with_provider_name("MetadataConfiguration"@)
}

fn metadata_configuration_attribute() -> (r: AttributeSchema)
    ensures
        r@ == metadata_configuration_view(),
{
    AttributeSchema::new("metadata_configuration", AttributeType::structure("MetadataConfiguration")
            .field(StructField::new("destination", AttributeType::structure("MetadataDestination")
                    .field(StructField::new("table_bucket_arn", AttributeType::format("Arn"))
                        .with_description("The Amazon Resource Name (ARN) of the table bucket where the metadata configuration is stored.")
                        .with_provider_name("TableBucketArn"))
                    .field(StructField::new("table_bucket_type", AttributeType::one_of(Words::of("aws").and("customer")))
                        .required()
                        .with_description("The type of the table bucket where the metadata configuration is stored. The ``aws`` value indicates an AWS managed table bucket, and the ``customer``...")
                        .with_provider_name("TableBucketType"))
                    .field(StructField::new("table_namespace", AttributeType::String)
                        .with_description("The namespace in the table bucket where the metadata tables for a metadata configuration are stored.")
                        .with_provider_name("TableNamespace")))
                .with_description("The destination information for the S3 Metadata configuration.")
                .with_provider_name("Destination"))
            .field(StructField::new("inventory_table_configuration", AttributeType::structure("InventoryTableConfiguration")
                    .field(StructField::new("configuration_state", AttributeType::one_of(Words::of("ENABLED").and("DISABLED")))
                        .required()
                        .with_description("The configuration state of the inventory table, indicating whether the inventory table is enabled or disabled.")
                        .with_provider_name("ConfigurationState"))
                    .field(StructField::new("encryption_configuration", AttributeType::structure("MetadataTableEncryptionConfiguration")
                            .field(StructField::new("kms_key_arn", AttributeType::format("KmsKeyArn"))
                                .with_description("If server-side encryption with KMSlong (KMS) keys (SSE-KMS) is specified, you must also specify the KMS key Amazon Resource Name (ARN). You must speci...")
                                .with_provider_name("KmsKeyArn"))
                            .field(StructField::new("sse_algorithm", AttributeType::one_of(Words::of("aws:kms").and("AES256")))
                                .required()
                                .with_description("The encryption type specified for a metadata table. To specify server-side encryption with KMSlong (KMS) keys (SSE-KMS), use the ``aws:kms`` value. To...")
                                .with_provider_name("SseAlgorithm")))
                        .with_description("The encryption configuration for the inventory table.")
                        .with_provider_name("EncryptionConfiguration"))
                    .field(StructField::new("table_arn", AttributeType::format("Arn"))
                        .with_description("The Amazon Resource Name (ARN) for the inventory table.")
                        .with_provider_name("TableArn"))
                    .field(StructField::new("table_name", AttributeType::String)
                        .with_description("The name of the inventory table.")
                        .with_provider_name("TableName")))
                .with_description("The inventory table configuration for a metadata configuration.")
                .with_provider_name("InventoryTableConfiguration"))
            .field(StructField::new("journal_table_configuration", AttributeType::structure("JournalTableConfiguration")
                    .field(StructField::new("encryption_configuration", AttributeType::structure("MetadataTableEncryptionConfiguration")
                            .field(StructField::new("kms_key_arn", AttributeType::format("KmsKeyArn"))
                                .with_description("If server-side encryption with KMSlong (KMS) keys (SSE-KMS) is specified, you must also specify the KMS key Amazon Resource Name (ARN). You must speci...")
                                .with_provider_name("KmsKeyArn"))
                            .field(StructField::new("sse_algorithm", AttributeType::one_of(Words::of("aws:kms").and("AES256")))
                                .required()
                                .with_description("The encryption type specified for a metadata table. To specify server-side encryption with KMSlong (KMS) keys (SSE-KMS), use the ``aws:kms`` value. To...")
                                .with_provider_name("SseAlgorithm")))
                        .with_description("The encryption configuration for the journal table.")
                        .with_provider_name("EncryptionConfiguration"))
                    .field(StructField::new("record_expiration", AttributeType::structure("RecordExpiration")
                            .field(StructField::new("days", AttributeType::Int)
                                .with_description("If you enable journal table record expiration, you can set the number of days to retain your journal table records. Journal table records must be reta...")
                                .with_provider_name("Days"))
                            .field(StructField::new("expiration", AttributeType::one_of(Words::of("ENABLED").and("DISABLED")))
                                .required()
                                .with_description("Specifies whether journal table record expiration is enabled or disabled.")
                                .with_provider_name("Expiration")))
                        .required()
                        .with_description("The journal table record expiration settings for the journal table.")
                        .with_provider_name("RecordExpiration"))
                    .field(StructField::new("table_arn", AttributeType::format("Arn"))
                        .with_description("The Amazon Resource Name (ARN) for the journal table.")
                        .with_provider_name("TableArn"))
                    .field(StructField::new("table_name", AttributeType::String)
                        .with_description("The name of the journal table.")
                        .with_provider_name("TableName")))
                .required()
                .with_description("The journal table configuration for a metadata configuration.")
                .with_provider_name("JournalTableConfiguration")))
        .with_description("The S3 Metadata configuration for a general purpose bucket.")
        .with_provider_name("MetadataConfiguration")
}

pub open spec fn metadata_table_configuration_view() -> AttrView {
    AttrView::new("metadata_table_configuration"@, TypeView::structure("MetadataTableConfiguration"@)
            .field(FieldView::new("s3_tables_destination"@, TypeView::structure("S3TablesDestination"@)
                    .field(FieldView::new("table_arn"@, TypeView::format("Arn"@))
                        .with_description("The Amazon Resource Name (ARN) for the metadata table in the metadata table configuration. The specified metadata table name must be unique within the..."@)
                        .with_provider_name("TableArn"@))
                    .field(FieldView::new("table_bucket_arn"@, TypeView::format("Arn"@))
                        .required()
                        .with_description("The Amazon Resource Name (ARN) for the table bucket that's specified as the destination in the metadata table configuration. The destination table buc..."@)
                        .with_provider_name("TableBucketArn"@))
                    .field(FieldView::new("table_name"@, TypeView::String)
                        .required()
                        .with_description("The name for the metadata table in your metadata table configuration. The specified metadata table name must be unique within the ``aws_s3_metadata`` ..."@)
                        .with_provider_name("TableName"@))
                    .field(FieldView::new("table_namespace"@, TypeView::String)
                        .with_description("The table bucket namespace for the metadata table in your metadata table configuration. This value is always ``aws_s3_metadata``."@)
                        .with_provider_name("TableNamespace"@)))
                .required()
                .with_description("The destination information for the metadata table configuration. The destination table bucket must be in the same Region and AWS-account as the gener..."@)
                .with_provider_name("S3TablesDestination"@)))
        .with_description("The metadata table configuration of an S3 general purpose bucket."@)
        .with_provider_name("MetadataTableConfiguration"@)
}

fn metadata_table_configuration_attribute() -> (r: AttributeSchema)
    ensures
        r@ == metadata_table_configuration_view(),
{
    AttributeSchema::new("metadata_table_configuration", AttributeType::structure("MetadataTableConfiguration")
            .field(StructField::new("s3_tables_destination", AttributeType::structure("S3TablesDestination")
                    .field(StructField::new("table_arn", AttributeType::format("Arn"))
                        .with_description("The Amazon Resource Name (ARN) for the metadata table in the metadata table configuration. The specified metadata table name must be unique within the...")
                        .with_provider_name("TableArn"))
                    .field(StructField::new("table_bucket_arn", AttributeType::format("Arn"))
                        .required()
                        .with_description("The Amazon Resource Name (ARN) for the table bucket that's specified as the destination in the metadata table configuration. The destination table buc...")
                        .with_provider_name("TableBucketArn"))
                    .field(StructField::new("table_name", AttributeType::String)
                        .required()
                        .with_description("The name for the metadata table in your metadata table configuration. The specified metadata table name must be unique within the ``aws_s3_metadata`` ...")
                        .with_provider_name("TableName"))
                    .field(StructField::new("table_namespace", AttributeType::String)
                        .with_description("The table bucket namespace for the metadata table in your metadata table configuration. This value is always ``aws_s3_metadata``.")
                        .with_provider_name("TableNamespace")))
                .required()
                .with_description("The destination information for the metadata table configuration. The destination table bucket must be in the same Region and AWS-account as the gener...")
                .with_provider_name("S3TablesDestination")))
        .with_description("The metadata table configuration of an S3 general purpose bucket.")
        .with_provider_name("MetadataTableConfiguration")
}

pub open spec fn metrics_configurations_view() -> AttrView {
    AttrView::new("metrics_configurations"@, TypeView::list(TypeView::structure("MetricsConfiguration"@)
            .field(FieldView::new("access_point_arn"@, TypeView::format("Arn"@))
                .with_description("The access point that was used while performing operations on the object. The metrics configuration only includes objects that meet the filter's crite..."@)
                .with_provider_name("AccessPointArn"@))
            .field(FieldView::new("id"@, TypeView::String)
                .required()
                .with_description("The ID used to identify the metrics configuration. This can be any value you choose that helps you identify your metrics configuration."@)
                .with_provider_name("Id"@))
            .field(FieldView::new("prefix"@, TypeView::String)
                .with_description("The prefix that an object must have to be included in the metrics results."@)
                .with_provider_name("Prefix"@))
            .field(FieldView::new("tag_filters"@, TypeView::list(types::tags_view()))
                .with_description("Specifies a list of tag filters to use as a metrics configuration filter. The metrics configuration includes only objects that meet the filter's crite..."@)
                .with_provider_name("TagFilters"@))))
        .with_description("Specifies a metrics configuration for the CloudWatch request metrics (specified by the metrics configuration ID) from an Amazon S3 bucket. If you're u..."@)
        .with_provider_name("MetricsConfigurations"@)
        .with_block_name("metrics_configuration"@)
}

fn metrics_configurations_attribute() -> (r: AttributeSchema)
    ensures
        r@ == metrics_configurations_view(),
{
    AttributeSchema::new("metrics_configurations", AttributeType::list(AttributeType::structure("MetricsConfiguration")
            .field(StructField::new("access_point_arn", AttributeType::format("Arn"))
                .with_description("The access point that was used while performing operations on the object. The metrics configuration only includes objects that meet the filter's crite...")
                .with_provider_name("AccessPointArn"))
            .field(StructField::new("id", AttributeType::String)
                .required()
                .with_description("The ID used to identify the metrics configuration. This can be any value you choose that helps you identify your metrics configuration.")
                .with_provider_name("Id"))
            .field(StructField::new("prefix", AttributeType::String)
                .with_description("The prefix that an object must have to be included in the metrics results.")
                .with_provider_name("Prefix"))
            .field(StructField::new("tag_filters", AttributeType::list(types::tags_type()))
                .with_description("Specifies a list of tag filters to use as a metrics configuration filter. The metrics configuration includes only objects that meet the filter's crite...")
                .with_provider_name("TagFilters"))))
        .with_description("Specifies a metrics configuration for the CloudWatch request metrics (specified by the metrics configuration ID) from an Amazon S3 bucket. If you're u...")
        .with_provider_name("MetricsConfigurations")
        .with_block_name("metrics_configuration")
}

pub open spec fn notification_configuration_view() -> AttrView {
    AttrView::new("notification_configuration"@, TypeView::structure("NotificationConfiguration"@)
            .field(FieldView::new("event_bridge_configuration"@, TypeView::structure("EventBridgeConfiguration"@)
                    .field(FieldView::new("event_bridge_enabled"@, TypeView::Bool)
                        .required()
                        .with_description("Enables delivery of events to Amazon EventBridge."@)
                        .with_provider_name("EventBridgeEnabled"@)))
                .with_description("Enables delivery of events to Amazon EventBridge."@)
                .with_provider_name("EventBridgeConfiguration"@))
            .field(FieldView::new("lambda_configurations"@, TypeView::list(TypeView::structure("LambdaConfiguration"@)
                    .field(FieldView::new("event"@, TypeView::String)
                        .required()
                        .with_description("The Amazon S3 bucket event for which to invoke the LAMlong function. For more information, see [Supported Event Types](https://docs.aws.amazon.com/Ama..."@)
                        .with_provider_name("Event"@))
                    .field(FieldView::new("filter"@, TypeView::structure("NotificationFilter"@)
                            .field(FieldView::new("s3_key"@, TypeView::structure("S3KeyFilter"@)
                                    .field(FieldView::new("rules"@, TypeView::list(TypeView::structure("FilterRule"@)
                                            .field(FieldView::new("name"@, TypeView::String)
                                                .required()
                                                .with_description("The object key name prefix or suffix identifying one or more objects to which the filtering rule applies. The maximum length is 1,024 characters. Over..."@)
                                                .with_provider_name("Name"@))
                                            .field(FieldView::new("value"@, TypeView::String)
                                                .required()
                                                .with_description("The value that the filter searches for in object key names."@)
                                                .with_provider_name("Value"@))))
                                        .required()
                                        .with_description("A list of containers for the key-value pair that defines the criteria for the filter rule."@)
                                        .with_provider_name("Rules"@)
                                        .with_block_name("rule"@)))
                                .required()
                                .with_description("A container for object key name prefix and suffix filtering rules."@)
                                .with_provider_name("S3Key"@)))
                        .with_description("The filtering rules that determine which objects invoke the AWS Lambda function. For example, you can create a filter so that only image files with a ..."@)
                        .with_provider_name("Filter"@))
                    .field(FieldView::new("function"@, TypeView::String)
                        .required()
                        .with_description("The Amazon Resource Name (ARN) of the LAMlong function that Amazon S3 invokes when the specified event type occurs."@)
                        .with_provider_name("Function"@))))
                .with_description("Describes the LAMlong functions to invoke and the events for which to invoke them."@)
                .with_provider_name("LambdaConfigurations"@)
                .with_block_name("lambda_configuration"@))
            .field(FieldView::new("queue_configurations"@, TypeView::list(TypeView::structure("QueueConfiguration"@)
                    .field(FieldView::new("event"@, TypeView::String)
                        .required()
                        .with_description("The Amazon S3 bucket event about which you want to publish messages to Amazon SQS. For more information, see [Supported Event Types](https://docs.aws...."@)
                        .with_provider_name("Event"@))
                    .field(FieldView::new("filter"@, TypeView::structure("NotificationFilter"@)
                            .field(FieldView::new("s3_key"@, TypeView::structure("S3KeyFilter"@)
                                    .field(FieldView::new("rules"@, TypeView::list(TypeView::structure("FilterRule"@)
                                            .field(FieldView::new("name"@, TypeView::String)
                                                .required()
                                                .with_description("The object key name prefix or suffix identifying one or more objects to which the filtering rule applies. The maximum length is 1,024 characters. Over..."@)
                                                .with_provider_name("Name"@))
                                            .field(FieldView::new("value"@, TypeView::String)
                                                .required()
                                                .with_description("The value that the filter searches for in object key names."@)
                                                .with_provider_name("Value"@))))
                                        .required()
                                        .with_description("A list of containers for the key-value pair that defines the criteria for the filter rule."@)
                                        .with_provider_name("Rules"@)
                                        .with_block_name("rule"@)))
                                .required()
                                .with_description("A container for object key name prefix and suffix filtering rules."@)
                                .with_provider_name("S3Key"@)))
                        .with_description("The filtering rules that determine which objects trigger notifications. For example, you can create a filter so that Amazon S3 sends notifications onl..."@)
                        .with_provider_name("Filter"@))
                    .field(FieldView::new("queue"@, TypeView::String)
                        .required()
                        .with_description("The Amazon Resource Name (ARN) of the Amazon SQS queue to which Amazon S3 publishes a message when it detects events of the specified type. FIFO queue..."@)
                        .with_provider_name("Queue"@))))
                .with_description("The Amazon Simple Queue Service queues to publish messages to and the events for which to publish messages."@)
                .with_provider_name("QueueConfigurations"@)
                .with_block_name("queue_configuration"@))
            .field(FieldView::new("topic_configurations"@, TypeView::list(TypeView::structure("TopicConfiguration"@)
                    .field(FieldView::new("event"@, TypeView::String)
                        .required()
                        .with_description("The Amazon S3 bucket event about which to send notifications. For more information, see [Supported Event Types](https://docs.aws.amazon.com/AmazonS3/l..."@)
                        .with_provider_name("Event"@))
                    .field(FieldView::new("filter"@, TypeView::structure("NotificationFilter"@)
                            .field(FieldView::new("s3_key"@, TypeView::structure("S3KeyFilter"@)
                                    .field(FieldView::new("rules"@, TypeView::list(TypeView::structure("FilterRule"@)
                                            .field(FieldView::new("name"@, TypeView::String)
                                                .required()
                                                .with_description("The object key name prefix or suffix identifying one or more objects to which the filtering rule applies. The maximum length is 1,024 characters. Over..."@)
                                                .with_provider_name("Name"@))
                                            .field(FieldView::new("value"@, TypeView::String)
                                                .required()
                                                .with_description("The value that the filter searches for in object key names."@)
                                                .with_provider_name("Value"@))))
                                        .required()
                                        .with_description("A list of containers for the key-value pair that defines the criteria for the filter rule."@)
                                        .with_provider_name("Rules"@)
                                        .with_block_name("rule"@)))
                                .required()
                                .with_description("A container for object key name prefix and suffix filtering rules."@)
                                .with_provider_name("S3Key"@)))
                        .with_description("The filtering rules that determine for which objects to send notifications. For example, you can create a filter so that Amazon S3 sends notifications..."@)
                        .with_provider_name("Filter"@))
                    .field(FieldView::new("topic"@, TypeView::String)
                        .required()
                        .with_description("The Amazon Resource Name (ARN) of the Amazon SNS topic to which Amazon S3 publishes a message when it detects events of the specified type."@)
                        .with_provider_name("Topic"@))))
                .with_description("The topic to which notifications are sent and the events for which notifications are generated."@)
                .with_provider_name("TopicConfigurations"@)
                .with_block_name("topic_configuration"@)))
        .with_description("Configuration that defines how Amazon S3 handles bucket notifications."@)
        .with_provider_name("NotificationConfiguration"@)
}

fn notification_configuration_attribute() -> (r: AttributeSchema)
    ensures
        r@ == notification_configuration_view(),
{
    AttributeSchema::new("notification_configuration", AttributeType::structure("NotificationConfiguration")
            .field(StructField::new("event_bridge_configuration", AttributeType::structure("EventBridgeConfiguration")
                    .field(StructField::new("event_bridge_enabled", AttributeType::Bool)
                        .required()
                        .with_description("Enables delivery of events to Amazon EventBridge.")
                        .with_provider_name("EventBridgeEnabled")))
                .with_description("Enables delivery of events to Amazon EventBridge.")
                .with_provider_name("EventBridgeConfiguration"))
            .field(StructField::new("lambda_configurations", AttributeType::list(AttributeType::structure("LambdaConfiguration")
                    .field(StructField::new("event", AttributeType::String)
                        .required()
                        .with_description("The Amazon S3 bucket event for which to invoke the LAMlong function. For more information, see [Supported Event Types](https://docs.aws.amazon.com/Ama...")
                        .with_provider_name("Event"))
                    .field(StructField::new("filter", AttributeType::structure("NotificationFilter")
                            .field(StructField::new("s3_key", AttributeType::structure("S3KeyFilter")
                                    .field(StructField::new("rules", AttributeType::list(AttributeType::structure("FilterRule")
                                            .field(StructField::new("name", AttributeType::String)
                                                .required()
                                                .with_description("The object key name prefix or suffix identifying one or more objects to which the filtering rule applies. The maximum length is 1,024 characters. Over...")
                                                .with_provider_name("Name"))
                                            .field(StructField::new("value", AttributeType::String)
                                                .required()
                                                .with_description("The value that the filter searches for in object key names.")
                                                .with_provider_name("Value"))))
                                        .required()
                                        .with_description("A list of containers for the key-value pair that defines the criteria for the filter rule.")
                                        .with_provider_name("Rules")
                                        .with_block_name("rule")))
                                .required()
                                .with_description("A container for object key name prefix and suffix filtering rules.")
                                .with_provider_name("S3Key")))
                        .with_description("The filtering rules that determine which objects invoke the AWS Lambda function. For example, you can create a filter so that only image files with a ...")
                        .with_provider_name("Filter"))
                    .field(StructField::new("function", AttributeType::String)
                        .required()
                        .with_description("The Amazon Resource Name (ARN) of the LAMlong function that Amazon S3 invokes when the specified event type occurs.")
                        .with_provider_name("Function"))))
                .with_description("Describes the LAMlong functions to invoke and the events for which to invoke them.")
                .with_provider_name("LambdaConfigurations")
                .with_block_name("lambda_configuration"))
            .field(StructField::new("queue_configurations", AttributeType::list(AttributeType::structure("QueueConfiguration")
                    .field(StructField::new("event", AttributeType::String)
                        .required()
                        .with_description("The Amazon S3 bucket event about which you want to publish messages to Amazon SQS. For more information, see [Supported Event Types](https://docs.aws....")
                        .with_provider_name("Event"))
                    .field(StructField::new("filter", AttributeType::structure("NotificationFilter")
                            .field(StructField::new("s3_key", AttributeType::structure("S3KeyFilter")
                                    .field(StructField::new("rules", AttributeType::list(AttributeType::structure("FilterRule")
                                            .field(StructField::new("name", AttributeType::String)
                                                .required()
                                                .with_description("The object key name prefix or suffix identifying one or more objects to which the filtering rule applies. The maximum length is 1,024 characters. Over...")
                                                .with_provider_name("Name"))
                                            .field(StructField::new("value", AttributeType::String)
                                                .required()
                                                .with_description("The value that the filter searches for in object key names.")
                                                .with_provider_name("Value"))))
                                        .required()
                                        .with_description("A list of containers for the key-value pair that defines the criteria for the filter rule.")
                                        .with_provider_name("Rules")
                                        .with_block_name("rule")))
                                .required()
                                .with_description("A container for object key name prefix and suffix filtering rules.")
                                .with_provider_name("S3Key")))
                        .with_description("The filtering rules that determine which objects trigger notifications. For example, you can create a filter so that Amazon S3 sends notifications onl...")
                        .with_provider_name("Filter"))
                    .field(StructField::new("queue", AttributeType::String)
                        .required()
                        .with_description("The Amazon Resource Name (ARN) of the Amazon SQS queue to which Amazon S3 publishes a message when it detects events of the specified type. FIFO queue...")
                        .with_provider_name("Queue"))))
                .with_description("The Amazon Simple Queue Service queues to publish messages to and the events for which to publish messages.")
                .with_provider_name("QueueConfigurations")
                .with_block_name("queue_configuration"))
            .field(StructField::new("topic_configurations", AttributeType::list(AttributeType::structure("TopicConfiguration")
                    .field(StructField::new("event", AttributeType::String)
                        .required()
                        .with_description("The Amazon S3 bucket event about which to send notifications. For more information, see [Supported Event Types](https://docs.aws.amazon.com/AmazonS3/l...")
                        .with_provider_name("Event"))
                    .field(StructField::new("filter", AttributeType::structure("NotificationFilter")
                            .field(StructField::new("s3_key", AttributeType::structure("S3KeyFilter")
                                    .field(StructField::new("rules", AttributeType::list(AttributeType::structure("FilterRule")
                                            .field(StructField::new("name", AttributeType::String)
                                                .required()
                                                .with_description("The object key name prefix or suffix identifying one or more objects to which the filtering rule applies. The maximum length is 1,024 characters. Over...")
                                                .with_provider_name("Name"))
                                            .field(StructField::new("value", AttributeType::String)
                                                .required()
                                                .with_description("The value that the filter searches for in object key names.")
                                                .with_provider_name("Value"))))
                                        .required()
                                        .with_description("A list of containers for the key-value pair that defines the criteria for the filter rule.")
                                        .with_provider_name("Rules")
                                        .with_block_name("rule")))
                                .required()
                                .with_description("A container for object key name prefix and suffix filtering rules.")
                                .with_provider_name("S3Key")))
                        .with_description("The filtering rules that determine for which objects to send notifications. For example, you can create a filter so that Amazon S3 sends notifications...")
                        .with_provider_name("Filter"))
                    .field(StructField::new("topic", AttributeType::String)
                        .required()
                        .with_description("The Amazon Resource Name (ARN) of the Amazon SNS topic to which Amazon S3 publishes a message when it detects events of the specified type.")
                        .with_provider_name("Topic"))))
                .with_description("The topic to which notifications are sent and the events for which notifications are generated.")
                .with_provider_name("TopicConfigurations")
                .with_block_name("topic_configuration")))
        .with_description("Configuration that defines how Amazon S3 handles bucket notifications.")
        .with_provider_name("NotificationConfiguration")
}

pub open spec fn object_lock_configuration_view() -> AttrView {
    AttrView::new("object_lock_configuration"@, TypeView::structure("ObjectLockConfiguration"@)
            .field(FieldView::new("object_lock_enabled"@, TypeView::String)
                .with_description("Indicates whether this bucket has an Object Lock configuration enabled. Enable ``ObjectLockEnabled`` when you apply ``ObjectLockConfiguration`` to a b..."@)
                .with_provider_name("ObjectLockEnabled"@))
            .field(FieldView::new("rule"@, TypeView::structure("ObjectLockRule"@)
                    .field(FieldView::new("default_retention"@, TypeView::structure("DefaultRetention"@)
                            .field(FieldView::new("days"@, TypeView::Int)
                                .with_description("The number of days that you want to specify for the default retention period. If Object Lock is turned on, you must specify ``Mode`` and specify eithe..."@)
                                .with_provider_name("Days"@))
                            .field(FieldView::new("mode"@, TypeView::Enum(seq!["COMPLIANCE"@].push("GOVERNANCE"@)))
                                .with_description("The default Object Lock retention mode you want to apply to new objects placed in the specified bucket. If Object Lock is turned on, you must specify ..."@)
                                .with_provider_name("Mode"@))
                            .field(FieldView::new("years"@, TypeView::Int)
                                .with_description("The number of years that you want to specify for the default retention period. If Object Lock is turned on, you must specify ``Mode`` and specify eith..."@)
                                .with_provider_name("Years"@)))
                        .with_description("The default Object Lock retention mode and period that you want to apply to new objects placed in the specified bucket. If Object Lock is turned on, b..."@)
                        .with_provider_name("DefaultRetention"@)))
                .with_description("Specifies the Object Lock rule for the specified object. Enable this rule when you apply ``ObjectLockConfiguration`` to a bucket. If Object Lock is tu..."@)
                .with_provider_name("Rule"@)))
        .with_description("This operation is not supported for directory buckets.  Places an Object Lock configuration on the specified bucket. The rule specified in the Object ..."@)
        .with_provider_name("ObjectLockConfiguration"@)
}

fn object_lock_configuration_attribute() -> (r: AttributeSchema)
    ensures
        r@ == object_lock_configuration_view(),
{
    AttributeSchema::new("object_lock_configuration", AttributeType::structure("ObjectLockConfiguration")
            .field(StructField::new("object_lock_enabled", AttributeType::String)
                .with_description("Indicates whether this bucket has an Object Lock configuration enabled. Enable ``ObjectLockEnabled`` when you apply ``ObjectLockConfiguration`` to a b...")
                .with_provider_name("ObjectLockEnabled"))
            .field(StructField::new("rule", AttributeType::structure("ObjectLockRule")
                    .field(StructField::new("default_retention", AttributeType::structure("DefaultRetention")
                            .field(StructField::new("days", AttributeType::Int)
                                .with_description("The number of days that you want to specify for the default retention period. If Object Lock is turned on, you must specify ``Mode`` and specify eithe...")
                                .with_provider_name("Days"))
                            .field(StructField::new("mode", AttributeType::one_of(Words::of("COMPLIANCE").and("GOVERNANCE")))
                                .with_description("The default Object Lock retention mode you want to apply to new objects placed in the specified bucket. If Object Lock is turned on, you must specify ...")
                                .with_provider_name("Mode"))
                            .field(StructField::new("years", AttributeType::Int)
                                .with_description("The number of years that you want to specify for the default retention period. If Object Lock is turned on, you must specify ``Mode`` and specify eith...")
                                .with_provider_name("Years")))
                        .with_description("The default Object Lock retention mode and period that you want to apply to new objects placed in the specified bucket. If Object Lock is turned on, b...")
                        .with_provider_name("DefaultRetention")))
                .with_description("Specifies the Object Lock rule for the specified object. Enable this rule when you apply ``ObjectLockConfiguration`` to a bucket. If Object Lock is tu...")
                .with_provider_name("Rule")))
        .with_description("This operation is not supported for directory buckets.  Places an Object Lock configuration on the specified bucket. The rule specified in the Object ...")
        .with_provider_name("ObjectLockConfiguration")
}

pub open spec fn public_access_block_configuration_view() -> AttrView {
    AttrView::new("public_access_block_configuration"@, TypeView::structure("PublicAccessBlockConfiguration"@)
            .field(FieldView::new("block_public_acls"@, TypeView::Bool)
                .with_description("Specifies whether Amazon S3 should block public access control lists (ACLs) for this bucket and objects in this bucket. Setting this element to ``TRUE..."@)
                .with_provider_name("BlockPublicAcls"@))
            .field(FieldView::new("block_public_policy"@, TypeView::Bool)
                .with_description("Specifies whether Amazon S3 should block public bucket policies for this bucket. Setting this element to ``TRUE`` causes Amazon S3 to reject calls to ..."@)
                .with_provider_name("BlockPublicPolicy"@))
            .field(FieldView::new("ignore_public_acls"@, TypeView::Bool)
                .with_description("Specifies whether Amazon S3 should ignore public ACLs for this bucket and objects in this bucket. Setting this element to ``TRUE`` causes Amazon S3 to..."@)
                .with_provider_name("IgnorePublicAcls"@))
            .field(FieldView::new("restrict_public_buckets"@, TypeView::Bool)
                .with_description("Specifies whether Amazon S3 should restrict public bucket policies for this bucket. Setting this element to ``TRUE`` restricts access to this bucket t..."@)
                .with_provider_name("RestrictPublicBuckets"@)))
        .with_description("Configuration that defines how Amazon S3 handles public access."@)
        .with_provider_name("PublicAccessBlockConfiguration"@)
}

fn public_access_block_configuration_attribute() -> (r: AttributeSchema)
    ensures
        r@ == public_access_block_configuration_view(),
{
    AttributeSchema::new("public_access_block_configuration", AttributeType::structure("PublicAccessBlockConfiguration")
            .field(StructField::new("block_public_acls", AttributeType::Bool)
                .with_description("Specifies whether Amazon S3 should block public access control lists (ACLs) for this bucket and objects in this bucket. Setting this element to ``TRUE...")
                .with_provider_name("BlockPublicAcls"))
            .field(StructField::new("block_public_policy", AttributeType::Bool)
                .with_description("Specifies whether Amazon S3 should block public bucket policies for this bucket. Setting this element to ``TRUE`` causes Amazon S3 to reject calls to ...")
                .with_provider_name("BlockPublicPolicy"))
            .field(StructField::new("ignore_public_acls", AttributeType::Bool)
                .with_description("Specifies whether Amazon S3 should ignore public ACLs for this bucket and objects in this bucket. Setting this element to ``TRUE`` causes Amazon S3 to...")
                .with_provider_name("IgnorePublicAcls"))
            .field(StructField::new("restrict_public_buckets", AttributeType::Bool)
                .with_description("Specifies whether Amazon S3 should restrict public bucket policies for this bucket. Setting this element to ``TRUE`` restricts access to this bucket t...")
                .with_provider_name("RestrictPublicBuckets")))
        .with_description("Configuration that defines how Amazon S3 handles public access.")
        .with_provider_name("PublicAccessBlockConfiguration")
}

pub open spec fn replication_configuration_view() -> AttrView {
    AttrView::new("replication_configuration"@, TypeView::structure("ReplicationConfiguration"@)
            .field(FieldView::new("role"@, TypeView::String)
                .required()
                .with_description("The Amazon Resource Name (ARN) of the IAMlong (IAM) role that Amazon S3 assumes when replicating objects. For more information, see [How to Set Up Rep..."@)
                .with_provider_name("Role"@))
            .field(FieldView::new("rules"@, TypeView::list(TypeView::structure("ReplicationRule"@)
                    .field(FieldView::new("delete_marker_replication"@, TypeView::structure("DeleteMarkerReplication"@)
                            .field(FieldView::new("status"@, TypeView::Enum(seq!["Disabled"@].push("Enabled"@)))
                                .with_description("Indicates whether to replicate delete markers."@)
                                .with_provider_name("Status"@)))
                        .with_description("Specifies whether Amazon S3 replicates delete markers. If you specify a ``Filter`` in your replication configuration, you must also include a ``Delete..."@)
                        .with_provider_name("DeleteMarkerReplication"@))
                    .field(FieldView::new("destination"@, TypeView::structure("ReplicationDestination"@)
                            .field(FieldView::new("access_control_translation"@, TypeView::structure("AccessControlTranslation"@)
                                    .field(FieldView::new("owner"@, TypeView::String)
                                        .required()
                                        .with_description("Specifies the replica ownership. For default and valid values, see [PUT bucket replication](https://docs.aws.amazon.com/AmazonS3/latest/API/RESTBucket..."@)
                                        .with_provider_name("Owner"@)))
                                .with_description("Specify this only in a cross-account scenario (where source and destination bucket owners are not the same), and you want to change replica ownership ..."@)
                                .with_provider_name("AccessControlTranslation"@))
                            .field(FieldView::new("account"@, TypeView::String)
                                .with_description("Destination bucket owner account ID. In a cross-account scenario, if you direct Amazon S3 to change replica ownership to the AWS-account that owns the..."@)
                                .with_provider_name("Account"@))
                            .field(FieldView::new("bucket"@, TypeView::String)
                                .required()
                                .with_description("The Amazon Resource Name (ARN) of the bucket where you want Amazon S3 to store the results."@)
                                .with_provider_name("Bucket"@))
                            .field(FieldView::new("encryption_configuration"@, TypeView::structure("EncryptionConfiguration"@)
                                    .field(FieldView::new("replica_kms_key_id"@, TypeView::format("KmsKeyArn"@))
                                        .required()
                                        .with_description("Specifies the ID (Key ARN or Alias ARN) of the customer managed AWS KMS key stored in AWS Key Management Service (KMS) for the destination bucket. Ama..."@)
                                        .with_provider_name("ReplicaKmsKeyID"@)))
                                .with_description("Specifies encryption-related information."@)
                                .with_provider_name("EncryptionConfiguration"@))
                            .field(FieldView::new("metrics"@, TypeView::structure("Metrics"@)
                                    .field(FieldView::new("event_threshold"@, TypeView::structure("ReplicationTimeValue"@)
                                            .field(FieldView::new("minutes"@, TypeView::Int)
                                                .required()
                                                .with_description("Contains an integer specifying time in minutes.  Valid value: 15"@)
                                                .with_provider_name("Minutes"@)))
                                        .with_description("A container specifying the time threshold for emitting the ``s3:Replication:OperationMissedThreshold`` event."@)
                                        .with_provider_name("EventThreshold"@))
                                    .field(FieldView::new("status"@, TypeView::Enum(seq!["Disabled"@].push("Enabled"@)))
                                        .required()
                                        .with_description("Specifies whether the replication metrics are enabled."@)
                                        .with_provider_name("Status"@)))
                                .with_description("A container specifying replication metrics-related settings enabling replication metrics and events."@)
                                .with_provider_name("Metrics"@))
                            .field(FieldView::new("replication_time"@, TypeView::structure("ReplicationTime"@)
                                    .field(FieldView::new("status"@, TypeView::Enum(seq!["Disabled"@].push("Enabled"@)))
                                        .required()
                                        .with_description("Specifies whether the replication time is enabled."@)
                                        .with_provider_name("Status"@))
                                    .field(FieldView::new("time"@, TypeView::structure("ReplicationTimeValue"@)
                                            .field(FieldView::new("minutes"@, TypeView::Int)
                                                .required()
                                                .with_description("Contains an integer specifying time in minutes.  Valid value: 15"@)
                                                .with_provider_name("Minutes"@)))
                                        .required()
                                        .with_description("A container specifying the time by which replication should be complete for all objects and operations on objects."@)
                                        .with_provider_name("Time"@)))
                                .with_description("A container specifying S3 Replication Time Control (S3 RTC), including whether S3 RTC is enabled and the time when all objects and operations on objec..."@)
                                .with_provider_name("ReplicationTime"@))
                            .field(FieldView::new("storage_class"@, TypeView::Enum(seq!["DEEP_ARCHIVE"@].push("GLACIER"@).push("GLACIER_IR"@).push("INTELLIGENT_TIERING"@).push("ONEZONE_IA"@).push("REDUCED_REDUNDANCY"@).push("STANDARD"@).push("STANDARD_IA"@)))
                                .with_description("The storage class to use when replicating objects, such as S3 Standard or reduced redundancy. By default, Amazon S3 uses the storage class of the sour..."@)
                                .with_provider_name("StorageClass"@)))
                        .required()
                        .with_description("A container for information about the replication destination and its configurations including enabling the S3 Replication Time Control (S3 RTC)."@)
                        .with_provider_name("Destination"@))
                    .field(FieldView::new("filter"@, TypeView::structure("ReplicationRuleFilter"@)
                            .field(FieldView::new("and"@, TypeView::structure("ReplicationRuleAndOperator"@)
                                    .field(FieldView::new("prefix"@, TypeView::String)
                                        .with_description("An object key name prefix that identifies the subset of objects to which the rule applies."@)
                                        .with_provider_name("Prefix"@))
                                    .field(FieldView::new("tag_filters"@, TypeView::list(types::tags_view()))
                                        .with_description("An array of tags containing key and value pairs."@)
                                        .with_provider_name("TagFilters"@)))
                                .with_description("A container for specifying rule filters. The filters determine the subset of objects to which the rule applies. This element is required only if you s..."@)
                                .with_provider_name("And"@))
                            .field(FieldView::new("prefix"@, TypeView::String)
                                .with_description("An object key name prefix that identifies the subset of objects to which the rule applies.  Replacement must be made for object keys containing specia..."@)
                                .with_provider_name("Prefix"@))
                            .field(FieldView::new("tag_filter"@, types::tags_view())
                                .with_description("A container for specifying a tag key and value.  The rule applies only to objects that have the tag in their tag set."@)
                                .with_provider_name("TagFilter"@)))
                        .with_description("A filter that identifies the subset of objects to which the replication rule applies. A ``Filter`` must specify exactly one ``Prefix``, ``TagFilter``,..."@)
                        .with_provider_name("Filter"@))
                    .field(FieldView::new("id"@, TypeView::String)
                        .with_description("A unique identifier for the rule. The maximum value is 255 characters. If you don't specify a value, AWS CloudFormation generates a random ID. When us..."@)
                        .with_provider_name("Id"@))
                    .field(FieldView::new("prefix"@, TypeView::String)
                        .with_description("An object key name prefix that identifies the object or objects to which the rule applies. The maximum prefix length is 1,024 characters. To include a..."@)
                        .with_provider_name("Prefix"@))
                    .field(FieldView::new("priority"@, TypeView::Int)
                        .with_description("The priority indicates which rule has precedence whenever two or more replication rules conflict. Amazon S3 will attempt to replicate objects accordin..."@)
                        .with_provider_name("Priority"@))
                    .field(FieldView::new("source_selection_criteria"@, TypeView::structure("SourceSelectionCriteria"@)
                            .field(FieldView::new("replica_modifications"@, TypeView::structure("ReplicaModifications"@)
                                    .field(FieldView::new("status"@, TypeView::Enum(seq!["Enabled"@].push("Disabled"@)))
                                        .required()
                                        .with_description("Specifies whether Amazon S3 replicates modifications on replicas. *Allowed values*: ``Enabled`` | ``Disabled``"@)
                                        .with_provider_name("Status"@)))
                                .with_description("A filter that you can specify for selection for modifications on replicas."@)
                                .with_provider_name("ReplicaModifications"@))
                            .field(FieldView::new("sse_kms_encrypted_objects"@, TypeView::structure("SseKmsEncryptedObjects"@)
                                    .field(FieldView::new("status"@, TypeView::Enum(seq!["Disabled"@].push("Enabled"@)))
                                        .required()
                                        .with_description("Specifies whether Amazon S3 replicates objects created with server-side encryption using an AWS KMS key stored in AWS Key Management Service."@)
                                        .with_provider_name("Status"@)))
                                .with_description("A container for filter information for the selection of Amazon S3 objects encrypted with AWS KMS."@)
                                .with_provider_name("SseKmsEncryptedObjects"@)))
                        .with_description("A container that describes additional filters for identifying the source objects that you want to replicate. You can choose to enable or disable the r..."@)
                        .with_provider_name("SourceSelectionCriteria"@))
                    .field(FieldView::new("status"@, TypeView::Enum(seq!["Disabled"@].push("Enabled"@)))
                        .required()
                        .with_description("Specifies whether the rule is enabled."@)
                        .with_provider_name("Status"@))))
                .required()
                .with_description("A container for one or more replication rules. A replication configuration must have at least one rule and can contain a maximum of 1,000 rules."@)
                .with_provider_name("Rules"@)
                .with_block_name("rule"@)))
        .with_description("Configuration for replicating objects in an S3 bucket. To enable replication, you must also enable versioning by using the ``VersioningConfiguration``..."@)
        .with_provider_name("ReplicationConfiguration"@)
}

fn replication_configuration_attribute() -> (r: AttributeSchema)
    ensures
        r@ == replication_configuration_view(),
{
    AttributeSchema::new("replication_configuration", AttributeType::structure("ReplicationConfiguration")
            .field(StructField::new("role", AttributeType::String)
                .required()
                .with_description("The Amazon Resource Name (ARN) of the IAMlong (IAM) role that Amazon S3 assumes when replicating objects. For more information, see [How to Set Up Rep...")
                .with_provider_name("Role"))
            .field(StructField::new("rules", AttributeType::list(AttributeType::structure("ReplicationRule")
                    .field(StructField::new("delete_marker_replication", AttributeType::structure("DeleteMarkerReplication")
                            .field(StructField::new("status", AttributeType::one_of(Words::of("Disabled").and("Enabled")))
                                .with_description("Indicates whether to replicate delete markers.")
                                .with_provider_name("Status")))
                        .with_description("Specifies whether Amazon S3 replicates delete markers. If you specify a ``Filter`` in your replication configuration, you must also include a ``Delete...")
                        .with_provider_name("DeleteMarkerReplication"))
                    .field(StructField::new("destination", AttributeType::structure("ReplicationDestination")
                            .field(StructField::new("access_control_translation", AttributeType::structure("AccessControlTranslation")
                                    .field(StructField::new("owner", AttributeType::String)
                                        .required()
                                        .with_description("Specifies the replica ownership. For default and valid values, see [PUT bucket replication](https://docs.aws.amazon.com/AmazonS3/latest/API/RESTBucket...")
                                        .with_provider_name("Owner")))
                                .with_description("Specify this only in a cross-account scenario (where source and destination bucket owners are not the same), and you want to change replica ownership ...")
                                .with_provider_name("AccessControlTranslation"))
                            .field(StructField::new("account", AttributeType::String)
                                .with_description("Destination bucket owner account ID. In a cross-account scenario, if you direct Amazon S3 to change replica ownership to the AWS-account that owns the...")
                                .with_provider_name("Account"))
                            .field(StructField::new("bucket", AttributeType::String)
                                .required()
                                .with_description("The Amazon Resource Name (ARN) of the bucket where you want Amazon S3 to store the results.")
                                .with_provider_name("Bucket"))
                            .field(StructField::new("encryption_configuration", AttributeType::structure("EncryptionConfiguration")
                                    .field(StructField::new("replica_kms_key_id", AttributeType::format("KmsKeyArn"))
                                        .required()
                                        .with_description("Specifies the ID (Key ARN or Alias ARN) of the customer managed AWS KMS key stored in AWS Key Management Service (KMS) for the destination bucket. Ama...")
                                        .with_provider_name("ReplicaKmsKeyID")))
                                .with_description("Specifies encryption-related information.")
                                .with_provider_name("EncryptionConfiguration"))
                            .field(StructField::new("metrics", AttributeType::structure("Metrics")
                                    .field(StructField::new("event_threshold", AttributeType::structure("ReplicationTimeValue")
                                            .field(StructField::new("minutes", AttributeType::Int)
                                                .required()
                                                .with_description("Contains an integer specifying time in minutes.  Valid value: 15")
                                                .with_provider_name("Minutes")))
                                        .with_description("A container specifying the time threshold for emitting the ``s3:Replication:OperationMissedThreshold`` event.")
                                        .with_provider_name("EventThreshold"))
                                    .field(StructField::new("status", AttributeType::one_of(Words::of("Disabled").and("Enabled")))
                                        .required()
                                        .with_description("Specifies whether the replication metrics are enabled.")
                                        .with_provider_name("Status")))
                                .with_description("A container specifying replication metrics-related settings enabling replication metrics and events.")
                                .with_provider_name("Metrics"))
                            .field(StructField::new("replication_time", AttributeType::structure("ReplicationTime")
                                    .field(StructField::new("status", AttributeType::one_of(Words::of("Disabled").and("Enabled")))
                                        .required()
                                        .with_description("Specifies whether the replication time is enabled.")
                                        .with_provider_name("Status"))
                                    .field(StructField::new("time", AttributeType::structure("ReplicationTimeValue")
                                            .field(StructField::new("minutes", AttributeType::Int)
                                                .required()
                                                .with_description("Contains an integer specifying time in minutes.  Valid value: 15")
                                                .with_provider_name("Minutes")))
                                        .required()
                                        .with_description("A container specifying the time by which replication should be complete for all objects and operations on objects.")
                                        .with_provider_name("Time")))
                                .with_description("A container specifying S3 Replication Time Control (S3 RTC), including whether S3 RTC is enabled and the time when all objects and operations on objec...")
                                .with_provider_name("ReplicationTime"))
                            .field(StructField::new("storage_class", AttributeType::one_of(Words::of("DEEP_ARCHIVE").and("GLACIER").and("GLACIER_IR").and("INTELLIGENT_TIERING").and("ONEZONE_IA").and("REDUCED_REDUNDANCY").and("STANDARD").and("STANDARD_IA")))
                                .with_description("The storage class to use when replicating objects, such as S3 Standard or reduced redundancy. By default, Amazon S3 uses the storage class of the sour...")
                                .with_provider_name("StorageClass")))
                        .required()
                        .with_description("A container for information about the replication destination and its configurations including enabling the S3 Replication Time Control (S3 RTC).")
                        .with_provider_name("Destination"))
                    .field(StructField::new("filter", AttributeType::structure("ReplicationRuleFilter")
                            .field(StructField::new("and", AttributeType::structure("ReplicationRuleAndOperator")
                                    .field(StructField::new("prefix", AttributeType::String)
                                        .with_description("An object key name prefix that identifies the subset of objects to which the rule applies.")
                                        .with_provider_name("Prefix"))
                                    .field(StructField::new("tag_filters", AttributeType::list(types::tags_type()))
                                        .with_description("An array of tags containing key and value pairs.")
                                        .with_provider_name("TagFilters")))
                                .with_description("A container for specifying rule filters. The filters determine the subset of objects to which the rule applies. This element is required only if you s...")
                                .with_provider_name("And"))
                            .field(StructField::new("prefix", AttributeType::String)
                                .with_description("An object key name prefix that identifies the subset of objects to which the rule applies.  Replacement must be made for object keys containing specia...")
                                .with_provider_name("Prefix"))
                            .field(StructField::new("tag_filter", types::tags_type())
                                .with_description("A container for specifying a tag key and value.  The rule applies only to objects that have the tag in their tag set.")
                                .with_provider_name("TagFilter")))
                        .with_description("A filter that identifies the subset of objects to which the replication rule applies. A ``Filter`` must specify exactly one ``Prefix``, ``TagFilter``,...")
                        .with_provider_name("Filter"))
                    .field(StructField::new("id", AttributeType::String)
                        .with_description("A unique identifier for the rule. The maximum value is 255 characters. If you don't specify a value, AWS CloudFormation generates a random ID. When us...")
                        .with_provider_name("Id"))
                    .field(StructField::new("prefix", AttributeType::String)
                        .with_description("An object key name prefix that identifies the object or objects to which the rule applies. The maximum prefix length is 1,024 characters. To include a...")
                        .with_provider_name("Prefix"))
                    .field(StructField::new("priority", AttributeType::Int)
                        .with_description("The priority indicates which rule has precedence whenever two or more replication rules conflict. Amazon S3 will attempt to replicate objects accordin...")
                        .with_provider_name("Priority"))
                    .field(StructField::new("source_selection_criteria", AttributeType::structure("SourceSelectionCriteria")
                            .field(StructField::new("replica_modifications", AttributeType::structure("ReplicaModifications")
                                    .field(StructField::new("status", AttributeType::one_of(Words::of("Enabled").and("Disabled")))
                                        .required()
                                        .with_description("Specifies whether Amazon S3 replicates modifications on replicas. *Allowed values*: ``Enabled`` | ``Disabled``")
                                        .with_provider_name("Status")))
                                .with_description("A filter that you can specify for selection for modifications on replicas.")
                                .with_provider_name("ReplicaModifications"))
                            .field(StructField::new("sse_kms_encrypted_objects", AttributeType::structure("SseKmsEncryptedObjects")
                                    .field(StructField::new("status", AttributeType::one_of(Words::of("Disabled").and("Enabled")))
                                        .required()
                                        .with_description("Specifies whether Amazon S3 replicates objects created with server-side encryption using an AWS KMS key stored in AWS Key Management Service.")
                                        .with_provider_name("Status")))
                                .with_description("A container for filter information for the selection of Amazon S3 objects encrypted with AWS KMS.")
                                .with_provider_name("SseKmsEncryptedObjects")))
                        .with_description("A container that describes additional filters for identifying the source objects that you want to replicate. You can choose to enable or disable the r...")
                        .with_provider_name("SourceSelectionCriteria"))
                    .field(StructField::new("status", AttributeType::one_of(Words::of("Disabled").and("Enabled")))
                        .required()
                        .with_description("Specifies whether the rule is enabled.")
                        .with_provider_name("Status"))))
                .required()
                .with_description("A container for one or more replication rules. A replication configuration must have at least one rule and can contain a maximum of 1,000 rules.")
                .with_provider_name("Rules")
                .with_block_name("rule")))
        .with_description("Configuration for replicating objects in an S3 bucket. To enable replication, you must also enable versioning by using the ``VersioningConfiguration``...")
        .with_provider_name("ReplicationConfiguration")
}

pub open spec fn website_configuration_view() -> AttrView {
    AttrView::new("website_configuration"@, TypeView::structure("WebsiteConfiguration"@)
            .field(FieldView::new("error_document"@, TypeView::String)
                .with_description("The name of the error document for the website."@)
                .with_provider_name("ErrorDocument"@))
            .field(FieldView::new("index_document"@, TypeView::String)
                .with_description("The name of the index document for the website."@)
                .with_provider_name("IndexDocument"@))
            .field(FieldView::new("redirect_all_requests_to"@, TypeView::structure("RedirectAllRequestsTo"@)
                    .field(FieldView::new("host_name"@, TypeView::String)
                        .required()
                        .with_description("Name of the host where requests are redirected."@)
                        .with_provider_name("HostName"@))
                    .field(FieldView::new("protocol"@, TypeView::Enum(seq!["http"@].push("https"@)))
                        .with_description("Protocol to use when redirecting requests. The default is the protocol that is used in the original request."@)
                        .with_provider_name("Protocol"@)))
                .with_description("The redirect behavior for every request to this bucket's website endpoint.  If you specify this property, you can't specify any other property."@)
                .with_provider_name("RedirectAllRequestsTo"@))
            .field(FieldView::new("routing_rules"@, TypeView::list(TypeView::structure("RoutingRule"@)
                    .field(FieldView::new("redirect_rule"@, TypeView::structure("RedirectRule"@)
                            .field(FieldView::new("host_name"@, TypeView::String)
                                .with_description("The host name to use in the redirect request."@)
                                .with_provider_name("HostName"@))
                            .field(FieldView::new("http_redirect_code"@, TypeView::String)
                                .with_description("The HTTP redirect code to use on the response. Not required if one of the siblings is present."@)
                                .with_provider_name("HttpRedirectCode"@))
                            .field(FieldView::new("protocol"@, TypeView::Enum(seq!["http"@].push("https"@)))
                                .with_description("Protocol to use when redirecting requests. The default is the protocol that is used in the original request."@)
                                .with_provider_name("Protocol"@))
                            .field(FieldView::new("replace_key_prefix_with"@, TypeView::Enum(seq!["docs/"@].push("documents/"@).push("/documents"@)))
                                .with_description("The object key prefix to use in the redirect request. For example, to redirect requests for all pages with prefix ``docs/`` (objects in the ``docs/`` ..."@)
                                .with_provider_name("ReplaceKeyPrefixWith"@))
                            .field(FieldView::new("replace_key_with"@, TypeView::String)
                                .with_description("The specific object key to use in the redirect request. For example, redirect request to ``error.html``. Not required if one of the siblings is presen..."@)
                                .with_provider_name("ReplaceKeyWith"@)))
                        .required()
                        .with_description("Container for redirect information. You can redirect requests to another host, to another page, or with another protocol. In the event of an error, yo..."@)
                        .with_provider_name("RedirectRule"@))
                    .field(FieldView::new("routing_rule_condition"@, TypeView::structure("RoutingRuleCondition"@)
                            .field(FieldView::new("http_error_code_returned_equals"@, TypeView::String)
                                .with_description("The HTTP error code when the redirect is applied. In the event of an error, if the error code equals this value, then the specified redirect is applie..."@)
                                .with_provider_name("HttpErrorCodeReturnedEquals"@))
                            .field(FieldView::new("key_prefix_equals"@, TypeView::String)
                                .with_description("The object key name prefix when the redirect is applied. For example, to redirect requests for ``ExamplePage.html``, the key prefix will be ``ExampleP..."@)
                                .with_provider_name("KeyPrefixEquals"@)))
                        .with_description("A container for describing a condition that must be met for the specified redirect to apply. For example, 1. If request is for pages in the ``/docs`` ..."@)
                        .with_provider_name("RoutingRuleCondition"@))))
                .with_description("Rules that define when a redirect is applied and the redirect behavior."@)
                .with_provider_name("RoutingRules"@)
                .with_block_name("routing_rule"@)))
        .with_description("Information used to configure the bucket as a static website. For more information, see [Hosting Websites on Amazon S3](https://docs.aws.amazon.com/Am..."@)
        .with_provider_name("WebsiteConfiguration"@)
}

fn website_configuration_attribute() -> (r: AttributeSchema)
    ensures
        r@ == website_configuration_view(),
{
    AttributeSchema::new("website_configuration", AttributeType::structure("WebsiteConfiguration")
            .field(StructField::new("error_document", AttributeType::String)
                .with_description("The name of the error document for the website.")
                .with_provider_name("ErrorDocument"))
            .field(StructField::new("index_document", AttributeType::String)
                .with_description("The name of the index document for the website.")
                .with_provider_name("IndexDocument"))
            .field(StructField::new("redirect_all_requests_to", AttributeType::structure("RedirectAllRequestsTo")
                    .field(StructField::new("host_name", AttributeType::String)
                        .required()
                        .with_description("Name of the host where requests are redirected.")
                        .with_provider_name("HostName"))
                    .field(StructField::new("protocol", AttributeType::one_of(Words::of("http").and("https")))
                        .with_description("Protocol to use when redirecting requests. The default is the protocol that is used in the original request.")
                        .with_provider_name("Protocol")))
                .with_description("The redirect behavior for every request to this bucket's website endpoint.  If you specify this property, you can't specify any other property.")
                .with_provider_name("RedirectAllRequestsTo"))
            .field(StructField::new("routing_rules", AttributeType::list(AttributeType::structure("RoutingRule")
                    .field(StructField::new("redirect_rule", AttributeType::structure("RedirectRule")
                            .field(StructField::new("host_name", AttributeType::String)
                                .with_description("The host name to use in the redirect request.")
                                .with_provider_name("HostName"))
                            .field(StructField::new("http_redirect_code", AttributeType::String)
                                .with_description("The HTTP redirect code to use on the response. Not required if one of the siblings is present.")
                                .with_provider_name("HttpRedirectCode"))
                            .field(StructField::new("protocol", AttributeType::one_of(Words::of("http").and("https")))
                                .with_description("Protocol to use when redirecting requests. The default is the protocol that is used in the original request.")
                                .with_provider_name("Protocol"))
                            .field(StructField::new("replace_key_prefix_with", AttributeType::one_of(Words::of("docs/").and("documents/").and("/documents")))
                                .with_description("The object key prefix to use in the redirect request. For example, to redirect requests for all pages with prefix ``docs/`` (objects in the ``docs/`` ...")
                                .with_provider_name("ReplaceKeyPrefixWith"))
                            .field(StructField::new("replace_key_with", AttributeType::String)
                                .with_description("The specific object key to use in the redirect request. For example, redirect request to ``error.html``. Not required if one of the siblings is presen...")
                                .with_provider_name("ReplaceKeyWith")))
                        .required()
                        .with_description("Container for redirect information. You can redirect requests to another host, to another page, or with another protocol. In the event of an error, yo...")
                        .with_provider_name("RedirectRule"))
                    .field(StructField::new("routing_rule_condition", AttributeType::structure("RoutingRuleCondition")
                            .field(StructField::new("http_error_code_returned_equals", AttributeType::String)
                                .with_description("The HTTP error code when the redirect is applied. In the event of an error, if the error code equals this value, then the specified redirect is applie...")
                                .with_provider_name("HttpErrorCodeReturnedEquals"))
                            .field(StructField::new("key_prefix_equals", AttributeType::String)
                                .with_description("The object key name prefix when the redirect is applied. For example, to redirect requests for ``ExamplePage.html``, the key prefix will be ``ExampleP...")
                                .with_provider_name("KeyPrefixEquals")))
                        .with_description("A container for describing a condition that must be met for the specified redirect to apply. For example, 1. If request is for pages in the ``/docs`` ...")
                        .with_provider_name("RoutingRuleCondition"))))
                .with_description("Rules that define when a redirect is applied and the redirect behavior.")
                .with_provider_name("RoutingRules")
                .with_block_name("routing_rule")))
        .with_description("Information used to configure the bucket as a static website. For more information, see [Hosting Websites on Amazon S3](https://docs.aws.amazon.com/Am...")
        .with_provider_name("WebsiteConfiguration")
}

/// The schema of `AWS::S3::Bucket`.
pub open spec fn config() -> ConfigView {
    ConfigView {
        aws_type_name: "AWS::S3::Bucket"@,
        resource_type_name: "s3.bucket"@,
        has_tags: true,
        schema: SchemaView::new("awscc.s3.bucket"@)
            .with_description("The ``AWS::S3::Bucket`` resource creates an Amazon S3 bucket in the same AWS Region where you create the AWS CloudFormation stack.  To control how AWS CloudFormation handles the bucket when the stack ..."@)
            .attribute(
                AttrView::new("abac_status"@, TypeView::custom_enum("AbacStatus"@, seq!["Enabled"@].push("Disabled"@), "awscc.s3.bucket"@, None))
                    .with_description("The ABAC status of the general purpose bucket. When ABAC is enabled for the general purpose bucket, you can use tags to manage access to the general p..."@)
                    .with_provider_name("AbacStatus"@),
            )
            .attribute(
                AttrView::new("accelerate_configuration"@, TypeView::structure("AccelerateConfiguration"@)
                        .field(FieldView::new("acceleration_status"@, TypeView::Enum(seq!["Enabled"@].push("Suspended"@)))
                            .required()
                            .with_description("Specifies the transfer acceleration status of the bucket."@)
                            .with_provider_name("AccelerationStatus"@)))
                    .with_description("Configures the transfer acceleration state for an Amazon S3 bucket. For more information, see [Amazon S3 Transfer Acceleration](https://docs.aws.amazo..."@)
                    .with_provider_name("AccelerateConfiguration"@),
            )
            .attribute(
                AttrView::new("access_control"@, TypeView::custom_enum("AccessControl"@, seq!["AuthenticatedRead"@].push("AwsExecRead"@).push("BucketOwnerFullControl"@).push("BucketOwnerRead"@).push("LogDeliveryWrite"@).push("Private"@).push("PublicRead"@).push("PublicReadWrite"@), "awscc.s3.bucket"@, None))
                    .with_description("This is a legacy property, and it is not recommended for most use cases. A majority of modern use cases in Amazon S3 no longer require the use of ACLs..."@)
                    .with_provider_name("AccessControl"@),
            )
            .attribute(analytics_configurations_view())
            .attribute(
                AttrView::new("arn"@, TypeView::format("Arn"@))
                    .with_description(" (read-only)"@)
                    .with_provider_name("Arn"@),
            )
            .attribute(bucket_encryption_view())
            .attribute(
                AttrView::new("bucket_name"@, TypeView::String)
                    .create_only()
                    .with_description("A name for the bucket. If you don't specify a name, AWS CloudFormation generates a unique ID and uses that ID for the bucket name. The bucket name mus..."@)
                    .with_provider_name("BucketName"@),
            )
            .attribute(cors_configuration_view())
            .attribute(
                AttrView::new("domain_name"@, TypeView::String)
                    .with_description(" (read-only)"@)
                    .with_provider_name("DomainName"@),
            )
            .attribute(
                AttrView::new("dual_stack_domain_name"@, TypeView::String)
                    .with_description(" (read-only)"@)
                    .with_provider_name("DualStackDomainName"@),
            )
            .attribute(intelligent_tiering_configurations_view())
            .attribute(inventory_configurations_view())
            .attribute(lifecycle_configuration_view())
            .attribute(
                AttrView::new("logging_configuration"@, TypeView::structure("LoggingConfiguration"@)
                        .field(FieldView::new("destination_bucket_name"@, TypeView::String)
                            .with_description("The name of the bucket where Amazon S3 should store server access log files. You can store log files in any bucket that you own. By default, logs are ..."@)
                            .with_provider_name("DestinationBucketName"@))
                        .field(FieldView::new("log_file_prefix"@, TypeView::String)
                            .with_description("A prefix for all log object keys. If you store log files from multiple Amazon S3 buckets in a single bucket, you can use a prefix to distinguish which..."@)
                            .with_provider_name("LogFilePrefix"@))
                        .field(FieldView::new("target_object_key_format"@, TypeView::String)
                            .with_description("Amazon S3 key format for log objects. Only one format, either PartitionedPrefix or SimplePrefix, is allowed."@)
                            .with_provider_name("TargetObjectKeyFormat"@)))
                    .with_description("Settings that define where logs are stored."@)
                    .with_provider_name("LoggingConfiguration"@),
            )
            .attribute(metadata_configuration_view())
            .attribute(metadata_table_configuration_view())
            .attribute(metrics_configurations_view())
            .attribute(notification_configuration_view())
            .attribute(object_lock_configuration_view())
            .attribute(
                AttrView::new("object_lock_enabled"@, TypeView::Bool)
                    .with_description("Indicates whether this bucket has an Object Lock configuration enabled. Enable ``ObjectLockEnabled`` when you apply ``ObjectLockConfiguration`` to a b..."@)
                    .with_provider_name("ObjectLockEnabled"@),
            )
            .attribute(
                AttrView::new("ownership_controls"@, TypeView::structure("OwnershipControls"@)
                        .field(FieldView::new("rules"@, TypeView::list(TypeView::structure("OwnershipControlsRule"@)
                                .field(FieldView::new("object_ownership"@, TypeView::Enum(seq!["ObjectWriter"@].push("BucketOwnerPreferred"@).push("BucketOwnerEnforced"@)))
                                    .with_description("Specifies an object ownership rule."@)
                                    .with_provider_name("ObjectOwnership"@))))
                            .required()
                            .with_description("Specifies the container element for Object Ownership rules."@)
                            .with_provider_name("Rules"@)
                            .with_block_name("rule"@)))
                    .with_description("Configuration that defines how Amazon S3 handles Object Ownership rules."@)
                    .with_provider_name("OwnershipControls"@),
            )
            .attribute(public_access_block_configuration_view())
            .attribute(
                AttrView::new("regional_domain_name"@, TypeView::String)
                    .with_description(" (read-only)"@)
                    .with_provider_name("RegionalDomainName"@),
            )
            .attribute(replication_configuration_view())
            .attribute(
                AttrView::new("tags"@, types::tags_view())
                    .with_description("An arbitrary set of tags (key-value pairs) for this S3 bucket."@)
                    .with_provider_name("Tags"@),
            )
            .attribute(
                AttrView::new("versioning_configuration"@, TypeView::structure("VersioningConfiguration"@)
                        .field(FieldView::new("status"@, TypeView::Enum(seq!["Enabled"@].push("Suspended"@)))
                            .required()
                            .with_description("The versioning state of the bucket."@)
                            .with_provider_name("Status"@)))
                    .with_description("Enables multiple versions of all objects in this bucket. You might enable versioning to prevent objects from being deleted or overwritten by mistake o..."@)
                    .with_provider_name("VersioningConfiguration"@),
            )
            .attribute(website_configuration_view())
            .attribute(
                AttrView::new("website_url"@, TypeView::String)
                    .with_description(" (read-only)"@)
                    .with_provider_name("WebsiteURL"@),
            ),
    }
}

/// The schema of `AWS::S3::Bucket`.
pub fn s3_bucket_config() -> (r: AwsccSchemaConfig)
    ensures
        r@ == config(),
{
    AwsccSchemaConfig {
        aws_type_name: "AWS::S3::Bucket",
        resource_type_name: "s3.bucket",
        has_tags: true,
        schema: ResourceSchema::new("awscc.s3.bucket")
            .with_description("The ``AWS::S3::Bucket`` resource creates an Amazon S3 bucket in the same AWS Region where you create the AWS CloudFormation stack.  To control how AWS CloudFormation handles the bucket when the stack ...")
            .attribute(
                AttributeSchema::new("abac_status", AttributeType::custom_enum("AbacStatus", Words::of("Enabled").and("Disabled"), "awscc.s3.bucket", None))
                    .with_description("The ABAC status of the general purpose bucket. When ABAC is enabled for the general purpose bucket, you can use tags to manage access to the general p...")
                    .with_provider_name("AbacStatus"),
            )
            .attribute(
                AttributeSchema::new("accelerate_configuration", AttributeType::structure("AccelerateConfiguration")
                        .field(StructField::new("acceleration_status", AttributeType::one_of(Words::of("Enabled").and("Suspended")))
                            .required()
                            .with_description("Specifies the transfer acceleration status of the bucket.")
                            .with_provider_name("AccelerationStatus")))
                    .with_description("Configures the transfer acceleration state for an Amazon S3 bucket. For more information, see [Amazon S3 Transfer Acceleration](https://docs.aws.amazo...")
                    .with_provider_name("AccelerateConfiguration"),
            )
            .attribute(
                AttributeSchema::new("access_control", AttributeType::custom_enum("AccessControl", Words::of("AuthenticatedRead").and("AwsExecRead").and("BucketOwnerFullControl").and("BucketOwnerRead").and("LogDeliveryWrite").and("Private").and("PublicRead").and("PublicReadWrite"), "awscc.s3.bucket", None))
                    .with_description("This is a legacy property, and it is not recommended for most use cases. A majority of modern use cases in Amazon S3 no longer require the use of ACLs...")
                    .with_provider_name("AccessControl"),
            )
            .attribute(analytics_configurations_attribute())
            .attribute(
                AttributeSchema::new("arn", AttributeType::format("Arn"))
                    .with_description(" (read-only)")
                    .with_provider_name("Arn"),
            )
            .attribute(bucket_encryption_attribute())
            .attribute(
                AttributeSchema::new("bucket_name", AttributeType::String)
                    .create_only()
                    .with_description("A name for the bucket. If you don't specify a name, AWS CloudFormation generates a unique ID and uses that ID for the bucket name. The bucket name mus...")
                    .with_provider_name("BucketName"),
            )
            .attribute(cors_configuration_attribute())
            .attribute(
                AttributeSchema::new("domain_name", AttributeType::String)
                    .with_description(" (read-only)")
                    .with_provider_name("DomainName"),
            )
            .attribute(
                AttributeSchema::new("dual_stack_domain_name", AttributeType::String)
                    .with_description(" (read-only)")
                    .with_provider_name("DualStackDomainName"),
            )
            .attribute(intelligent_tiering_configurations_attribute())
            .attribute(inventory_configurations_attribute())
            .attribute(lifecycle_configuration_attribute())
            .attribute(
                AttributeSchema::new("logging_configuration", AttributeType::structure("LoggingConfiguration")
                        .field(StructField::new("destination_bucket_name", AttributeType::String)
                            .with_description("The name of the bucket where Amazon S3 should store server access log files. You can store log files in any bucket that you own. By default, logs are ...")
                            .with_provider_name("DestinationBucketName"))
                        .field(StructField::new("log_file_prefix", AttributeType::String)
                            .with_description("A prefix for all log object keys. If you store log files from multiple Amazon S3 buckets in a single bucket, you can use a prefix to distinguish which...")
                            .with_provider_name("LogFilePrefix"))
                        .field(StructField::new("target_object_key_format", AttributeType::String)
                            .with_description("Amazon S3 key format for log objects. Only one format, either PartitionedPrefix or SimplePrefix, is allowed.")
                            .with_provider_name("TargetObjectKeyFormat")))
                    .with_description("Settings that define where logs are stored.")
                    .with_provider_name("LoggingConfiguration"),
            )
            .attribute(metadata_configuration_attribute())
            .attribute(metadata_table_configuration_attribute())
            .attribute(metrics_configurations_attribute())
            .attribute(notification_configuration_attribute())
            .attribute(object_lock_configuration_attribute())
            .attribute(
                AttributeSchema::new("object_lock_enabled", AttributeType::Bool)
                    .with_description("Indicates whether this bucket has an Object Lock configuration enabled. Enable ``ObjectLockEnabled`` when you apply ``ObjectLockConfiguration`` to a b...")
                    .with_provider_name("ObjectLockEnabled"),
            )
            .attribute(
                AttributeSchema::new("ownership_controls", AttributeType::structure("OwnershipControls")
                        .field(StructField::new("rules", AttributeType::list(AttributeType::structure("OwnershipControlsRule")
                                .field(StructField::new("object_ownership", AttributeType::one_of(Words::of("ObjectWriter").and("BucketOwnerPreferred").and("BucketOwnerEnforced")))
                                    .with_description("Specifies an object ownership rule.")
                                    .with_provider_name("ObjectOwnership"))))
                            .required()
                            .with_description("Specifies the container element for Object Ownership rules.")
                            .with_provider_name("Rules")
                            .with_block_name("rule")))
                    .with_description("Configuration that defines how Amazon S3 handles Object Ownership rules.")
                    .with_provider_name("OwnershipControls"),
            )
            .attribute(public_access_block_configuration_attribute())
            .attribute(
                AttributeSchema::new("regional_domain_name", AttributeType::String)
                    .with_description(" (read-only)")
                    .with_provider_name("RegionalDomainName"),
            )
            .attribute(replication_configuration_attribute())
            .attribute(
                AttributeSchema::new("tags", types::tags_type())
                    .with_description("An arbitrary set of tags (key-value pairs) for this S3 bucket.")
                    .with_provider_name("Tags"),
            )
            .attribute(
                AttributeSchema::new("versioning_configuration", AttributeType::structure("VersioningConfiguration")
                        .field(StructField::new("status", AttributeType::one_of(Words::of("Enabled").and("Suspended")))
                            .required()
                            .with_description("The versioning state of the bucket.")
                            .with_provider_name("Status")))
                    .with_description("Enables multiple versions of all objects in this bucket. You might enable versioning to prevent objects from being deleted or overwritten by mistake o...")
                    .with_provider_name("VersioningConfiguration"),
            )
            .attribute(website_configuration_attribute())
            .attribute(
                AttributeSchema::new("website_url", AttributeType::String)
                    .with_description(" (read-only)")
                    .with_provider_name("WebsiteURL"),
            ),
    }
}

/// The enum attributes and their values.
pub open spec fn enum_table() -> Seq<(Seq<char>, Seq<Seq<char>>)> {
    Seq::empty()
        .push(("abac_status"@, seq!["Enabled"@].push("Disabled"@)))
        .push(("access_control"@, seq!["AuthenticatedRead"@].push("AwsExecRead"@).push("BucketOwnerFullControl"@).push("BucketOwnerRead"@).push("LogDeliveryWrite"@).push("Private"@).push("PublicRead"@).push("PublicReadWrite"@)))
}

/// The resource type, and its enum attributes with their values.
pub fn enum_valid_values() -> (r: (&'static str, EnumValues))
    ensures
        r.0@ == "s3.bucket"@,
        r.1@ == enum_table(),
{
    let mut values = EnumValues::new();
    values.add("abac_status", Words::of("Enabled").and("Disabled"));
    values.add("access_control", Words::of("AuthenticatedRead").and("AwsExecRead").and("BucketOwnerFullControl").and("BucketOwnerRead").and("LogDeliveryWrite").and("Private").and("PublicRead").and("PublicReadWrite"));
    ("s3.bucket", values)
}

/// The provider's value for a value that has another spelling in the
/// configuration language: there is none.
pub open spec fn alias_reverse(attr_name: Seq<char>, value: Seq<char>) -> Option<Seq<char>> {
    None
}

/// The provider's value for a value that has another spelling in the
/// configuration language.
pub fn enum_alias_reverse(attr_name: &str, value: &str) -> (r: Option<&'static str>)
    ensures
        text::opt_slice(r) == alias_reverse(attr_name@, value@),
{
    None
}

} // verus!
