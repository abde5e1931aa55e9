//! The schema of `AWS::EC2::FlowLog`.
use vstd::prelude::*;

use crate::schema::{AttributeSchema, AttributeType, AttrView, AwsccSchemaConfig, ConfigView, FieldView, ResourceSchema, SchemaView, StructField, ToDsl, ToDslView, TypeView, Words};
use crate::schemas::types;
use crate::schemas::values::EnumValues;
use crate::text;

verus! {

/// The schema of `AWS::EC2::FlowLog`.
pub open spec fn config() -> ConfigView {
    ConfigView {
        aws_type_name: "AWS::EC2::FlowLog"@,
        resource_type_name: "ec2.flow_log"@,
        has_tags: true,
        schema: SchemaView::new("awscc.ec2.flow_log"@)
            .with_description("Specifies a VPC flow log, which enables you to capture IP traffic for a specific network interface, subnet, or VPC."@)
            .attribute(
                AttrView::new("deliver_cross_account_role"@, TypeView::format("IamRoleArn"@))
                    .create_only()
                    .with_description("The ARN of the IAM role that allows Amazon EC2 to publish flow logs across accounts."@)
                    .with_provider_name("DeliverCrossAccountRole"@),
            )
            .attribute(
                AttrView::new("deliver_logs_permission_arn"@, TypeView::format("IamRoleArn"@))
                    .create_only()
                    .with_description("The ARN for the IAM role that permits Amazon EC2 to publish flow logs to a CloudWatch Logs log group in your account. If you specify LogDestinationTyp..."@)
                    .with_provider_name("DeliverLogsPermissionArn"@),
            )
            .attribute(
                AttrView::new("destination_options"@, TypeView::structure("DestinationOptions"@)
                        .field(FieldView::new("file_format"@, TypeView::Enum(seq!["plain-text"@].push("parquet"@)))
                            .required()
                            .with_provider_name("FileFormat"@))
                        .field(FieldView::new("hive_compatible_partitions"@, TypeView::Bool)
                            .required()
                            .with_provider_name("HiveCompatiblePartitions"@))
                        .field(FieldView::new("per_hour_partition"@, TypeView::Bool)
                            .required()
                            .with_provider_name("PerHourPartition"@)))
                    .create_only()
                    .with_provider_name("DestinationOptions"@),
            )
            .attribute(
                AttrView::new("id"@, TypeView::String)
                    .with_description("The Flow Log ID (read-only)"@)
                    .with_provider_name("Id"@),
            )
            .attribute(
                AttrView::new("log_destination"@, TypeView::String)
                    .create_only()
                    .with_description("Specifies the destination to which the flow log data is to be published. Flow log data can be published to a CloudWatch Logs log group, an Amazon S3 b..."@)
                    .with_provider_name("LogDestination"@),
            )
            .attribute(
                AttrView::new("log_destination_type"@, TypeView::custom_enum("LogDestinationType"@, seq!["cloud-watch-logs"@].push("s3"@).push("kinesis-data-firehose"@), "awscc.ec2.flow_log"@, Some(ToDslView::hyphens())))
                    .create_only()
                    .with_description("Specifies the type of destination to which the flow log data is to be published. Flow log data can be published to CloudWatch Logs or Amazon S3."@)
                    .with_provider_name("LogDestinationType"@),
            )
            .attribute(
                AttrView::new("log_format"@, TypeView::String)
                    .create_only()
                    .with_description("The fields to include in the flow log record, in the order in which they should appear."@)
                    .with_provider_name("LogFormat"@),
            )
            .attribute(
                AttrView::new("log_group_name"@, TypeView::String)
                    .create_only()
                    .with_description("The name of a new or existing CloudWatch Logs log group where Amazon EC2 publishes your flow logs. If you specify LogDestinationType as s3 or kinesis-..."@)
                    .with_provider_name("LogGroupName"@),
            )
            .attribute(
                AttrView::new("max_aggregation_interval"@, TypeView::Int)
                    .create_only()
                    .with_description("The maximum interval of time during which a flow of packets is captured and aggregated into a flow log record. You can specify 60 seconds (1 minute) o..."@)
                    .with_provider_name("MaxAggregationInterval"@),
            )
            .attribute(
                AttrView::new("resource_id"@, TypeView::String)
                    .required()
                    .create_only()
                    .with_description("The ID of the subnet, network interface, or VPC for which you want to create a flow log."@)
                    .with_provider_name("ResourceId"@),
            )
            .attribute(
                AttrView::new("resource_type"@, TypeView::custom_enum("ResourceType"@, seq!["NetworkInterface"@].push("Subnet"@).push("VPC"@).push("TransitGateway"@).push("TransitGatewayAttachment"@).push("RegionalNatGateway"@), "awscc.ec2.flow_log"@, None))
                    .required()
                    .create_only()
                    .with_description("The type of resource for which to create the flow log. For example, if you specified a VPC ID for the ResourceId property, specify VPC for this proper..."@)
                    .with_provider_name("ResourceType"@),
            )
            .attribute(
                AttrView::new("tags"@, types::tags_view())
                    .with_description("The tags to apply to the flow logs."@)
                    .with_provider_name("Tags"@),
            )
            .attribute(
                AttrView::new("traffic_type"@, TypeView::custom_enum("TrafficType"@, seq!["ACCEPT"@].push("ALL"@).push("REJECT"@), "awscc.ec2.flow_log"@, None))
                    .create_only()
                    .with_description("The type of traffic to log. You can log traffic that the resource accepts or rejects, or all traffic."@)
                    .with_provider_name("TrafficType"@),
            ),
    }
}

/// The schema of `AWS::EC2::FlowLog`.
pub fn ec2_flow_log_config() -> (r: AwsccSchemaConfig)
    ensures
        r@ == config(),
{
    AwsccSchemaConfig {
        aws_type_name: "AWS::EC2::FlowLog",
        resource_type_name: "ec2.flow_log",
        has_tags: true,
        schema: ResourceSchema::new("awscc.ec2.flow_log")
            .with_description("Specifies a VPC flow log, which enables you to capture IP traffic for a specific network interface, subnet, or VPC.")
            .attribute(
                AttributeSchema::new("deliver_cross_account_role", AttributeType::format("IamRoleArn"))
                    .create_only()
                    .with_description("The ARN of the IAM role that allows Amazon EC2 to publish flow logs across accounts.")
                    .with_provider_name("DeliverCrossAccountRole"),
            )
            .attribute(
                AttributeSchema::new("deliver_logs_permission_arn", AttributeType::format("IamRoleArn"))
                    .create_only()
                    .with_description("The ARN for the IAM role that permits Amazon EC2 to publish flow logs to a CloudWatch Logs log group in your account. If you specify LogDestinationTyp...")
                    .with_provider_name("DeliverLogsPermissionArn"),
            )
            .attribute(
                AttributeSchema::new("destination_options", AttributeType::structure("DestinationOptions")
                        .field(StructField::new("file_format", AttributeType::one_of(Words::of("plain-text").and("parquet")))
                            .required()
                            .with_provider_name("FileFormat"))
                        .field(StructField::new("hive_compatible_partitions", AttributeType::Bool)
                            .required()
                            .with_provider_name("HiveCompatiblePartitions"))
                        .field(StructField::new("per_hour_partition", AttributeType::Bool)
                            .required()
                            .with_provider_name("PerHourPartition")))
                    .create_only()
                    .with_provider_name("DestinationOptions"),
            )
            .attribute(
                AttributeSchema::new("id", AttributeType::String)
                    .with_description("The Flow Log ID (read-only)")
                    .with_provider_name("Id"),
            )
            .attribute(
                AttributeSchema::new("log_destination", AttributeType::String)
                    .create_only()
                    .with_description("Specifies the destination to which the flow log data is to be published. Flow log data can be published to a CloudWatch Logs log group, an Amazon S3 b...")
                    .with_provider_name("LogDestination"),
            )
            .attribute(
                AttributeSchema::new("log_destination_type", AttributeType::custom_enum("LogDestinationType", Words::of("cloud-watch-logs").and("s3").and("kinesis-data-firehose"), "awscc.ec2.flow_log", Some(ToDsl::hyphens())))
                    .create_only()
                    .with_description("Specifies the type of destination to which the flow log data is to be published. Flow log data can be published to CloudWatch Logs or Amazon S3.")
                    .with_provider_name("LogDestinationType"),
            )
            .attribute(
                AttributeSchema::new("log_format", AttributeType::String)
                    .create_only()
                    .with_description("The fields to include in the flow log record, in the order in which they should appear.")
                    .with_provider_name("LogFormat"),
            )
            .attribute(
                AttributeSchema::new("log_group_name", AttributeType::String)
                    .create_only()
                    .with_description("The name of a new or existing CloudWatch Logs log group where Amazon EC2 publishes your flow logs. If you specify LogDestinationType as s3 or kinesis-...")
                    .with_provider_name("LogGroupName"),
            )
            .attribute(
                AttributeSchema::new("max_aggregation_interval", AttributeType::Int)
                    .create_only()
                    .with_description("The maximum interval of time during which a flow of packets is captured and aggregated into a flow log record. You can specify 60 seconds (1 minute) o...")
                    .with_provider_name("MaxAggregationInterval"),
            )
            .attribute(
                AttributeSchema::new("resource_id", AttributeType::String)
                    .required()
                    .create_only()
                    .with_description("The ID of the subnet, network interface, or VPC for which you want to create a flow log.")
                    .with_provider_name("ResourceId"),
            )
            .attribute(
                AttributeSchema::new("resource_type", AttributeType::custom_enum("ResourceType", Words::of("NetworkInterface").and("Subnet").and("VPC").and("TransitGateway").and("TransitGatewayAttachment").and("RegionalNatGateway"), "awscc.ec2.flow_log", None))
                    .required()
                    .create_only()
                    .with_description("The type of resource for which to create the flow log. For example, if you specified a VPC ID for the ResourceId property, specify VPC for this proper...")
                    .with_provider_name("ResourceType"),
            )
            .attribute(
                AttributeSchema::new("tags", types::tags_type())
                    .with_description("The tags to apply to the flow logs.")
                    .with_provider_name("Tags"),
            )
            .attribute(
                AttributeSchema::new("traffic_type", AttributeType::custom_enum("TrafficType", Words::of("ACCEPT").and("ALL").and("REJECT"), "awscc.ec2.flow_log", None))
                    .create_only()
                    .with_description("The type of traffic to log. You can log traffic that the resource accepts or rejects, or all traffic.")
                    .with_provider_name("TrafficType"),
            ),
    }
}

/// The enum attributes and their values.
pub open spec fn enum_table() -> Seq<(Seq<char>, Seq<Seq<char>>)> {
    Seq::empty()
        .push(("log_destination_type"@, seq!["cloud-watch-logs"@].push("s3"@).push("kinesis-data-firehose"@)))
        .push(("resource_type"@, seq!["NetworkInterface"@].push("Subnet"@).push("VPC"@).push("TransitGateway"@).push("TransitGatewayAttachment"@).push("RegionalNatGateway"@)))
        .push(("traffic_type"@, seq!["ACCEPT"@].push("ALL"@).push("REJECT"@)))
}

/// The resource type, and its enum attributes with their values.
pub fn enum_valid_values() -> (r: (&'static str, EnumValues))
    ensures
        r.0@ == "ec2.flow_log"@,
        r.1@ == enum_table(),
{
    let mut values = EnumValues::new();
    values.add("log_destination_type", Words::of("cloud-watch-logs").and("s3").and("kinesis-data-firehose"));
    values.add("resource_type", Words::of("NetworkInterface").and("Subnet").and("VPC").and("TransitGateway").and("TransitGatewayAttachment").and("RegionalNatGateway"));
    values.add("traffic_type", Words::of("ACCEPT").and("ALL").and("REJECT"));
    ("ec2.flow_log", values)
}

/// The provider's value for a value that has another spelling in the
/// configuration language: there is none.
pub open spec fn alias_reverse(attr_name: Seq<char>, value: Seq<char>) -> Option<Seq<char>> {
    None
}

/// The provider's value for a value that has another spelling in the
/// configuration language.
pub fn enum_alias_reverse(attr_name: &str, value: &str) -> (r: Option<&'static str>)
    ensures
        text::opt_slice(r) == alias_reverse(attr_name@, value@),
{
    None
}

} // verus!
