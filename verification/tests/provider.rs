use aws_sdk_cloudcontrol::operation::create_resource::CreateResourceError;
use aws_sdk_cloudcontrol::operation::delete_resource::DeleteResourceError;
use aws_sdk_cloudcontrol::operation::get_resource::GetResourceError;
use aws_sdk_cloudcontrol::types::error::AlreadyExistsException;
use aws_sdk_cloudcontrol::types::error::ConcurrentOperationException;
use aws_sdk_cloudcontrol::types::error::HandlerFailureException;
use aws_sdk_cloudcontrol::types::error::HandlerInternalFailureException;
use aws_sdk_cloudcontrol::types::error::InvalidRequestException;
use aws_sdk_cloudcontrol::types::error::NetworkFailureException;
use aws_sdk_cloudcontrol::types::error::NotStabilizedException;
use aws_sdk_cloudcontrol::types::error::ResourceNotFoundException;
use aws_sdk_cloudcontrol::types::error::ServiceInternalErrorException;
use aws_sdk_cloudcontrol::types::error::ThrottlingException;
use aws_sdk_cloudcontrol::types::error::TypeNotFoundException;
use aws_smithy_runtime_api::client::result::SdkError;
use aws_smithy_types::error::metadata::ProvideErrorMetadata;
use carina_awscc::json::{member, Json};
use carina_awscc::provider::cloud_control::{
    is_not_found_error, is_retryable_sdk_error, is_retryable_status_message, max_polling_attempts,
    parse_resource_properties, SdkErrorKind, CREATE_RETRY_INITIAL_DELAY_SECS, CREATE_RETRY_MAX_ATTEMPTS,
    CREATE_RETRY_MAX_DELAY_SECS, DELETE_RETRY_INITIAL_DELAY_SECS, DELETE_RETRY_MAX_ATTEMPTS,
    DELETE_RETRY_MAX_DELAY_SECS,
};
use carina_awscc::provider::convert::{aws_value_to_dsl, dsl_value_to_aws, json_to_value, value_to_json};
use carina_awscc::provider::normalizer::{resolve_struct_enum_values, restore_unreturned_attrs_impl};
use carina_awscc::provider::resolve_enum_identifiers_impl;
use carina_awscc::provider::update::build_update_patches;
use carina_awscc::resource::{Resource, ResourceId, State};
use carina_awscc::schema::{AttributeType, AwsccSchemaConfig, Check, StructField, ToDsl};
use carina_awscc::schemas::registry::get_schema_config;
use carina_awscc::schemas::types::{awscc_region, iam_policy_document};
use carina_awscc::schemas::vpc_endpoint::ec2_vpc_endpoint_config;
use carina_awscc::value::{get, put, DslValue, Float};

fn at<'a>(entries: &'a Vec<(String, DslValue)>, key: &str) -> &'a DslValue {
    get(entries, key).expect("attribute")
}

fn resource(provider: &str, resource_type: &str, name: &str) -> Resource {
    Resource { id: ResourceId::with_provider(provider, resource_type, name), attributes: Vec::new() }
}

fn state_attr<'a>(states: &'a Vec<(ResourceId, State)>, id: &ResourceId, key: &str) -> Option<&'a DslValue> {
    let (_, state) = states.iter().find(|(i, _)| i.same(id)).expect("state");
    get(&state.attributes, key)
}

fn json(text: &str) -> Json {
    parse_resource_properties(text).expect("JSON")
}

fn members(j: &Json) -> &Vec<(String, Json)> {
    match j {
        Json::Object(m) => m,
        other => panic!("Expected JSON Object, got: {:?}", other),
    }
}

fn text_at<'a>(j: &'a Json, key: &str) -> Option<&'a str> {
    j.get(key).and_then(|v| v.as_str())
}

fn float(x: f64) -> DslValue {
    DslValue::Float(Float { bits: x.to_bits() })
}

fn quiet_nan() -> f64 {
    f64::from_bits(0x7ff8_0000_0000_0000)
}

/// What the library reads of an error of the SDK.
fn kind_of<E: ProvideErrorMetadata, R>(error: &SdkError<E, R>) -> SdkErrorKind {
    match error {
        SdkError::TimeoutError(_) => SdkErrorKind::Timeout,
        SdkError::DispatchFailure(_) => SdkErrorKind::Dispatch,
        SdkError::ServiceError(e) => SdkErrorKind::Service(e.err().code().map(|c| c.to_string())),
        _ => SdkErrorKind::Other,
    }
}

#[test]
fn test_is_retryable_status_message_ipam_source_resource() {
    assert!(is_retryable_status_message(
        "Operation failed: IpamPool 'ipam-pool-xxx' is missing a source resource"
    ));
}

#[test]
fn test_is_retryable_status_message_throttling() {
    assert!(is_retryable_status_message(
        "Throttling: Rate exceeded"
    ));
}

#[test]
fn test_is_retryable_status_message_request_limit() {
    assert!(is_retryable_status_message(
        "RequestLimitExceeded: too many requests"
    ));
}

#[test]
fn test_is_retryable_status_message_service_unavailable() {
    assert!(is_retryable_status_message(
        "ServiceUnavailable: try again later"
    ));
}

#[test]
fn test_is_retryable_status_message_internal_error() {
    assert!(is_retryable_status_message(
        "InternalError: something went wrong"
    ));
}

#[test]
fn test_is_not_retryable_status_message() {
    assert!(!is_retryable_status_message(
        "InvalidParameterValue: invalid CIDR"
    ));
    assert!(!is_retryable_status_message(
        "ResourceNotFoundException: not found"
    ));
    assert!(!is_retryable_status_message(
        "AccessDeniedException: not authorized"
    ));
}

/// Helper to build an ErrorMetadata with a given error code.
fn error_meta(code: &str) -> aws_smithy_types::error::ErrorMetadata {
    aws_smithy_types::error::ErrorMetadata::builder()
        .code(code)
        .build()
}

#[test]
fn test_is_retryable_sdk_error_throttling() {
    let err = CreateResourceError::ThrottlingException(
        ThrottlingException::builder()
            .message("Rate exceeded")
            .meta(error_meta("ThrottlingException"))
            .build(),
    );
    let sdk_err = SdkError::service_error(err, http::Response::new(""));
    assert!(is_retryable_sdk_error(&kind_of(&sdk_err)));
}

#[test]
fn test_is_retryable_sdk_error_service_internal() {
    let err = CreateResourceError::ServiceInternalErrorException(
        ServiceInternalErrorException::builder()
            .message("Internal error")
            .meta(error_meta("ServiceInternalErrorException"))
            .build(),
    );
    let sdk_err = SdkError::service_error(err, http::Response::new(""));
    assert!(is_retryable_sdk_error(&kind_of(&sdk_err)));
}

#[test]
fn test_is_retryable_sdk_error_handler_failure() {
    let err = CreateResourceError::HandlerFailureException(
        HandlerFailureException::builder()
            .message("Handler failed")
            .meta(error_meta("HandlerFailureException"))
            .build(),
    );
    let sdk_err = SdkError::service_error(err, http::Response::new(""));
    assert!(is_retryable_sdk_error(&kind_of(&sdk_err)));
}

#[test]
fn test_is_retryable_sdk_error_handler_internal_failure() {
    let err = CreateResourceError::HandlerInternalFailureException(
        HandlerInternalFailureException::builder()
            .message("Internal failure")
            .meta(error_meta("HandlerInternalFailureException"))
            .build(),
    );
    let sdk_err = SdkError::service_error(err, http::Response::new(""));
    assert!(is_retryable_sdk_error(&kind_of(&sdk_err)));
}

#[test]
fn test_is_retryable_sdk_error_network_failure() {
    let err = CreateResourceError::NetworkFailureException(
        NetworkFailureException::builder()
            .message("Network error")
            .meta(error_meta("NetworkFailureException"))
            .build(),
    );
    let sdk_err = SdkError::service_error(err, http::Response::new(""));
    assert!(is_retryable_sdk_error(&kind_of(&sdk_err)));
}

#[test]
fn test_is_retryable_sdk_error_concurrent_operation() {
    let err = CreateResourceError::ConcurrentOperationException(
        ConcurrentOperationException::builder()
            .message("Concurrent operation")
            .meta(error_meta("ConcurrentOperationException"))
            .build(),
    );
    let sdk_err = SdkError::service_error(err, http::Response::new(""));
    assert!(is_retryable_sdk_error(&kind_of(&sdk_err)));
}

#[test]
fn test_is_retryable_sdk_error_not_stabilized() {
    let err = CreateResourceError::NotStabilizedException(
        NotStabilizedException::builder()
            .message("Not stabilized")
            .meta(error_meta("NotStabilizedException"))
            .build(),
    );
    let sdk_err = SdkError::service_error(err, http::Response::new(""));
    assert!(is_retryable_sdk_error(&kind_of(&sdk_err)));
}

#[test]
fn test_is_not_retryable_sdk_error_invalid_request() {
    let err = CreateResourceError::InvalidRequestException(
        InvalidRequestException::builder()
            .message("Invalid request")
            .meta(error_meta("InvalidRequestException"))
            .build(),
    );
    let sdk_err = SdkError::service_error(err, http::Response::new(""));
    assert!(!is_retryable_sdk_error(&kind_of(&sdk_err)));
}

#[test]
fn test_is_not_retryable_sdk_error_already_exists() {
    let err = CreateResourceError::AlreadyExistsException(
        AlreadyExistsException::builder()
            .message("Already exists")
            .meta(error_meta("AlreadyExistsException"))
            .build(),
    );
    let sdk_err = SdkError::service_error(err, http::Response::new(""));
    assert!(!is_retryable_sdk_error(&kind_of(&sdk_err)));
}

#[test]
fn test_is_retryable_sdk_error_timeout() {
    let sdk_err: SdkError<CreateResourceError, http::Response<&str>> =
        SdkError::timeout_error("connection timed out");
    assert!(is_retryable_sdk_error(&kind_of(&sdk_err)));
}

#[test]
fn test_is_retryable_sdk_error_delete_throttling() {
    let err = DeleteResourceError::ThrottlingException(
        ThrottlingException::builder()
            .message("Rate exceeded")
            .meta(error_meta("ThrottlingException"))
            .build(),
    );
    let sdk_err = SdkError::service_error(err, http::Response::new(""));
    assert!(is_retryable_sdk_error(&kind_of(&sdk_err)));
}

#[test]
fn test_is_not_retryable_sdk_error_delete_type_not_found() {
    let err = DeleteResourceError::TypeNotFoundException(
        TypeNotFoundException::builder()
            .message("Type not found")
            .meta(error_meta("TypeNotFoundException"))
            .build(),
    );
    let sdk_err = SdkError::service_error(err, http::Response::new(""));
    assert!(!is_retryable_sdk_error(&kind_of(&sdk_err)));
}

#[test]
fn test_is_not_found_error_resource_not_found() {
    let err = GetResourceError::ResourceNotFoundException(
        ResourceNotFoundException::builder()
            .message("Resource not found")
            .meta(error_meta("ResourceNotFoundException"))
            .build(),
    );
    let sdk_err = SdkError::service_error(err, http::Response::new(""));
    assert!(is_not_found_error(&kind_of(&sdk_err)));
}

#[test]
fn test_is_not_found_error_handler_not_found_code() {
    // HandlerNotFoundException is not a typed variant, but may appear as an error code
    let err = GetResourceError::generic(
        aws_smithy_types::error::ErrorMetadata::builder()
            .code("HandlerNotFoundException")
            .message("Handler not found")
            .build(),
    );
    let sdk_err = SdkError::service_error(err, http::Response::new(""));
    assert!(is_not_found_error(&kind_of(&sdk_err)));
}

#[test]
fn test_is_not_found_error_false_for_throttling() {
    let err = GetResourceError::ThrottlingException(
        ThrottlingException::builder()
            .message("Rate exceeded")
            .meta(error_meta("ThrottlingException"))
            .build(),
    );
    let sdk_err = SdkError::service_error(err, http::Response::new(""));
    assert!(!is_not_found_error(&kind_of(&sdk_err)));
}

#[test]
fn test_is_not_found_error_false_for_timeout() {
    let sdk_err: SdkError<GetResourceError, http::Response<&str>> =
        SdkError::timeout_error("connection timed out");
    assert!(!is_not_found_error(&kind_of(&sdk_err)));
}

#[test]
fn test_max_polling_attempts_ipam_pool_delete() {
    assert_eq!(
        max_polling_attempts("AWS::EC2::IPAMPool", "delete"),
        360
    );
}

#[test]
fn test_max_polling_attempts_ipam_delete() {
    assert_eq!(
        max_polling_attempts("AWS::EC2::IPAM", "delete"),
        360
    );
}

#[test]
fn test_max_polling_attempts_default_delete() {
    assert_eq!(
        max_polling_attempts("AWS::EC2::VPC", "delete"),
        120
    );
}

#[test]
fn test_max_polling_attempts_ipam_create() {
    // IPAM create should use default timeout
    assert_eq!(
        max_polling_attempts("AWS::EC2::IPAMPool", "create"),
        120
    );
}

#[test]
fn provider_test_resolve_enum_identifiers_bare_ident() {
    let mut resource = resource("", "ec2.vpc", "test");
    put(&mut resource.attributes, "_provider".to_string(), DslValue::String("awscc".to_string()));
    put(&mut resource.attributes, "instance_tenancy".to_string(),
        DslValue::UnresolvedIdent("dedicated".to_string(), None),
    );

    // After resolution, the bare ident should be fully qualified
    let mut resources = vec![resource];
    resolve_enum_identifiers_impl(&mut resources);
    match at(&resources[0].attributes, "instance_tenancy") {
        DslValue::String(s) => assert!(
            s.contains("InstanceTenancy") && s.contains("dedicated"),
            "Expected namespaced enum, got: {}",
            s
        ),
        other => panic!("Expected String, got: {:?}", other),
    }
}

#[test]
fn provider_test_resolve_enum_identifiers_typename_value() {
    let mut resource = resource("", "ec2.vpc", "test");
    put(&mut resource.attributes, "_provider".to_string(), DslValue::String("awscc".to_string()));
    put(&mut resource.attributes, "instance_tenancy".to_string(),
        DslValue::UnresolvedIdent("InstanceTenancy".to_string(), Some("dedicated".to_string())),
    );

    let mut resources = vec![resource];
    resolve_enum_identifiers_impl(&mut resources);
    match at(&resources[0].attributes, "instance_tenancy") {
        DslValue::String(s) => assert!(
            s.contains("InstanceTenancy") && s.contains("dedicated"),
            "Expected namespaced enum, got: {}",
            s
        ),
        other => panic!("Expected String, got: {:?}", other),
    }
}

#[test]
fn provider_test_resolve_enum_identifiers_skips_non_awscc() {
    let mut resource = resource("", "s3.bucket", "test");
    put(&mut resource.attributes, "_provider".to_string(), DslValue::String("aws".to_string()));
    put(&mut resource.attributes, "instance_tenancy".to_string(),
        DslValue::UnresolvedIdent("dedicated".to_string(), None),
    );

    let mut resources = vec![resource];
    resolve_enum_identifiers_impl(&mut resources);
    // Should remain unchanged
    assert!(matches!(
        at(&resources[0].attributes, "instance_tenancy"),
        DslValue::UnresolvedIdent(_, _)
    ));
}

#[test]
fn provider_test_resolve_enum_identifiers_hyphen_to_underscore() {
    // Test that flow log's log_destination_type with hyphens gets converted to underscores
    let mut resource = resource("", "ec2.flow_log", "test");
    put(&mut resource.attributes, "_provider".to_string(), DslValue::String("awscc".to_string()));
    put(&mut resource.attributes, "log_destination_type".to_string(),
        DslValue::UnresolvedIdent("cloud_watch_logs".to_string(), None),
    );

    let mut resources = vec![resource];
    resolve_enum_identifiers_impl(&mut resources);
    match at(&resources[0].attributes, "log_destination_type") {
        DslValue::String(s) => {
            assert_eq!(
                s, "awscc.ec2.flow_log.LogDestinationType.cloud_watch_logs",
                "Expected underscored namespaced enum, got: {}",
                s
            );
        }
        other => panic!("Expected String, got: {:?}", other),
    }
}

#[test]
fn provider_test_resolve_enum_identifiers_hyphen_string_to_underscore() {
    // Test that a plain string with hyphens is converted to underscores via to_dsl
    let mut resource = resource("", "ec2.flow_log", "test");
    put(&mut resource.attributes, "_provider".to_string(), DslValue::String("awscc".to_string()));
    put(&mut resource.attributes, "log_destination_type".to_string(),
        DslValue::String("cloud-watch-logs".to_string()),
    );

    let mut resources = vec![resource];
    resolve_enum_identifiers_impl(&mut resources);
    match at(&resources[0].attributes, "log_destination_type") {
        DslValue::String(s) => {
            assert_eq!(
                s, "awscc.ec2.flow_log.LogDestinationType.cloud_watch_logs",
                "Hyphenated string should be converted to underscore form, got: {}",
                s
            );
        }
        other => panic!("Expected String, got: {:?}", other),
    }
}

#[test]
fn provider_test_restore_unreturned_attrs_impl_create_only() {
    // Create a state that's missing a create-only attribute
    let id = ResourceId::with_provider("awscc", "ec2.nat_gateway", "test");
    let mut state = State::existing(id.clone(), Vec::new());
    put(&mut state.attributes, "nat_gateway_id".to_string(),
        DslValue::String("nat-123".to_string()),
    );

    let mut current_states = Vec::new();
    current_states.push((id.clone(), state));

    // Build saved attrs with a create-only attribute (subnet_id is create-only for nat_gateway)
    let mut saved = Vec::new();
    put(&mut saved, "subnet_id".to_string(),
        DslValue::String("subnet-abc".to_string()),
    );
    let mut saved_attrs = Vec::new();
    saved_attrs.push((id.clone(), saved));

    restore_unreturned_attrs_impl(&mut current_states, &saved_attrs);

    // subnet_id is create-only on nat_gateway, so it should be restored
    assert_eq!(
        state_attr(&current_states, &id, "subnet_id"),
        Some(&DslValue::String("subnet-abc".to_string()))
    );
}

#[test]
fn provider_test_restore_unreturned_attrs_skips_non_awscc() {
    let id = ResourceId::with_provider("aws", "s3.bucket", "test");
    let state = State::existing(id.clone(), Vec::new());

    let mut current_states = Vec::new();
    current_states.push((id.clone(), state));

    let mut saved = Vec::new();
    put(&mut saved, "some_attr".to_string(), DslValue::String("value".to_string()));
    let mut saved_attrs = Vec::new();
    saved_attrs.push((id.clone(), saved));

    restore_unreturned_attrs_impl(&mut current_states, &saved_attrs);

    // Should not have added anything since provider is "aws"
    assert!(state_attr(&current_states, &id, "some_attr").is_none());
}

#[test]
fn provider_test_restore_unreturned_attrs_skips_already_present() {
    let id = ResourceId::with_provider("awscc", "ec2.nat_gateway", "test");
    let mut attrs = Vec::new();
    put(&mut attrs, "subnet_id".to_string(),
        DslValue::String("subnet-current".to_string()),
    );
    let state = State::existing(id.clone(), attrs);

    let mut current_states = Vec::new();
    current_states.push((id.clone(), state));

    let mut saved = Vec::new();
    put(&mut saved, "subnet_id".to_string(),
        DslValue::String("subnet-saved".to_string()),
    );
    let mut saved_attrs = Vec::new();
    saved_attrs.push((id.clone(), saved));

    restore_unreturned_attrs_impl(&mut current_states, &saved_attrs);

    // Should keep the current value, not overwrite with saved
    assert_eq!(
        state_attr(&current_states, &id, "subnet_id"),
        Some(&DslValue::String("subnet-current".to_string()))
    );
}

#[test]
fn provider_test_restore_unreturned_attrs_impl_non_create_only() {
    // Test that non-create-only attributes (like description on security_group_egress)
    // are also restored when CloudControl doesn't return them
    let id = ResourceId::with_provider("awscc", "ec2.security_group_egress", "test");
    let mut state = State::existing(id.clone(), Vec::new());
    put(&mut state.attributes, "ip_protocol".to_string(),
        DslValue::String("awscc.ec2.security_group_egress.IpProtocol.all".to_string()),
    );

    let mut current_states = Vec::new();
    current_states.push((id.clone(), state));

    // description is NOT create-only but CloudControl doesn't return it
    let mut saved = Vec::new();
    put(&mut saved, "description".to_string(),
        DslValue::String("Allow all outbound".to_string()),
    );
    let mut saved_attrs = Vec::new();
    saved_attrs.push((id.clone(), saved));

    restore_unreturned_attrs_impl(&mut current_states, &saved_attrs);

    // description should be restored even though it's not create-only
    assert_eq!(
        state_attr(&current_states, &id, "description"),
        Some(&DslValue::String("Allow all outbound".to_string()))
    );
}

#[test]
fn provider_test_resolve_enum_identifiers_ip_protocol_all_alias() {
    // Test that bare "all" identifier resolves to namespaced form for IpProtocol
    let mut resource = resource("", "ec2.security_group_egress", "test");
    put(&mut resource.attributes, "_provider".to_string(), DslValue::String("awscc".to_string()));
    put(&mut resource.attributes, "ip_protocol".to_string(),
        DslValue::UnresolvedIdent("all".to_string(), None),
    );

    let mut resources = vec![resource];
    resolve_enum_identifiers_impl(&mut resources);
    match at(&resources[0].attributes, "ip_protocol") {
        DslValue::String(s) => {
            assert_eq!(
                s, "awscc.ec2.security_group_egress.IpProtocol.all",
                "Expected namespaced IpProtocol.all, got: {}",
                s
            );
        }
        other => panic!("Expected String, got: {:?}", other),
    }
}

#[test]
fn provider_test_resolve_enum_identifiers_ip_protocol_tcp() {
    // Test that bare "tcp" identifier resolves correctly
    let mut resource = resource("", "ec2.security_group_egress", "test");
    put(&mut resource.attributes, "_provider".to_string(), DslValue::String("awscc".to_string()));
    put(&mut resource.attributes, "ip_protocol".to_string(),
        DslValue::UnresolvedIdent("tcp".to_string(), None),
    );

    let mut resources = vec![resource];
    resolve_enum_identifiers_impl(&mut resources);
    match at(&resources[0].attributes, "ip_protocol") {
        DslValue::String(s) => {
            assert_eq!(
                s, "awscc.ec2.security_group_egress.IpProtocol.tcp",
                "Expected namespaced IpProtocol.tcp, got: {}",
                s
            );
        }
        other => panic!("Expected String, got: {:?}", other),
    }
}

/// Helper to create struct fields with a Custom enum type for testing
fn test_ip_protocol_fields() -> Vec<StructField> {
    vec![
        StructField::new(
            "ip_protocol",
            AttributeType::Custom {
                name: "IpProtocol".to_string(),
                base: Box::new(AttributeType::String),
                check: Check::Format,
                namespace: Some("awscc.ec2.security_group".to_string()),
                to_dsl: Some(ToDsl::alias("-1", "all", false)),
            },
        )
        .with_provider_name("IpProtocol"),
        StructField::new("from_port", AttributeType::Int).with_provider_name("FromPort"),
        StructField::new("cidr_ip", AttributeType::String).with_provider_name("CidrIp"),
    ]
}

#[test]
fn provider_test_resolve_struct_enum_values_bare_ident() {
    let fields = test_ip_protocol_fields();
    let mut map = Vec::new();
    put(&mut map, "ip_protocol".to_string(),
        DslValue::UnresolvedIdent("all".to_string(), None),
    );
    put(&mut map, "from_port".to_string(), DslValue::Int(443));
    let value = DslValue::List(vec![DslValue::Mapping(map)]);

    let resolved = resolve_struct_enum_values(&value, &fields);
    if let DslValue::List(items) = resolved {
        if let DslValue::Mapping(m) = &items[0] {
            match at(m, "ip_protocol") {
                DslValue::String(s) => {
                    assert_eq!(s, "awscc.ec2.security_group.IpProtocol.all");
                }
                other => panic!("Expected String, got: {:?}", other),
            }
            // Non-enum field should be unchanged
            assert_eq!(*at(m, "from_port"), DslValue::Int(443));
        } else {
            panic!("Expected Map");
        }
    } else {
        panic!("Expected List");
    }
}

#[test]
fn provider_test_resolve_struct_enum_values_typename_dot_value() {
    let fields = test_ip_protocol_fields();
    let mut map = Vec::new();
    put(&mut map, "ip_protocol".to_string(),
        DslValue::UnresolvedIdent("IpProtocol".to_string(), Some("tcp".to_string())),
    );
    let value = DslValue::List(vec![DslValue::Mapping(map)]);

    let resolved = resolve_struct_enum_values(&value, &fields);
    if let DslValue::List(items) = resolved {
        if let DslValue::Mapping(m) = &items[0] {
            match at(m, "ip_protocol") {
                DslValue::String(s) => {
                    assert_eq!(s, "awscc.ec2.security_group.IpProtocol.tcp");
                }
                other => panic!("Expected String, got: {:?}", other),
            }
        } else {
            panic!("Expected Map");
        }
    } else {
        panic!("Expected List");
    }
}

#[test]
fn provider_test_resolve_struct_enum_values_string_passthrough() {
    let fields = test_ip_protocol_fields();
    let mut map = Vec::new();
    // Already-resolved string with dots should pass through unchanged
    put(&mut map, "ip_protocol".to_string(),
        DslValue::String("awscc.ec2.security_group.IpProtocol.tcp".to_string()),
    );
    let value = DslValue::List(vec![DslValue::Mapping(map)]);

    let resolved = resolve_struct_enum_values(&value, &fields);
    if let DslValue::List(items) = resolved {
        if let DslValue::Mapping(m) = &items[0] {
            match at(m, "ip_protocol") {
                DslValue::String(s) => {
                    assert_eq!(s, "awscc.ec2.security_group.IpProtocol.tcp");
                }
                other => panic!("Expected String, got: {:?}", other),
            }
        } else {
            panic!("Expected Map");
        }
    } else {
        panic!("Expected List");
    }
}

#[test]
fn test_aws_value_to_dsl_bare_struct_returns_map() {
    let fields = vec![
        StructField::new("status", AttributeType::String).with_provider_name("Status"),
        StructField::new("mfa_delete", AttributeType::String).with_provider_name("MfaDelete"),
    ];
    let attr_type = AttributeType::Struct {
        name: "VersioningConfiguration".to_string(),
        fields,
    };
    let json_val = json(r#"{ "Status": "Enabled" }"#);

    let result = aws_value_to_dsl(
        "versioning_configuration",
        &json_val,
        &attr_type,
        "AWS::S3::Bucket",
    );
    let result = result.expect("Should return Some");

    // Must be DslValue::Mapping(...) to match parser output for map assignment syntax
    if let DslValue::Mapping(map) = &result {
        assert_eq!(
            get(map, "status"),
            Some(&DslValue::String("Enabled".to_string()))
        );
    } else {
        panic!("Expected DslValue::Mapping, got: {:?}", result);
    }
}

#[test]
fn test_dsl_value_to_aws_map_for_bare_struct() {
    let fields = vec![
        StructField::new("status", AttributeType::String).with_provider_name("Status"),
        StructField::new("mfa_delete", AttributeType::String).with_provider_name("MfaDelete"),
    ];
    let attr_type = AttributeType::Struct {
        name: "VersioningConfiguration".to_string(),
        fields,
    };

    // Parser produces DslValue::Mapping(...) for map assignment syntax (= { ... })
    let mut map = Vec::new();
    put(&mut map, "status".to_string(), DslValue::String("Enabled".to_string()));
    let dsl_value = DslValue::Mapping(map);

    let result = dsl_value_to_aws(
        &dsl_value,
        &attr_type,
        "AWS::S3::Bucket",
        "versioning_configuration",
    );
    let result = result.expect("Should return Some");

    // Must produce a JSON object (not array)
    if let Json::Object(obj) = &result {
        assert_eq!(member(obj, "Status"), Some(&json(r#""Enabled""#)));
    } else {
        panic!("Expected JSON Object, got: {:?}", result);
    }
}

#[test]
fn test_dsl_value_to_aws_list_for_bare_struct() {
    let fields = vec![
        StructField::new("status", AttributeType::String).with_provider_name("Status"),
        StructField::new("mfa_delete", AttributeType::String).with_provider_name("MfaDelete"),
    ];
    let attr_type = AttributeType::Struct {
        name: "VersioningConfiguration".to_string(),
        fields,
    };

    // Parser produces DslValue::List(vec![DslValue::Mapping(...)]) for block syntax (name { ... })
    let mut map = Vec::new();
    put(&mut map, "status".to_string(), DslValue::String("Enabled".to_string()));
    let dsl_value = DslValue::List(vec![DslValue::Mapping(map)]);

    let result = dsl_value_to_aws(
        &dsl_value,
        &attr_type,
        "AWS::S3::Bucket",
        "versioning_configuration",
    );
    let result = result.expect("Should return Some");

    // Must produce a JSON object (not array)
    if let Json::Object(obj) = &result {
        assert_eq!(member(obj, "Status"), Some(&json(r#""Enabled""#)));
    } else {
        panic!("Expected JSON Object, got: {:?}", result);
    }
}

#[test]
fn test_bare_struct_roundtrip_no_spurious_diff() {
    let fields =
        vec![StructField::new("status", AttributeType::String).with_provider_name("Status")];
    let attr_type = AttributeType::Struct {
        name: "VersioningConfiguration".to_string(),
        fields,
    };

    // Simulate AWS API response (JSON object)
    let aws_json = json(r#"{ "Status": "Enabled" }"#);

    // Read path: convert AWS JSON to DSL value
    let dsl_value = aws_value_to_dsl(
        "versioning_configuration",
        &aws_json,
        &attr_type,
        "AWS::S3::Bucket",
    )
    .expect("read should succeed");

    // Simulate parser output (what the user wrote in .crn with map assignment syntax)
    let mut parser_map = Vec::new();
    put(&mut parser_map, "status".to_string(), DslValue::String("Enabled".to_string()));
    let parser_value = DslValue::Mapping(parser_map);

    // The read value and parser value must be equal (no spurious diff)
    assert_eq!(
        dsl_value, parser_value,
        "Read value should match parser value — no spurious diff"
    );

    // Write path: convert DSL value back to AWS JSON
    let written_json = dsl_value_to_aws(
        &dsl_value,
        &attr_type,
        "AWS::S3::Bucket",
        "versioning_configuration",
    )
    .expect("write should succeed");

    assert_eq!(
        written_json, aws_json,
        "Round-trip should produce original AWS JSON"
    );
}

#[test]
fn test_vpc_endpoint_type_roundtrip_no_false_diff() {
    // vpc_endpoint_type shows false diff after apply
    // DSL uses bare `Gateway`, AWS returns "Gateway" as string.
    // Both must normalize to the same namespaced value.

    let config = ec2_vpc_endpoint_config();
    let attr_schema = config.schema.get("vpc_endpoint_type").unwrap();

    // 1. DSL side: resolve_enum_identifiers_impl converts bare `Gateway` ident
    let mut resource = resource("", "ec2.vpc_endpoint", "test");
    put(&mut resource.attributes, "_provider".to_string(), DslValue::String("awscc".to_string()));
    put(&mut resource.attributes, "vpc_id".to_string(), DslValue::String("vpc-123".to_string()));
    put(&mut resource.attributes, "vpc_endpoint_type".to_string(),
        DslValue::UnresolvedIdent("Gateway".to_string(), None),
    );

    let mut resources = vec![resource];
    resolve_enum_identifiers_impl(&mut resources);

    let dsl_resolved = at(&resources[0].attributes, "vpc_endpoint_type");
    assert_eq!(
        dsl_resolved,
        &DslValue::String("awscc.ec2.vpc_endpoint.VpcEndpointType.Gateway".to_string()),
        "DSL bare ident `Gateway` should resolve to namespaced form"
    );

    // 2. AWS read-back side: aws_value_to_dsl converts "Gateway" string
    let aws_json = json(r#""Gateway""#);
    let aws_dsl = aws_value_to_dsl(
        "vpc_endpoint_type",
        &aws_json,
        &attr_schema.attr_type,
        "ec2.vpc_endpoint",
    )
    .expect("aws_value_to_dsl should return Some");

    assert_eq!(
        aws_dsl,
        DslValue::String("awscc.ec2.vpc_endpoint.VpcEndpointType.Gateway".to_string()),
        "AWS read-back 'Gateway' should normalize to namespaced form"
    );

    // 3. Both must be equal (no false diff)
    assert_eq!(
        dsl_resolved, &aws_dsl,
        "DSL resolved value and AWS read-back value must match — no false diff"
    );
}

#[test]
fn test_delete_retry_constants() {
    assert_eq!(DELETE_RETRY_MAX_ATTEMPTS, 12);
    assert_eq!(DELETE_RETRY_INITIAL_DELAY_SECS, 10);
    assert_eq!(DELETE_RETRY_MAX_DELAY_SECS, 120);
}

#[test]
fn test_delete_retry_constants_match_create() {
    // Delete retry should use the same strategy as create retry
    assert_eq!(DELETE_RETRY_MAX_ATTEMPTS, CREATE_RETRY_MAX_ATTEMPTS);
    assert_eq!(
        DELETE_RETRY_INITIAL_DELAY_SECS,
        CREATE_RETRY_INITIAL_DELAY_SECS
    );
    assert_eq!(DELETE_RETRY_MAX_DELAY_SECS, CREATE_RETRY_MAX_DELAY_SECS);
}

#[test]
fn provider_test_resolve_enum_identifiers_impl_struct_field() {
    // Test that resolve_enum_identifiers_impl handles struct field enums
    // in ec2_security_group
    let mut resource = resource("", "ec2.security_group", "test-sg");
    put(&mut resource.attributes, "_provider".to_string(), DslValue::String("awscc".to_string()));
    put(&mut resource.attributes, "group_description".to_string(),
        DslValue::String("test".to_string()),
    );
    let mut egress_map = Vec::new();
    put(&mut egress_map, "ip_protocol".to_string(),
        DslValue::UnresolvedIdent("all".to_string(), None),
    );
    put(&mut egress_map, "cidr_ip".to_string(),
        DslValue::String("0.0.0.0/0".to_string()),
    );
    put(&mut resource.attributes, "security_group_egress".to_string(),
        DslValue::List(vec![DslValue::Mapping(egress_map)]),
    );

    let mut resources = vec![resource];
    resolve_enum_identifiers_impl(&mut resources);

    // Check that the struct field enum was resolved
    if let DslValue::List(items) = at(&resources[0].attributes, "security_group_egress") {
        if let DslValue::Mapping(m) = &items[0] {
            match at(m, "ip_protocol") {
                DslValue::String(s) => {
                    assert_eq!(
                        s, "awscc.ec2.security_group.IpProtocol.all",
                        "Expected namespaced IpProtocol.all in struct field, got: {}",
                        s
                    );
                }
                other => panic!("Expected String for ip_protocol, got: {:?}", other),
            }
            // Non-enum field should be unchanged
            match at(m, "cidr_ip") {
                DslValue::String(s) => assert_eq!(s, "0.0.0.0/0"),
                other => panic!("Expected String for cidr_ip, got: {:?}", other),
            }
        } else {
            panic!("Expected Map in egress list");
        }
    } else {
        panic!("Expected List for security_group_egress");
    }
}

#[test]
fn test_dsl_value_to_aws_preserves_underscores_in_enum_values() {
    // Enum values like INFREQUENT_ACCESS should NOT have underscores
    // converted to hyphens 
    let attr_type = AttributeType::StringEnum {
        name: "LogGroupClass".to_string(),
        values: vec![
            "STANDARD".to_string(),
            "INFREQUENT_ACCESS".to_string(),
            "DELIVERY".to_string(),
        ],
        namespace: Some("awscc.logs.log_group".to_string()),
        to_dsl: None,
    };
    let value =
        DslValue::String("awscc.logs.log_group.LogGroupClass.INFREQUENT_ACCESS".to_string());
    let result = dsl_value_to_aws(&value, &attr_type, "logs.log_group", "log_group_class");
    assert_eq!(result, Some(json(r#""INFREQUENT_ACCESS""#)));
}

#[test]
fn test_dsl_value_to_aws_converts_underscores_for_region() {
    // Region values like ap_northeast_1 SHOULD have underscores converted
    // to hyphens since Region is a Custom type without valid values list
    let attr_type = AttributeType::Custom {
        name: "Region".to_string(),
        base: Box::new(AttributeType::String),
        check: Check::Format,
        namespace: Some("awscc".to_string()),
        to_dsl: None,
    };
    let value = DslValue::String("awscc.Region.ap_northeast_1".to_string());
    let result = dsl_value_to_aws(&value, &attr_type, "logs.log_group", "region");
    assert_eq!(result, Some(json(r#""ap-northeast-1""#)));
}

#[test]
fn test_dsl_value_to_aws_list_string_enum() {
    // List(StringEnum) items should have enum conversion applied
    let inner = AttributeType::StringEnum {
        name: "AllowedMethod".to_string(),
        values: vec!["GET".to_string(), "PUT".to_string(), "DELETE".to_string()],
        namespace: Some("awscc.s3.bucket".to_string()),
        to_dsl: None,
    };
    let attr_type = AttributeType::list(inner);
    let value = DslValue::List(vec![
        DslValue::String("awscc.s3.bucket.AllowedMethod.GET".to_string()),
        DslValue::String("awscc.s3.bucket.AllowedMethod.PUT".to_string()),
    ]);
    let result = dsl_value_to_aws(&value, &attr_type, "s3.bucket", "allowed_methods");
    assert_eq!(result, Some(json(r#"["GET", "PUT"]"#)));
}

#[test]
fn test_aws_value_to_dsl_list_string_enum() {
    // List(StringEnum) read-back should namespace each item
    let inner = AttributeType::StringEnum {
        name: "AllowedMethod".to_string(),
        values: vec!["GET".to_string(), "PUT".to_string(), "DELETE".to_string()],
        namespace: Some("awscc.s3.bucket".to_string()),
        to_dsl: None,
    };
    let attr_type = AttributeType::list(inner);
    let json_val = json(r#"["GET", "PUT"]"#);
    let result = aws_value_to_dsl("allowed_methods", &json_val, &attr_type, "s3.bucket");
    assert_eq!(
        result,
        Some(DslValue::List(vec![
            DslValue::String("awscc.s3.bucket.AllowedMethod.GET".to_string()),
            DslValue::String("awscc.s3.bucket.AllowedMethod.PUT".to_string()),
        ]))
    );
}

#[test]
fn test_dsl_value_to_aws_list_string_enum_roundtrip() {
    // Verify List(StringEnum) round-trips correctly
    let inner = AttributeType::StringEnum {
        name: "AllowedMethod".to_string(),
        values: vec!["GET".to_string(), "PUT".to_string()],
        namespace: Some("awscc.s3.bucket".to_string()),
        to_dsl: None,
    };
    let attr_type = AttributeType::list(inner);

    let aws_json = json(r#"["GET", "PUT"]"#);
    let dsl = aws_value_to_dsl("allowed_methods", &aws_json, &attr_type, "s3.bucket")
        .expect("read should succeed");
    let written = dsl_value_to_aws(&dsl, &attr_type, "s3.bucket", "allowed_methods")
        .expect("write should succeed");
    assert_eq!(written, aws_json, "Round-trip should produce original JSON");
}

#[test]
fn test_dsl_value_to_aws_union_with_string_enum() {
    // Union member that is a namespaced StringEnum should be converted.
    // More specific types (StringEnum) should come before generic ones (String).
    let attr_type = AttributeType::Union(vec![
        AttributeType::StringEnum {
            name: "Protocol".to_string(),
            values: vec!["tcp".to_string(), "udp".to_string()],
            namespace: Some("awscc.ec2.sg".to_string()),
            to_dsl: None,
        },
        AttributeType::String,
    ]);
    let value = DslValue::String("awscc.ec2.sg.Protocol.tcp".to_string());
    let result = dsl_value_to_aws(&value, &attr_type, "ec2.sg", "protocol");
    assert_eq!(result, Some(json(r#""tcp""#)));
}

#[test]
fn test_dsl_value_to_aws_map_preserves_user_keys() {
    // Map(String) should preserve user-defined keys as-is, not PascalCase them
    let attr_type = AttributeType::Mapping(Box::new(AttributeType::String));

    let mut map = Vec::new();
    put(&mut map, "my_custom_key".to_string(),
        DslValue::String("value1".to_string()),
    );
    put(&mut map, "another-key".to_string(),
        DslValue::String("value2".to_string()),
    );
    let dsl_value = DslValue::Mapping(map);

    let result = dsl_value_to_aws(&dsl_value, &attr_type, "s3.bucket", "tags");
    let result = result.expect("Should return Some");

    if let Json::Object(obj) = &result {
        // Keys must be preserved exactly as written, not PascalCased
        assert_eq!(member(obj, "my_custom_key"), Some(&json(r#""value1""#)));
        assert_eq!(member(obj, "another-key"), Some(&json(r#""value2""#)));
        // Verify PascalCased versions do NOT exist
        assert!(member(obj, "MyCustomKey").is_none());
        assert!(member(obj, "AnotherKey").is_none());
    } else {
        panic!("Expected JSON Object, got: {:?}", result);
    }
}

#[test]
fn test_dsl_value_to_aws_map_recurses_into_values() {
    // Map with enum values should recurse for type-aware conversion
    let inner_type = AttributeType::StringEnum {
        name: "Status".to_string(),
        values: vec!["Active".to_string(), "Inactive".to_string()],
        namespace: Some("awscc.test.resource".to_string()),
        to_dsl: None,
    };
    let attr_type = AttributeType::Mapping(Box::new(inner_type));

    let mut map = Vec::new();
    put(&mut map, "item_one".to_string(),
        DslValue::String("awscc.test.resource.Status.Active".to_string()),
    );
    let dsl_value = DslValue::Mapping(map);

    let result = dsl_value_to_aws(&dsl_value, &attr_type, "test.resource", "status_map");
    let result = result.expect("Should return Some");

    if let Json::Object(obj) = &result {
        // Key preserved, value converted from namespaced enum to raw value
        assert_eq!(member(obj, "item_one"), Some(&json(r#""Active""#)));
    } else {
        panic!("Expected JSON Object, got: {:?}", result);
    }
}

#[test]
fn test_aws_value_to_dsl_map_preserves_user_keys() {
    // Map(String) read path should preserve keys as-is, not snake_case them
    let attr_type = AttributeType::Mapping(Box::new(AttributeType::String));

    let aws_json = json(r#"{ "MyCustomKey": "value1", "another-key": "value2" }"#);

    let result = aws_value_to_dsl("tags", &aws_json, &attr_type, "s3.bucket");
    let result = result.expect("Should return Some");

    if let DslValue::Mapping(map) = &result {
        assert_eq!(
            get(map, "MyCustomKey"),
            Some(&DslValue::String("value1".to_string()))
        );
        assert_eq!(
            get(map, "another-key"),
            Some(&DslValue::String("value2".to_string()))
        );
        // Verify snake_cased versions do NOT exist
        assert!(get(map, "my_custom_key").is_none());
    } else {
        panic!("Expected DslValue::Mapping, got: {:?}", result);
    }
}

#[test]
fn test_aws_value_to_dsl_union_with_string_enum() {
    // Union: read-back should try members and pick the namespaced one
    let attr_type = AttributeType::Union(vec![
        AttributeType::StringEnum {
            name: "Protocol".to_string(),
            values: vec!["tcp".to_string(), "udp".to_string()],
            namespace: Some("awscc.ec2.sg".to_string()),
            to_dsl: None,
        },
        AttributeType::String,
    ]);
    let json_val = json(r#""tcp""#);
    let result = aws_value_to_dsl("protocol", &json_val, &attr_type, "ec2.sg");
    assert_eq!(
        result,
        Some(DslValue::String("awscc.ec2.sg.Protocol.tcp".to_string()))
    );
}

#[test]
fn test_aws_value_to_dsl_union_fallback() {
    // Union: when no member produces type-aware result, fall back to generic
    let attr_type = AttributeType::Union(vec![
        AttributeType::StringEnum {
            name: "Protocol".to_string(),
            values: vec!["tcp".to_string(), "udp".to_string()],
            namespace: Some("awscc.ec2.sg".to_string()),
            to_dsl: None,
        },
        AttributeType::Int,
    ]);
    let json_val = json(r#"42"#);
    let result = aws_value_to_dsl("protocol", &json_val, &attr_type, "ec2.sg");
    assert_eq!(result, Some(DslValue::Int(42)));
}

#[test]
fn test_dsl_value_to_aws_iam_policy_document_uses_pascal_case() {
    // IAM policy documents must use PascalCase keys (Version, Statement, Effect, etc.)
    // when sent to AWS. The DSL uses snake_case (version, statement, effect, etc.).

    let attr_type = iam_policy_document();
    let value = DslValue::Mapping(
        vec![
            (
                "version".to_string(),
                DslValue::String("2012-10-17".to_string()),
            ),
            (
                "statement".to_string(),
                DslValue::List(vec![DslValue::Mapping(
                    vec![
                        ("effect".to_string(), DslValue::String("Allow".to_string())),
                        (
                            "action".to_string(),
                            DslValue::String("sts:AssumeRole".to_string()),
                        ),
                        (
                            "principal".to_string(),
                            DslValue::Mapping(
                                vec![(
                                    "service".to_string(),
                                    DslValue::String("lambda.amazonaws.com".to_string()),
                                )]
                                .into_iter()
                                .collect(),
                            ),
                        ),
                    ]
                    .into_iter()
                    .collect(),
                )]),
            ),
        ]
        .into_iter()
        .collect(),
    );

    let result = dsl_value_to_aws(
        &value,
        &attr_type,
        "iam.role",
        "assume_role_policy_document",
    );
    let result = result.expect("Should return Some");

    // Top-level keys must be PascalCase
    let obj = members(&result);
    assert_eq!(member(obj, "Version"), Some(&json(r#""2012-10-17""#)));
    assert!(
        member(obj, "version").is_none(),
        "snake_case 'version' should not exist"
    );

    // Statement array
    let statements = member(obj, "Statement").expect("Should have Statement");
    assert!(
        member(obj, "statement").is_none(),
        "snake_case 'statement' should not exist"
    );
    let stmt = statements.as_array().unwrap().first().unwrap();
    let stmt_obj = members(stmt);

    // Statement fields must be PascalCase
    assert_eq!(member(stmt_obj, "Effect"), Some(&json(r#""Allow""#)));
    assert!(member(stmt_obj, "effect").is_none());
    assert_eq!(member(stmt_obj, "Action"), Some(&json(r#""sts:AssumeRole""#)));
    assert!(member(stmt_obj, "action").is_none());

    // Principal nested map must have PascalCase keys
    let principal = member(stmt_obj, "Principal").expect("Should have Principal");
    assert!(member(stmt_obj, "principal").is_none());
    let principal_obj = members(principal);
    assert_eq!(
        member(principal_obj, "Service"),
        Some(&json(r#""lambda.amazonaws.com""#))
    );
    assert!(member(principal_obj, "service").is_none());
}

#[test]
fn test_aws_value_to_dsl_iam_policy_document_uses_snake_case() {
    // Reading IAM policy documents from AWS should convert PascalCase to snake_case

    let attr_type = iam_policy_document();
    let aws_json = json(r#"{ "Version": "2012-10-17", "Statement": [{ "Effect": "Allow", "Action": "sts:AssumeRole", "Principal": { "Service": "lambda.amazonaws.com" } }] }"#);

    let result = aws_value_to_dsl(
        "assume_role_policy_document",
        &aws_json,
        &attr_type,
        "iam.role",
    );
    let result = result.expect("Should return Some");

    if let DslValue::Mapping(map) = &result {
        assert_eq!(
            get(map, "version"),
            Some(&DslValue::String("2012-10-17".to_string()))
        );
        assert!(
            get(map, "Version").is_none(),
            "PascalCase 'Version' should not exist"
        );

        if let Some(DslValue::List(stmts)) = get(map, "statement") {
            if let Some(DslValue::Mapping(stmt)) = stmts.first() {
                assert_eq!(
                    get(stmt, "effect"),
                    Some(&DslValue::String("Allow".to_string()))
                );
                assert_eq!(
                    get(stmt, "action"),
                    Some(&DslValue::String("sts:AssumeRole".to_string()))
                );
                if let Some(DslValue::Mapping(principal)) = get(stmt, "principal") {
                    assert_eq!(
                        get(principal, "service"),
                        Some(&DslValue::String("lambda.amazonaws.com".to_string()))
                    );
                } else {
                    panic!("Expected principal to be a Map");
                }
            } else {
                panic!("Expected statement to contain a Map");
            }
        } else {
            panic!("Expected statement to be a List");
        }
    } else {
        panic!("Expected DslValue::Mapping, got: {:?}", result);
    }
}

#[test]
fn test_aws_value_to_dsl_region_in_struct_uses_underscores() {
    // Region values inside struct fields should use underscore format (ap_northeast_1),
    // not hyphen format (ap-northeast-1), to match DSL conventions.
    // This ensures idempotency for resources like ec2.ipam operating_regions.

    let fields = vec![
        StructField::new("region_name", awscc_region())
            .required()
            .with_provider_name("RegionName"),
    ];
    let attr_type = AttributeType::list(AttributeType::Struct {
        name: "IpamOperatingRegion".to_string(),
        fields,
    });
    let json_val = json(r#"[{"RegionName": "ap-northeast-1"}]"#);

    let result = aws_value_to_dsl("operating_regions", &json_val, &attr_type, "ec2.ipam");
    let expected = DslValue::List(vec![DslValue::Mapping(Vec::from([(
        "region_name".to_string(),
        DslValue::String("awscc.Region.ap_northeast_1".to_string()),
    )]))]);
    assert_eq!(result, Some(expected));
}

#[test]
fn test_aws_value_to_dsl_enum_value_with_dot() {
    // When an enum value itself contains a dot (e.g., "ipsec.1" for VPN Gateway type),
    // aws_value_to_dsl should produce a valid namespaced identifier.
    let attr_type = AttributeType::StringEnum {
        name: "Type".to_string(),
        values: vec!["ipsec.1".to_string()],
        namespace: Some("awscc.ec2.vpn_gateway".to_string()),
        to_dsl: None,
    };
    let json_val = json(r#""ipsec.1""#);

    let result = aws_value_to_dsl("type", &json_val, &attr_type, "ec2.vpn_gateway");
    assert_eq!(
        result,
        Some(DslValue::String(
            "awscc.ec2.vpn_gateway.Type.ipsec.1".to_string()
        ))
    );
}

#[test]
fn test_dsl_value_to_aws_enum_value_with_dot() {
    // When given a namespaced identifier with a dotted enum value,
    // dsl_value_to_aws should correctly extract the value using known valid values.
    let attr_type = AttributeType::StringEnum {
        name: "Type".to_string(),
        values: vec!["ipsec.1".to_string()],
        namespace: Some("awscc.ec2.vpn_gateway".to_string()),
        to_dsl: None,
    };
    let value = DslValue::String("awscc.ec2.vpn_gateway.Type.ipsec.1".to_string());

    let result = dsl_value_to_aws(&value, &attr_type, "ec2.vpn_gateway", "type");
    assert_eq!(result, Some(json(r#""ipsec.1""#)));
}

#[test]
fn test_dsl_value_to_aws_enum_plain_dot_value() {
    // Plain string "ipsec.1" (not namespaced) should also work
    let attr_type = AttributeType::StringEnum {
        name: "Type".to_string(),
        values: vec!["ipsec.1".to_string()],
        namespace: Some("awscc.ec2.vpn_gateway".to_string()),
        to_dsl: None,
    };
    let value = DslValue::String("ipsec.1".to_string());

    let result = dsl_value_to_aws(&value, &attr_type, "ec2.vpn_gateway", "type");
    assert_eq!(result, Some(json(r#""ipsec.1""#)));
}

#[test]
fn test_enum_round_trip_with_dotted_value() {
    // Full round-trip: AWS value -> DSL -> back to AWS
    let attr_type = AttributeType::StringEnum {
        name: "Type".to_string(),
        values: vec!["ipsec.1".to_string()],
        namespace: Some("awscc.ec2.vpn_gateway".to_string()),
        to_dsl: None,
    };

    // AWS -> DSL (read path)
    let aws_val = json(r#""ipsec.1""#);
    let dsl_val = aws_value_to_dsl("type", &aws_val, &attr_type, "ec2.vpn_gateway");
    assert_eq!(
        dsl_val,
        Some(DslValue::String(
            "awscc.ec2.vpn_gateway.Type.ipsec.1".to_string()
        ))
    );

    // DSL -> AWS (write path)
    let back_to_aws =
        dsl_value_to_aws(&dsl_val.unwrap(), &attr_type, "ec2.vpn_gateway", "type");
    assert_eq!(back_to_aws, Some(json(r#""ipsec.1""#)));
}

#[test]
fn test_value_to_json_nan_returns_none() {
    let value = float(quiet_nan());
    assert_eq!(value_to_json(&value), None);
}

#[test]
fn test_value_to_json_infinity_returns_none() {
    let value = float(1.0 / 0.0);
    assert_eq!(value_to_json(&value), None);
}

#[test]
fn test_value_to_json_neg_infinity_returns_none() {
    let value = float(-1.0 / 0.0);
    assert_eq!(value_to_json(&value), None);
}

#[test]
fn test_value_to_json_finite_float() {
    let value = float(1.5);
    let result = value_to_json(&value);
    assert!(result.is_some());
    assert_eq!(result.unwrap(), json(r#"1.5"#));
}

#[test]
fn test_json_to_value_array_with_null_drops_null_items() {
    // JSON null cannot be represented as a DSL Value, so it is dropped.
    // This test documents the behavior and ensures warnings are logged.
    let json = json(r#"["a", null, "b"]"#);
    let result = json_to_value(&json);
    let expected = DslValue::List(vec![
        DslValue::String("a".to_string()),
        DslValue::String("b".to_string()),
    ]);
    assert_eq!(result, Some(expected));
}

#[test]
fn test_json_to_value_map_with_null_value_drops_entry() {
    let json = json(r#"{"key1": "val1", "key2": null}"#);
    let result = json_to_value(&json);
    match result {
        Some(DslValue::Mapping(map)) => {
            assert_eq!(map.len(), 1);
            assert_eq!(get(&map, "key1"), Some(&DslValue::String("val1".to_string())));
            assert!(get(&map, "key2").is_none());
        }
        other => panic!("Expected Some(DslValue::Mapping), got {:?}", other),
    }
}

#[test]
fn test_aws_value_to_dsl_list_with_null_drops_null_items() {
    let json = json(r#"["a", null, "b"]"#);
    let attr_type = AttributeType::list(AttributeType::String);
    let result = aws_value_to_dsl("test_attr", &json, &attr_type, "test.resource");
    let expected = DslValue::List(vec![
        DslValue::String("a".to_string()),
        DslValue::String("b".to_string()),
    ]);
    assert_eq!(result, Some(expected));
}

#[test]
fn test_value_to_json_list_with_nan_drops_nan_items() {
    // NaN floats cannot be represented in JSON, so they are dropped.
    let value = DslValue::List(vec![
        float(1.0),
        float(quiet_nan()),
        float(2.0),
    ]);
    let result = value_to_json(&value);
    let expected = json(r#"[1.0, 2.0]"#);
    assert_eq!(result, Some(expected));
}

#[test]
fn test_dsl_value_to_aws_list_with_nan_drops_nan_items() {
    let value = DslValue::List(vec![
        float(1.0),
        float(quiet_nan()),
        float(2.0),
    ]);
    let attr_type = AttributeType::list(AttributeType::Float);
    let result = dsl_value_to_aws(&value, &attr_type, "test.resource", "test_attr");
    let expected = json(r#"[1.0, 2.0]"#);
    assert_eq!(result, Some(expected));
}

#[test]
fn test_parse_resource_properties_valid_json() {
    let json_str = r#"{"VpcId": "vpc-123", "CidrBlock": "10.0.0.0/16"}"#;
    let result = parse_resource_properties(json_str);
    assert!(result.is_ok());
    let value = result.unwrap();
    assert_eq!(text_at(&value, "VpcId"), Some("vpc-123"));
    assert_eq!(text_at(&value, "CidrBlock"), Some("10.0.0.0/16"));
}

#[test]
fn test_parse_resource_properties_malformed_json_returns_error() {
    let malformed = r#"{"VpcId": "vpc-123", invalid"#;
    let result = parse_resource_properties(malformed);
    assert!(result.is_err());
    let err = result.unwrap_err();
    assert!(
        err.message.contains("Failed to parse resource properties"),
        "Expected error message about parsing, got: {}",
        err.message
    );
}

#[test]
fn test_parse_resource_properties_empty_string_returns_error() {
    let result = parse_resource_properties("");
    assert!(result.is_err());
}

/// Helper to get an AwsccSchemaConfig for ec2.vpc (a real resource type with tags)
fn get_vpc_config() -> AwsccSchemaConfig {
    get_schema_config("ec2.vpc").expect("ec2.vpc schema should exist")
}

#[test]
fn test_build_update_patches_remove_attribute_absent_in_to() {
    let config = get_vpc_config();
    let id = ResourceId::with_provider("awscc", "ec2.vpc", "test");

    // from state has instance_tenancy
    let mut from_attrs = Vec::new();
    put(&mut from_attrs, "cidr_block".to_string(),
        DslValue::String("10.0.0.0/16".to_string()),
    );
    put(&mut from_attrs, "instance_tenancy".to_string(),
        DslValue::String("awscc.ec2.vpc.InstanceTenancy.default".to_string()),
    );
    let from = State::existing(id.clone(), from_attrs);

    // to resource only has cidr_block, instance_tenancy removed
    let mut to = resource("", "ec2.vpc", "test");
    put(&mut to.attributes, "cidr_block".to_string(),
        DslValue::String("10.0.0.0/16".to_string()),
    );

    let patches = build_update_patches(&config, &from, &to);

    // Should have a replace for cidr_block and a remove for instance_tenancy
    let has_remove_instance_tenancy = patches.iter().any(|p| {
        p.get("op").and_then(|v| v.as_str()) == Some("remove")
            && p.get("path").and_then(|v| v.as_str()) == Some("/InstanceTenancy")
    });
    assert!(
        has_remove_instance_tenancy,
        "Expected remove patch for /InstanceTenancy, got: {:?}",
        patches
    );
}

#[test]
fn test_build_update_patches_remove_tags_absent_in_to() {
    let config = get_vpc_config();
    let id = ResourceId::with_provider("awscc", "ec2.vpc", "test");

    // from state has tags
    let mut from_attrs = Vec::new();
    put(&mut from_attrs, "cidr_block".to_string(),
        DslValue::String("10.0.0.0/16".to_string()),
    );
    let mut tags = Vec::new();
    put(&mut tags, "Name".to_string(), DslValue::String("my-vpc".to_string()));
    put(&mut from_attrs, "tags".to_string(), DslValue::Mapping(tags));
    let from = State::existing(id.clone(), from_attrs);

    // to resource has no tags
    let mut to = resource("", "ec2.vpc", "test");
    put(&mut to.attributes, "cidr_block".to_string(),
        DslValue::String("10.0.0.0/16".to_string()),
    );

    let patches = build_update_patches(&config, &from, &to);

    let has_remove_tags = patches.iter().any(|p| {
        p.get("op").and_then(|v| v.as_str()) == Some("remove")
            && p.get("path").and_then(|v| v.as_str()) == Some("/Tags")
    });
    assert!(
        has_remove_tags,
        "Expected remove patch for /Tags, got: {:?}",
        patches
    );
}

#[test]
fn test_build_update_patches_no_remove_for_required_attribute() {
    let config = get_vpc_config();
    let id = ResourceId::with_provider("awscc", "ec2.vpc", "test");

    // from state has cidr_block (which is required)
    let mut from_attrs = Vec::new();
    put(&mut from_attrs, "cidr_block".to_string(),
        DslValue::String("10.0.0.0/16".to_string()),
    );
    let from = State::existing(id.clone(), from_attrs);

    // to resource has no cidr_block (shouldn't happen in practice, but test the guard)
    let to = resource("", "ec2.vpc", "test");

    let patches = build_update_patches(&config, &from, &to);

    // Should NOT have a remove for cidr_block since it's required
    let has_remove_cidr = patches.iter().any(|p| {
        p.get("op").and_then(|v| v.as_str()) == Some("remove")
            && p.get("path").and_then(|v| v.as_str()) == Some("/CidrBlock")
    });
    assert!(
        !has_remove_cidr,
        "Should not remove required attribute CidrBlock, got: {:?}",
        patches
    );
}

#[test]
fn test_build_update_patches_replace_only_when_both_present() {
    let config = get_vpc_config();
    let id = ResourceId::with_provider("awscc", "ec2.vpc", "test");

    // Both from and to have the same attributes
    let mut from_attrs = Vec::new();
    put(&mut from_attrs, "cidr_block".to_string(),
        DslValue::String("10.0.0.0/16".to_string()),
    );
    put(&mut from_attrs, "instance_tenancy".to_string(),
        DslValue::String("awscc.ec2.vpc.InstanceTenancy.default".to_string()),
    );
    let from = State::existing(id.clone(), from_attrs);

    let mut to = resource("", "ec2.vpc", "test");
    put(&mut to.attributes, "cidr_block".to_string(),
        DslValue::String("10.0.0.0/16".to_string()),
    );
    put(&mut to.attributes, "instance_tenancy".to_string(),
        DslValue::String("awscc.ec2.vpc.InstanceTenancy.dedicated".to_string()),
    );

    let patches = build_update_patches(&config, &from, &to);

    // Should only have replace operations, no remove
    let has_remove = patches
        .iter()
        .any(|p| p.get("op").and_then(|v| v.as_str()) == Some("remove"));
    assert!(
        !has_remove,
        "Should not have remove operations when attribute is present in both from and to, got: {:?}",
        patches
    );
}

#[test]
fn test_build_update_patches_skip_unchanged_attributes() {
    let config = get_vpc_config();
    let id = ResourceId::with_provider("awscc", "ec2.vpc", "test");

    // from and to have identical values for cidr_block, different for instance_tenancy
    let mut from_attrs = Vec::new();
    put(&mut from_attrs, "cidr_block".to_string(),
        DslValue::String("10.0.0.0/16".to_string()),
    );
    put(&mut from_attrs, "instance_tenancy".to_string(),
        DslValue::String("awscc.ec2.vpc.InstanceTenancy.default".to_string()),
    );
    let from = State::existing(id.clone(), from_attrs);

    let mut to = resource("", "ec2.vpc", "test");
    put(&mut to.attributes, "cidr_block".to_string(),
        DslValue::String("10.0.0.0/16".to_string()),
    );
    put(&mut to.attributes, "instance_tenancy".to_string(),
        DslValue::String("awscc.ec2.vpc.InstanceTenancy.dedicated".to_string()),
    );

    let patches = build_update_patches(&config, &from, &to);

    // cidr_block is unchanged, so no patch should be generated for it
    let has_cidr_replace = patches.iter().any(|p| {
        p.get("op").and_then(|v| v.as_str()) == Some("replace")
            && p.get("path").and_then(|v| v.as_str()) == Some("/CidrBlock")
    });
    assert!(
        !has_cidr_replace,
        "Should not generate replace patch for unchanged attribute /CidrBlock, got: {:?}",
        patches
    );

    // instance_tenancy changed, so a replace patch should be generated
    let has_tenancy_replace = patches.iter().any(|p| {
        p.get("op").and_then(|v| v.as_str()) == Some("replace")
            && p.get("path").and_then(|v| v.as_str()) == Some("/InstanceTenancy")
    });
    assert!(
        has_tenancy_replace,
        "Should generate replace patch for changed attribute /InstanceTenancy, got: {:?}",
        patches
    );
}

#[test]
fn test_build_update_patches_no_patches_when_identical() {
    let config = get_vpc_config();
    let id = ResourceId::with_provider("awscc", "ec2.vpc", "test");

    // from and to are completely identical
    let mut from_attrs = Vec::new();
    put(&mut from_attrs, "cidr_block".to_string(),
        DslValue::String("10.0.0.0/16".to_string()),
    );
    let from = State::existing(id.clone(), from_attrs);

    let mut to = resource("", "ec2.vpc", "test");
    put(&mut to.attributes, "cidr_block".to_string(),
        DslValue::String("10.0.0.0/16".to_string()),
    );

    let patches = build_update_patches(&config, &from, &to);

    assert!(
        patches.is_empty(),
        "Should generate no patches when from and to are identical, got: {:?}",
        patches
    );
}

#[test]
fn test_build_update_patches_skip_unchanged_tags() {
    let config = get_vpc_config();
    let id = ResourceId::with_provider("awscc", "ec2.vpc", "test");

    // from and to have identical tags
    let mut from_attrs = Vec::new();
    put(&mut from_attrs, "cidr_block".to_string(),
        DslValue::String("10.0.0.0/16".to_string()),
    );
    let mut tags = Vec::new();
    put(&mut tags, "Name".to_string(), DslValue::String("my-vpc".to_string()));
    put(&mut from_attrs, "tags".to_string(), DslValue::Mapping(tags.clone()));
    let from = State::existing(id.clone(), from_attrs);

    let mut to = resource("", "ec2.vpc", "test");
    put(&mut to.attributes, "cidr_block".to_string(),
        DslValue::String("10.0.0.0/16".to_string()),
    );
    put(&mut to.attributes, "tags".to_string(), DslValue::Mapping(tags));

    let patches = build_update_patches(&config, &from, &to);

    // No patches should be generated since everything is identical
    assert!(
        patches.is_empty(),
        "Should generate no patches when tags are unchanged, got: {:?}",
        patches
    );
}
