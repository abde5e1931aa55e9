use carina_awscc::provider::normalizer::{
    resolve_enum_identifiers_impl, resolve_struct_enum_values, restore_unreturned_attrs_impl,
};
use carina_awscc::resource::{Resource, ResourceId, State};
use carina_awscc::schema::{AttributeType, Check, StructField, ToDsl};
use carina_awscc::value::{get, put, DslValue};

fn at<'a>(entries: &'a Vec<(String, DslValue)>, key: &str) -> &'a DslValue {
    get(entries, key).expect("attribute")
}

fn resource(provider: &str, resource_type: &str, name: &str) -> Resource {
    Resource { id: ResourceId::with_provider(provider, resource_type, name), attributes: Vec::new() }
}

fn state_attr<'a>(states: &'a Vec<(ResourceId, State)>, id: &ResourceId, key: &str) -> Option<&'a DslValue> {
    let (_, state) = states.iter().find(|(i, _)| i.same(id)).expect("state");
    get(&state.attributes, key)
}

#[test]
fn normalizer_test_resolve_enum_identifiers_bare_ident() {
    let mut resource = resource("awscc", "ec2.vpc", "test");
    put(&mut resource.attributes, "instance_tenancy".to_string(),
        DslValue::UnresolvedIdent("dedicated".to_string(), None),
    );

    let mut resources = vec![resource];
    resolve_enum_identifiers_impl(&mut resources);
    match at(&resources[0].attributes, "instance_tenancy") {
        DslValue::String(s) => assert!(
            s.contains("InstanceTenancy") && s.contains("dedicated"),
            "Expected namespaced enum, got: {}",
            s
        ),
        other => panic!("Expected String, got: {:?}", other),
    }
}

#[test]
fn normalizer_test_resolve_enum_identifiers_typename_value() {
    let mut resource = resource("awscc", "ec2.vpc", "test");
    put(&mut resource.attributes, "instance_tenancy".to_string(),
        DslValue::UnresolvedIdent("InstanceTenancy".to_string(), Some("dedicated".to_string())),
    );

    let mut resources = vec![resource];
    resolve_enum_identifiers_impl(&mut resources);
    match at(&resources[0].attributes, "instance_tenancy") {
        DslValue::String(s) => assert!(
            s.contains("InstanceTenancy") && s.contains("dedicated"),
            "Expected namespaced enum, got: {}",
            s
        ),
        other => panic!("Expected String, got: {:?}", other),
    }
}

#[test]
fn normalizer_test_resolve_enum_identifiers_skips_non_awscc() {
    let mut resource = resource("aws", "s3.bucket", "test");
    put(&mut resource.attributes, "instance_tenancy".to_string(),
        DslValue::UnresolvedIdent("dedicated".to_string(), None),
    );

    let mut resources = vec![resource];
    resolve_enum_identifiers_impl(&mut resources);
    assert!(matches!(
        at(&resources[0].attributes, "instance_tenancy"),
        DslValue::UnresolvedIdent(_, _)
    ));
}

#[test]
fn normalizer_test_resolve_enum_identifiers_hyphen_to_underscore() {
    let mut resource = resource("awscc", "ec2.flow_log", "test");
    put(&mut resource.attributes, "log_destination_type".to_string(),
        DslValue::UnresolvedIdent("cloud_watch_logs".to_string(), None),
    );

    let mut resources = vec![resource];
    resolve_enum_identifiers_impl(&mut resources);
    match at(&resources[0].attributes, "log_destination_type") {
        DslValue::String(s) => {
            assert_eq!(
                s, "awscc.ec2.flow_log.LogDestinationType.cloud_watch_logs",
                "Expected underscored namespaced enum, got: {}",
                s
            );
        }
        other => panic!("Expected String, got: {:?}", other),
    }
}

#[test]
fn normalizer_test_resolve_enum_identifiers_hyphen_string_to_underscore() {
    let mut resource = resource("awscc", "ec2.flow_log", "test");
    put(&mut resource.attributes, "log_destination_type".to_string(),
        DslValue::String("cloud-watch-logs".to_string()),
    );

    let mut resources = vec![resource];
    resolve_enum_identifiers_impl(&mut resources);
    match at(&resources[0].attributes, "log_destination_type") {
        DslValue::String(s) => {
            assert_eq!(
                s, "awscc.ec2.flow_log.LogDestinationType.cloud_watch_logs",
                "Hyphenated string should be converted to underscore form, got: {}",
                s
            );
        }
        other => panic!("Expected String, got: {:?}", other),
    }
}

#[test]
fn normalizer_test_restore_unreturned_attrs_impl_create_only() {
    let id = ResourceId::with_provider("awscc", "ec2.nat_gateway", "test");
    let mut state = State::existing(id.clone(), Vec::new());
    put(&mut state.attributes, "nat_gateway_id".to_string(),
        DslValue::String("nat-123".to_string()),
    );

    let mut current_states = Vec::new();
    current_states.push((id.clone(), state));

    let mut saved = Vec::new();
    put(&mut saved, "subnet_id".to_string(),
        DslValue::String("subnet-abc".to_string()),
    );
    let mut saved_attrs = Vec::new();
    saved_attrs.push((id.clone(), saved));

    restore_unreturned_attrs_impl(&mut current_states, &saved_attrs);

    assert_eq!(
        state_attr(&current_states, &id, "subnet_id"),
        Some(&DslValue::String("subnet-abc".to_string()))
    );
}

#[test]
fn normalizer_test_restore_unreturned_attrs_skips_non_awscc() {
    let id = ResourceId::with_provider("aws", "s3.bucket", "test");
    let state = State::existing(id.clone(), Vec::new());

    let mut current_states = Vec::new();
    current_states.push((id.clone(), state));

    let mut saved = Vec::new();
    put(&mut saved, "some_attr".to_string(), DslValue::String("value".to_string()));
    let mut saved_attrs = Vec::new();
    saved_attrs.push((id.clone(), saved));

    restore_unreturned_attrs_impl(&mut current_states, &saved_attrs);

    assert!(state_attr(&current_states, &id, "some_attr").is_none());
}

#[test]
fn normalizer_test_restore_unreturned_attrs_skips_already_present() {
    let id = ResourceId::with_provider("awscc", "ec2.nat_gateway", "test");
    let mut attrs = Vec::new();
    put(&mut attrs, "subnet_id".to_string(),
        DslValue::String("subnet-current".to_string()),
    );
    let state = State::existing(id.clone(), attrs);

    let mut current_states = Vec::new();
    current_states.push((id.clone(), state));

    let mut saved = Vec::new();
    put(&mut saved, "subnet_id".to_string(),
        DslValue::String("subnet-saved".to_string()),
    );
    let mut saved_attrs = Vec::new();
    saved_attrs.push((id.clone(), saved));

    restore_unreturned_attrs_impl(&mut current_states, &saved_attrs);

    assert_eq!(
        state_attr(&current_states, &id, "subnet_id"),
        Some(&DslValue::String("subnet-current".to_string()))
    );
}

#[test]
fn normalizer_test_restore_unreturned_attrs_impl_non_create_only() {
    let id = ResourceId::with_provider("awscc", "ec2.security_group_egress", "test");
    let mut state = State::existing(id.clone(), Vec::new());
    put(&mut state.attributes, "ip_protocol".to_string(),
        DslValue::String("awscc.ec2.security_group_egress.IpProtocol.all".to_string()),
    );

    let mut current_states = Vec::new();
    current_states.push((id.clone(), state));

    let mut saved = Vec::new();
    put(&mut saved, "description".to_string(),
        DslValue::String("Allow all outbound".to_string()),
    );
    let mut saved_attrs = Vec::new();
    saved_attrs.push((id.clone(), saved));

    restore_unreturned_attrs_impl(&mut current_states, &saved_attrs);

    assert_eq!(
        state_attr(&current_states, &id, "description"),
        Some(&DslValue::String("Allow all outbound".to_string()))
    );
}

#[test]
fn normalizer_test_resolve_enum_identifiers_ip_protocol_all_alias() {
    let mut resource = resource("awscc", "ec2.security_group_egress", "test");
    put(&mut resource.attributes, "ip_protocol".to_string(),
        DslValue::UnresolvedIdent("all".to_string(), None),
    );

    let mut resources = vec![resource];
    resolve_enum_identifiers_impl(&mut resources);
    match at(&resources[0].attributes, "ip_protocol") {
        DslValue::String(s) => {
            assert_eq!(
                s, "awscc.ec2.security_group_egress.IpProtocol.all",
                "Expected namespaced IpProtocol.all, got: {}",
                s
            );
        }
        other => panic!("Expected String, got: {:?}", other),
    }
}

#[test]
fn normalizer_test_resolve_enum_identifiers_ip_protocol_tcp() {
    let mut resource = resource("awscc", "ec2.security_group_egress", "test");
    put(&mut resource.attributes, "ip_protocol".to_string(),
        DslValue::UnresolvedIdent("tcp".to_string(), None),
    );

    let mut resources = vec![resource];
    resolve_enum_identifiers_impl(&mut resources);
    match at(&resources[0].attributes, "ip_protocol") {
        DslValue::String(s) => {
            assert_eq!(
                s, "awscc.ec2.security_group_egress.IpProtocol.tcp",
                "Expected namespaced IpProtocol.tcp, got: {}",
                s
            );
        }
        other => panic!("Expected String, got: {:?}", other),
    }
}

/// Helper to create struct fields with a Custom enum type for testing
fn test_ip_protocol_fields() -> Vec<StructField> {
    vec![
        StructField::new(
            "ip_protocol",
            AttributeType::Custom {
                name: "IpProtocol".to_string(),
                base: Box::new(AttributeType::String),
                check: Check::Format,
                namespace: Some("awscc.ec2.security_group".to_string()),
                to_dsl: Some(ToDsl::alias("-1", "all", false)),
            },
        )
        .with_provider_name("IpProtocol"),
        StructField::new("from_port", AttributeType::Int).with_provider_name("FromPort"),
        StructField::new("cidr_ip", AttributeType::String).with_provider_name("CidrIp"),
    ]
}

#[test]
fn normalizer_test_resolve_struct_enum_values_bare_ident() {
    let fields = test_ip_protocol_fields();
    let mut map = Vec::new();
    put(&mut map, "ip_protocol".to_string(),
        DslValue::UnresolvedIdent("all".to_string(), None),
    );
    put(&mut map, "from_port".to_string(), DslValue::Int(443));
    let value = DslValue::List(vec![DslValue::Mapping(map)]);

    let resolved = resolve_struct_enum_values(&value, &fields);
    if let DslValue::List(items) = resolved {
        if let DslValue::Mapping(m) = &items[0] {
            match at(m, "ip_protocol") {
                DslValue::String(s) => {
                    assert_eq!(s, "awscc.ec2.security_group.IpProtocol.all");
                }
                other => panic!("Expected String, got: {:?}", other),
            }
            assert_eq!(*at(m, "from_port"), DslValue::Int(443));
        } else {
            panic!("Expected Map");
        }
    } else {
        panic!("Expected List");
    }
}

#[test]
fn normalizer_test_resolve_struct_enum_values_typename_dot_value() {
    let fields = test_ip_protocol_fields();
    let mut map = Vec::new();
    put(&mut map, "ip_protocol".to_string(),
        DslValue::UnresolvedIdent("IpProtocol".to_string(), Some("tcp".to_string())),
    );
    let value = DslValue::List(vec![DslValue::Mapping(map)]);

    let resolved = resolve_struct_enum_values(&value, &fields);
    if let DslValue::List(items) = resolved {
        if let DslValue::Mapping(m) = &items[0] {
            match at(m, "ip_protocol") {
                DslValue::String(s) => {
                    assert_eq!(s, "awscc.ec2.security_group.IpProtocol.tcp");
                }
                other => panic!("Expected String, got: {:?}", other),
            }
        } else {
            panic!("Expected Map");
        }
    } else {
        panic!("Expected List");
    }
}

#[test]
fn normalizer_test_resolve_struct_enum_values_string_passthrough() {
    let fields = test_ip_protocol_fields();
    let mut map = Vec::new();
    put(&mut map, "ip_protocol".to_string(),
        DslValue::String("awscc.ec2.security_group.IpProtocol.tcp".to_string()),
    );
    let value = DslValue::List(vec![DslValue::Mapping(map)]);

    let resolved = resolve_struct_enum_values(&value, &fields);
    if let DslValue::List(items) = resolved {
        if let DslValue::Mapping(m) = &items[0] {
            match at(m, "ip_protocol") {
                DslValue::String(s) => {
                    assert_eq!(s, "awscc.ec2.security_group.IpProtocol.tcp");
                }
                other => panic!("Expected String, got: {:?}", other),
            }
        } else {
            panic!("Expected Map");
        }
    } else {
        panic!("Expected List");
    }
}

#[test]
fn normalizer_test_resolve_enum_identifiers_impl_struct_field() {
    let mut resource = resource("awscc", "ec2.security_group", "test-sg");
    put(&mut resource.attributes, "group_description".to_string(),
        DslValue::String("test".to_string()),
    );
    let mut egress_map = Vec::new();
    put(&mut egress_map, "ip_protocol".to_string(),
        DslValue::UnresolvedIdent("all".to_string(), None),
    );
    put(&mut egress_map, "cidr_ip".to_string(),
        DslValue::String("0.0.0.0/0".to_string()),
    );
    put(&mut resource.attributes, "security_group_egress".to_string(),
        DslValue::List(vec![DslValue::Mapping(egress_map)]),
    );

    let mut resources = vec![resource];
    resolve_enum_identifiers_impl(&mut resources);

    if let DslValue::List(items) = at(&resources[0].attributes, "security_group_egress") {
        if let DslValue::Mapping(m) = &items[0] {
            match at(m, "ip_protocol") {
                DslValue::String(s) => {
                    assert_eq!(
                        s, "awscc.ec2.security_group.IpProtocol.all",
                        "Expected namespaced IpProtocol.all in struct field, got: {}",
                        s
                    );
                }
                other => panic!("Expected String for ip_protocol, got: {:?}", other),
            }
            match at(m, "cidr_ip") {
                DslValue::String(s) => assert_eq!(s, "0.0.0.0/0"),
                other => panic!("Expected String for cidr_ip, got: {:?}", other),
            }
        } else {
            panic!("Expected Map in egress list");
        }
    } else {
        panic!("Expected List for security_group_egress");
    }
}
