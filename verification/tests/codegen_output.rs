use carina_awscc::codegen::model::{CfnDefinition, CfnProperty, CfnSchema, CfnTagging, EnumValue, TypeValue};
use carina_awscc::codegen::module::{do_descriptions_fit, find_ranges, generate_schema_code};
use carina_awscc::codegen::page::{
    do_fields_fit, find_enums, full_resource_name_from_type, generate_markdown,
    is_schema_renderable, module_name_from_type, type_display_string,
};
use carina_awscc::codegen::types::{cfn_type_to_carina_type_with_enum, generate_struct_type, tags_type_helper};

fn prop(kind: &str, description: Option<&str>) -> CfnProperty {
    CfnProperty {
        prop_type: Some(TypeValue::Single(kind.to_string())),
        description: description.map(|d| d.to_string()),
        enum_values: None,
        items: None,
        ref_path: None,
        insertion_order: None,
        properties: None,
        required: vec![],
        minimum: None,
        maximum: None,
    }
}

fn reference(path: &str) -> CfnProperty {
    CfnProperty { prop_type: None, ref_path: Some(path.to_string()), ..prop("object", None) }
}

fn names(list: &[&str]) -> Vec<String> {
    list.iter().map(|s| s.to_string()).collect()
}

/// A resource type with a string, an enum, a ranged integer, a struct and tags.
fn widget() -> CfnSchema {
    CfnSchema {
        typename: "AWS::Test::WidgetPart".to_string(),
        description: Some("A \"widget\".\nSecond line.".to_string()),
        properties: vec![
            ("Arn".to_string(), prop("string", None)),
            (
                "Mode".to_string(),
                CfnProperty {
                    enum_values: Some(vec![
                        EnumValue::Str("on-line".to_string()),
                        EnumValue::Str("off".to_string()),
                    ]),
                    ..prop("string", Some("The mode."))
                },
            ),
            (
                "Parts".to_string(),
                CfnProperty { items: Some(Box::new(reference("#/definitions/Part"))), ..prop("array", None) },
            ),
            ("Size".to_string(), CfnProperty { minimum: Some(1), maximum: Some(9), ..prop("integer", Some("How big.")) }),
            ("Tags".to_string(), prop("array", None)),
        ],
        required: names(&["Mode"]),
        read_only_properties: names(&["/properties/Arn"]),
        create_only_properties: names(&["/properties/Size"]),
        write_only_properties: vec![],
        primary_identifier: None,
        definitions: Some(vec![(
            "Part".to_string(),
            CfnDefinition {
                def_type: Some("object".to_string()),
                properties: Some(vec![("PartId".to_string(), prop("string", Some("Which part.")))]),
                required: names(&["PartId"]),
            },
        )]),
        tagging: Some(CfnTagging { taggable: true }),
    }
}

#[test]
fn modules_hold_constants_checks_config_and_values() {
    let expected = r#"//! widget_part schema definition for AWS Cloud Control
//!
//! Auto-generated from CloudFormation schema: AWS::Test::WidgetPart
//!
//! DO NOT EDIT MANUALLY - regenerate with carina-codegen

use carina_core::schema::{AttributeSchema, AttributeType, ResourceSchema, StructField};
use super::AwsccSchemaConfig;
use carina_core::resource::Value;
use super::tags_type;
use super::validate_namespaced_enum;

const VALID_MODE: &[&str] = &["on-line", "off"];

fn validate_mode(value: &Value) -> Result<(), String> {
    validate_namespaced_enum(value, "Mode", "awscc.test_widget_part", VALID_MODE)
        .map_err(|reason| {
            if let Value::String(s) = value {
                format!("Invalid Mode '{}': {}", s, reason)
            } else {
                reason
            }
        })
}

fn validate_size_range(value: &Value) -> Result<(), String> {
    if let Value::Int(n) = value {
        if *n < 1 || *n > 9 {
            Err(format!("Value {} is out of range 1..=9", n))
        } else {
            Ok(())
        }
    } else {
        Err("Expected integer".to_string())
    }
}

/// Returns the schema config for test_widget_part (AWS::Test::WidgetPart)
pub fn test_widget_part_config() -> AwsccSchemaConfig {
    AwsccSchemaConfig {
        aws_type_name: "AWS::Test::WidgetPart",
        resource_type_name: "test_widget_part",
        has_tags: true,
        schema: ResourceSchema::new("awscc.test_widget_part")
        .with_description("A \"widget\". Second line.")
        .attribute(
            AttributeSchema::new("arn", super::arn())
                .with_description("(read-only)")
                .with_provider_name("Arn"),
        )
        .attribute(
            AttributeSchema::new("mode", AttributeType::Custom {
                name: "Mode".to_string(),
                base: Box::new(AttributeType::String),
                validate: validate_mode,
                namespace: Some("awscc.test_widget_part".to_string()),
                to_dsl: None,
            })
                .required()
                .with_description("The mode.")
                .with_provider_name("Mode"),
        )
        .attribute(
            AttributeSchema::new("parts", AttributeType::List(Box::new(AttributeType::Struct {
                    name: "Part".to_string(),
                    fields: vec![
                    StructField::new("part_id", AttributeType::String).required().with_description("Which part.").with_provider_name("PartId")
                    ],
                })))
                .with_provider_name("Parts"),
        )
        .attribute(
            AttributeSchema::new("size", AttributeType::Custom {
                name: "Int(1..=9)".to_string(),
                base: Box::new(AttributeType::Int),
                validate: validate_size_range,
                namespace: None,
                to_dsl: None,
            })
                .create_only()
                .with_description("How big.")
                .with_provider_name("Size"),
        )
        .attribute(
            AttributeSchema::new("tags", tags_type())
                .with_provider_name("Tags"),
        )
    }
}

/// Returns the resource type name and all enum valid values for this module
pub fn enum_valid_values() -> (&'static str, &'static [(&'static str, &'static [&'static str])]) {
    ("test_widget_part", &[
        ("mode", VALID_MODE),
    ])
}
"#;
    let schema = widget();
    assert!(is_schema_renderable(&schema, 2) && do_descriptions_fit(&schema));
    assert_eq!(generate_schema_code(&schema, "AWS::Test::WidgetPart").unwrap(), expected);
}

#[test]
fn pages_hold_arguments_enums_structs_and_attributes() {
    let expected = r#"# awscc.test_widget_part

CloudFormation Type: `AWS::Test::WidgetPart`

A "widget".
Second line.

## Argument Reference

### `mode`

- **Type:** [Enum (Mode)](#mode-mode)
- **Required:** Yes

The mode.

### `parts`

- **Type:** [List\<Part\>](#part)
- **Required:** No

### `size`

- **Type:** Int(1..=9)
- **Required:** No

How big.

### `tags`

- **Type:** Map
- **Required:** No

## Enum Values

### mode (Mode)

| Value | DSL Identifier |
|-------|----------------|
| `on-line` | `awscc.test_widget_part.Mode.on-line` |
| `off` | `awscc.test_widget_part.Mode.off` |

Shorthand formats: `on-line` or `Mode.on-line`

## Struct Definitions

### Part

| Field | Type | Required | Description |
|-------|------|----------|-------------|
| `part_id` | String | Yes | Which part. |

## Attribute Reference

### `arn`

- **Type:** Arn

"#;
    let schema = widget();
    assert!(is_schema_renderable(&schema, 2) && do_fields_fit(&schema));
    assert_eq!(generate_markdown(&schema, "AWS::Test::WidgetPart").unwrap(), expected);
}

#[test]
fn names_of_types_have_three_parts() {
    assert_eq!(module_name_from_type("AWS::EC2::SecurityGroupEgress").unwrap(), "security_group_egress");
    assert_eq!(full_resource_name_from_type("AWS::EC2::SecurityGroupEgress").unwrap(), "ec2_security_group_egress");
    assert_eq!(module_name_from_type("AWS::EC2").unwrap_err(), "Invalid type name format: AWS::EC2");
    assert_eq!(full_resource_name_from_type("VPC").unwrap_err(), "Invalid type name format: VPC");
    let schema = widget();
    assert_eq!(generate_markdown(&schema, "Widget").unwrap_err(), "Invalid type name format: Widget");
    assert_eq!(generate_schema_code(&schema, "A::B").unwrap_err(), "Invalid type name format: A::B");
}

#[test]
fn enums_and_ranges_are_found_by_property() {
    let schema = widget();
    assert_eq!(find_ranges(&schema), vec![("Size".to_string(), (1, 9))]);
    let enums = find_enums(&schema);
    assert_eq!(enums.len(), 1);
    assert_eq!((enums[0].0.as_str(), enums[0].1.typename.as_str()), ("Mode", "Mode"));
    assert_eq!(enums[0].1.values, vec!["on-line", "off"]);
}

#[test]
fn definitions_with_known_ranges_are_found_once() {
    let mut schema = widget();
    schema.definitions.as_mut().unwrap()[0].1.properties.as_mut().unwrap().push(("ToPort".to_string(), prop("integer", None)));
    assert_eq!(find_ranges(&schema), vec![("Size".to_string(), (1, 9)), ("ToPort".to_string(), (-1, 65535))]);
}

#[test]
fn references_in_a_circle_are_not_renderable() {
    let mut schema = widget();
    schema.definitions.as_mut().unwrap()[0].1.properties = Some(vec![("Next".to_string(), reference("#/definitions/Part"))]);
    assert!(!is_schema_renderable(&schema, 50));
}

#[test]
fn structs_list_their_fields() {
    let fields = vec![
        ("Kind".to_string(), CfnProperty { enum_values: Some(vec![EnumValue::Str("a".to_string()), EnumValue::Int(2)]), ..prop("string", None) }),
        ("Note".to_string(), prop("boolean", Some("Say \"hi\".\nTwice."))),
    ];
    let code = generate_struct_type("Thing", &fields, &names(&["Note"]), &widget());
    assert_eq!(
        code,
        "AttributeType::Struct {\n                    name: \"Thing\".to_string(),\n                    fields: vec![\n                    \
         StructField::new(\"kind\", AttributeType::Enum(vec![\"a\".to_string(), \"2\".to_string()])).with_provider_name(\"Kind\"),\n                    \
         StructField::new(\"note\", AttributeType::Bool).required().with_description(\"Say \\\"hi\\\". Twice.\").with_provider_name(\"Note\")\n                    \
         ],\n                }"
    );
}

#[test]
fn long_descriptions_are_cut() {
    let long = "x".repeat(151);
    let fields = vec![("Note".to_string(), prop("boolean", Some(&long)))];
    let code = generate_struct_type("Thing", &fields, &vec![], &widget());
    assert!(code.contains(&format!(".with_description(\"{}...\")", "x".repeat(150))));
    let mut schema = widget();
    schema.properties[1].1.description = Some(format!("{}{}", "x".repeat(149), "\u{e9}\u{e9}"));
    assert!(!do_descriptions_fit(&schema));
}

#[test]
fn values_that_are_all_integers_are_no_enum() {
    let ints = || Some(vec![EnumValue::Int(1), EnumValue::Int(2)]);
    let (code, found) = cfn_type_to_carina_type_with_enum(&CfnProperty { enum_values: ints(), ..prop("integer", None) }, "Days", &widget());
    assert_eq!(code, "AttributeType::Int");
    assert!(found.is_none());
    let (code, _) = cfn_type_to_carina_type_with_enum(&CfnProperty { enum_values: ints(), ..prop("string", None) }, "Days", &widget());
    assert_eq!(code, "AttributeType::String");
}

#[test]
fn the_tags_helper_is_a_map_of_strings() {
    assert!(tags_type_helper().contains("AttributeType::Map(Box::new(AttributeType::String))"));
}

#[test]
fn pages_and_code_agree_on_ranges() {
    let ranged = CfnProperty { minimum: Some(0), maximum: Some(32), ..prop("integer", None) };
    assert_eq!(type_display_string("Ipv4NetmaskLength", &ranged, &widget(), &vec![]), "Int(0..=32)");
    let (code, _) = cfn_type_to_carina_type_with_enum(&ranged, "Ipv4NetmaskLength", &widget());
    assert!(code.contains("name: \"Int(0..=32)\"") && !code.contains("name: \"Int(0..=33)\""));
    let plain = prop("number", None);
    assert_eq!(type_display_string("Weight", &plain, &widget(), &vec![]), "Int");
    assert_eq!(cfn_type_to_carina_type_with_enum(&plain, "Weight", &widget()).0, "AttributeType::Int");
}

#[test]
fn names_with_too_few_parts_are_refused_before_the_schema_is_looked_at() {
    let mut schema = widget();
    schema.definitions.as_mut().unwrap()[0].1.properties = Some(vec![("Next".to_string(), reference("#/definitions/Part"))]);
    assert_eq!(generate_markdown(&schema, "Widget").unwrap_err(), "Invalid type name format: Widget");
    assert_eq!(generate_schema_code(&schema, "A::B").unwrap_err(), "Invalid type name format: A::B");
}

#[test]
fn enums_are_named_like_their_properties() {
    let two = || Some(vec![EnumValue::Str("a".to_string()), EnumValue::Str("b".to_string())]);
    for (name, expected) in [("AccessMode", "AccessMode"), ("accessMode", "AccessMode"), ("HTTPMode", "HttpMode")] {
        let p = CfnProperty { enum_values: two(), ..prop("string", None) };
        let (_, found) = cfn_type_to_carina_type_with_enum(&p, name, &widget());
        assert_eq!(found.unwrap().typename, expected);
    }
}
