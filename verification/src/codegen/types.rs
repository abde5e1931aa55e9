//! The attribute type of a property, as generated code.
use vstd::prelude::*;
use vstd::string::*;

use crate::codegen::casing;
use crate::codegen::enums;
use crate::codegen::model;
use crate::codegen::model::{CfnProperty, CfnSchema, EnumInfo, EnumValue, EnumView};
use crate::codegen::names;
use crate::codegen::tables;
use crate::keyed;
use crate::text;

verus! {

/// A generated type: its code, and the enum that it stands for if it is one.
pub open spec fn type_view(t: (String, Option<EnumInfo>)) -> (Seq<char>, Option<EnumView>) {
    (
        t.0@,
        match t.1 {
            Some(e) => Some(e@),
            None => None,
        },
    )
}

pub open spec fn plain(code: Seq<char>) -> (Seq<char>, Option<EnumView>) {
    (code, None)
}

/// The type of a property that is an enum: a placeholder, and the enum.
pub open spec fn enumerated(name: Seq<char>, values: Seq<Seq<char>>) -> (Seq<char>, Option<EnumView>) {
    ("/* enum */"@, Some(EnumView { typename: casing::pascal_case(name), values }))
}

/// The type that names alone give a property.
pub open spec fn named_type(name: Seq<char>, schema: CfnSchema) -> Seq<char> {
    match names::inferred_type(name, text::lowercase(name), schema.typename@) {
        Some(t) => t,
        None => "AttributeType::String"@,
    }
}

/// The type that the name of a string property fixes. `lower` is the name in lower case.
pub open spec fn string_pattern_type(name: Seq<char>, lower: Seq<char>, resource_type: Seq<char>) -> Option<Seq<char>> {
    if names::inferred_type(name, lower, resource_type) is Some {
        names::inferred_type(name, lower, resource_type)
    } else if text::finishes_with(name, "PolicyDocument"@) {
        Some("super::iam_policy_document()"@)
    } else if text::holds(lower, "cidr"@) {
        if text::holds(lower, "ipv6"@) {
            Some("types::ipv6_cidr()"@)
        } else {
            Some("types::ipv4_cidr()"@)
        }
    } else if names::names_ip_address(lower) {
        if text::holds(lower, "ipv6"@) {
            Some("types::ipv6_address()"@)
        } else {
            Some("types::ipv4_address()"@)
        }
    } else if names::names_ipam_pool_id(lower) {
        Some("super::ipam_pool_id()"@)
    } else if text::finishes_with(lower, "id"@) {
        Some("AttributeType::String"@)
    } else if lower == "availabilityzone"@ {
        Some("super::availability_zone()"@)
    } else if text::holds(lower, "zone"@) || text::holds(lower, "region"@) {
        Some("AttributeType::String"@)
    } else {
        None
    }
}

/// The type of a string property: what its name fixes, or else the enum that
/// its description lists.
pub open spec fn string_type(prop: CfnProperty, name: Seq<char>, schema: CfnSchema) -> (Seq<char>, Option<EnumView>) {
    match string_pattern_type(name, text::lowercase(name), schema.typename@) {
        Some(t) => plain(t),
        None => match prop.description {
            Some(d) => match enums::described_values(d@) {
                Some(values) => enumerated(name, values),
                None => plain("AttributeType::String"@),
            },
            None => plain("AttributeType::String"@),
        },
    }
}

/// The range of an integer property: its own, or else the known one.
pub open spec fn int_range(prop: CfnProperty, name: Seq<char>) -> Option<(i64, i64)> {
    if prop.minimum is Some && prop.maximum is Some {
        Some((prop.minimum->0, prop.maximum->0))
    } else {
        keyed::lookup(tables::int_range_table(), name)
    }
}

/// The type of an integer property.
pub open spec fn int_type(prop: CfnProperty, name: Seq<char>) -> Seq<char> {
    match int_range(prop, name) {
        Some(range) => "AttributeType::Custom {\n                name: \"Int("@ + text::decimal(range.0 as int)
            + "..="@ + text::decimal(range.1 as int)
            + ")\".to_string(),\n                base: Box::new(AttributeType::Int),\n                validate: validate_"@
            + casing::snake_case(name)
            + "_range,\n                namespace: None,\n                to_dsl: None,\n            }"@,
        None => "AttributeType::Int"@,
    }
}

pub open spec fn list_of(inner: Seq<char>) -> Seq<char> {
    "AttributeType::List(Box::new("@ + inner + "))"@
}

pub open spec fn all_ints(values: Seq<EnumValue>) -> bool {
    forall|i: int| 0 <= i < values.len() ==> (#[trigger] values[i]) is Int
}

pub open spec fn value_texts(values: Seq<EnumValue>) -> Seq<Seq<char>> {
    Seq::new(values.len(), |i: int| model::enum_value_text(values[i]))
}

/// A description on one line, with quotes escaped and double spaces single.
pub open spec fn escaped(d: Seq<char>) -> Seq<char> {
    text::replaced(text::swapped(text::replaced(d, "\""@, "\\\""@), '\n', ' '), "  "@, " "@)
}

/// A list of values as the code of owned strings.
pub open spec fn owned_literals(values: Seq<Seq<char>>) -> Seq<Seq<char>> {
    values.map_values(|v: Seq<char>| "\""@ + v + "\".to_string()"@)
}

/// The type of a field: the generated type, or an enum of its values.
pub open spec fn field_type(t: (Seq<char>, Option<EnumView>)) -> Seq<char> {
    match t.1 {
        Some(e) => "AttributeType::Enum(vec!["@ + text::join(owned_literals(e.values), ", "@) + "])"@,
        None => t.0,
    }
}

/// The code of one field of a struct.
pub open spec fn field_code(name: Seq<char>, prop: CfnProperty, t: (Seq<char>, Option<EnumView>), required: bool) -> Seq<char> {
    let head = "StructField::new(\""@ + casing::snake_case(name) + "\", "@ + field_type(t) + ")"@;
    let marked = if required {
        head + ".required()"@
    } else {
        head
    };
    let described = match prop.description {
        Some(d) => marked + ".with_description(\""@ + text::clipped(escaped(d@), 150) + "\")"@,
        None => marked,
    };
    described + ".with_provider_name(\""@ + name + "\")"@
}

/// The code of a struct with the given fields.
pub open spec fn struct_text(def_name: Seq<char>, fields: Seq<Seq<char>>) -> Seq<char> {
    "AttributeType::Struct {\n                    name: \""@ + def_name
        + "\".to_string(),\n                    fields: vec![\n                    "@
        + text::join(fields, ",\n                    "@) + "\n                    ],\n                }"@
}

/// The code of a property's type. References are followed as long as `fuel`
/// lasts.
pub open spec fn carina_type(prop: CfnProperty, name: Seq<char>, schema: CfnSchema, fuel: nat) -> (Seq<char>, Option<EnumView>)
    decreases fuel, prop, 1nat,
{
    if name == "Tags"@ {
        plain("tags_type()"@)
    } else if prop.ref_path is Some {
        let path = prop.ref_path->0@;
        let def = model::resolved(schema, path);
        if text::holds(path, "/Tag"@) {
            plain("tags_type()"@)
        } else if model::is_struct(def) {
            if fuel == 0 {
                plain(Seq::empty())
            } else {
                plain(
                    struct_text(
                        model::ref_name(path)->0,
                        field_codes(
                            def->0.properties->0@,
                            text::strings(def->0.required@),
                            schema,
                            (fuel - 1) as nat,
                        ),
                    ),
                )
            }
        } else {
            plain(named_type(name, schema))
        }
    } else if prop.enum_values is Some {
        if all_ints(prop.enum_values->0@) {
            if model::is_numeric(prop) {
                plain("AttributeType::Int"@)
            } else {
                plain("AttributeType::String"@)
            }
        } else {
            enumerated(name, value_texts(prop.enum_values->0@))
        }
    } else if keyed::lookup(tables::enum_table(), name) is Some {
        enumerated(name, keyed::lookup(tables::enum_table(), name)->0)
    } else if model::kind_name(prop) == Some("string"@) {
        string_type(prop, name, schema)
    } else if model::kind_name(prop) == Some("boolean"@) {
        plain("AttributeType::Bool"@)
    } else if model::is_numeric(prop) {
        plain(int_type(prop, name))
    } else if model::kind_name(prop) == Some("array"@) {
        match prop.items {
            Some(items) => {
                let def = model::resolved(schema, items.ref_path->0@);
                if items.ref_path is Some && !text::holds(items.ref_path->0@, "/Tag"@) && model::is_struct(def) {
                    if fuel == 0 {
                        plain(Seq::empty())
                    } else {
                        plain(
                            list_of(
                                struct_text(
                                    model::ref_name(items.ref_path->0@)->0,
                                    field_codes(
                                        def->0.properties->0@,
                                        text::strings(def->0.required@),
                                        schema,
                                        (fuel - 1) as nat,
                                    ),
                                ),
                            ),
                        )
                    }
                } else {
                    let inner = carina_type(*items, name, schema, fuel);
                    if inner.1 is Some {
                        plain(list_of("AttributeType::String"@))
                    } else {
                        plain(list_of(inner.0))
                    }
                }
            },
            None => plain("AttributeType::List(Box::new(AttributeType::String))"@),
        }
    } else if model::kind_name(prop) == Some("object"@) {
        if prop.properties is Some && prop.properties->0@.len() > 0 {
            plain(
                struct_text(
                    name,
                    field_codes(prop.properties->0@, text::strings(prop.required@), schema, fuel),
                ),
            )
        } else if text::finishes_with(name, "PolicyDocument"@) {
            plain("super::iam_policy_document()"@)
        } else {
            plain("AttributeType::Map(Box::new(AttributeType::String))"@)
        }
    } else {
        plain(named_type(name, schema))
    }
}

/// The code of the fields of a struct, in order.
pub open spec fn field_codes(
    props: Seq<(String, CfnProperty)>,
    required: Seq<Seq<char>>,
    schema: CfnSchema,
    fuel: nat,
) -> Seq<Seq<char>>
    decreases fuel, props, 0nat,
{
    if props.len() == 0 {
        Seq::empty()
    } else {
        let field = props[props.len() - 1];
        field_codes(props.subrange(0, props.len() - 1), required, schema, fuel).push(
            field_code(
                field.0@,
                field.1,
                carina_type(field.1, field.0@, schema, fuel),
                required.contains(field.0@),
            ),
        )
    }
}

/// The references that a property's type follows nest at most `fuel` deep, and
/// every description of a field on the way can be cut to length.
pub open spec fn renderable(prop: CfnProperty, name: Seq<char>, schema: CfnSchema, fuel: nat) -> bool
    decreases fuel, prop, 1nat,
{
    if name == "Tags"@ {
        true
    } else if prop.ref_path is Some {
        let path = prop.ref_path->0@;
        let def = model::resolved(schema, path);
        if text::holds(path, "/Tag"@) {
            true
        } else if model::is_struct(def) {
            fuel > 0 && fields_renderable(def->0.properties->0@, schema, (fuel - 1) as nat)
        } else {
            true
        }
    } else if prop.enum_values is Some || keyed::lookup(tables::enum_table(), name) is Some
        || model::kind_name(prop) == Some("string"@) || model::kind_name(prop) == Some("boolean"@)
        || model::is_numeric(prop) {
        true
    } else if model::kind_name(prop) == Some("array"@) {
        match prop.items {
            Some(items) => {
                let def = model::resolved(schema, items.ref_path->0@);
                if items.ref_path is Some && !text::holds(items.ref_path->0@, "/Tag"@) && model::is_struct(def) {
                    fuel > 0 && fields_renderable(def->0.properties->0@, schema, (fuel - 1) as nat)
                } else {
                    renderable(*items, name, schema, fuel)
                }
            },
            None => true,
        }
    } else if model::kind_name(prop) == Some("object"@) {
        if prop.properties is Some && prop.properties->0@.len() > 0 {
            fields_renderable(prop.properties->0@, schema, fuel)
        } else {
            true
        }
    } else {
        true
    }
}

/// All fields are renderable and their descriptions can be cut to length.
pub open spec fn fields_renderable(props: Seq<(String, CfnProperty)>, schema: CfnSchema, fuel: nat) -> bool
    decreases fuel, props, 0nat,
{
    if props.len() == 0 {
        true
    } else {
        let field = props[props.len() - 1];
        &&& fields_renderable(props.subrange(0, props.len() - 1), schema, fuel)
        &&& renderable(field.1, field.0@, schema, fuel)
        &&& field.1.description is Some ==> text::cuts_cleanly(escaped(field.1.description->0@), 150)
    }
}


/// More fuel does not change what is generated from a property that is
/// renderable with less.
pub proof fn law_fuel_does_not_matter(prop: CfnProperty, name: Seq<char>, schema: CfnSchema, less: nat, more: nat)
    requires
        renderable(prop, name, schema, less),
        less <= more,
    ensures
        renderable(prop, name, schema, more),
        carina_type(prop, name, schema, more) == carina_type(prop, name, schema, less),
    decreases less, prop, 1nat,
{
    if name == "Tags"@ {
    } else if prop.ref_path is Some {
        let path = prop.ref_path->0@;
        let def = model::resolved(schema, path);
        if !text::holds(path, "/Tag"@) && model::is_struct(def) {
            lemma_fuel_for_fields(
                def->0.properties->0@,
                text::strings(def->0.required@),
                schema,
                (less - 1) as nat,
                (more - 1) as nat,
            );
        }
    } else if prop.enum_values is Some || keyed::lookup(tables::enum_table(), name) is Some
        || model::kind_name(prop) == Some("string"@) || model::kind_name(prop) == Some("boolean"@)
        || model::is_numeric(prop) {
    } else if model::kind_name(prop) == Some("array"@) {
        if prop.items is Some {
            let items = prop.items->0;
            let def = model::resolved(schema, items.ref_path->0@);
            if items.ref_path is Some && !text::holds(items.ref_path->0@, "/Tag"@) && model::is_struct(def) {
                lemma_fuel_for_fields(
                    def->0.properties->0@,
                    text::strings(def->0.required@),
                    schema,
                    (less - 1) as nat,
                    (more - 1) as nat,
                );
            } else {
                law_fuel_does_not_matter(*items, name, schema, less, more);
            }
        }
    } else if model::kind_name(prop) == Some("object"@) {
        if prop.properties is Some && prop.properties->0@.len() > 0 {
            lemma_fuel_for_fields(prop.properties->0@, text::strings(prop.required@), schema, less, more);
        }
    }
}

/// More fuel does not change what is generated from fields that are renderable with
/// less.
pub proof fn lemma_fuel_for_fields(
    props: Seq<(String, CfnProperty)>,
    required: Seq<Seq<char>>,
    schema: CfnSchema,
    less: nat,
    more: nat,
)
    requires
        fields_renderable(props, schema, less),
        less <= more,
    ensures
        fields_renderable(props, schema, more),
        field_codes(props, required, schema, more) == field_codes(props, required, schema, less),
    decreases less, props, 0nat,
{
    if props.len() > 0 {
        let field = props[props.len() - 1];
        lemma_fuel_for_fields(props.subrange(0, props.len() - 1), required, schema, less, more);
        law_fuel_does_not_matter(field.1, field.0@, schema, less, more);
    }
}

/// Every field of a renderable struct is renderable.
pub proof fn lemma_field_renderable(props: Seq<(String, CfnProperty)>, schema: CfnSchema, fuel: nat, i: int)
    requires
        fields_renderable(props, schema, fuel),
        0 <= i < props.len(),
    ensures
        renderable(props[i].1, props[i].0@, schema, fuel),
        props[i].1.description is Some ==> text::cuts_cleanly(escaped(props[i].1.description->0@), 150),
    decreases props.len(),
{
    if i < props.len() - 1 {
        lemma_field_renderable(props.subrange(0, props.len() - 1), schema, fuel, i);
    }
}

/// A property whose type can be generated: the references that it follows end,
/// and the descriptions on the way can be cut to length.
pub open spec fn has_type(prop: CfnProperty, name: Seq<char>, schema: CfnSchema) -> bool {
    exists|fuel: nat| renderable(prop, name, schema, fuel)
}

/// The code of a property's type.
pub open spec fn type_code(prop: CfnProperty, name: Seq<char>, schema: CfnSchema) -> (Seq<char>, Option<EnumView>) {
    carina_type(prop, name, schema, choose|fuel: nat| renderable(prop, name, schema, fuel))
}

/// The enum of a property is named like the property, in Pascal case; a name that
/// is in Pascal case already stays as it is.
pub proof fn law_enum_is_named_like_its_property(prop: CfnProperty, name: Seq<char>, schema: CfnSchema)
    ensures
        type_code(prop, name, schema).1 matches Some(e) ==> e.typename == casing::pascal_case(name) && (
        casing::is_pascal(name) ==> e.typename == name),
{
}

/// Any fuel with which a property is renderable gives its code.
pub proof fn law_enough_fuel_gives_the_code(prop: CfnProperty, name: Seq<char>, schema: CfnSchema, fuel: nat)
    requires
        renderable(prop, name, schema, fuel),
    ensures
        has_type(prop, name, schema),
        carina_type(prop, name, schema, fuel) == type_code(prop, name, schema),
{
    let chosen = choose|f: nat| renderable(prop, name, schema, f);
    if chosen <= fuel {
        law_fuel_does_not_matter(prop, name, schema, chosen, fuel);
    } else {
        law_fuel_does_not_matter(prop, name, schema, fuel, chosen);
    }
}

/// Whether a property is renderable with the given depth of references.
pub fn is_renderable(prop: &CfnProperty, name: &str, schema: &CfnSchema, depth: u32) -> (r: bool)
    ensures
        r == renderable(*prop, name@, *schema, depth as nat),
    decreases depth, prop, 1nat,
{
    if text::same(name, "Tags") {
        return true;
    }
    if let Some(path) = &prop.ref_path {
        if text::contains(path.as_str(), "/Tag") {
            return true;
        }
        return match model::struct_properties(schema, path.as_str()) {
            Some((props, _required)) => depth > 0 && are_fields_renderable(props, schema, depth - 1),
            None => true,
        };
    }
    if prop.enum_values.is_some() || tables::enum_override(name).is_some() || model::has_kind(prop, "string")
        || model::has_kind(prop, "boolean") || model::has_numeric_kind(prop) {
        return true;
    }
    if model::has_kind(prop, "array") {
        return match &prop.items {
            Some(items) => {
                if let Some(path) = &items.ref_path {
                    if !text::contains(path.as_str(), "/Tag") {
                        if let Some((props, _required)) = model::struct_properties(schema, path.as_str()) {
                            return depth > 0 && are_fields_renderable(props, schema, depth - 1);
                        }
                    }
                }
                is_renderable(items, name, schema, depth)
            },
            None => true,
        };
    }
    if model::has_kind(prop, "object") {
        return match &prop.properties {
            Some(props) => if props.len() > 0 {
                are_fields_renderable(props, schema, depth)
            } else {
                true
            },
            None => true,
        };
    }
    true
}

fn are_fields_renderable(props: &Vec<(String, CfnProperty)>, schema: &CfnSchema, depth: u32) -> (r: bool)
    ensures
        r == fields_renderable(props@, *schema, depth as nat),
    decreases depth, props@, 0nat,
{
    let mut i: usize = 0;
    assert(props@.subrange(0, 0).len() == 0);
    while i < props.len()
        invariant
            i <= props.len(),
            fields_renderable(props@.subrange(0, i as int), *schema, depth as nat),
        decreases props.len() - i,
    {
        let ghost upto = props@.subrange(0, i + 1);
        proof {
            assert(upto.subrange(0, upto.len() - 1) =~= props@.subrange(0, i as int));
            assert(upto[upto.len() - 1] == props@[i as int]);
        }
        let field = &props[i];
        let fine = is_renderable(&field.1, field.0.as_str(), schema, depth) && match &field.1.description {
            Some(d) => text::can_clip(escape(d.as_str()).as_str(), 150),
            None => true,
        };
        if !fine {
            proof {
                assert(!fields_renderable(upto, *schema, depth as nat));
                lemma_prefix_renderable(props@, *schema, depth as nat, i + 1);
            }
            return false;
        }
        i = i + 1;
    }
    assert(props@.subrange(0, i as int) =~= props@);
    true
}

proof fn lemma_prefix_renderable(props: Seq<(String, CfnProperty)>, schema: CfnSchema, fuel: nat, i: int)
    requires
        0 <= i <= props.len(),
    ensures
        fields_renderable(props, schema, fuel) ==> fields_renderable(props.subrange(0, i), schema, fuel),
    decreases props.len(),
{
    if i < props.len() {
        lemma_prefix_renderable(props.subrange(0, props.len() - 1), schema, fuel, i);
        assert(props.subrange(0, props.len() - 1).subrange(0, i) =~= props.subrange(0, i));
    } else {
        assert(props.subrange(0, i) =~= props);
    }
}

/// A description on one line, with quotes escaped and double spaces single.
pub fn escape(d: &str) -> (r: String)
    ensures
        r@ == escaped(d@),
{
    proof {
        reveal_strlit("\"");
        reveal_strlit("  ");
    }
    let quoted = text::replace(d, "\"", "\\\"");
    let lined = text::swap_char(quoted.as_str(), '\n', ' ');
    text::replace(lined.as_str(), "  ", " ")
}

/// The type that the name of a string property fixes, with the name in lower
/// case at hand.
pub fn string_type_by_name(prop_name: &str, lower: &str, resource_type: &str) -> (r: Option<String>)
    ensures
        text::opt_string(r) == string_pattern_type(prop_name@, lower@, resource_type@),
{
    if let Some(t) = names::infer_string_type_lowered(prop_name, lower, resource_type) {
        return Some(t);
    }
    if text::ends_with(prop_name, "PolicyDocument") {
        return Some("super::iam_policy_document()".to_owned());
    }
    if text::contains(lower, "cidr") {
        if text::contains(lower, "ipv6") {
            return Some("types::ipv6_cidr()".to_owned());
        }
        return Some("types::ipv4_cidr()".to_owned());
    }
    if names::is_ip_address_lowered(lower) {
        if text::contains(lower, "ipv6") {
            return Some("types::ipv6_address()".to_owned());
        }
        return Some("types::ipv4_address()".to_owned());
    }
    if names::is_ipam_pool_id_lowered(lower) {
        return Some("super::ipam_pool_id()".to_owned());
    }
    if text::ends_with(lower, "id") {
        return Some("AttributeType::String".to_owned());
    }
    if text::same(lower, "availabilityzone") {
        return Some("super::availability_zone()".to_owned());
    }
    if text::contains(lower, "zone") || text::contains(lower, "region") {
        return Some("AttributeType::String".to_owned());
    }
    None
}

fn type_by_names(prop_name: &str, schema: &CfnSchema) -> (r: String)
    ensures
        r@ == named_type(prop_name@, *schema),
{
    match names::infer_string_type(prop_name, schema.typename.as_str()) {
        Some(t) => t,
        None => "AttributeType::String".to_owned(),
    }
}

fn plain_type(code: &str) -> (r: (String, Option<EnumInfo>))
    ensures
        type_view(r) == plain(code@),
{
    (code.to_owned(), None)
}

fn enum_type(prop_name: &str, values: Vec<String>) -> (r: (String, Option<EnumInfo>))
    ensures
        type_view(r) == enumerated(prop_name@, text::strings(values@)),
{
    let typename = casing::to_pascal(prop_name);
    ("/* enum */".to_owned(), Some(EnumInfo { typename, values }))
}

fn string_property_type(prop: &CfnProperty, prop_name: &str, schema: &CfnSchema) -> (r: (String, Option<EnumInfo>))
    ensures
        type_view(r) == string_type(*prop, prop_name@, *schema),
{
    let lower = text::to_lower(prop_name);
    if let Some(t) = string_type_by_name(prop_name, lower.as_str(), schema.typename.as_str()) {
        return (t, None);
    }
    if let Some(d) = &prop.description {
        if let Some(values) = enums::extract_enum_from_description(d.as_str()) {
            return enum_type(prop_name, values);
        }
    }
    plain_type("AttributeType::String")
}

/// The range of an integer property: its own, or else the known one.
pub fn range_of(prop: &CfnProperty, prop_name: &str) -> (r: Option<(i64, i64)>)
    ensures
        r == int_range(*prop, prop_name@),
{
    match (prop.minimum, prop.maximum) {
        (Some(min), Some(max)) => Some((min, max)),
        _ => tables::int_range_override(prop_name),
    }
}

fn int_property_type(prop: &CfnProperty, prop_name: &str) -> (r: String)
    ensures
        r@ == int_type(*prop, prop_name@),
{
    match range_of(prop, prop_name) {
        Some((min, max)) => {
            let mut s = "AttributeType::Custom {\n                name: \"Int(".to_owned();
            s.append(text::print_i64(min).as_str());
            s.append("..=");
            s.append(text::print_i64(max).as_str());
            s.append(
                ")\".to_string(),\n                base: Box::new(AttributeType::Int),\n                validate: validate_",
            );
            s.append(casing::to_snake(prop_name).as_str());
            s.append("_range,\n                namespace: None,\n                to_dsl: None,\n            }");
            s
        },
        None => "AttributeType::Int".to_owned(),
    }
}

fn list_type(inner: &str) -> (r: String)
    ensures
        r@ == list_of(inner@),
{
    let mut s = "AttributeType::List(Box::new(".to_owned();
    s.append(inner);
    s.append("))");
    s
}

fn only_ints(values: &Vec<EnumValue>) -> (r: bool)
    ensures
        r == all_ints(values@),
{
    let mut i: usize = 0;
    while i < values.len()
        invariant
            i <= values.len(),
            forall|j: int| 0 <= j < i ==> (#[trigger] values@[j]) is Int,
        decreases values.len() - i,
    {
        match &values[i] {
            EnumValue::Int(_) => {},
            EnumValue::Str(_) => {
                assert(!(values@[i as int] is Int));
                return false;
            },
        }
        i = i + 1;
    }
    true
}

fn texts_of(values: &Vec<EnumValue>) -> (r: Vec<String>)
    ensures
        text::strings(r@) == value_texts(values@),
{
    let mut out: Vec<String> = Vec::new();
    let mut i: usize = 0;
    while i < values.len()
        invariant
            i <= values.len(),
            text::strings(out@) == value_texts(values@.take(i as int)),
        decreases values.len() - i,
    {
        let ghost before = text::strings(out@);
        let v = values[i].to_string_value();
        let ghost view = v@;
        out.push(v);
        i = i + 1;
        proof {
            assert(text::strings(out@) =~= before.push(view));
            assert(value_texts(values@.take(i as int)) =~= value_texts(values@.take(i - 1)).push(view));
        }
    }
    assert(values@.take(i as int) =~= values@);
    out
}

fn owned_literal_list(values: &Vec<String>) -> (r: Vec<String>)
    ensures
        text::strings(r@) == owned_literals(text::strings(values@)),
{
    let mut out: Vec<String> = Vec::new();
    let mut i: usize = 0;
    let ghost all = text::strings(values@);
    while i < values.len()
        invariant
            i <= values.len(),
            all == text::strings(values@),
            text::strings(out@) == owned_literals(all.take(i as int)),
        decreases values.len() - i,
    {
        let ghost before = text::strings(out@);
        let mut v = "\"".to_owned();
        v.append(values[i].as_str());
        v.append("\".to_string()");
        let ghost view = v@;
        out.push(v);
        i = i + 1;
        proof {
            assert(text::strings(out@) =~= before.push(view));
            assert(owned_literals(all.take(i as int)) =~= owned_literals(all.take(i - 1)).push(view));
        }
    }
    assert(all.take(i as int) =~= all);
    out
}

fn field_type_code(t: (String, Option<EnumInfo>)) -> (r: String)
    ensures
        r@ == field_type(type_view(t)),
{
    match t.1 {
        Some(info) => {
            let mut s = "AttributeType::Enum(vec![".to_owned();
            s.append(text::joined(&owned_literal_list(&info.values), ", ").as_str());
            s.append("])");
            s
        },
        None => t.0,
    }
}

fn render_field(name: &str, prop: &CfnProperty, t: (String, Option<EnumInfo>), required: bool) -> (r: String)
    requires
        prop.description is Some ==> text::cuts_cleanly(escaped(prop.description->0@), 150),
    ensures
        r@ == field_code(name@, *prop, type_view(t), required),
{
    let mut s = "StructField::new(\"".to_owned();
    s.append(casing::to_snake(name).as_str());
    s.append("\", ");
    s.append(field_type_code(t).as_str());
    s.append(")");
    if required {
        s.append(".required()");
    }
    if let Some(d) = &prop.description {
        s.append(".with_description(\"");
        s.append(text::clip(escape(d.as_str()), 150).as_str());
        s.append("\")");
    }
    s.append(".with_provider_name(\"");
    s.append(name);
    s.append("\")");
    s
}

fn render_struct(def_name: &str, fields: &Vec<String>) -> (r: String)
    ensures
        r@ == struct_text(def_name@, text::strings(fields@)),
{
    let mut s = "AttributeType::Struct {\n                    name: \"".to_owned();
    s.append(def_name);
    s.append("\".to_string(),\n                    fields: vec![\n                    ");
    s.append(text::joined(fields, ",\n                    ").as_str());
    s.append("\n                    ],\n                }");
    s
}

fn fields_within(
    props: &Vec<(String, CfnProperty)>,
    required: &Vec<String>,
    schema: &CfnSchema,
    Ghost(fuel): Ghost<nat>,
) -> (r: Vec<String>)
    requires
        fields_renderable(props@, *schema, fuel),
    ensures
        text::strings(r@) == field_codes(props@, text::strings(required@), *schema, fuel),
    decreases fuel, props@, 0nat,
{
    let mut out: Vec<String> = Vec::new();
    let mut i: usize = 0;
    assert(text::strings(out@) =~= field_codes(props@.subrange(0, 0), text::strings(required@), *schema, fuel));
    while i < props.len()
        invariant
            i <= props.len(),
            fields_renderable(props@, *schema, fuel),
            text::strings(out@) == field_codes(
                props@.subrange(0, i as int),
                text::strings(required@),
                *schema,
                fuel,
            ),
        decreases props.len() - i,
    {
        let ghost before = text::strings(out@);
        let ghost upto = props@.subrange(0, i + 1);
        proof {
            lemma_field_renderable(props@, *schema, fuel, i as int);
            assert(upto.subrange(0, upto.len() - 1) =~= props@.subrange(0, i as int));
            assert(upto[upto.len() - 1] == props@[i as int]);
        }
        let field = &props[i];
        let t = type_within(&field.1, field.0.as_str(), schema, Ghost(fuel));
        let is_required = text::listed(required, field.0.as_str());
        let code = render_field(field.0.as_str(), &field.1, t, is_required);
        let ghost view = code@;
        out.push(code);
        assert(text::strings(out@) =~= before.push(view));
        i = i + 1;
    }
    assert(props@.subrange(0, i as int) =~= props@);
    out
}

fn type_within(prop: &CfnProperty, prop_name: &str, schema: &CfnSchema, Ghost(fuel): Ghost<nat>) -> (r: (
    String,
    Option<EnumInfo>,
))
    requires
        renderable(*prop, prop_name@, *schema, fuel),
    ensures
        type_view(r) == carina_type(*prop, prop_name@, *schema, fuel),
    decreases fuel, prop, 1nat,
{
    if text::same(prop_name, "Tags") {
        return plain_type("tags_type()");
    }
    if let Some(path) = &prop.ref_path {
        if text::contains(path.as_str(), "/Tag") {
            return plain_type("tags_type()");
        }
        if let Some((props, required)) = model::struct_properties(schema, path.as_str()) {
            if let Some(def_name) = model::ref_def_name(path.as_str()) {
                let fields = fields_within(props, required, schema, Ghost((fuel - 1) as nat));
                return (render_struct(def_name, &fields), None);
            }
        }
        return (type_by_names(prop_name, schema), None);
    }
    if let Some(values) = &prop.enum_values {
        if only_ints(values) {
            return if model::has_numeric_kind(prop) {
                plain_type("AttributeType::Int")
            } else {
                plain_type("AttributeType::String")
            };
        }
        return enum_type(prop_name, texts_of(values));
    }
    if let Some(values) = tables::enum_override(prop_name) {
        return enum_type(prop_name, values);
    }
    if model::has_kind(prop, "string") {
        return string_property_type(prop, prop_name, schema);
    }
    if model::has_kind(prop, "boolean") {
        return plain_type("AttributeType::Bool");
    }
    if model::has_numeric_kind(prop) {
        return (int_property_type(prop, prop_name), None);
    }
    if model::has_kind(prop, "array") {
        return match &prop.items {
            Some(items) => {
                if let Some(path) = &items.ref_path {
                    if !text::contains(path.as_str(), "/Tag") {
                        if let Some((props, required)) = model::struct_properties(schema, path.as_str()) {
                            if let Some(def_name) = model::ref_def_name(path.as_str()) {
                                let fields = fields_within(props, required, schema, Ghost((fuel - 1) as nat));
                                return (list_type(render_struct(def_name, &fields).as_str()), None);
                            }
                        }
                    }
                }
                let inner = type_within(items, prop_name, schema, Ghost(fuel));
                if inner.1.is_some() {
                    (list_type("AttributeType::String"), None)
                } else {
                    (list_type(inner.0.as_str()), None)
                }
            },
            None => plain_type("AttributeType::List(Box::new(AttributeType::String))"),
        };
    }
    if model::has_kind(prop, "object") {
        if let Some(props) = &prop.properties {
            if props.len() > 0 {
                let fields = fields_within(props, &prop.required, schema, Ghost(fuel));
                return (render_struct(prop_name, &fields), None);
            }
        }
        if text::ends_with(prop_name, "PolicyDocument") {
            return plain_type("super::iam_policy_document()");
        }
        return plain_type("AttributeType::Map(Box::new(AttributeType::String))");
    }
    (type_by_names(prop_name, schema), None)
}

/// The code of a property's type, and the enum that the property is if it is
/// one; then the code is a placeholder.
pub fn cfn_type_to_carina_type_with_enum(prop: &CfnProperty, prop_name: &str, schema: &CfnSchema) -> (r: (
    String,
    Option<EnumInfo>,
))
    requires
        has_type(*prop, prop_name@, *schema),
    ensures
        type_view(r) == type_code(*prop, prop_name@, *schema),
{
    let ghost fuel = choose|fuel: nat| renderable(*prop, prop_name@, *schema, fuel);
    type_within(prop, prop_name, schema, Ghost(fuel))
}

/// A struct whose code can be generated.
pub open spec fn struct_has_type(props: Seq<(String, CfnProperty)>, schema: CfnSchema) -> bool {
    exists|fuel: nat| fields_renderable(props, schema, fuel)
}

/// The code of a struct.
pub open spec fn struct_code(
    def_name: Seq<char>,
    props: Seq<(String, CfnProperty)>,
    required: Seq<Seq<char>>,
    schema: CfnSchema,
) -> Seq<char> {
    struct_text(
        def_name,
        field_codes(props, required, schema, choose|fuel: nat| fields_renderable(props, schema, fuel)),
    )
}

/// The code of a struct with the given properties.
pub fn generate_struct_type(
    def_name: &str,
    properties: &Vec<(String, CfnProperty)>,
    required: &Vec<String>,
    schema: &CfnSchema,
) -> (r: String)
    requires
        struct_has_type(properties@, *schema),
    ensures
        r@ == struct_code(def_name@, properties@, text::strings(required@), *schema),
{
    let ghost fuel = choose|fuel: nat| fields_renderable(properties@, *schema, fuel);
    let fields = fields_within(properties, required, schema, Ghost(fuel));
    render_struct(def_name, &fields)
}

/// The code of the helper for the type of tags.
pub fn tags_type_helper() -> (r: &'static str)
    ensures
        r@
            == "\n/// Tags type for AWS resources\npub fn tags_type() -> AttributeType {\n    AttributeType::Map(Box::new(AttributeType::String))\n}\n"@,
{
    "\n/// Tags type for AWS resources\npub fn tags_type() -> AttributeType {\n    AttributeType::Map(Box::new(AttributeType::String))\n}\n"
}

} // verus!
