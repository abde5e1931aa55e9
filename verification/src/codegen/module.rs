//! The code of the schema module of a resource type.
use vstd::prelude::*;
use vstd::string::*;

use crate::codegen::casing;
use crate::codegen::model;
use crate::codegen::model::{CfnDefinition, CfnProperty, CfnSchema, EnumInfo, EnumView};
use crate::codegen::page;
use crate::codegen::tables;
use crate::codegen::types;
use crate::keyed;
use crate::text;

verus! {

/// Ranges by property name, as plain values.
pub open spec fn ranges_view(v: Seq<(String, (i64, i64))>) -> Seq<(Seq<char>, (i64, i64))> {
    Seq::new(v.len(), |i: int| (v[i].0@, v[i].1))
}

/// The ranges of the integers among the first properties.
pub open spec fn property_ranges(props: Seq<(String, CfnProperty)>) -> Seq<(Seq<char>, (i64, i64))>
    decreases props.len(),
{
    if props.len() == 0 {
        Seq::empty()
    } else {
        let before = property_ranges(props.drop_last());
        let last = props.last();
        if model::is_numeric(last.1) && types::int_range(last.1, last.0@) is Some {
            keyed::put_absent(before, last.0@, types::int_range(last.1, last.0@)->0)
        } else {
            before
        }
    }
}

/// The known range of a field of a definition that has no bound of its own.
pub open spec fn field_range(field: (String, CfnProperty)) -> Option<(i64, i64)> {
    if model::is_numeric(field.1) && field.1.minimum is None && field.1.maximum is None {
        keyed::lookup(tables::int_range_table(), field.0@)
    } else {
        None
    }
}

/// `m` with the known ranges of the first fields of a definition.
pub open spec fn with_field_ranges(m: Seq<(Seq<char>, (i64, i64))>, fields: Seq<(String, CfnProperty)>) -> Seq<(Seq<char>, (i64, i64))>
    decreases fields.len(),
{
    if fields.len() == 0 {
        m
    } else {
        let before = with_field_ranges(m, fields.drop_last());
        match field_range(fields.last()) {
            Some(range) => keyed::put_absent(before, fields.last().0@, range),
            None => before,
        }
    }
}

/// `m` with the known ranges of the fields of the first definitions.
pub open spec fn with_definition_ranges(m: Seq<(Seq<char>, (i64, i64))>, defs: Seq<(String, CfnDefinition)>) -> Seq<(Seq<char>, (i64, i64))>
    decreases defs.len(),
{
    if defs.len() == 0 {
        m
    } else {
        let before = with_definition_ranges(m, defs.drop_last());
        match defs.last().1.properties {
            Some(fields) => with_field_ranges(before, fields@),
            None => before,
        }
    }
}

/// The integers of a schema that need a range check, in ascending order.
pub open spec fn schema_ranges(schema: CfnSchema) -> Seq<(Seq<char>, (i64, i64))> {
    let own = property_ranges(schema.properties@);
    match schema.definitions {
        Some(defs) => with_definition_ranges(own, defs@),
        None => own,
    }
}

fn add_range(ranges: &mut Vec<(String, (i64, i64))>, name: &str, range: (i64, i64))
    ensures
        ranges_view(final(ranges)@) == keyed::put_absent(ranges_view(old(ranges)@), name@, range),
{
    let (i, found) = keyed::slot(ranges, name);
    assert(keyed::entry_keys(ranges@) =~= keyed::keys(ranges_view(ranges@)));
    if !found {
        ranges.insert(i, (name.to_owned(), range));
        assert(ranges_view(ranges@) =~= ranges_view(old(ranges)@).insert(i as int, (name@, range)));
    }
}

fn add_field_ranges(ranges: &mut Vec<(String, (i64, i64))>, fields: &Vec<(String, CfnProperty)>)
    ensures
        ranges_view(final(ranges)@) == with_field_ranges(ranges_view(old(ranges)@), fields@),
{
    let mut i: usize = 0;
    let ghost m = ranges_view(ranges@);
    while i < fields.len()
        invariant
            i <= fields.len(),
            ranges_view(ranges@) == with_field_ranges(m, fields@.take(i as int)),
        decreases fields.len() - i,
    {
        proof {
            assert(fields@.take(i + 1).drop_last() =~= fields@.take(i as int));
            assert(fields@.take(i + 1).last() == fields@[i as int]);
        }
        let name = fields[i].0.as_str();
        let prop = &fields[i].1;
        if model::has_numeric_kind(prop) && prop.minimum.is_none() && prop.maximum.is_none() {
            if let Some(range) = tables::int_range_override(name) {
                add_range(ranges, name, range);
            }
        }
        i = i + 1;
    }
    assert(fields@.take(i as int) =~= fields@);
}

/// The integers of a schema that need a range check, in ascending order.
pub fn find_ranges(schema: &CfnSchema) -> (r: Vec<(String, (i64, i64))>)
    ensures
        ranges_view(r@) == schema_ranges(*schema),
{
    let props = &schema.properties;
    let mut ranges: Vec<(String, (i64, i64))> = Vec::new();
    let mut i: usize = 0;
    assert(ranges_view(ranges@) =~= property_ranges(props@.take(0)));
    while i < props.len()
        invariant
            i <= props.len(),
            ranges_view(ranges@) == property_ranges(props@.take(i as int)),
        decreases props.len() - i,
    {
        proof {
            assert(props@.take(i + 1).drop_last() =~= props@.take(i as int));
            assert(props@.take(i + 1).last() == props@[i as int]);
        }
        let name = props[i].0.as_str();
        if model::has_numeric_kind(&props[i].1) {
            if let Some(range) = types::range_of(&props[i].1, name) {
                add_range(&mut ranges, name, range);
            }
        }
        i = i + 1;
    }
    assert(props@.take(i as int) =~= props@);
    if let Some(defs) = &schema.definitions {
        let mut k: usize = 0;
        let ghost own = ranges_view(ranges@);
        while k < defs.len()
            invariant
                k <= defs.len(),
                ranges_view(ranges@) == with_definition_ranges(own, defs@.take(k as int)),
            decreases defs.len() - k,
        {
            proof {
                assert(defs@.take(k + 1).drop_last() =~= defs@.take(k as int));
                assert(defs@.take(k + 1).last() == defs@[k as int]);
            }
            if let Some(fields) = &defs[k].1.properties {
                add_field_ranges(&mut ranges, fields);
            }
            k = k + 1;
        }
        assert(defs@.take(k as int) =~= defs@);
    }
    ranges
}

/// Some property's type has `part` in its code.
pub open spec fn uses(schema: CfnSchema, part: Seq<char>) -> bool {
    exists|i: int| #![trigger schema.properties@[i]]
        0 <= i < schema.properties@.len() && text::holds(
            types::type_code(schema.properties@[i].1, schema.properties@[i].0@, schema).0,
            part,
        )
}

fn some_code_holds(schema: &CfnSchema, codes: &Vec<String>, part: &str) -> (r: bool)
    requires
        text::strings(codes@) == property_codes(schema.properties@, *schema),
    ensures
        r == uses(*schema, part@),
{
    let mut i: usize = 0;
    assert(codes@.len() == text::strings(codes@).len());
    while i < codes.len()
        invariant
            i <= codes.len(),
            codes.len() == schema.properties@.len(),
            text::strings(codes@) == property_codes(schema.properties@, *schema),
            forall|j: int| #![trigger schema.properties@[j]] 0 <= j < i ==> !text::holds(
                types::type_code(schema.properties@[j].1, schema.properties@[j].0@, *schema).0,
                part@,
            ),
        decreases codes.len() - i,
    {
        assert(text::strings(codes@)[i as int] == codes@[i as int]@);
        if text::contains(codes[i].as_str(), part) {
            assert(text::holds(
                types::type_code(schema.properties@[i as int].1, schema.properties@[i as int].0@, *schema).0,
                part@,
            ));
            return true;
        }
        i = i + 1;
    }
    false
}

/// The type codes of properties, in order.
pub open spec fn property_codes(props: Seq<(String, CfnProperty)>, schema: CfnSchema) -> Seq<Seq<char>> {
    props.map_values(|p: (String, CfnProperty)| types::type_code(p.1, p.0@, schema).0)
}

fn write_codes(schema: &CfnSchema) -> (r: Vec<String>)
    requires
        page::all_typed(schema.properties@, *schema),
    ensures
        text::strings(r@) == property_codes(schema.properties@, *schema),
{
    let props = &schema.properties;
    let mut out: Vec<String> = Vec::new();
    let mut i: usize = 0;
    while i < props.len()
        invariant
            i <= props.len(),
            page::all_typed(props@, *schema),
            text::strings(out@) == property_codes(props@.take(i as int), *schema),
        decreases props.len() - i,
    {
        let t = types::cfn_type_to_carina_type_with_enum(&props[i].1, props[i].0.as_str(), schema);
        let ghost before = text::strings(out@);
        let ghost view = t.0@;
        out.push(t.0);
        proof {
            assert(text::strings(out@) =~= before.push(view));
            assert(property_codes(props@.take(i + 1), *schema) =~= property_codes(props@.take(i as int), *schema).push(
                view,
            ));
        }
        i = i + 1;
    }
    assert(props@.take(i as int) =~= props@);
    out
}

/// The names that the module takes from the schema crate.
pub open spec fn import_list(attribute_type: bool, struct_field: bool, named_types: bool) -> Seq<char> {
    "AttributeSchema"@ + (if attribute_type {
        ", AttributeType"@
    } else {
        ""@
    }) + ", ResourceSchema"@ + (if struct_field {
        ", StructField"@
    } else {
        ""@
    }) + (if named_types {
        ", types"@
    } else {
        ""@
    })
}

fn write_imports(attribute_type: bool, struct_field: bool, named_types: bool) -> (r: String)
    ensures
        r@ == import_list(attribute_type, struct_field, named_types),
{
    let mut s = "AttributeSchema".to_owned();
    s.append(if attribute_type { ", AttributeType" } else { "" });
    s.append(", ResourceSchema");
    s.append(if struct_field { ", StructField" } else { "" });
    s.append(if named_types { ", types" } else { "" });
    s
}

/// The head of the module: what it is, and its imports.
pub open spec fn head_text(resource: Seq<char>, typename: Seq<char>, imports: Seq<char>) -> Seq<char> {
    "//! "@ + resource + " schema definition for AWS Cloud Control\n//!\n//! Auto-generated from CloudFormation schema: "@
        + typename
        + "\n//!\n//! DO NOT EDIT MANUALLY - regenerate with carina-codegen\n\nuse carina_core::schema::{"@ + imports
        + "};\nuse super::AwsccSchemaConfig;\n"@
}

fn write_head(resource: &str, typename: &str, imports: &str) -> (r: String)
    ensures
        r@ == head_text(resource@, typename@, imports@),
{
    let mut s = "//! ".to_owned();
    s.append(resource);
    s.append(" schema definition for AWS Cloud Control\n//!\n//! Auto-generated from CloudFormation schema: ");
    s.append(typename);
    s.append(
        "\n//!\n//! DO NOT EDIT MANUALLY - regenerate with carina-codegen\n\nuse carina_core::schema::{",
    );
    s.append(imports);
    s.append("};\nuse super::AwsccSchemaConfig;\n");
    s
}

/// A list of values as the code of string literals.
pub open spec fn literals(values: Seq<Seq<char>>) -> Seq<Seq<char>> {
    values.map_values(|v: Seq<char>| "\""@ + v + "\""@)
}

fn literal_list(values: &Vec<String>) -> (r: Vec<String>)
    ensures
        text::strings(r@) == literals(text::strings(values@)),
{
    let mut out: Vec<String> = Vec::new();
    let mut i: usize = 0;
    let ghost all = text::strings(values@);
    while i < values.len()
        invariant
            i <= values.len(),
            all == text::strings(values@),
            text::strings(out@) == literals(all.take(i as int)),
        decreases values.len() - i,
    {
        let mut v = "\"".to_owned();
        v.append(values[i].as_str());
        v.append("\"");
        let ghost before = text::strings(out@);
        let ghost view = v@;
        out.push(v);
        proof {
            assert(text::strings(out@) =~= before.push(view));
            assert(literals(all.take(i + 1)) =~= literals(all.take(i as int)).push(view));
        }
        i = i + 1;
    }
    assert(all.take(i as int) =~= all);
    out
}

/// The constant and the check of an enum.
pub open spec fn enum_check(name: Seq<char>, e: EnumView, namespace: Seq<char>) -> Seq<char> {
    let snake = casing::snake_case(name);
    let upper = text::uppercase(snake);
    "const VALID_"@ + upper + ": &[&str] = &["@ + text::join(literals(e.values), ", "@) + "];\n\n"@ + "fn validate_"@
        + snake + "(value: &Value) -> Result<(), String> {\n    validate_namespaced_enum(value, \""@ + e.typename
        + "\", \""@ + namespace + "\", VALID_"@ + upper
        + ")\n        .map_err(|reason| {\n            if let Value::String(s) = value {\n                format!(\"Invalid "@
        + e.typename
        + " '{}': {}\", s, reason)\n            } else {\n                reason\n            }\n        })\n}\n\n"@
}

fn write_enum_check(name: &str, e: &EnumInfo, namespace: &str) -> (r: String)
    ensures
        r@ == enum_check(name@, e@, namespace@),
{
    let snake = casing::to_snake(name);
    let upper = text::to_upper(snake.as_str());
    let mut s = "const VALID_".to_owned();
    s.append(upper.as_str());
    s.append(": &[&str] = &[");
    s.append(text::joined(&literal_list(&e.values), ", ").as_str());
    s.append("];\n\n");
    s.append("fn validate_");
    s.append(snake.as_str());
    s.append("(value: &Value) -> Result<(), String> {\n    validate_namespaced_enum(value, \"");
    s.append(e.typename.as_str());
    s.append("\", \"");
    s.append(namespace);
    s.append("\", VALID_");
    s.append(upper.as_str());
    s.append(
        ")\n        .map_err(|reason| {\n            if let Value::String(s) = value {\n                format!(\"Invalid ",
    );
    s.append(e.typename.as_str());
    s.append(" '{}': {}\", s, reason)\n            } else {\n                reason\n            }\n        })\n}\n\n");
    s
}

/// The check of a range.
pub open spec fn range_check(name: Seq<char>, range: (i64, i64)) -> Seq<char> {
    let min = text::decimal(range.0 as int);
    let max = text::decimal(range.1 as int);
    "fn validate_"@ + casing::snake_case(name)
        + "_range(value: &Value) -> Result<(), String> {\n    if let Value::Int(n) = value {\n        if *n < "@ + min
        + " || *n > "@ + max + " {\n            Err(format!(\"Value {} is out of range "@ + min + "..="@ + max
        + "\", n))\n        } else {\n            Ok(())\n        }\n    } else {\n        Err(\"Expected integer\".to_string())\n    }\n}\n\n"@
}

fn write_range_check(name: &str, range: (i64, i64)) -> (r: String)
    ensures
        r@ == range_check(name@, range),
{
    let min = text::print_i64(range.0);
    let max = text::print_i64(range.1);
    let mut s = "fn validate_".to_owned();
    s.append(casing::to_snake(name).as_str());
    s.append(
        "_range(value: &Value) -> Result<(), String> {\n    if let Value::Int(n) = value {\n        if *n < ",
    );
    s.append(min.as_str());
    s.append(" || *n > ");
    s.append(max.as_str());
    s.append(" {\n            Err(format!(\"Value {} is out of range ");
    s.append(min.as_str());
    s.append("..=");
    s.append(max.as_str());
    s.append(
        "\", n))\n        } else {\n            Ok(())\n        }\n    } else {\n        Err(\"Expected integer\".to_string())\n    }\n}\n\n",
    );
    s
}

/// The checks of enums.
pub open spec fn enum_checks(enums: Seq<(Seq<char>, EnumView)>, namespace: Seq<char>) -> Seq<Seq<char>> {
    enums.map_values(|e: (Seq<char>, EnumView)| enum_check(e.0, e.1, namespace))
}

fn write_enum_checks(enums: &Vec<(String, EnumInfo)>, namespace: &str) -> (r: Vec<String>)
    ensures
        text::strings(r@) == enum_checks(page::enums_view(enums@), namespace@),
{
    let mut out: Vec<String> = Vec::new();
    let mut i: usize = 0;
    let ghost all = page::enums_view(enums@);
    while i < enums.len()
        invariant
            i <= enums.len(),
            all == page::enums_view(enums@),
            text::strings(out@) == enum_checks(all.take(i as int), namespace@),
        decreases enums.len() - i,
    {
        let s = write_enum_check(enums[i].0.as_str(), &enums[i].1, namespace);
        let ghost before = text::strings(out@);
        let ghost view = s@;
        out.push(s);
        proof {
            assert(text::strings(out@) =~= before.push(view));
            assert(all[i as int] == (enums@[i as int].0@, enums@[i as int].1@));
            assert(enum_checks(all.take(i + 1), namespace@) =~= enum_checks(all.take(i as int), namespace@).push(view));
        }
        i = i + 1;
    }
    assert(all.take(i as int) =~= all);
    out
}

/// The checks of ranges.
pub open spec fn range_checks(ranges: Seq<(Seq<char>, (i64, i64))>) -> Seq<Seq<char>> {
    ranges.map_values(|e: (Seq<char>, (i64, i64))| range_check(e.0, e.1))
}

fn write_range_checks(ranges: &Vec<(String, (i64, i64))>) -> (r: Vec<String>)
    ensures
        text::strings(r@) == range_checks(ranges_view(ranges@)),
{
    let mut out: Vec<String> = Vec::new();
    let mut i: usize = 0;
    let ghost all = ranges_view(ranges@);
    while i < ranges.len()
        invariant
            i <= ranges.len(),
            all == ranges_view(ranges@),
            text::strings(out@) == range_checks(all.take(i as int)),
        decreases ranges.len() - i,
    {
        let s = write_range_check(ranges[i].0.as_str(), ranges[i].1);
        let ghost before = text::strings(out@);
        let ghost view = s@;
        out.push(s);
        proof {
            assert(text::strings(out@) =~= before.push(view));
            assert(range_checks(all.take(i + 1)) =~= range_checks(all.take(i as int)).push(view));
        }
        i = i + 1;
    }
    assert(all.take(i as int) =~= all);
    out
}

/// The head of the config function.
pub open spec fn config_head(full: Seq<char>, typename: Seq<char>, has_tags: bool) -> Seq<char> {
    "/// Returns the schema config for "@ + full + " ("@ + typename + ")\npub fn "@ + full
        + "_config() -> AwsccSchemaConfig {\n    AwsccSchemaConfig {\n        aws_type_name: \""@ + typename
        + "\",\n        resource_type_name: \""@ + full + "\",\n        has_tags: "@ + (if has_tags {
        "true"@
    } else {
        "false"@
    }) + ",\n        schema: ResourceSchema::new(\"awscc."@ + full + "\")\n"@
}

fn write_config_head(full: &str, typename: &str, has_tags: bool) -> (r: String)
    ensures
        r@ == config_head(full@, typename@, has_tags),
{
    let mut s = "/// Returns the schema config for ".to_owned();
    s.append(full);
    s.append(" (");
    s.append(typename);
    s.append(")\npub fn ");
    s.append(full);
    s.append("_config() -> AwsccSchemaConfig {\n    AwsccSchemaConfig {\n        aws_type_name: \"");
    s.append(typename);
    s.append("\",\n        resource_type_name: \"");
    s.append(full);
    s.append("\",\n        has_tags: ");
    s.append(if has_tags { "true" } else { "false" });
    s.append(",\n        schema: ResourceSchema::new(\"awscc.");
    s.append(full);
    s.append("\")\n");
    s
}

/// The description of a resource on one line, with quotes escaped.
pub open spec fn resource_line(d: Seq<char>) -> Seq<char> {
    text::swapped(text::replaced(d, "\""@, "\\\""@), '\n', ' ')
}

/// The code of an attribute whose property is an enum.
pub open spec fn enum_attribute_type(name: Seq<char>, e: EnumView, namespace: Seq<char>) -> Seq<char> {
    "AttributeType::Custom {\n                name: \""@ + e.typename
        + "\".to_string(),\n                base: Box::new(AttributeType::String),\n                validate: validate_"@
        + casing::snake_case(name) + ",\n                namespace: Some(\""@ + namespace
        + "\".to_string()),\n                to_dsl: None,\n            }"@
}

/// The code of an attribute's type.
pub open spec fn attribute_type(
    name: Seq<char>,
    prop: CfnProperty,
    schema: CfnSchema,
    enums: Seq<(Seq<char>, EnumView)>,
    namespace: Seq<char>,
) -> Seq<char> {
    match keyed::lookup(enums, name) {
        Some(e) => enum_attribute_type(name, e, namespace),
        None => types::type_code(prop, name, schema).0,
    }
}

/// The code of an attribute.
pub open spec fn attribute_code(
    name: Seq<char>,
    prop: CfnProperty,
    schema: CfnSchema,
    enums: Seq<(Seq<char>, EnumView)>,
    namespace: Seq<char>,
) -> Seq<char> {
    let read_only = page::lists_path(text::strings(schema.read_only_properties@), name);
    let head = "        .attribute(\n            AttributeSchema::new(\""@ + casing::snake_case(name) + "\", "@
        + attribute_type(name, prop, schema, enums, namespace) + ")"@;
    let required = if text::strings(schema.required@).contains(name) && !read_only {
        head + "\n                .required()"@
    } else {
        head
    };
    let fixed = if page::lists_path(text::strings(schema.create_only_properties@), name) {
        required + "\n                .create_only()"@
    } else {
        required
    };
    let described = match prop.description {
        Some(d) => fixed + "\n                .with_description(\""@ + text::clipped(types::escaped(d@), 150) + (
        if read_only {
            " (read-only)"@
        } else {
            ""@
        }) + "\")"@,
        None => if read_only {
            fixed + "\n                .with_description(\"(read-only)\")"@
        } else {
            fixed
        },
    };
    described + "\n                .with_provider_name(\""@ + name + "\")"@ + ",\n        )\n"@
}

fn write_attribute(
    name: &str,
    prop: &CfnProperty,
    schema: &CfnSchema,
    enums: &Vec<(String, EnumInfo)>,
    namespace: &str,
) -> (r: String)
    requires
        types::has_type(*prop, name@, *schema),
        prop.description is Some ==> text::cuts_cleanly(types::escaped(prop.description->0@), 150),
    ensures
        r@ == attribute_code(name@, *prop, *schema, page::enums_view(enums@), namespace@),
{
    let read_only = page::has_path(&schema.read_only_properties, name);
    let mut s = "        .attribute(\n            AttributeSchema::new(\"".to_owned();
    s.append(casing::to_snake(name).as_str());
    s.append("\", ");
    s.append(write_attribute_type(name, prop, schema, enums, namespace).as_str());
    s.append(")");
    if text::listed(&schema.required, name) && !read_only {
        s.append("\n                .required()");
    }
    if page::has_path(&schema.create_only_properties, name) {
        s.append("\n                .create_only()");
    }
    if let Some(d) = &prop.description {
        s.append("\n                .with_description(\"");
        s.append(text::clip(types::escape(d.as_str()), 150).as_str());
        s.append(if read_only { " (read-only)" } else { "" });
        s.append("\")");
    } else if read_only {
        s.append("\n                .with_description(\"(read-only)\")");
    }
    s.append("\n                .with_provider_name(\"");
    s.append(name);
    s.append("\")");
    s.append(",\n        )\n");
    s
}

fn write_attribute_type(
    name: &str,
    prop: &CfnProperty,
    schema: &CfnSchema,
    enums: &Vec<(String, EnumInfo)>,
    namespace: &str,
) -> (r: String)
    requires
        types::has_type(*prop, name@, *schema),
    ensures
        r@ == attribute_type(name@, *prop, *schema, page::enums_view(enums@), namespace@),
{
    match page::find_enum(enums, name) {
        Some(e) => {
            let mut s = "AttributeType::Custom {\n                name: \"".to_owned();
            s.append(e.typename.as_str());
            s.append(
                "\".to_string(),\n                base: Box::new(AttributeType::String),\n                validate: validate_",
            );
            s.append(casing::to_snake(name).as_str());
            s.append(",\n                namespace: Some(\"");
            s.append(namespace);
            s.append("\".to_string()),\n                to_dsl: None,\n            }");
            s
        },
        None => types::cfn_type_to_carina_type_with_enum(prop, name, schema).0,
    }
}

/// The code of attributes.
pub open spec fn attribute_codes(
    props: Seq<(String, CfnProperty)>,
    schema: CfnSchema,
    enums: Seq<(Seq<char>, EnumView)>,
    namespace: Seq<char>,
) -> Seq<Seq<char>> {
    props.map_values(|p: (String, CfnProperty)| attribute_code(p.0@, p.1, schema, enums, namespace))
}

/// The descriptions of properties can be cut to length.
pub open spec fn descriptions_fit(props: Seq<(String, CfnProperty)>) -> bool {
    forall|i: int| 0 <= i < props.len() && (#[trigger] props[i]).1.description is Some ==> text::cuts_cleanly(
        types::escaped(props[i].1.description->0@),
        150,
    )
}

fn write_attributes(schema: &CfnSchema, enums: &Vec<(String, EnumInfo)>, namespace: &str) -> (r: Vec<String>)
    requires
        page::all_typed(schema.properties@, *schema),
        descriptions_fit(schema.properties@),
    ensures
        text::strings(r@) == attribute_codes(schema.properties@, *schema, page::enums_view(enums@), namespace@),
{
    let props = &schema.properties;
    let mut out: Vec<String> = Vec::new();
    let mut i: usize = 0;
    while i < props.len()
        invariant
            i <= props.len(),
            page::all_typed(props@, *schema),
            descriptions_fit(props@),
            text::strings(out@) == attribute_codes(
                props@.take(i as int),
                *schema,
                page::enums_view(enums@),
                namespace@,
            ),
        decreases props.len() - i,
    {
        assert(types::has_type(props@[i as int].1, props@[i as int].0@, *schema));
        let s = write_attribute(props[i].0.as_str(), &props[i].1, schema, enums, namespace);
        let ghost before = text::strings(out@);
        let ghost view = s@;
        out.push(s);
        proof {
            assert(text::strings(out@) =~= before.push(view));
            assert(attribute_codes(props@.take(i + 1), *schema, page::enums_view(enums@), namespace@)
                =~= attribute_codes(props@.take(i as int), *schema, page::enums_view(enums@), namespace@).push(view));
        }
        i = i + 1;
    }
    assert(props@.take(i as int) =~= props@);
    out
}

/// The entries of the table of enum values.
pub open spec fn value_entries(enums: Seq<(Seq<char>, EnumView)>) -> Seq<Seq<char>> {
    enums.map_values(
        |e: (Seq<char>, EnumView)|
            "        (\""@ + casing::snake_case(e.0) + "\", VALID_"@ + text::uppercase(casing::snake_case(e.0)) + "),"@,
    )
}

fn write_value_entries(enums: &Vec<(String, EnumInfo)>) -> (r: Vec<String>)
    ensures
        text::strings(r@) == value_entries(page::enums_view(enums@)),
{
    let mut out: Vec<String> = Vec::new();
    let mut i: usize = 0;
    let ghost all = page::enums_view(enums@);
    while i < enums.len()
        invariant
            i <= enums.len(),
            all == page::enums_view(enums@),
            text::strings(out@) == value_entries(all.take(i as int)),
        decreases enums.len() - i,
    {
        let snake = casing::to_snake(enums[i].0.as_str());
        let mut s = "        (\"".to_owned();
        s.append(snake.as_str());
        s.append("\", VALID_");
        s.append(text::to_upper(snake.as_str()).as_str());
        s.append("),");
        let ghost before = text::strings(out@);
        let ghost view = s@;
        out.push(s);
        proof {
            assert(text::strings(out@) =~= before.push(view));
            assert(value_entries(all.take(i + 1)) =~= value_entries(all.take(i as int)).push(view));
        }
        i = i + 1;
    }
    assert(all.take(i as int) =~= all);
    out
}

/// The code of the table of enum values.
pub open spec fn value_table(full: Seq<char>, enums: Seq<(Seq<char>, EnumView)>) -> Seq<char> {
    let head = "\n/// Returns the resource type name and all enum valid values for this module\npub fn enum_valid_values() -> (&'static str, &'static [(&'static str, &'static [&'static str])]) {\n"@
        + "    (\""@ + full;
    (if enums.len() == 0 {
        head + "\", &[])\n"@
    } else {
        head + "\", &[\n"@ + text::join(value_entries(enums), "\n"@) + "\n    ])\n"@
    }) + "}\n"@
}

fn write_value_table(full: &str, enums: &Vec<(String, EnumInfo)>) -> (r: String)
    ensures
        r@ == value_table(full@, page::enums_view(enums@)),
{
    let mut s = "\n/// Returns the resource type name and all enum valid values for this module\npub fn enum_valid_values() -> (&'static str, &'static [(&'static str, &'static [&'static str])]) {\n".to_owned();
    s.append("    (\"");
    s.append(full);
    if enums.len() == 0 {
        s.append("\", &[])\n");
    } else {
        s.append("\", &[\n");
        s.append(text::joined(&write_value_entries(enums), "\n").as_str());
        s.append("\n    ])\n");
    }
    s.append("}\n");
    s
}

/// The module of a resource type.
pub open spec fn module_text(schema: CfnSchema, typename: Seq<char>) -> Seq<char> {
    let parts = text::split(typename, "::"@);
    let full = page::full_name(parts);
    let namespace = "awscc."@ + full;
    let props = schema.properties@;
    let enums = page::schema_enums(props, schema);
    let ranges = schema_ranges(schema);
    let imports = import_list(
        uses(schema, "AttributeType::"@) || enums.len() > 0 || ranges.len() > 0,
        uses(schema, "StructField::"@),
        uses(schema, "types::"@),
    );
    let head = head_text(page::module_name(parts), typename, imports);
    let values = if enums.len() > 0 || ranges.len() > 0 {
        head + "use carina_core::resource::Value;\n"@
    } else {
        head
    };
    let tags = if uses(schema, "tags_type()"@) {
        values + "use super::tags_type;\n"@
    } else {
        values
    };
    let imported = (if enums.len() > 0 {
        tags + "use super::validate_namespaced_enum;\n"@
    } else {
        tags
    }) + "\n"@;
    let checked = text::cat(text::cat(imported, enum_checks(enums, namespace)), range_checks(ranges));
    let opened = checked + config_head(full, typename, schema.tagging is Some && schema.tagging->0.taggable);
    let described = match schema.description {
        Some(d) => opened + "        .with_description(\""@ + text::clipped(resource_line(d@), 200) + "\")\n"@,
        None => opened,
    };
    text::cat(described, attribute_codes(props, schema, enums, namespace)) + "    }\n}\n"@ + value_table(full, enums)
}

/// A schema of which a module can be written: the types of its properties can
/// be generated and the descriptions can be cut to length.
pub open spec fn has_module(schema: CfnSchema) -> bool {
    &&& page::all_typed(schema.properties@, schema)
    &&& descriptions_fit(schema.properties@)
    &&& schema.description is Some ==> text::cuts_cleanly(resource_line(schema.description->0@), 200)
}

fn line_of_resource(d: &str) -> (r: String)
    ensures
        r@ == resource_line(d@),
{
    proof {
        reveal_strlit("\"");
    }
    let quoted = text::replace(d, "\"", "\\\"");
    text::swap_char(quoted.as_str(), '\n', ' ')
}

/// The code of the schema module of a resource type.
pub fn generate_schema_code(schema: &CfnSchema, typename: &str) -> (r: Result<String, String>)
    requires
        text::split(typename@, "::"@).len() == 3 ==> has_module(*schema),
    ensures
        match r {
            Ok(code) => text::split(typename@, "::"@).len() == 3 && code@ == module_text(*schema, typename@),
            Err(e) => text::split(typename@, "::"@).len() != 3 && e@ == page::bad_name(typename@),
        },
{
    let resource = match page::module_name_from_type(typename) {
        Ok(name) => name,
        Err(e) => {
            return Err(e);
        },
    };
    let full = match page::full_resource_name_from_type(typename) {
        Ok(name) => name,
        Err(e) => {
            return Err(e);
        },
    };
    let mut namespace = "awscc.".to_owned();
    namespace.append(full.as_str());
    let codes = write_codes(schema);
    let enums = page::find_enums(schema);
    let ranges = find_ranges(schema);
    let has_enums = enums.len() > 0;
    let has_ranges = ranges.len() > 0;
    assert(page::enums_view(enums@).len() == enums@.len());
    assert(ranges_view(ranges@).len() == ranges@.len());
    let imports = write_imports(
        some_code_holds(schema, &codes, "AttributeType::") || has_enums || has_ranges,
        some_code_holds(schema, &codes, "StructField::"),
        some_code_holds(schema, &codes, "types::"),
    );
    let mut code = write_head(resource.as_str(), typename, imports.as_str());
    if has_enums || has_ranges {
        code.append("use carina_core::resource::Value;\n");
    }
    if some_code_holds(schema, &codes, "tags_type()") {
        code.append("use super::tags_type;\n");
    }
    if has_enums {
        code.append("use super::validate_namespaced_enum;\n");
    }
    code.append("\n");
    text::append_all(&mut code, &write_enum_checks(&enums, namespace.as_str()));
    text::append_all(&mut code, &write_range_checks(&ranges));
    let has_tags = match &schema.tagging {
        Some(t) => t.taggable,
        None => false,
    };
    code.append(write_config_head(full.as_str(), typename, has_tags).as_str());
    if let Some(d) = &schema.description {
        code.append("        .with_description(\"");
        code.append(text::clip(line_of_resource(d.as_str()), 200).as_str());
        code.append("\")\n");
    }
    text::append_all(&mut code, &write_attributes(schema, &enums, namespace.as_str()));
    code.append("    }\n}\n");
    code.append(write_value_table(full.as_str(), &enums).as_str());
    Ok(code)
}

/// Whether the descriptions of a schema and of its properties can be cut to
/// the length that a module gives them.
pub fn do_descriptions_fit(schema: &CfnSchema) -> (r: bool)
    ensures
        r == (descriptions_fit(schema.properties@) && (schema.description is Some ==> text::cuts_cleanly(
            resource_line(schema.description->0@),
            200,
        ))),
{
    let props = &schema.properties;
    let mut i: usize = 0;
    while i < props.len()
        invariant
            i <= props.len(),
            props@ == schema.properties@,
            forall|j: int| 0 <= j < i && (#[trigger] props@[j]).1.description is Some ==> text::cuts_cleanly(
                types::escaped(props@[j].1.description->0@),
                150,
            ),
        decreases props.len() - i,
    {
        if let Some(d) = &props[i].1.description {
            if !text::can_clip(types::escape(d.as_str()).as_str(), 150) {
                assert(schema.properties@[i as int].1.description is Some);
                return false;
            }
        }
        i = i + 1;
    }
    match &schema.description {
        Some(d) => text::can_clip(line_of_resource(d.as_str()).as_str(), 200),
        None => true,
    }
}

} // verus!
