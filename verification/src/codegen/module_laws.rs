//! What the generated module of a resource type holds.
use vstd::prelude::*;

use crate::codegen::casing;
use crate::codegen::model;
use crate::codegen::model::{CfnDefinition, CfnProperty, CfnSchema, EnumView};
use crate::codegen::module;
use crate::codegen::page;
use crate::codegen::page_laws;
use crate::codegen::tables;
use crate::codegen::types;
use crate::keyed;
use crate::text;
use crate::text_laws;

verus! {

/// The name of a resource type in full: its service in lower case and the resource
/// in snake case.
pub open spec fn full(typename: Seq<char>) -> Seq<char> {
    let parts = text::split(typename, "::"@);
    text::lowercase(parts[1]) + "_"@ + casing::snake_case(parts[2])
}

/// A module holds what each of its parts holds.
proof fn lemma_module_parts(schema: CfnSchema, typename: Seq<char>, part: Seq<char>, k: int)
    ensures
        ({
            let code = module::module_text(schema, typename);
            let props = schema.properties@;
            let enums = page::schema_enums(props, schema);
            let ranges = module::schema_ranges(schema);
            let namespace = "awscc."@ + full(typename);
            let head = module::head_text(
                page::module_name(text::split(typename, "::"@)),
                typename,
                module::import_list(
                    module::uses(schema, "AttributeType::"@) || enums.len() > 0 || ranges.len() > 0,
                    module::uses(schema, "StructField::"@),
                    module::uses(schema, "types::"@),
                ),
            );
            let config = module::config_head(
                full(typename),
                typename,
                schema.tagging is Some && schema.tagging->0.taggable,
            );
            let checks = module::enum_checks(enums, namespace);
            let bounds = module::range_checks(ranges);
            let codes = module::attribute_codes(props, schema, enums, namespace);
            &&& text::holds(head, part) ==> text::holds(code, part)
            &&& (enums.len() > 0 || ranges.len() > 0) && text::holds("use carina_core::resource::Value;\n"@, part)
                ==> text::holds(code, part)
            &&& module::uses(schema, "tags_type()"@) && text::holds("use super::tags_type;\n"@, part) ==> text::holds(
                code,
                part,
            )
            &&& enums.len() > 0 && text::holds("use super::validate_namespaced_enum;\n"@, part) ==> text::holds(code, part)
            &&& 0 <= k < checks.len() && text::holds(checks[k], part) ==> text::holds(code, part)
            &&& 0 <= k < bounds.len() && text::holds(bounds[k], part) ==> text::holds(code, part)
            &&& text::holds(config, part) ==> text::holds(code, part)
            &&& 0 <= k < codes.len() && text::holds(codes[k], part) ==> text::holds(code, part)
            &&& text::holds(module::value_table(full(typename), enums), part) ==> text::holds(code, part)
        }),
{
    let parts = text::split(typename, "::"@);
    let namespace = "awscc."@ + full(typename);
    let props = schema.properties@;
    let enums = page::schema_enums(props, schema);
    let ranges = module::schema_ranges(schema);
    let imports = module::import_list(
        module::uses(schema, "AttributeType::"@) || enums.len() > 0 || ranges.len() > 0,
        module::uses(schema, "StructField::"@),
        module::uses(schema, "types::"@),
    );
    let head = module::head_text(page::module_name(parts), typename, imports);
    let v = "use carina_core::resource::Value;\n"@;
    let t = "use super::tags_type;\n"@;
    let e = "use super::validate_namespaced_enum;\n"@;
    let values = if enums.len() > 0 || ranges.len() > 0 {
        head + v
    } else {
        head
    };
    page_laws::lemma_holds_within(head, v, part);
    let tags = if module::uses(schema, "tags_type()"@) {
        values + t
    } else {
        values
    };
    page_laws::lemma_holds_within(values, t, part);
    let all = if enums.len() > 0 {
        tags + e
    } else {
        tags
    };
    page_laws::lemma_holds_within(tags, e, part);
    let imported = all + "\n"@;
    page_laws::lemma_holds_within(all, "\n"@, part);
    let checks = module::enum_checks(enums, namespace);
    let bounds = module::range_checks(ranges);
    let one = text::cat(imported, checks);
    page_laws::lemma_cat_holds(imported, checks, k, part);
    let checked = text::cat(one, bounds);
    page_laws::lemma_cat_holds(one, bounds, k, part);
    let config = module::config_head(full(typename), typename, schema.tagging is Some && schema.tagging->0.taggable);
    let opened = checked + config;
    page_laws::lemma_holds_within(checked, config, part);
    let described = match schema.description {
        Some(d) => opened + "        .with_description(\""@ + text::clipped(module::resource_line(d@), 200) + "\")\n"@,
        None => opened,
    };
    if let Some(d) = schema.description {
        let line = text::clipped(module::resource_line(d@), 200);
        page_laws::lemma_holds_within(opened, "        .with_description(\""@, part);
        page_laws::lemma_holds_within(opened + "        .with_description(\""@, line, part);
        page_laws::lemma_holds_within(opened + "        .with_description(\""@ + line, "\")\n"@, part);
    }
    let codes = module::attribute_codes(props, schema, enums, namespace);
    let filled = text::cat(described, codes);
    page_laws::lemma_cat_holds(described, codes, k, part);
    page_laws::lemma_holds_within(filled, "    }\n}\n"@, part);
    page_laws::lemma_holds_within(filled + "    }\n}\n"@, module::value_table(full(typename), enums), part);
    assert(page::full_name(parts) == full(typename));
    assert(module::module_text(schema, typename) == filled + "    }\n}\n"@ + module::value_table(full(typename), enums));
}

/// The code of an attribute by its parts: what follows the opening bracket.
pub open spec fn attribute_parts(
    name: Seq<char>,
    t: Seq<char>,
    required: bool,
    fixed: bool,
    described: Option<Seq<char>>,
) -> Seq<char> {
    "AttributeSchema::new(\""@ + name + "\", "@ + t + ")"@ + (if required {
        "\n                .required()"@
    } else {
        seq![]
    }) + (if fixed {
        "\n                .create_only()"@
    } else {
        seq![]
    }) + (match described {
        Some(d) => "\n                .with_description(\""@ + d + "\")"@,
        None => seq![],
    })
}

/// What the code says of a property: its description on one line and within
/// length, and whether it is only read.
pub open spec fn told(prop: CfnProperty, read_only: bool) -> Option<Seq<char>> {
    match prop.description {
        Some(d) => Some(text::clipped(types::escaped(d@), 150) + if read_only {
            " (read-only)"@
        } else {
            seq![]
        }),
        None => if read_only {
            Some("(read-only)"@)
        } else {
            None
        },
    }
}

/// A module has an attribute for every property: under its name in snake case, with
/// its type, required exactly where the schema requires it and it can be written,
/// fixed at creation exactly where the schema says so, described where the schema
/// describes it or where it is only read, and with the name that the service has.
pub proof fn law_module_has_every_attribute(schema: CfnSchema, typename: Seq<char>, i: int)
    requires
        0 <= i < schema.properties@.len(),
    ensures
        ({
            let name = schema.properties@[i].0@;
            let prop = schema.properties@[i].1;
            let read_only = page::lists_path(text::strings(schema.read_only_properties@), name);
            text::holds(
                module::module_text(schema, typename),
                attribute_parts(
                    casing::snake_case(name),
                    module::attribute_type(
                        name,
                        prop,
                        schema,
                        page::schema_enums(schema.properties@, schema),
                        "awscc."@ + full(typename),
                    ),
                    text::strings(schema.required@).contains(name) && !read_only,
                    page::lists_path(text::strings(schema.create_only_properties@), name),
                    told(prop, read_only),
                ) + "\n                .with_provider_name(\""@ + name + "\"),\n        )\n"@,
            )
        }),
{
    let name = schema.properties@[i].0@;
    let prop = schema.properties@[i].1;
    let enums = page::schema_enums(schema.properties@, schema);
    let namespace = "awscc."@ + full(typename);
    let read_only = page::lists_path(text::strings(schema.read_only_properties@), name);
    let part = attribute_parts(
        casing::snake_case(name),
        module::attribute_type(name, prop, schema, enums, namespace),
        text::strings(schema.required@).contains(name) && !read_only,
        page::lists_path(text::strings(schema.create_only_properties@), name),
        told(prop, read_only),
    ) + "\n                .with_provider_name(\""@ + name + "\"),\n        )\n"@;
    let code = module::attribute_code(name, prop, schema, enums, namespace);
    let lead = "        .attribute(\n            "@;
    lemma_attribute(name, prop, schema, enums, namespace);
    page_laws::lemma_holds_itself(part);
    page_laws::lemma_holds_within(lead, part, part);
    assert(module::attribute_codes(schema.properties@, schema, enums, namespace)[i] == code);
    lemma_module_parts(schema, typename, part, i);
}

proof fn lemma_attribute(
    name: Seq<char>,
    prop: CfnProperty,
    schema: CfnSchema,
    enums: Seq<(Seq<char>, EnumView)>,
    namespace: Seq<char>,
)
    ensures
        ({
            let read_only = page::lists_path(text::strings(schema.read_only_properties@), name);
            module::attribute_code(name, prop, schema, enums, namespace) == "        .attribute(\n            "@ + (
            attribute_parts(
                casing::snake_case(name),
                module::attribute_type(name, prop, schema, enums, namespace),
                text::strings(schema.required@).contains(name) && !read_only,
                page::lists_path(text::strings(schema.create_only_properties@), name),
                told(prop, read_only),
            ) + "\n                .with_provider_name(\""@ + name + "\"),\n        )\n"@)
        }),
{
    let read_only = page::lists_path(text::strings(schema.read_only_properties@), name);
    let t = module::attribute_type(name, prop, schema, enums, namespace);
    let lead = "        .attribute(\n            "@;
    lemma_literals();
    let snake = casing::snake_case(name);
    let made = "AttributeSchema::new(\""@ + snake + "\", "@ + t + ")"@;
    let head = "        .attribute(\n            AttributeSchema::new(\""@ + snake + "\", "@ + t + ")"@;
    lemma_lead(lead, "AttributeSchema::new(\""@, snake, "\", "@, t, ")"@);
    assert(head == lead + made);
    let required = if text::strings(schema.required@).contains(name) && !read_only {
        "\n                .required()"@
    } else {
        seq![]
    };
    let fixed = if page::lists_path(text::strings(schema.create_only_properties@), name) {
        "\n                .create_only()"@
    } else {
        seq![]
    };
    let described = match told(prop, read_only) {
        Some(d) => "\n                .with_description(\""@ + d + "\")"@,
        None => seq![],
    };
    let h = "\n                .with_provider_name(\""@;
    let code = module::attribute_code(name, prop, schema, enums, namespace);
    let one = head + required;
    let two = one + fixed;
    let three = two + described;
    lemma_no_more(head);
    lemma_no_more(one);
    lemma_no_more(two);
    if let Some(d) = prop.description {
        let line = text::clipped(types::escaped(d@), 150);
        lemma_no_more(line);
        lemma_regroup(
            two,
            "\n                .with_description(\""@,
            line,
            if read_only {
                " (read-only)"@
            } else {
                seq![]
            },
            "\")"@,
        );
    }
    assert(code == three + h + name + "\")"@ + ",\n        )\n"@);
    lemma_tail(lead, made, required, fixed, described, h, name, "\")"@, ",\n        )\n"@);
}

proof fn lemma_literals()
    ensures
        "        .attribute(\n            AttributeSchema::new(\""@ == "        .attribute(\n            "@
            + "AttributeSchema::new(\""@,
        "\n                .with_description(\"(read-only)\")"@ == "\n                .with_description(\""@
            + "(read-only)"@ + "\")"@,
        "\"),\n        )\n"@ == "\")"@ + ",\n        )\n"@,
        ""@ == Seq::<char>::empty(),
{
    reveal_strlit("        .attribute(\n            AttributeSchema::new(\"");
    reveal_strlit("        .attribute(\n            ");
    reveal_strlit("AttributeSchema::new(\"");
    assert("        .attribute(\n            AttributeSchema::new(\""@ =~= "        .attribute(\n            "@
        + "AttributeSchema::new(\""@);
    reveal_strlit("(read-only)");
    reveal_strlit("\")");
    reveal_strlit("\n                .with_description(\"");
    reveal_strlit("\n                .with_description(\"(read-only)\")");
    assert("\n                .with_description(\"(read-only)\")"@ =~= "\n                .with_description(\""@
        + "(read-only)"@ + "\")"@);
    reveal_strlit("\"),\n        )\n");
    reveal_strlit(",\n        )\n");
    assert("\"),\n        )\n"@ =~= "\")"@ + ",\n        )\n"@);
    reveal_strlit("");
    assert(""@ =~= Seq::<char>::empty());
}

proof fn lemma_no_more(a: Seq<char>)
    ensures
        a + Seq::<char>::empty() == a,
{
    assert(a + Seq::<char>::empty() =~= a);
}

proof fn lemma_lead(l: Seq<char>, a: Seq<char>, b: Seq<char>, c: Seq<char>, d: Seq<char>, e: Seq<char>)
    ensures
        (l + a) + b + c + d + e == l + (a + b + c + d + e),
{
    assert((l + a) + b + c + d + e =~= l + (a + b + c + d + e));
}

proof fn lemma_regroup(a: Seq<char>, b: Seq<char>, c: Seq<char>, d: Seq<char>, e: Seq<char>)
    ensures
        a + b + c + d + e == a + (b + (c + d) + e),
        a + b + c + e == a + (b + c + e),
{
    assert(a + b + c + d + e =~= a + (b + (c + d) + e));
    assert(a + b + c + e =~= a + (b + c + e));
}

proof fn lemma_tail(
    l: Seq<char>,
    a: Seq<char>,
    b: Seq<char>,
    c: Seq<char>,
    d: Seq<char>,
    h: Seq<char>,
    n: Seq<char>,
    q: Seq<char>,
    z: Seq<char>,
)
    ensures
        (l + a) + b + c + d + h + n + q + z == l + (a + b + c + d + h + n + (q + z)),
{
    assert((l + a) + b + c + d + h + n + q + z =~= l + (a + b + c + d + h + n + (q + z)));
}

/// The type of an attribute is that of its property. Where the property is an enum,
/// it is a text with the name of the enum, its namespace and the check of its
/// values.
pub proof fn law_attributes_have_the_types_of_their_properties(
    name: Seq<char>,
    prop: CfnProperty,
    schema: CfnSchema,
    typename: Seq<char>,
)
    ensures
        ({
            let enums = page::schema_enums(schema.properties@, schema);
            let t = module::attribute_type(name, prop, schema, enums, "awscc."@ + full(typename));
            match keyed::lookup(enums, name) {
                None => t == types::type_code(prop, name, schema).0,
                Some(e) => {
                    &&& text::holds(t, "name: \""@ + e.typename + "\".to_string()"@)
                    &&& text::holds(t, "base: Box::new(AttributeType::String)"@)
                    &&& text::holds(t, "validate: validate_"@ + casing::snake_case(name) + ","@)
                    &&& text::holds(t, "namespace: Some(\"awscc."@ + full(typename) + "\".to_string())"@)
                },
            }
        }),
{
    let enums = page::schema_enums(schema.properties@, schema);
    let f = full(typename);
    let snake = casing::snake_case(name);
    let t = module::attribute_type(name, prop, schema, enums, "awscc."@ + f);
    if let Some(e) = keyed::lookup(enums, name) {
        let p = "AttributeType::Custom {\n                name: \""@;
        let q = "\".to_string(),\n                base: Box::new(AttributeType::String),\n                validate: validate_"@;
        let r = ",\n                namespace: Some(\""@;
        let s = "\".to_string()),\n                to_dsl: None,\n            }"@;
        reveal_strlit("AttributeType::Custom {\n                name: \"");
        reveal_strlit(
            "\".to_string(),\n                base: Box::new(AttributeType::String),\n                validate: validate_",
        );
        reveal_strlit(",\n                namespace: Some(\"");
        reveal_strlit("\".to_string()),\n                to_dsl: None,\n            }");
        reveal_strlit("name: \"");
        reveal_strlit("\".to_string()");
        reveal_strlit("\".to_string())");
        reveal_strlit("base: Box::new(AttributeType::String)");
        reveal_strlit("validate: validate_");
        reveal_strlit(",");
        reveal_strlit("namespace: Some(\"awscc.");
        reveal_strlit("awscc.");
        let one = "name: \""@ + e.typename + "\".to_string()"@;
        let two = "base: Box::new(AttributeType::String)"@;
        let three = "validate: validate_"@ + snake + ","@;
        let four = "namespace: Some(\"awscc."@ + f + "\".to_string())"@;
        let n: int = e.typename.len() as int;
        let m: int = snake.len() as int;
        assert(t == p + e.typename + q + snake + r + ("awscc."@ + f) + s);
        let at_one: int = p.len() - 7;
        assert(t.subrange(at_one, at_one + one.len()) =~= one);
        assert(text::stands_at(t, one, at_one));
        let at_two: int = p.len() + n + 31;
        assert(t.subrange(at_two, at_two + two.len()) =~= two);
        assert(text::stands_at(t, two, at_two));
        let at_three: int = p.len() + n + q.len() - 19;
        assert(t.subrange(at_three, at_three + three.len()) =~= three);
        assert(text::stands_at(t, three, at_three));
        let at_four: int = p.len() + n + q.len() + m + 18;
        assert(t.subrange(at_four, at_four + four.len()) =~= four);
        assert(text::stands_at(t, four, at_four));
    }
}

/// A module lists the values of every enum as a constant, has a check against them
/// in the namespace of the type, and an entry for them in its table.
pub proof fn law_module_checks_every_enum(schema: CfnSchema, typename: Seq<char>, k: int)
    requires
        0 <= k < page::schema_enums(schema.properties@, schema).len(),
    ensures
        ({
            let code = module::module_text(schema, typename);
            let (name, e) = page::schema_enums(schema.properties@, schema)[k];
            let snake = casing::snake_case(name);
            let list = "VALID_"@ + text::uppercase(snake);
            let quoted = e.values.map_values(|v: Seq<char>| "\""@ + v + "\""@);
            &&& text::holds(code, "const "@ + list + ": &[&str] = &["@ + text::join(quoted, ", "@) + "];\n\n"@)
            &&& text::holds(
                code,
                "fn validate_"@ + snake
                    + "(value: &Value) -> Result<(), String> {\n    validate_namespaced_enum(value, \""@ + e.typename
                    + "\", \"awscc."@ + full(typename) + "\", "@ + list + ")\n"@,
            )
            &&& text::holds(
                module::value_entries(page::schema_enums(schema.properties@, schema))[k],
                "(\""@ + snake + "\", "@ + list + "),"@,
            )
            &&& text::holds(
                code,
                text::join(module::value_entries(page::schema_enums(schema.properties@, schema)), "\n"@),
            )
            &&& text::holds(code, "    (\""@ + full(typename) + "\", &[\n"@)
            &&& text::holds(code, "use super::validate_namespaced_enum;\n"@)
            &&& text::holds(code, "use carina_core::resource::Value;\n"@)
        }),
{
    let enums = page::schema_enums(schema.properties@, schema);
    let (name, e) = enums[k];
    let snake = casing::snake_case(name);
    let upper = text::uppercase(snake);
    let namespace = "awscc."@ + full(typename);
    let list = "VALID_"@ + upper;
    let quoted = e.values.map_values(|v: Seq<char>| "\""@ + v + "\""@);
    assert(quoted =~= module::literals(e.values));
    let whole = module::enum_check(name, e, namespace);
    assert(module::enum_checks(enums, namespace)[k] == whole);
    let constant = "const "@ + list + ": &[&str] = &["@ + text::join(quoted, ", "@) + "];\n\n"@;
    let check = "fn validate_"@ + snake
        + "(value: &Value) -> Result<(), String> {\n    validate_namespaced_enum(value, \""@ + e.typename
        + "\", \"awscc."@ + full(typename) + "\", "@ + list + ")\n"@;
    let rest = "        .map_err(|reason| {\n            if let Value::String(s) = value {\n                format!(\"Invalid "@
        + e.typename
        + " '{}': {}\", s, reason)\n            } else {\n                reason\n            }\n        })\n}\n\n"@;
    reveal_strlit("const VALID_");
    reveal_strlit("const ");
    reveal_strlit("VALID_");
    assert("const VALID_"@ =~= "const "@ + "VALID_"@);
    reveal_strlit("\", \"awscc.");
    reveal_strlit("\", \"");
    reveal_strlit("awscc.");
    assert("\", \"awscc."@ =~= "\", \""@ + "awscc."@);
    reveal_strlit("\", VALID_");
    reveal_strlit("\", ");
    assert("\", VALID_"@ =~= "\", "@ + "VALID_"@);
    reveal_strlit(")\n");
    reveal_strlit("        .map_err(|reason| {\n            if let Value::String(s) = value {\n                format!(\"Invalid ");
    reveal_strlit(
        ")\n        .map_err(|reason| {\n            if let Value::String(s) = value {\n                format!(\"Invalid ",
    );
    assert(")\n        .map_err(|reason| {\n            if let Value::String(s) = value {\n                format!(\"Invalid "@
        =~= ")\n"@
        + "        .map_err(|reason| {\n            if let Value::String(s) = value {\n                format!(\"Invalid "@);
    assert(whole =~= constant + check + rest);
    page_laws::lemma_holds_itself(constant);
    page_laws::lemma_holds_itself(check);
    page_laws::lemma_holds_within(constant, check, constant);
    page_laws::lemma_holds_within(constant, check, check);
    page_laws::lemma_holds_within(constant + check, rest, constant);
    page_laws::lemma_holds_within(constant + check, rest, check);
    lemma_module_parts(schema, typename, constant, k);
    lemma_module_parts(schema, typename, check, k);
    let entry = module::value_entries(enums)[k];
    let short = "(\""@ + snake + "\", "@ + list + "),"@;
    reveal_strlit("        (\"");
    reveal_strlit("        ");
    reveal_strlit("(\"");
    assert("        (\""@ =~= "        "@ + "(\""@);
    assert(entry =~= "        "@ + short);
    page_laws::lemma_holds_itself(short);
    page_laws::lemma_holds_within("        "@, short, short);
    let entries = text::join(module::value_entries(enums), "\n"@);
    let doc = "\n/// Returns the resource type name and all enum valid values for this module\npub fn enum_valid_values() -> (&'static str, &'static [(&'static str, &'static [&'static str])]) {\n"@;
    let start = "    (\""@ + full(typename) + "\", &[\n"@;
    let table = module::value_table(full(typename), enums);
    assert(table =~= doc + start + entries + ("\n    ])\n"@ + "}\n"@));
    page_laws::lemma_holds_itself(entries);
    page_laws::lemma_holds_itself(start);
    page_laws::lemma_holds_within(doc, start, start);
    page_laws::lemma_holds_within(doc + start, entries, start);
    page_laws::lemma_holds_within(doc + start, entries, entries);
    page_laws::lemma_holds_within(doc + start + entries, "\n    ])\n"@ + "}\n"@, start);
    page_laws::lemma_holds_within(doc + start + entries, "\n    ])\n"@ + "}\n"@, entries);
    lemma_module_parts(schema, typename, entries, k);
    lemma_module_parts(schema, typename, start, k);
    page_laws::lemma_holds_itself("use super::validate_namespaced_enum;\n"@);
    page_laws::lemma_holds_itself("use carina_core::resource::Value;\n"@);
    lemma_module_parts(schema, typename, "use super::validate_namespaced_enum;\n"@, k);
    lemma_module_parts(schema, typename, "use carina_core::resource::Value;\n"@, k);
}

/// A module without enums has an empty table of enum values.
pub proof fn law_module_without_enums_lists_none(schema: CfnSchema, typename: Seq<char>)
    requires
        page::schema_enums(schema.properties@, schema).len() == 0,
    ensures
        text::holds(module::module_text(schema, typename), "    (\""@ + full(typename) + "\", &[])\n}\n"@),
{
    let enums = page::schema_enums(schema.properties@, schema);
    let doc = "\n/// Returns the resource type name and all enum valid values for this module\npub fn enum_valid_values() -> (&'static str, &'static [(&'static str, &'static [&'static str])]) {\n"@;
    let part = "    (\""@ + full(typename) + "\", &[])\n}\n"@;
    reveal_strlit("\", &[])\n}\n");
    reveal_strlit("\", &[])\n");
    reveal_strlit("}\n");
    assert("\", &[])\n}\n"@ =~= "\", &[])\n"@ + "}\n"@);
    assert(module::value_table(full(typename), enums) =~= doc + part);
    page_laws::lemma_holds_itself(part);
    page_laws::lemma_holds_within(doc, part, part);
    lemma_module_parts(schema, typename, part, 0);
}

/// A module names its resource type, as CloudFormation does and in full, and says
/// whether the type has tags.
pub proof fn law_module_names_its_type(schema: CfnSchema, typename: Seq<char>)
    ensures
        ({
            let code = module::module_text(schema, typename);
            let f = full(typename);
            &&& text::holds(code, "Auto-generated from CloudFormation schema: "@ + typename + "\n"@)
            &&& text::holds(code, "pub fn "@ + f + "_config() -> AwsccSchemaConfig {\n"@)
            &&& text::holds(
                code,
                "        aws_type_name: \""@ + typename + "\",\n        resource_type_name: \""@ + f
                    + "\",\n        has_tags: "@ + (if schema.tagging is Some && schema.tagging->0.taggable {
                    "true"@
                } else {
                    "false"@
                }) + ",\n        schema: ResourceSchema::new(\"awscc."@ + f + "\")\n"@,
            )
        }),
{
    let f = full(typename);
    let parts = text::split(typename, "::"@);
    let enums = page::schema_enums(schema.properties@, schema);
    let ranges = module::schema_ranges(schema);
    let imports = module::import_list(
        module::uses(schema, "AttributeType::"@) || enums.len() > 0 || ranges.len() > 0,
        module::uses(schema, "StructField::"@),
        module::uses(schema, "types::"@),
    );
    let taggable = schema.tagging is Some && schema.tagging->0.taggable;
    let head = module::head_text(page::module_name(parts), typename, imports);
    let origin = "Auto-generated from CloudFormation schema: "@ + typename + "\n"@;
    let before = "//! "@ + page::module_name(parts) + " schema definition for AWS Cloud Control\n//!\n//! "@;
    let after = "//!\n//! DO NOT EDIT MANUALLY - regenerate with carina-codegen\n\nuse carina_core::schema::{"@ + imports
        + "};\nuse super::AwsccSchemaConfig;\n"@;
    reveal_strlit(" schema definition for AWS Cloud Control\n//!\n//! Auto-generated from CloudFormation schema: ");
    reveal_strlit(" schema definition for AWS Cloud Control\n//!\n//! ");
    reveal_strlit("Auto-generated from CloudFormation schema: ");
    assert(" schema definition for AWS Cloud Control\n//!\n//! Auto-generated from CloudFormation schema: "@
        =~= " schema definition for AWS Cloud Control\n//!\n//! "@ + "Auto-generated from CloudFormation schema: "@);
    reveal_strlit("\n//!\n//! DO NOT EDIT MANUALLY - regenerate with carina-codegen\n\nuse carina_core::schema::{");
    reveal_strlit("//!\n//! DO NOT EDIT MANUALLY - regenerate with carina-codegen\n\nuse carina_core::schema::{");
    reveal_strlit("\n");
    assert("\n//!\n//! DO NOT EDIT MANUALLY - regenerate with carina-codegen\n\nuse carina_core::schema::{"@ =~= "\n"@
        + "//!\n//! DO NOT EDIT MANUALLY - regenerate with carina-codegen\n\nuse carina_core::schema::{"@);
    assert(head =~= before + origin + after);
    page_laws::lemma_holds_itself(origin);
    page_laws::lemma_holds_within(before, origin, origin);
    page_laws::lemma_holds_within(before + origin, after, origin);
    lemma_module_parts(schema, typename, origin, 0);
    let config = module::config_head(f, typename, taggable);
    let doc = "/// Returns the schema config for "@ + f + " ("@ + typename + ")\n"@;
    let made = "pub fn "@ + f + "_config() -> AwsccSchemaConfig {\n"@;
    let opened = "    AwsccSchemaConfig {\n"@;
    let fields = "        aws_type_name: \""@ + typename + "\",\n        resource_type_name: \""@ + f
        + "\",\n        has_tags: "@ + (if taggable {
        "true"@
    } else {
        "false"@
    }) + ",\n        schema: ResourceSchema::new(\"awscc."@ + f + "\")\n"@;
    reveal_strlit(")\npub fn ");
    reveal_strlit(")\n");
    reveal_strlit("pub fn ");
    assert(")\npub fn "@ =~= ")\n"@ + "pub fn "@);
    reveal_strlit("_config() -> AwsccSchemaConfig {\n    AwsccSchemaConfig {\n        aws_type_name: \"");
    reveal_strlit("_config() -> AwsccSchemaConfig {\n");
    reveal_strlit("    AwsccSchemaConfig {\n");
    reveal_strlit("        aws_type_name: \"");
    assert("_config() -> AwsccSchemaConfig {\n    AwsccSchemaConfig {\n        aws_type_name: \""@
        =~= "_config() -> AwsccSchemaConfig {\n"@ + "    AwsccSchemaConfig {\n"@ + "        aws_type_name: \""@);
    assert(config =~= doc + made + opened + fields);
    page_laws::lemma_holds_itself(made);
    page_laws::lemma_holds_itself(fields);
    page_laws::lemma_holds_within(doc, made, made);
    page_laws::lemma_holds_within(doc + made, opened, made);
    page_laws::lemma_holds_within(doc + made + opened, fields, made);
    page_laws::lemma_holds_within(doc + made + opened, fields, fields);
    lemma_module_parts(schema, typename, made, 0);
    lemma_module_parts(schema, typename, fields, 0);
}

/// A module takes from the schema crate what its code names: the attribute types
/// where a type is written out, an enum is checked or a range is checked, the fields
/// of structs and the named types where a property has them.
pub proof fn law_module_imports_what_it_names(schema: CfnSchema, typename: Seq<char>, i: int)
    requires
        0 <= i < schema.properties@.len(),
    ensures
        ({
            let code = types::type_code(schema.properties@[i].1, schema.properties@[i].0@, schema).0;
            let enums = page::schema_enums(schema.properties@, schema);
            let ranges = module::schema_ranges(schema);
            let a = module::uses(schema, "AttributeType::"@) || enums.len() > 0 || ranges.len() > 0;
            let f = module::uses(schema, "StructField::"@);
            let t = module::uses(schema, "types::"@);
            &&& text::holds(code, "AttributeType::"@) ==> a
            &&& text::holds(code, "StructField::"@) ==> f
            &&& text::holds(code, "types::"@) ==> t
            &&& text::holds(
                module::module_text(schema, typename),
                "use carina_core::schema::{AttributeSchema"@ + (if a {
                    ", AttributeType"@
                } else {
                    seq![]
                }) + ", ResourceSchema"@ + (if f {
                    ", StructField"@
                } else {
                    seq![]
                }) + (if t {
                    ", types"@
                } else {
                    seq![]
                }) + "};\n"@,
            )
            &&& text::holds(code, "tags_type()"@) ==> text::holds(
                module::module_text(schema, typename),
                "use super::tags_type;\n"@,
            )
        }),
{
    let code = types::type_code(schema.properties@[i].1, schema.properties@[i].0@, schema).0;
    let parts = text::split(typename, "::"@);
    let enums = page::schema_enums(schema.properties@, schema);
    let ranges = module::schema_ranges(schema);
    let a = module::uses(schema, "AttributeType::"@) || enums.len() > 0 || ranges.len() > 0;
    let f = module::uses(schema, "StructField::"@);
    let t = module::uses(schema, "types::"@);
    assert(schema.properties@[i] == schema.properties@[i]);
    let imports = module::import_list(a, f, t);
    let head = module::head_text(page::module_name(parts), typename, imports);
    let line = "use carina_core::schema::{AttributeSchema"@ + (if a {
        ", AttributeType"@
    } else {
        seq![]
    }) + ", ResourceSchema"@ + (if f {
        ", StructField"@
    } else {
        seq![]
    }) + (if t {
        ", types"@
    } else {
        seq![]
    }) + "};\n"@;
    let before = "//! "@ + page::module_name(parts)
        + " schema definition for AWS Cloud Control\n//!\n//! Auto-generated from CloudFormation schema: "@ + typename
        + "\n//!\n//! DO NOT EDIT MANUALLY - regenerate with carina-codegen\n\n"@;
    let after = "use super::AwsccSchemaConfig;\n"@;
    reveal_strlit("");
    reveal_strlit("\n//!\n//! DO NOT EDIT MANUALLY - regenerate with carina-codegen\n\nuse carina_core::schema::{");
    reveal_strlit("\n//!\n//! DO NOT EDIT MANUALLY - regenerate with carina-codegen\n\n");
    reveal_strlit("use carina_core::schema::{AttributeSchema");
    reveal_strlit("use carina_core::schema::{");
    reveal_strlit("AttributeSchema");
    reveal_strlit("};\nuse super::AwsccSchemaConfig;\n");
    reveal_strlit("};\n");
    reveal_strlit("use super::AwsccSchemaConfig;\n");
    assert("\n//!\n//! DO NOT EDIT MANUALLY - regenerate with carina-codegen\n\nuse carina_core::schema::{"@
        =~= "\n//!\n//! DO NOT EDIT MANUALLY - regenerate with carina-codegen\n\n"@ + "use carina_core::schema::{"@);
    assert("use carina_core::schema::{AttributeSchema"@ =~= "use carina_core::schema::{"@ + "AttributeSchema"@);
    assert("};\nuse super::AwsccSchemaConfig;\n"@ =~= "};\n"@ + "use super::AwsccSchemaConfig;\n"@);
    assert(head =~= before + line + after);
    page_laws::lemma_holds_itself(line);
    page_laws::lemma_holds_within(before, line, line);
    page_laws::lemma_holds_within(before + line, after, line);
    lemma_module_parts(schema, typename, line, 0);
    page_laws::lemma_holds_itself("use super::tags_type;\n"@);
    lemma_module_parts(schema, typename, "use super::tags_type;\n"@, 0);
}

/// Every integer property with a range is listed with that range.
pub proof fn law_ranges_of_properties_are_listed(props: Seq<(String, CfnProperty)>, i: int)
    requires
        0 <= i < props.len(),
        forall|a: int, b: int| 0 <= a < b < props.len() ==> (#[trigger] props[a]).0@ != (#[trigger] props[b]).0@,
        model::is_numeric(props[i].1),
        types::int_range(props[i].1, props[i].0@) is Some,
    ensures
        module::property_ranges(props).contains((props[i].0@, types::int_range(props[i].1, props[i].0@)->0)),
    decreases props.len(),
{
    let before = props.drop_last();
    let m = module::property_ranges(before);
    let last = props.last();
    lemma_ranges(before);
    if model::is_numeric(last.1) && types::int_range(last.1, last.0@) is Some {
        keyed::law_put_absent(m, last.0@, types::int_range(last.1, last.0@)->0);
    }
    if i < before.len() {
        assert(before[i] == props[i]);
        assert forall|a: int, b: int| 0 <= a < b < before.len() implies (#[trigger] before[a]).0@ != (
        #[trigger] before[b]).0@ by {
            assert(before[a] == props[a] && before[b] == props[b]);
        }
        law_ranges_of_properties_are_listed(before, i);
    } else {
        if keyed::keys(m).contains(last.0@) {
            let k = choose|k: int| 0 <= k < m.len() && keyed::keys(m)[k] == last.0@;
            assert(m[k].0 == last.0@);
            let j = choose|j: int| 0 <= j < before.len() && (#[trigger] before[j]).0@ == m[k].0;
            assert(props[j].0@ == props[props.len() - 1].0@);
        }
    }
}

proof fn lemma_ranges(props: Seq<(String, CfnProperty)>)
    ensures
        keyed::ascending(module::property_ranges(props)),
        forall|k: int|
            0 <= k < module::property_ranges(props).len() ==> exists|j: int|
                0 <= j < props.len() && (#[trigger] props[j]).0@ == (#[trigger] module::property_ranges(props)[k]).0,
    decreases props.len(),
{
    if props.len() > 0 {
        let before = props.drop_last();
        let m = module::property_ranges(before);
        let all = module::property_ranges(props);
        let last = props.last();
        lemma_ranges(before);
        if model::is_numeric(last.1) && types::int_range(last.1, last.0@) is Some {
            keyed::law_put_absent(m, last.0@, types::int_range(last.1, last.0@)->0);
        }
        assert forall|k: int| 0 <= k < all.len() implies exists|j: int|
            0 <= j < props.len() && (#[trigger] props[j]).0@ == (#[trigger] all[k]).0 by {
            assert(all.contains(all[k]));
            if m.contains(all[k]) {
                let x = choose|x: int| 0 <= x < m.len() && m[x] == all[k];
                let j = choose|j: int| 0 <= j < before.len() && (#[trigger] before[j]).0@ == m[x].0;
                assert(props[j].0@ == all[k].0);
            } else {
                assert(props[props.len() - 1].0@ == all[k].0);
            }
        }
    }
}

/// The ranges of a schema stand in the order of their names, and hold those of all
/// its properties.
pub proof fn law_ranges_of_a_schema_are_listed(schema: CfnSchema, i: int)
    requires
        0 <= i < schema.properties@.len(),
        forall|a: int, b: int|
            0 <= a < b < schema.properties@.len() ==> (#[trigger] schema.properties@[a]).0@ != (
            #[trigger] schema.properties@[b]).0@,
        model::is_numeric(schema.properties@[i].1),
        types::int_range(schema.properties@[i].1, schema.properties@[i].0@) is Some,
    ensures
        keyed::ascending(module::schema_ranges(schema)),
        module::schema_ranges(schema).contains(
            (schema.properties@[i].0@, types::int_range(schema.properties@[i].1, schema.properties@[i].0@)->0),
        ),
{
    let own = module::property_ranges(schema.properties@);
    lemma_ranges(schema.properties@);
    law_ranges_of_properties_are_listed(schema.properties@, i);
    if let Some(defs) = schema.definitions {
        lemma_definition_ranges(own, defs@);
    }
}

proof fn lemma_definition_ranges(m: Seq<(Seq<char>, (i64, i64))>, defs: Seq<(String, CfnDefinition)>)
    requires
        keyed::ascending(m),
    ensures
        keyed::ascending(module::with_definition_ranges(m, defs)),
        forall|e: (Seq<char>, (i64, i64))|
            #[trigger] m.contains(e) ==> module::with_definition_ranges(m, defs).contains(e),
    decreases defs.len(),
{
    if defs.len() > 0 {
        let before = module::with_definition_ranges(m, defs.drop_last());
        lemma_definition_ranges(m, defs.drop_last());
        if let Some(fields) = defs.last().1.properties {
            lemma_field_ranges(before, fields@);
            assert forall|e: (Seq<char>, (i64, i64))| #[trigger] m.contains(e) implies module::with_definition_ranges(
                m,
                defs,
            ).contains(e) by {
                assert(before.contains(e));
            }
        }
    }
}

proof fn lemma_field_ranges(m: Seq<(Seq<char>, (i64, i64))>, fields: Seq<(String, CfnProperty)>)
    requires
        keyed::ascending(m),
    ensures
        keyed::ascending(module::with_field_ranges(m, fields)),
        forall|e: (Seq<char>, (i64, i64))| #[trigger] m.contains(e) ==> module::with_field_ranges(m, fields).contains(e),
    decreases fields.len(),
{
    if fields.len() > 0 {
        let before = module::with_field_ranges(m, fields.drop_last());
        lemma_field_ranges(m, fields.drop_last());
        if let Some(range) = module::field_range(fields.last()) {
            keyed::law_put_absent(before, fields.last().0@, range);
        }
        assert forall|e: (Seq<char>, (i64, i64))| #[trigger] m.contains(e) implies module::with_field_ranges(
            m,
            fields,
        ).contains(e) by {
            assert(before.contains(e));
        }
    }
}

/// A field of a definition without bounds of its own has the range that is known
/// under its name; one with a bound, or that is no integer, is not listed for it.
pub proof fn law_fields_have_known_ranges(field: (String, CfnProperty))
    ensures
        module::field_range(field) is Some <==> model::is_numeric(field.1) && field.1.minimum is None
            && field.1.maximum is None && keyed::lookup(tables::int_range_table(), field.0@) is Some,
        module::field_range(field) is Some ==> module::field_range(field) == keyed::lookup(
            tables::int_range_table(),
            field.0@,
        ),
{
}

/// Every field of every definition that has a known range is listed by name.
pub proof fn law_ranges_of_fields_are_listed(
    m: Seq<(Seq<char>, (i64, i64))>,
    defs: Seq<(String, CfnDefinition)>,
    d: int,
    f: int,
)
    requires
        keyed::ascending(m),
        0 <= d < defs.len(),
        defs[d].1.properties is Some,
        0 <= f < defs[d].1.properties->0@.len(),
        module::field_range(defs[d].1.properties->0@[f]) is Some,
    ensures
        keyed::keys(module::with_definition_ranges(m, defs)).contains(defs[d].1.properties->0@[f].0@),
    decreases defs.len(),
{
    let front = defs.drop_last();
    let before = module::with_definition_ranges(m, front);
    lemma_definition_ranges(m, front);
    let all = module::with_definition_ranges(m, defs);
    if d < front.len() {
        assert(front[d] == defs[d]);
        law_ranges_of_fields_are_listed(m, front, d, f);
        if let Some(fields) = defs.last().1.properties {
            lemma_field_ranges(before, fields@);
            let name = defs[d].1.properties->0@[f].0@;
            let k = choose|k: int| 0 <= k < keyed::keys(before).len() && keyed::keys(before)[k] == name;
            assert(before.contains(before[k]));
            lemma_listed(all, before[k]);
        }
    } else {
        lemma_field_listed(before, defs[d].1.properties->0@, f);
    }
}

proof fn lemma_field_listed(m: Seq<(Seq<char>, (i64, i64))>, fields: Seq<(String, CfnProperty)>, f: int)
    requires
        keyed::ascending(m),
        0 <= f < fields.len(),
        module::field_range(fields[f]) is Some,
    ensures
        keyed::keys(module::with_field_ranges(m, fields)).contains(fields[f].0@),
    decreases fields.len(),
{
    let front = fields.drop_last();
    let before = module::with_field_ranges(m, front);
    let all = module::with_field_ranges(m, fields);
    lemma_field_ranges(m, front);
    if f < front.len() {
        assert(front[f] == fields[f]);
        lemma_field_listed(m, front, f);
        if let Some(range) = module::field_range(fields.last()) {
            keyed::law_put_absent(before, fields.last().0@, range);
            let k = choose|k: int| 0 <= k < keyed::keys(before).len() && keyed::keys(before)[k] == fields[f].0@;
            assert(before.contains(before[k]));
            lemma_listed(all, before[k]);
        }
    } else {
        let range = module::field_range(fields.last())->0;
        keyed::law_put_absent(before, fields.last().0@, range);
        if all.contains((fields.last().0@, range)) {
            lemma_listed(all, (fields.last().0@, range));
        } else {
            let k = choose|k: int| 0 <= k < keyed::keys(before).len() && keyed::keys(before)[k] == fields[f].0@;
            assert(before.contains(before[k]));
            lemma_listed(all, before[k]);
        }
    }
}

proof fn lemma_listed(m: Seq<(Seq<char>, (i64, i64))>, e: (Seq<char>, (i64, i64)))
    requires
        m.contains(e),
    ensures
        keyed::keys(m).contains(e.0),
{
    let k = choose|k: int| 0 <= k < m.len() && m[k] == e;
    assert(keyed::keys(m)[k] == e.0);
}

/// A module has a check for each of its ranges, which accepts the integers between
/// the two bounds and names both where it refuses.
pub proof fn law_module_checks_every_range(schema: CfnSchema, typename: Seq<char>, k: int)
    requires
        0 <= k < module::schema_ranges(schema).len(),
    ensures
        ({
            let code = module::module_text(schema, typename);
            let name = module::schema_ranges(schema)[k].0;
            let range = module::schema_ranges(schema)[k].1;
            let min = text::decimal(range.0 as int);
            let max = text::decimal(range.1 as int);
            &&& text::holds(
                code,
                "fn validate_"@ + casing::snake_case(name)
                    + "_range(value: &Value) -> Result<(), String> {\n    if let Value::Int(n) = value {\n        if *n < "@
                    + min + " || *n > "@ + max + " {\n            Err(format!(\"Value {} is out of range "@ + min + "..="@
                    + max + "\", n))\n        } else {\n            Ok(())\n"@,
            )
            &&& text::holds(code, "use carina_core::resource::Value;\n"@)
        }),
{
    let (name, range) = module::schema_ranges(schema)[k];
    let min = text::decimal(range.0 as int);
    let max = text::decimal(range.1 as int);
    let front = "fn validate_"@ + casing::snake_case(name)
        + "_range(value: &Value) -> Result<(), String> {\n    if let Value::Int(n) = value {\n        if *n < "@ + min
        + " || *n > "@ + max + " {\n            Err(format!(\"Value {} is out of range "@ + min + "..="@ + max
        + "\", n))\n        } else {\n            Ok(())\n"@;
    let rest = "        }\n    } else {\n        Err(\"Expected integer\".to_string())\n    }\n}\n\n"@;
    reveal_strlit(
        "\", n))\n        } else {\n            Ok(())\n        }\n    } else {\n        Err(\"Expected integer\".to_string())\n    }\n}\n\n",
    );
    reveal_strlit("\", n))\n        } else {\n            Ok(())\n");
    reveal_strlit("        }\n    } else {\n        Err(\"Expected integer\".to_string())\n    }\n}\n\n");
    assert("\", n))\n        } else {\n            Ok(())\n        }\n    } else {\n        Err(\"Expected integer\".to_string())\n    }\n}\n\n"@
        =~= "\", n))\n        } else {\n            Ok(())\n"@
        + "        }\n    } else {\n        Err(\"Expected integer\".to_string())\n    }\n}\n\n"@);
    assert(module::range_checks(module::schema_ranges(schema))[k] == module::range_check(name, range));
    assert(module::range_check(name, range) =~= front + rest);
    page_laws::lemma_holds_itself(front);
    page_laws::lemma_holds_within(front, rest, front);
    lemma_module_parts(schema, typename, front, k);
    page_laws::lemma_holds_itself("use carina_core::resource::Value;\n"@);
    lemma_module_parts(schema, typename, "use carina_core::resource::Value;\n"@, k);
}

/// A module holds the description of its resource type, on one line and within
/// length; a plain description that is short enough stays as it is.
pub proof fn law_module_describes_its_type(schema: CfnSchema, typename: Seq<char>)
    requires
        schema.description is Some,
    ensures
        ({
            let d = schema.description->0@;
            let shown = "        .with_description(\""@ + text::clipped(module::resource_line(d), 200) + "\")\n"@;
            &&& text::holds(module::module_text(schema, typename), shown)
            &&& !d.contains('"') && !d.contains('\n') ==> module::resource_line(d) == d
            &&& module::resource_line(d) == text::swapped(text::replaced(d, "\""@, "\\\""@), '\n', ' ')
            &&& !module::resource_line(d).contains('\n')
        }),
{
    let d = schema.description->0@;
    let line = text::clipped(module::resource_line(d), 200);
    let a = "        .with_description(\""@;
    let shown = a + line + "\")\n"@;
    lemma_described(schema, typename);
    text_laws::law_swapping_changes_one_character(text::replaced(d, "\""@, "\\\""@), '\n', ' ');
    if !d.contains('"') && !d.contains('\n') {
        reveal_strlit("\"");
        assert("\""@ =~= seq!['"']);
        text_laws::lemma_apart(d, '"');
        text_laws::law_joining_undoes_splitting(d, "\""@);
        text_laws::law_pieces_hold_no_separator(d, "\""@, 0);
        assert(text::join(seq![d], "\\\""@) == d);
        text_laws::law_swapping_changes_one_character(d, '\n', ' ');
    }
}

proof fn lemma_described(schema: CfnSchema, typename: Seq<char>)
    requires
        schema.description is Some,
    ensures
        text::holds(
            module::module_text(schema, typename),
            "        .with_description(\""@ + text::clipped(module::resource_line(schema.description->0@), 200) + "\")\n"@,
        ),
{
    let parts = text::split(typename, "::"@);
    let namespace = "awscc."@ + full(typename);
    let props = schema.properties@;
    let enums = page::schema_enums(props, schema);
    let ranges = module::schema_ranges(schema);
    let imports = module::import_list(
        module::uses(schema, "AttributeType::"@) || enums.len() > 0 || ranges.len() > 0,
        module::uses(schema, "StructField::"@),
        module::uses(schema, "types::"@),
    );
    let head = module::head_text(page::module_name(parts), typename, imports);
    let values = if enums.len() > 0 || ranges.len() > 0 {
        head + "use carina_core::resource::Value;\n"@
    } else {
        head
    };
    let tags = if module::uses(schema, "tags_type()"@) {
        values + "use super::tags_type;\n"@
    } else {
        values
    };
    let imported = (if enums.len() > 0 {
        tags + "use super::validate_namespaced_enum;\n"@
    } else {
        tags
    }) + "\n"@;
    let checked = text::cat(text::cat(imported, module::enum_checks(enums, namespace)), module::range_checks(ranges));
    let opened = checked + module::config_head(
        full(typename),
        typename,
        schema.tagging is Some && schema.tagging->0.taggable,
    );
    let line = text::clipped(module::resource_line(schema.description->0@), 200);
    let shown = "        .with_description(\""@ + line + "\")\n"@;
    let described = opened + "        .with_description(\""@ + line + "\")\n"@;
    assert(described =~= opened + shown);
    page_laws::lemma_holds_itself(shown);
    page_laws::lemma_holds_within(opened, shown, shown);
    let codes = module::attribute_codes(props, schema, enums, namespace);
    let filled = text::cat(described, codes);
    page_laws::lemma_cat_holds(described, codes, 0, shown);
    page_laws::lemma_holds_within(filled, "    }\n}\n"@, shown);
    page_laws::lemma_holds_within(filled + "    }\n}\n"@, module::value_table(full(typename), enums), shown);
    assert(page::full_name(parts) == full(typename));
    assert(module::module_text(schema, typename) == filled + "    }\n}\n"@ + module::value_table(full(typename), enums));
}

/// The attributes stand in the order of the properties, one behind the other, before
/// the end of the module and its table of values.
pub proof fn law_module_keeps_the_order_of_properties(schema: CfnSchema, typename: Seq<char>)
    ensures
        ({
            let enums = page::schema_enums(schema.properties@, schema);
            let codes = module::attribute_codes(schema.properties@, schema, enums, "awscc."@ + full(typename));
            &&& codes.len() == schema.properties@.len()
            &&& text::finishes_with(
                module::module_text(schema, typename),
                text::cat(Seq::empty(), codes) + "    }\n}\n"@ + module::value_table(full(typename), enums),
            )
        }),
{
    let props = schema.properties@;
    let parts = text::split(typename, "::"@);
    let namespace = "awscc."@ + full(typename);
    let enums = page::schema_enums(props, schema);
    let codes = module::attribute_codes(props, schema, enums, namespace);
    let back = text::cat(Seq::empty(), codes) + "    }\n}\n"@ + module::value_table(full(typename), enums);
    let whole = module::module_text(schema, typename);
    assert(page::full_name(parts) == full(typename));
    let ranges = module::schema_ranges(schema);
    let imports = module::import_list(
        module::uses(schema, "AttributeType::"@) || enums.len() > 0 || ranges.len() > 0,
        module::uses(schema, "StructField::"@),
        module::uses(schema, "types::"@),
    );
    let head = module::head_text(page::module_name(parts), typename, imports);
    let values = if enums.len() > 0 || ranges.len() > 0 {
        head + "use carina_core::resource::Value;\n"@
    } else {
        head
    };
    let tags = if module::uses(schema, "tags_type()"@) {
        values + "use super::tags_type;\n"@
    } else {
        values
    };
    let imported = (if enums.len() > 0 {
        tags + "use super::validate_namespaced_enum;\n"@
    } else {
        tags
    }) + "\n"@;
    let checked = text::cat(text::cat(imported, module::enum_checks(enums, namespace)), module::range_checks(ranges));
    let opened = checked + module::config_head(
        full(typename),
        typename,
        schema.tagging is Some && schema.tagging->0.taggable,
    );
    let described = match schema.description {
        Some(d) => opened + "        .with_description(\""@ + text::clipped(module::resource_line(d@), 200) + "\")\n"@,
        None => opened,
    };
    lemma_cat_from(described, codes);
    assert(whole == text::cat(described, codes) + "    }\n}\n"@ + module::value_table(full(typename), enums));
    assert(whole =~= described + back);
    assert(whole.subrange(described.len() as int, whole.len() as int) =~= back);
}

proof fn lemma_cat_from(front: Seq<char>, items: Seq<Seq<char>>)
    ensures
        text::cat(front, items) == front + text::cat(Seq::empty(), items),
    decreases items.len(),
{
    if items.len() > 0 {
        lemma_cat_from(front, items.drop_last());
    }
    assert(text::cat(front, items) =~= front + text::cat(Seq::empty(), items));
}

} // verus!
