//! What the generated type of a property says of the property.
use vstd::prelude::*;

use crate::codegen::casing;
use crate::codegen::enums;
use crate::codegen::model;
use crate::codegen::model::{CfnDefinition, CfnProperty, CfnSchema, EnumValue, EnumView, TypeValue};
use crate::codegen::names;
use crate::codegen::tables;
use crate::codegen::types;
use crate::keyed;
use crate::text;
use crate::text_laws;

verus! {

/// A path that refers to a definition of a schema: the first with its name.
pub open spec fn refers_to(schema: CfnSchema, path: Seq<char>, def_name: Seq<char>, def: CfnDefinition) -> bool {
    &&& path == "#/definitions/"@ + def_name
    &&& schema.definitions matches Some(defs) && exists|d: int|
        0 <= d < defs@.len() && (#[trigger] defs@[d]).0@ == def_name && defs@[d].1 == def && forall|e: int|
            0 <= e < d ==> (#[trigger] defs@[e]).0@ != def_name
}

/// A path that refers to a definition is resolved to it.
pub proof fn law_references_are_resolved(schema: CfnSchema, path: Seq<char>, def_name: Seq<char>, def: CfnDefinition)
    requires
        refers_to(schema, path, def_name, def),
    ensures
        model::resolved(schema, path) == Some(def),
        model::ref_name(path) == Some(def_name),
{
    let front = "#/definitions/"@;
    assert(path.subrange(0, front.len() as int) =~= front);
    assert(path.skip(front.len() as int) =~= def_name);
    let defs = schema.definitions->0@;
    let d = choose|d: int|
        0 <= d < defs.len() && (#[trigger] defs[d]).0@ == def_name && defs[d].1 == def && forall|e: int|
            0 <= e < d ==> (#[trigger] defs[e]).0@ != def_name;
    lemma_position(defs, def_name, 0, d);
}

proof fn lemma_position(defs: Seq<(String, CfnDefinition)>, name: Seq<char>, from: int, d: int)
    requires
        0 <= from <= d < defs.len(),
        defs[d].0@ == name,
        forall|e: int| 0 <= e < d ==> (#[trigger] defs[e]).0@ != name,
    ensures
        keyed::position_from(defs, name, from) == Some(d),
    decreases d - from,
{
    if from < d {
        lemma_position(defs, name, from + 1, d);
    }
}

proof fn lemma_struct_code(
    def_name: Seq<char>,
    props: Seq<(String, CfnProperty)>,
    required: Seq<Seq<char>>,
    schema: CfnSchema,
    fuel: nat,
)
    requires
        types::fields_renderable(props, schema, fuel),
    ensures
        types::struct_code(def_name, props, required, schema) == types::struct_text(
            def_name,
            types::field_codes(props, required, schema, fuel),
        ),
        types::struct_has_type(props, schema),
{
    let chosen = choose|f: nat| types::fields_renderable(props, schema, f);
    if chosen <= fuel {
        types::lemma_fuel_for_fields(props, required, schema, chosen, fuel);
    } else {
        types::lemma_fuel_for_fields(props, required, schema, fuel, chosen);
    }
}

/// A property that refers to a definition with properties has the type of a
/// struct: the one that is generated from the definition, under its name.
pub proof fn law_reference_is_a_struct(
    prop: CfnProperty,
    name: Seq<char>,
    schema: CfnSchema,
    def_name: Seq<char>,
    def: CfnDefinition,
)
    requires
        types::has_type(prop, name, schema),
        name != "Tags"@,
        prop.ref_path is Some,
        !text::holds(prop.ref_path->0@, "/Tag"@),
        refers_to(schema, prop.ref_path->0@, def_name, def),
        def.properties is Some,
        def.properties->0@.len() > 0,
    ensures
        types::struct_has_type(def.properties->0@, schema),
        types::type_code(prop, name, schema) == (
            types::struct_code(def_name, def.properties->0@, text::strings(def.required@), schema),
            None::<EnumView>,
        ),
{
    let path = prop.ref_path->0@;
    law_references_are_resolved(schema, path, def_name, def);
    let fuel = choose|fuel: nat| types::renderable(prop, name, schema, fuel);
    lemma_struct_code(def_name, def.properties->0@, text::strings(def.required@), schema, (fuel - 1) as nat);
}

/// A property that refers to something without properties has the type that its
/// name gives it, or else that of a text.
pub proof fn law_other_references_are_texts(prop: CfnProperty, name: Seq<char>, schema: CfnSchema)
    requires
        name != "Tags"@,
        prop.ref_path is Some,
        !text::holds(prop.ref_path->0@, "/Tag"@),
        model::resolved(schema, prop.ref_path->0@) matches Some(def) ==> def.properties is None
            || def.properties->0@.len() == 0,
    ensures
        types::type_code(prop, name, schema) == (types::named_type(name, schema), None::<EnumView>),
{
}

/// Tags are tags, whether by their name or by what they refer to.
pub proof fn law_tags_are_tags(prop: CfnProperty, name: Seq<char>, schema: CfnSchema)
    ensures
        name == "Tags"@ ==> types::type_code(prop, name, schema) == ("tags_type()"@, None::<EnumView>),
        prop.ref_path is Some && text::holds(prop.ref_path->0@, "/Tag"@) ==> types::type_code(prop, name, schema) == (
            "tags_type()"@,
            None::<EnumView>,
        ),
{
}

/// What the code of a field says of its type: the generated one, or the values of
/// an enum.
pub open spec fn type_within(prop: CfnProperty, name: Seq<char>, schema: CfnSchema) -> Seq<char> {
    let t = types::type_code(prop, name, schema);
    if t.1 is Some {
        "AttributeType::Enum(vec!["@ + text::join(
            Seq::new(t.1->0.values.len(), |i: int| "\""@ + t.1->0.values[i] + "\".to_string()"@),
            ", "@,
        ) + "])"@
    } else {
        t.0
    }
}

/// The code of a field of a struct: its name, its type, whether it is required,
/// its description and the name of its property.
pub open spec fn is_field(code: Seq<char>, name: Seq<char>, prop: CfnProperty, required: Seq<Seq<char>>, schema: CfnSchema) -> bool {
    let described = if prop.description is Some {
        ".with_description(\""@ + text::clipped(types::escaped(prop.description->0@), 150) + "\")"@
    } else {
        Seq::empty()
    };
    let marked = if exists|i: int| 0 <= i < required.len() && required[i] == name {
        ".required()"@
    } else {
        Seq::empty()
    };
    code == "StructField::new(\""@ + casing::snake_case(name) + "\", "@ + type_within(prop, name, schema) + ")"@ + marked
        + described + ".with_provider_name(\""@ + name + "\")"@
}

/// A struct lists a field for every property, in order: by its name in snake case,
/// with the type of the property, as required exactly where its name is listed so,
/// and with the name of the property.
pub proof fn law_struct_lists_its_fields(
    def_name: Seq<char>,
    props: Seq<(String, CfnProperty)>,
    required: Seq<Seq<char>>,
    schema: CfnSchema,
)
    requires
        types::struct_has_type(props, schema),
    ensures
        exists|fields: Seq<Seq<char>>|
            {
                &&& fields.len() == props.len()
                &&& forall|i: int|
                    0 <= i < props.len() ==> is_field(#[trigger] fields[i], props[i].0@, props[i].1, required, schema)
                &&& types::struct_code(def_name, props, required, schema)
                    == "AttributeType::Struct {\n                    name: \""@ + def_name
                    + "\".to_string(),\n                    fields: vec![\n                    "@ + #[trigger] text::join(
                    fields,
                    ",\n                    "@,
                ) + "\n                    ],\n                }"@
            },
{
    let fuel = choose|fuel: nat| types::fields_renderable(props, schema, fuel);
    let fields = types::field_codes(props, required, schema, fuel);
    lemma_fields(props, required, schema, fuel);
    assert(types::struct_code(def_name, props, required, schema)
        == "AttributeType::Struct {\n                    name: \""@ + def_name
        + "\".to_string(),\n                    fields: vec![\n                    "@ + text::join(
        fields,
        ",\n                    "@,
    ) + "\n                    ],\n                }"@);
}

proof fn lemma_fields(props: Seq<(String, CfnProperty)>, required: Seq<Seq<char>>, schema: CfnSchema, fuel: nat)
    requires
        types::fields_renderable(props, schema, fuel),
    ensures
        ({
            let fields = types::field_codes(props, required, schema, fuel);
            &&& fields.len() == props.len()
            &&& forall|i: int|
                0 <= i < props.len() ==> is_field(#[trigger] fields[i], props[i].0@, props[i].1, required, schema)
        }),
    decreases props.len(),
{
    if props.len() > 0 {
        let before = props.subrange(0, props.len() - 1);
        lemma_fields(before, required, schema, fuel);
        let fields = types::field_codes(props, required, schema, fuel);
        let n = props.len() - 1;
        let name = props[n].0@;
        let prop = props[n].1;
        types::law_enough_fuel_gives_the_code(prop, name, schema, fuel);
        let t = types::type_code(prop, name, schema);
        if t.1 is Some {
            let values = t.1->0.values;
            assert(types::owned_literals(values) =~= Seq::new(
                values.len(),
                |i: int| "\""@ + values[i] + "\".to_string()"@,
            ));
        }
        assert(types::field_type(t) == type_within(prop, name, schema));
        let head = "StructField::new(\""@ + casing::snake_case(name) + "\", "@ + type_within(prop, name, schema) + ")"@;
        let marked = if exists|i: int| 0 <= i < required.len() && required[i] == name {
            ".required()"@
        } else {
            Seq::empty()
        };
        assert(required.contains(name) <==> exists|i: int| 0 <= i < required.len() && required[i] == name);
        let tail = ".with_provider_name(\""@ + name + "\")"@;
        if prop.description is Some {
            let d = text::clipped(types::escaped(prop.description->0@), 150);
            let described = ".with_description(\""@ + d + "\")"@;
            assert(head + marked + ".with_description(\""@ + d + "\")"@ =~= head + marked + described);
            assert(fields[n] =~= head + marked + described + ".with_provider_name(\""@ + name + "\")"@);
        } else {
            assert(fields[n] =~= head + marked + Seq::empty() + ".with_provider_name(\""@ + name + "\")"@);
        }
        assert forall|i: int| 0 <= i < props.len() implies is_field(
            #[trigger] fields[i],
            props[i].0@,
            props[i].1,
            required,
            schema,
        ) by {
            if i < n {
                assert(before[i] == props[i]);
                assert(fields[i] == types::field_codes(before, required, schema, fuel)[i]);
            }
        }
    }
}

/// A property whose type is decided by its kind: it has no reference, no values of
/// its own and no known ones, and does not hold the tags.
pub open spec fn goes_by_kind(prop: CfnProperty, name: Seq<char>) -> bool {
    &&& name != "Tags"@
    &&& prop.ref_path is None
    &&& prop.enum_values is None
    &&& forall|i: int| 0 <= i < tables::enum_table().len() ==> (#[trigger] tables::enum_table()[i]).0 != name
}

/// A name without known values is not found in the table of them.
pub proof fn lemma_not_known(name: Seq<char>)
    requires
        forall|i: int| 0 <= i < tables::enum_table().len() ==> (#[trigger] tables::enum_table()[i]).0 != name,
    ensures
        keyed::lookup(tables::enum_table(), name) is None,
{
    keyed::lemma_index_from(tables::enum_table(), name, 0);
}

/// The names of kinds differ.
pub proof fn lemma_kinds()
    ensures
        "string"@.len() == 6 && "boolean"@.len() == 7 && "integer"@.len() == 7 && "number"@.len() == 6,
        "array"@.len() == 5 && "object"@.len() == 6,
        "string"@ != "number"@ && "string"@ != "object"@ && "number"@ != "object"@ && "boolean"@ != "integer"@,
{
    reveal_strlit("string");
    reveal_strlit("boolean");
    reveal_strlit("integer");
    reveal_strlit("number");
    reveal_strlit("array");
    reveal_strlit("object");
    assert("string"@[0] == 's' && "number"@[0] == 'n' && "object"@[0] == 'o');
    assert("boolean"@[0] == 'b' && "integer"@[0] == 'i');
}

/// A truth value is one in the code, and a number without a range is an integer.
pub proof fn law_scalar_types(prop: CfnProperty, name: Seq<char>, schema: CfnSchema)
    requires
        goes_by_kind(prop, name),
    ensures
        model::kind_name(prop) == Some("boolean"@) ==> types::type_code(prop, name, schema) == (
            "AttributeType::Bool"@,
            None::<EnumView>,
        ),
        (model::kind_name(prop) == Some("integer"@) || model::kind_name(prop) == Some("number"@)) && (prop.minimum is None
            || prop.maximum is None) && keyed::lookup(tables::int_range_table(), name) is None ==> types::type_code(
            prop,
            name,
            schema,
        ) == ("AttributeType::Int"@, None::<EnumView>),
{
    lemma_not_known(name);
    lemma_kinds();
}

/// A list has the type of a list of what its items are; the values of an enum are
/// texts there. One that does not say what its items are holds texts.
pub proof fn law_list_types(prop: CfnProperty, name: Seq<char>, schema: CfnSchema)
    requires
        goes_by_kind(prop, name),
        types::has_type(prop, name, schema),
        model::kind_name(prop) == Some("array"@),
    ensures
        prop.items matches Some(items) ==> types::has_type(*items, name, schema) && types::type_code(prop, name, schema) == (
            "AttributeType::List(Box::new("@ + (if types::type_code(*items, name, schema).1 is Some {
                "AttributeType::String"@
            } else {
                types::type_code(*items, name, schema).0
            }) + "))"@,
            None::<EnumView>,
        ),
        prop.items is None ==> types::type_code(prop, name, schema) == (
            "AttributeType::List(Box::new(AttributeType::String))"@,
            None::<EnumView>,
        ),
{
    lemma_not_known(name);
    lemma_kinds();
    let fuel = choose|fuel: nat| types::renderable(prop, name, schema, fuel);
    if let Some(items) = prop.items {
        assert(types::renderable(*items, name, schema, fuel));
        types::law_enough_fuel_gives_the_code(*items, name, schema, fuel);
    }
}

/// An object with properties of its own has the type of a struct that is generated
/// from them, under the name of the property; one without is a policy or a map.
pub proof fn law_object_types(prop: CfnProperty, name: Seq<char>, schema: CfnSchema)
    requires
        goes_by_kind(prop, name),
        types::has_type(prop, name, schema),
        model::kind_name(prop) == Some("object"@),
    ensures
        prop.properties is Some && prop.properties->0@.len() > 0 ==> types::type_code(prop, name, schema) == (
            types::struct_code(name, prop.properties->0@, text::strings(prop.required@), schema),
            None::<EnumView>,
        ),
        !(prop.properties is Some && prop.properties->0@.len() > 0) ==> types::type_code(prop, name, schema) == (
            if text::finishes_with(name, "PolicyDocument"@) {
                "super::iam_policy_document()"@
            } else {
                "AttributeType::Map(Box::new(AttributeType::String))"@
            },
            None::<EnumView>,
        ),
{
    lemma_not_known(name);
    lemma_kinds();
    let fuel = choose|fuel: nat| types::renderable(prop, name, schema, fuel);
    if prop.properties is Some && prop.properties->0@.len() > 0 {
        lemma_struct_code(name, prop.properties->0@, text::strings(prop.required@), schema, fuel);
    }
}

/// A property of another kind, or of none, has the type that its name gives it, or
/// else that of a text.
pub proof fn law_other_kinds(prop: CfnProperty, name: Seq<char>, schema: CfnSchema)
    requires
        goes_by_kind(prop, name),
        forall|k: Seq<char>|
            model::kind_name(prop) == Some(k) ==> k != "string"@ && k != "boolean"@ && k != "integer"@ && k != "number"@ && k
                != "array"@ && k != "object"@,
    ensures
        types::type_code(prop, name, schema) == (types::named_type(name, schema), None::<EnumView>),
{
    lemma_not_known(name);
    if model::kind_name(prop) is Some {
        let k = model::kind_name(prop)->0;
        assert(model::kind_name(prop) == Some(k));
    }
}

/// The text of a value of an enum.
pub open spec fn value_text(v: EnumValue) -> Seq<char> {
    match v {
        EnumValue::Str(s) => s@,
        EnumValue::Int(n) => text::decimal(n as int),
    }
}

/// A property that lists its values is an enum of them, in order, unless all of
/// them are numbers: then it is an integer where it is a number, and else a text.
pub proof fn law_listed_values_make_an_enum(prop: CfnProperty, name: Seq<char>, schema: CfnSchema)
    requires
        name != "Tags"@,
        prop.ref_path is None,
        prop.enum_values is Some,
    ensures
        ({
            let values = prop.enum_values->0@;
            let t = types::type_code(prop, name, schema);
            if exists|i: int| 0 <= i < values.len() && (#[trigger] values[i]) is Str {
                t.1 matches Some(e) && e.typename == casing::pascal_case(name) && e.values.len() == values.len() && forall|
                    i: int,
                |
                    0 <= i < values.len() ==> #[trigger] e.values[i] == value_text(values[i])
            } else {
                t == (
                    if model::kind_name(prop) == Some("integer"@) || model::kind_name(prop) == Some("number"@) {
                        "AttributeType::Int"@
                    } else {
                        "AttributeType::String"@
                    },
                    None::<EnumView>,
                )
            }
        }),
{
    let values = prop.enum_values->0@;
    if exists|i: int| 0 <= i < values.len() && (#[trigger] values[i]) is Str {
        let i = choose|i: int| 0 <= i < values.len() && (#[trigger] values[i]) is Str;
        assert(!(values[i] is Int));
        assert(!types::all_ints(values));
    } else {
        assert forall|i: int| 0 <= i < values.len() implies (#[trigger] values[i]) is Int by {
            assert(!(values[i] is Str));
        }
    }
}

/// A property whose values are known by its name is an enum of them, whatever its
/// kind.
pub proof fn law_known_values_make_an_enum(prop: CfnProperty, name: Seq<char>, schema: CfnSchema, values: Seq<Seq<char>>)
    requires
        name != "Tags"@,
        prop.ref_path is None,
        prop.enum_values is None,
        keyed::lookup(tables::enum_table(), name) == Some(values),
    ensures
        types::type_code(prop, name, schema).1 == Some(EnumView { typename: casing::pascal_case(name), values }),
{
}

/// A description that holds no quote, no line end and no two spaces side by side
/// stays as it is.
pub proof fn law_plain_descriptions_stay(d: Seq<char>)
    requires
        !d.contains('"'),
        !d.contains('\n'),
        forall|i: int| 0 <= i < d.len() - 1 ==> !(#[trigger] d[i] == ' ' && d[i + 1] == ' '),
    ensures
        types::escaped(d) == d,
{
    reveal_strlit("\"");
    reveal_strlit("  ");
    text::lemma_first_from(d, "\""@, 0);
    if let Some(i) = text::first_from(d, "\""@, 0) {
        assert(d.subrange(i, i + 1)[0] == '"');
        assert(d[i] == '"');
    }
    assert(text::replaced(d, "\""@, "\\\""@) =~= d);
    assert(text::swapped(d, '\n', ' ') =~= d) by {
        assert forall|i: int| 0 <= i < d.len() implies d[i] != '\n' by {
            assert(d.contains(d[i]));
        }
    }
    text::lemma_first_from(d, "  "@, 0);
    if let Some(i) = text::first_from(d, "  "@, 0) {
        assert(d.subrange(i, i + 2)[0] == ' ');
        assert(d.subrange(i, i + 2)[1] == ' ');
        assert(d[i] == ' ' && d[i + 1] == ' ');
    }
}

/// The range of an integer is given by its two bounds. Where one of them is missing,
/// it is the one that is known under the name of the property, and where none is
/// known there is no range.
pub proof fn law_bounds_make_a_range(prop: CfnProperty, name: Seq<char>, min: i64, max: i64)
    ensures
        prop.minimum == Some(min) && prop.maximum == Some(max) ==> types::int_range(prop, name) == Some((min, max)),
        prop.minimum is None || prop.maximum is None ==> types::int_range(prop, name) == keyed::lookup(
            tables::int_range_table(),
            name,
        ),
        model::kind_name(prop) == Some("integer"@) ==> model::is_numeric(prop),
        model::kind_name(prop) == Some("number"@) ==> model::is_numeric(prop),
        model::kind_name(prop) == Some("string"@) || model::kind_name(prop) == Some("boolean"@) || model::kind_name(prop)
            == Some("array"@) || model::kind_name(prop) == Some("object"@) || model::kind_name(prop) is None
            ==> !model::is_numeric(prop),
{
    lemma_kinds();
}

/// The type of an integer with a range names the range and its check; without one
/// it is a plain integer.
pub proof fn law_ranges_are_checked(prop: CfnProperty, name: Seq<char>, min: i64, max: i64)
    requires
        prop.minimum == Some(min),
        prop.maximum == Some(max),
    ensures
        ({
            let t = types::int_type(prop, name);
            &&& text::begins_with(
                t,
                "AttributeType::Custom {\n                name: \"Int("@ + text::decimal(min as int) + "..="@
                    + text::decimal(max as int) + ")\".to_string(),\n"@,
            )
            &&& text::finishes_with(
                t,
                "validate: validate_"@ + casing::snake_case(name)
                    + "_range,\n                namespace: None,\n                to_dsl: None,\n            }"@,
            )
        }),
{
    let t = types::int_type(prop, name);
    let low = text::decimal(min as int);
    let high = text::decimal(max as int);
    let snake = casing::snake_case(name);
    let open = "AttributeType::Custom {\n                name: \"Int("@;
    let middle = ")\".to_string(),\n                base: Box::new(AttributeType::Int),\n                validate: validate_"@;
    let a = ")\".to_string(),\n"@;
    let b = "                base: Box::new(AttributeType::Int),\n                "@;
    let c = "validate: validate_"@;
    let last = "_range,\n                namespace: None,\n                to_dsl: None,\n            }"@;
    assert(middle == a + b + c) by {
        reveal_strlit(
            ")\".to_string(),\n                base: Box::new(AttributeType::Int),\n                validate: validate_",
        );
        reveal_strlit(")\".to_string(),\n");
        reveal_strlit("                base: Box::new(AttributeType::Int),\n                ");
        reveal_strlit("validate: validate_");
        assert(middle =~= a + b + c);
    }
    let front = open + low + "..="@ + high + a;
    let back = c + snake + last;
    assert(t =~= front + b + back);
    assert(t.subrange(0, front.len() as int) =~= front);
    let n: int = t.len() - back.len();
    assert(t.subrange(n, t.len() as int) =~= back);
}

/// A name that says nothing of the values of a text: not what the values are, nor
/// that they are free.
pub open spec fn says_nothing(name: Seq<char>, typename: Seq<char>) -> bool {
    let lower = text::lowercase(name);
    &&& keyed::lookup(tables::string_type_table(), name) is None
    &&& !(typename == "AWS::IAM::Role"@ && name == "Arn"@)
    &&& !names::names_arn(lower)
    &&& !names::names_resource_id(lower)
    &&& !names::names_ip_address(lower)
    &&& !names::names_ipam_pool_id(lower)
    &&& !text::finishes_with(name, "PolicyDocument"@)
    &&& !text::holds(lower, "cidr"@)
    &&& !text::finishes_with(lower, "id"@)
    &&& !text::holds(lower, "zone"@)
    &&& !text::holds(lower, "region"@)
}

/// A text whose name says nothing of its values is an enum of the values that its
/// description lists, and a plain text where it lists none. A name that holds `zone`
/// or `region`, or ends in `id`, makes a text that is no enum, whatever its
/// description.
pub proof fn law_described_values_make_an_enum(prop: CfnProperty, name: Seq<char>, schema: CfnSchema, d: Seq<char>)
    requires
        goes_by_kind(prop, name),
        model::kind_name(prop) == Some("string"@),
    ensures
        ({
            let t = types::type_code(prop, name, schema);
            let lower = text::lowercase(name);
            &&& says_nothing(name, schema.typename@) && prop.description is None ==> t == ("AttributeType::String"@, None::<
                EnumView,
            >)
            &&& says_nothing(name, schema.typename@) && prop.description is Some && prop.description->0@ == d
                ==> match enums::described_values(d) {
                Some(values) => t.1 == Some(EnumView { typename: casing::pascal_case(name), values }),
                None => t == ("AttributeType::String"@, None::<EnumView>),
            }
            &&& text::holds(lower, "zone"@) || text::holds(lower, "region"@) || text::finishes_with(lower, "id"@)
                ==> t.1 is None
        }),
{
    lemma_not_known(name);
    lemma_kinds();
    let lower = text::lowercase(name);
    if lower == "availabilityzone"@ {
        reveal_strlit("availabilityzone");
        reveal_strlit("zone");
        assert(lower.subrange(12, 16) =~= "zone"@);
        assert(text::stands_at(lower, "zone"@, 12));
    }
}

/// The kind of a property is the one that it names, and the first where it names
/// several; one that names none has no kind.
pub proof fn law_first_kind_counts(prop: CfnProperty, one: String, many: Vec<String>)
    ensures
        prop.prop_type == Some(TypeValue::Single(one)) ==> model::kind_name(prop) == Some(one@),
        prop.prop_type == Some(TypeValue::Multiple(many)) && many@.len() > 0 ==> model::kind_name(prop) == Some(
            many@[0]@,
        ),
        prop.prop_type == Some(TypeValue::Multiple(many)) && many@.len() == 0 ==> model::kind_name(prop) is None,
        prop.prop_type is None ==> model::kind_name(prop) is None,
{
}

/// In the code of a description a quote stands behind a backslash, and a line end
/// counts as a space.
pub proof fn law_descriptions_are_escaped(d: Seq<char>)
    ensures
        ({
            let quoted = text::replaced(d, "\""@, "\\\""@);
            let flat = text::swapped(quoted, '\n', ' ');
            &&& !text::holds(flat, "  "@) ==> types::escaped(d) == flat
            &&& !quoted.contains('\n') && !text::holds(quoted, "  "@) ==> types::escaped(d) == quoted
        }),
{
    let quoted = text::replaced(d, "\""@, "\\\""@);
    let flat = text::swapped(quoted, '\n', ' ');
    reveal_strlit("  ");
    if !text::holds(flat, "  "@) {
        text_laws::law_joining_undoes_splitting(flat, "  "@);
        text_laws::law_pieces_hold_no_separator(flat, "  "@, 0);
        assert(text::join(seq![flat], " "@) == flat);
    }
    text_laws::law_swapping_changes_one_character(quoted, '\n', ' ');
}

} // verus!
