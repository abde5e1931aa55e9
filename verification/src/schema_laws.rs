//! What the parts of a schema are built from.
use vstd::prelude::*;

use crate::keyed;
use crate::schema;
use crate::schema::{AttrView, CheckView, FieldView, SchemaView, ToDslView, TypeView};
use crate::text;

verus! {

/// An attribute is optional, may be changed and written, and has neither description
/// nor other names, until it is said otherwise; and what is said of it changes that
/// and nothing else.
pub proof fn law_attributes_are_built_step_by_step(name: Seq<char>, t: TypeView, a: AttrView, s: Seq<char>)
    ensures
        ({
            let b = AttrView::new(name, t);
            &&& b.name == name && b.attr_type == t && !b.required && !b.create_only && !b.read_only
            &&& b.description is None && b.block_name is None && b.provider_name is None
        }),
        a.required().required && (AttrView { required: a.required, ..a.required() }) == a,
        a.create_only().create_only && (AttrView { create_only: a.create_only, ..a.create_only() }) == a,
        a.read_only().read_only && (AttrView { read_only: a.read_only, ..a.read_only() }) == a,
        a.with_description(s).description == Some(s) && (AttrView { description: a.description, ..a.with_description(s) })
            == a,
        a.with_block_name(s).block_name == Some(s) && (AttrView { block_name: a.block_name, ..a.with_block_name(s) }) == a,
        a.with_provider_name(s).provider_name == Some(s) && (AttrView {
            provider_name: a.provider_name,
            ..a.with_provider_name(s)
        }) == a,
{
}

/// The same holds of the fields of structs.
pub proof fn law_fields_are_built_step_by_step(name: Seq<char>, t: TypeView, f: FieldView, s: Seq<char>)
    ensures
        ({
            let g = FieldView::new(name, t);
            &&& g.name == name && g.field_type == t && !g.required
            &&& g.description is None && g.block_name is None && g.provider_name is None
        }),
        f.required().required && (FieldView { required: f.required, ..f.required() }) == f,
        f.with_description(s).description == Some(s) && (FieldView { description: f.description, ..f.with_description(s) })
            == f,
        f.with_block_name(s).block_name == Some(s) && (FieldView { block_name: f.block_name, ..f.with_block_name(s) }) == f,
        f.with_provider_name(s).provider_name == Some(s) && (FieldView {
            provider_name: f.provider_name,
            ..f.with_provider_name(s)
        }) == f,
{
}

/// A schema begins without attributes. One that is added is found under its name,
/// and the others stay.
pub proof fn law_schemas_are_built_step_by_step(
    resource_type: Seq<char>,
    s: SchemaView,
    a: AttrView,
    other: Seq<char>,
    d: Seq<char>,
)
    ensures
        SchemaView::new(resource_type).resource_type == resource_type,
        SchemaView::new(resource_type).attributes.len() == 0,
        !SchemaView::new(resource_type).force_replace,
        SchemaView::new(resource_type).description is None,
        keyed::lookup(s.attribute(a).attributes, a.name) == Some(a),
        other != a.name ==> keyed::lookup(s.attribute(a).attributes, other) == keyed::lookup(s.attributes, other),
        s.attribute(a).resource_type == s.resource_type && s.attribute(a).force_replace == s.force_replace,
        s.attribute(a).description == s.description,
        s.with_description(d).description == Some(d) && s.with_description(d).attributes == s.attributes,
        s.with_description(d).resource_type == s.resource_type && s.with_description(d).force_replace == s.force_replace,
{
    keyed::law_set_then_lookup(s.attributes, a.name, a, other);
}

/// A struct has its fields and a union its types in the order in which they are
/// added. A list keeps its order unless it is said to have none.
pub proof fn law_types_are_built_step_by_step(
    name: Seq<char>,
    fields: Seq<FieldView>,
    f: FieldView,
    types: Seq<TypeView>,
    t: TypeView,
)
    ensures
        TypeView::structure(name) == (TypeView::Struct { name, fields: seq![] }),
        (TypeView::Struct { name, fields }).field(f) == (TypeView::Struct { name, fields: fields.push(f) }),
        TypeView::union() == TypeView::Union(seq![]),
        TypeView::Union(types).or(t) == TypeView::Union(types.push(t)),
        TypeView::list(t) == (TypeView::List { inner: Box::new(t), ordered: true }),
        TypeView::unordered_list(t) == (TypeView::List { inner: Box::new(t), ordered: false }),
        TypeView::map_of(t) == TypeView::Mapping(Box::new(t)),
{
}

/// What has a namespace: the enums that are given one, however they are checked. A
/// plain list of values, a number, a text, and what holds parts have none.
pub proof fn law_enums_have_namespaces(
    name: Seq<char>,
    values: Seq<Seq<char>>,
    namespace: Seq<char>,
    form: Option<ToDslView>,
    t: TypeView,
    low: Option<i64>,
    high: Option<i64>,
)
    ensures
        schema::namespaced(TypeView::string_enum(name, values, namespace, form)) == Some((name, namespace, form)),
        schema::namespaced(TypeView::custom_enum(name, values, namespace, form)) == Some((name, namespace, form)),
        schema::enum_values(TypeView::string_enum(name, values, namespace, form)) == Some(values),
        schema::enum_values(TypeView::custom_enum(name, values, namespace, form)) is None,
        TypeView::custom_enum(name, values, namespace, form)->check == CheckView::NamespacedEnum(values),
        TypeView::int_range(name, low, high)->check == CheckView::IntRange(low, high),
        *TypeView::int_range(name, low, high)->base is Int,
        TypeView::format(name)->check is Format,
        *TypeView::format(name)->base is String,
        schema::namespaced(TypeView::int_range(name, low, high)) is None,
        schema::namespaced(TypeView::format(name)) is None,
        t is String || t is Int || t is Float || t is Bool || t is Enum || t is List || t is Mapping || t is Struct || t is Union
            ==> schema::namespaced(t) is None && schema::enum_values(t) is None,
{
}

/// A value with another spelling in the configuration language is spelled so, and
/// others have underscores for hyphens where the form says so.
pub proof fn law_forms_spell_values(value: Seq<char>, dsl: Seq<char>, other: Seq<char>, underscores: bool)
    requires
        other != value,
    ensures
        schema::dsl_spelling(ToDslView::alias(value, dsl, underscores), value) == dsl,
        schema::dsl_spelling(ToDslView::alias(value, dsl, true), other) == text::swapped(other, '-', '_'),
        schema::dsl_spelling(ToDslView::alias(value, dsl, false), other) == other,
        schema::dsl_spelling(ToDslView::hyphens(), other) == text::swapped(other, '-', '_'),
        schema::spelled(None, other) == other,
{
    reveal_with_fuel(keyed::index_from, 2);
}

} // verus!
