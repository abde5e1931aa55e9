//! What resolving does with each form of an enum value, wherever it stands.
use vstd::prelude::*;

use crate::keyed;
use crate::provider;
use crate::provider::conversion_laws;
use crate::provider::normalizer;
use crate::resource::ResourceView;
use crate::schema;
use crate::schema::{CheckView, FieldView, SchemaView, ToDslView, TypeView};
use crate::schemas::registry;
use crate::text;
use crate::value::ValueView;

verus! {

/// A spelling is a value with underscores for its hyphens.
pub open spec fn is_underscored(value: Seq<char>, spelling: Seq<char>) -> bool {
    &&& spelling.len() == value.len()
    &&& forall|i: int|
        0 <= i < value.len() ==> #[trigger] spelling[i] == if value[i] == '-' {
            '_'
        } else {
            value[i]
        }
}

/// A value is spelled as it is where no form is given. Where one is, an alias goes
/// first, and else hyphens become underscores where the form asks for it.
pub proof fn law_spelling(value: Seq<char>, aliases: Seq<(Seq<char>, Seq<char>)>, alias: Seq<char>, underscores: bool)
    ensures
        schema::spelled(None, value) == value,
        schema::spelled(Some(ToDslView { aliases: seq![(value, alias)], underscores }), value) == alias,
        keyed::lookup(aliases, value) is None ==> ({
            let spelling = schema::spelled(Some(ToDslView { aliases, underscores }), value);
            if underscores {
                is_underscored(value, spelling)
            } else {
                spelling == value
            }
        }),
{
    reveal_with_fuel(keyed::index_from, 2);
}

/// A value of an enum in full form.
pub open spec fn full(namespace: Seq<char>, name: Seq<char>, form: Option<ToDslView>, value: Seq<char>) -> ValueView {
    ValueView::String(conversion_laws::dotted(namespace, name, schema::spelled(form, value)))
}

/// An identifier alone, one behind the name of the enum, and a text without dots
/// get the full form; all else stays as it is.
pub proof fn law_enum_forms(
    name: Seq<char>,
    namespace: Seq<char>,
    form: Option<ToDslView>,
    other: Seq<char>,
    value: Seq<char>,
    v: ValueView,
)
    ensures
        normalizer::resolved_enum(ValueView::UnresolvedIdent(value, None), name, namespace, form) == full(
            namespace,
            name,
            form,
            value,
        ),
        normalizer::resolved_enum(ValueView::UnresolvedIdent(name, Some(value)), name, namespace, form) == full(
            namespace,
            name,
            form,
            value,
        ),
        other != name ==> normalizer::resolved_enum(
            ValueView::UnresolvedIdent(other, Some(value)),
            name,
            namespace,
            form,
        ) == ValueView::UnresolvedIdent(other, Some(value)),
        normalizer::resolved_enum(ValueView::String(value), name, namespace, form) == if value.contains('.') {
            ValueView::String(value)
        } else {
            full(namespace, name, form, value)
        },
        !(v is UnresolvedIdent) && !(v is String) ==> normalizer::resolved_enum(v, name, namespace, form) == v,
{
    reveal_strlit(".");
    if value.contains('.') {
        let i = choose|i: int| 0 <= i < value.len() && value[i] == '.';
        assert(value.subrange(i, i + 1) =~= "."@);
        assert(text::stands_at(value, "."@, i));
    }
    if text::holds(value, "."@) {
        let i = choose|i: int| text::stands_at(value, "."@, i);
        assert(value.subrange(i, i + 1)[0] == '.');
        assert(value[i] == '.');
    }
}

/// The name, the namespace and the form of an enum that has a namespace, be its
/// values listed or only checked.
pub proof fn law_enums_with_a_namespace(
    name: Seq<char>,
    values: Seq<Seq<char>>,
    base: TypeView,
    check: CheckView,
    namespace: Seq<char>,
    form: Option<ToDslView>,
)
    ensures
        schema::namespaced(TypeView::StringEnum { name, values, namespace: Some(namespace), to_dsl: form }) == Some(
            (name, namespace, form),
        ),
        schema::enum_values(TypeView::StringEnum { name, values, namespace: Some(namespace), to_dsl: form }) == Some(
            values,
        ),
        schema::namespaced(
            TypeView::Custom { name, base: Box::new(base), check, namespace: Some(namespace), to_dsl: form },
        ) == Some((name, namespace, form)),
        schema::namespaced(TypeView::StringEnum { name, values, namespace: None, to_dsl: form }) is None,
        schema::namespaced(TypeView::Custom { name, base: Box::new(base), check, namespace: None, to_dsl: form })
            is None,
        schema::namespaced(TypeView::Enum(values)) is None,
        schema::namespaced(TypeView::String) is None,
{
}

/// Resolving a list of structs keeps its length, and resolves each of its items by
/// itself.
pub proof fn law_items_are_resolved(items: Seq<ValueView>, fields: Seq<FieldView>)
    ensures
        normalizer::resolved_struct(ValueView::List(items), fields) matches ValueView::List(out) && out.len()
            == items.len() && forall|i: int|
            0 <= i < items.len() ==> #[trigger] out[i] == normalizer::resolved_struct(items[i], fields),
    decreases items.len(),
{
    if items.len() > 0 {
        law_items_are_resolved(items.subrange(0, items.len() - 1), fields);
    }
}

/// Resolving a struct keeps its entries and their keys. The value of a field that
/// is an enum with a namespace gets the full form of that enum; other values stay
/// as they are.
pub proof fn law_fields_are_resolved(entries: Seq<(Seq<char>, ValueView)>, fields: Seq<FieldView>, k: int, n: int)
    requires
        0 <= k < entries.len(),
    ensures
        normalizer::resolved_struct(ValueView::Mapping(entries), fields) matches ValueView::Mapping(out) && {
            &&& out.len() == entries.len()
            &&& out[k].0 == entries[k].0
            &&& (forall|i: int| 0 <= i < fields.len() ==> (#[trigger] fields[i]).name != entries[k].0) ==> out[k].1
                == entries[k].1
            &&& 0 <= n < fields.len() && fields[n].name == entries[k].0 && (forall|i: int|
                0 <= i < n ==> (#[trigger] fields[i]).name != entries[k].0) ==> out[k].1 == match schema::namespaced(
                fields[n].field_type,
            ) {
                Some((name, namespace, form)) => normalizer::resolved_enum(entries[k].1, name, namespace, form),
                None => entries[k].1,
            }
        },
{
    let key = entries[k].0;
    if forall|i: int| 0 <= i < fields.len() ==> (#[trigger] fields[i]).name != key {
        lemma_field(fields, key, 0, fields.len() as int);
    }
    if 0 <= n < fields.len() && fields[n].name == key && (forall|i: int|
        0 <= i < n ==> (#[trigger] fields[i]).name != key) {
        lemma_field(fields, key, 0, n);
    }
}

proof fn lemma_field(fields: Seq<FieldView>, key: Seq<char>, from: int, n: int)
    requires
        0 <= from <= n <= fields.len(),
        forall|i: int| 0 <= i < n ==> (#[trigger] fields[i]).name != key,
        n < fields.len() ==> fields[n].name == key,
    ensures
        normalizer::field_from(fields, key, from) == if n < fields.len() {
            Some(fields[n])
        } else {
            None
        },
    decreases n - from,
{
    if from < n {
        lemma_field(fields, key, from + 1, n);
    }
}

/// An identifier that a schema can resolve is left: one alone, or one behind the
/// name of the enum.
pub open spec fn is_bare(v: ValueView, name: Seq<char>) -> bool {
    v matches ValueView::UnresolvedIdent(ident, member) && (member is None || ident == name)
}

/// No field of a struct, or of a list of structs, that is an enum with a namespace
/// holds an identifier that can be resolved.
pub open spec fn has_no_bare(v: ValueView, fields: Seq<FieldView>) -> bool
    decreases v,
{
    match v {
        ValueView::List(items) => forall|i: int| 0 <= i < items.len() ==> has_no_bare(#[trigger] items[i], fields),
        ValueView::Mapping(entries) => forall|k: int, n: int|
            0 <= k < entries.len() && 0 <= n < fields.len() && (#[trigger] entries[k]).0 == (#[trigger] fields[n]).name
                ==> (schema::namespaced(fields[n].field_type) matches Some((name, namespace, form)) ==> !is_bare(
                entries[k].1,
                name,
            )),
        _ => true,
    }
}

/// No two fields have the same name.
pub open spec fn distinct_names(fields: Seq<FieldView>) -> bool {
    forall|i: int, j: int| 0 <= i < j < fields.len() ==> (#[trigger] fields[i]).name != (#[trigger] fields[j]).name
}

/// No identifier that can be resolved is left in a struct, nor in any item of a
/// list of structs.
pub proof fn law_nothing_bare_is_left(v: ValueView, fields: Seq<FieldView>)
    requires
        distinct_names(fields),
    ensures
        has_no_bare(normalizer::resolved_struct(v, fields), fields),
    decreases v,
{
    match v {
        ValueView::List(items) => {
            law_items_are_resolved(items, fields);
            let whole = normalizer::resolved_struct(v, fields);
            let out = whole->List_0;
            assert forall|i: int| 0 <= i < out.len() implies has_no_bare(#[trigger] out[i], fields) by {
                law_nothing_bare_is_left(items[i], fields);
            }
            assert(has_no_bare(ValueView::List(out), fields));
        },
        ValueView::Mapping(entries) => {
            let out = normalizer::resolved_struct(v, fields)->Mapping_0;
            assert forall|k: int, n: int|
                0 <= k < out.len() && 0 <= n < fields.len() && (#[trigger] out[k]).0 == (#[trigger] fields[n]).name implies (
            schema::namespaced(fields[n].field_type) matches Some((name, namespace, form)) ==> !is_bare(
                out[k].1,
                name,
            )) by {
                assert forall|i: int| 0 <= i < n implies (#[trigger] fields[i]).name != entries[k].0 by {}
                law_fields_are_resolved(entries, fields, k, n);
            }
            assert(has_no_bare(ValueView::Mapping(out), fields));
        },
        _ => {},
    }
}

/// The fields of the struct that a type is or that the items of a list are.
pub open spec fn fields_within(t: TypeView) -> Option<Seq<FieldView>> {
    match t {
        TypeView::Struct { name, fields } => Some(fields),
        TypeView::List { inner, ordered } => match *inner {
            TypeView::Struct { name, fields } => Some(fields),
            _ => None,
        },
        _ => None,
    }
}

/// Resolving a resource of this provider whose type is known keeps its id and the
/// names of its attributes. An attribute that is an enum with a namespace gets the
/// full form, one that is a struct or a list of structs has its fields resolved,
/// and all others stay as they are, as do those that the schema lacks.
pub proof fn law_resources_are_resolved(r: ResourceView, s: SchemaView, k: int)
    requires
        r.id.provider == "awscc"@,
        registry::config_of(r.id.resource_type) matches Some(c) && c.schema == s,
        0 <= k < r.attributes.len(),
    ensures
        ({
            let out = normalizer::resolved_by_id(r);
            let v = r.attributes[k].1;
            &&& out.id == r.id
            &&& out.attributes.len() == r.attributes.len()
            &&& out.attributes[k].0 == r.attributes[k].0
            &&& out.attributes[k].1 == match keyed::lookup(s.attributes, r.attributes[k].0) {
                None => v,
                Some(a) => match (schema::namespaced(a.attr_type), fields_within(a.attr_type)) {
                    (Some((name, namespace, form)), _) => normalizer::resolved_enum(v, name, namespace, form),
                    (None, Some(fields)) => normalizer::resolved_struct(v, fields),
                    (None, None) => v,
                },
            }
        }),
{
}

/// Resources of other providers, and those whose type is not known, stay as they
/// are.
pub proof fn law_other_resources_stay(r: ResourceView)
    ensures
        r.id.provider != "awscc"@ ==> normalizer::resolved_by_id(r) == r,
        registry::config_of(r.id.resource_type) is None ==> normalizer::resolved_by_id(r) == r,
{
}

/// Whether the provider of a resource is told by its id or by its attribute
/// `_provider`, what is resolved for this provider is resolved alike, and the mark
/// stays. A resource without the mark stays as it is.
pub proof fn law_marked_resources_are_resolved(r: ResourceView)
    ensures
        keyed::lookup(r.attributes, "_provider"@) == Some(ValueView::String("awscc"@)) && r.id.provider == "awscc"@
            ==> provider::resolved_by_mark(r) == normalizer::resolved_by_id(r),
        keyed::lookup(r.attributes, "_provider"@) != Some(ValueView::String("awscc"@)) ==> provider::resolved_by_mark(r)
            == r,
        r.id.provider != "awscc"@ ==> normalizer::resolved_by_id(r) == r,
        provider::resolved_by_mark(r).id == r.id,
        provider::resolved_by_mark(r).attributes.len() == r.attributes.len(),
        keyed::lookup(r.attributes, "_provider"@) == Some(ValueView::String("awscc"@)) ==> provider::resolved_by_mark(r)
            == normalizer::resolved_resource(r),
{
}

} // verus!
