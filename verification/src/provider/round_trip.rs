//! What is read from the provider is written back as it was.
use vstd::prelude::*;

use crate::enums;
use crate::json;
use crate::json::{JsonNumber, JsonView};
use crate::keyed;
use crate::provider::convert;
use crate::schema;
use crate::schema::{FieldView, TypeView};
use crate::schemas::registry;
use crate::text;
use crate::value;
use crate::value::ValueView;

verus! {

/// A document that has a value throughout: no null, and no number that is
/// neither a 64-bit integer nor a finite float.
pub open spec fn all_plain(j: JsonView) -> bool
    decreases j,
{
    match j {
        JsonView::Null => false,
        JsonView::Bool(_) => true,
        JsonView::String(_) => true,
        JsonView::Number(n) => match json::number_as_i64(n) {
            Some(i) => n == json::number_of_i64(i),
            None => match n {
                JsonNumber::Float(f) => value::float_finite(f),
                _ => false,
            },
        },
        JsonView::Array(items) => forall|i: int| 0 <= i < items.len() ==> all_plain(#[trigger] items[i]),
        JsonView::Object(members) => forall|i: int| 0 <= i < members.len() ==> all_plain((#[trigger] members[i]).1),
    }
}

/// A value that has JSON throughout: nothing unresolved, and no float that is
/// not finite.
pub open spec fn all_resolved(v: ValueView) -> bool
    decreases v,
{
    match v {
        ValueView::String(_) => true,
        ValueView::Bool(_) => true,
        ValueView::Int(_) => true,
        ValueView::Float(f) => value::float_finite(f),
        ValueView::List(items) => forall|i: int| 0 <= i < items.len() ==> all_resolved(#[trigger] items[i]),
        ValueView::Mapping(entries) => forall|i: int| 0 <= i < entries.len() ==> all_resolved((#[trigger] entries[i]).1),
        _ => false,
    }
}

/// A document that has a value throughout comes back from that value unchanged.
pub proof fn law_plain_json_round_trip(j: JsonView)
    requires
        all_plain(j),
    ensures
        convert::plain_value(j) is Some,
        convert::plain_json(convert::plain_value(j)->0) == Some(j),
    decreases j, 1nat,
{
    match j {
        JsonView::Array(items) => {
            lemma_plain_items(items);
        },
        JsonView::Object(members) => {
            lemma_plain_members(members);
        },
        _ => {},
    }
}

proof fn lemma_plain_items(items: Seq<JsonView>)
    requires
        forall|i: int| 0 <= i < items.len() ==> all_plain(#[trigger] items[i]),
    ensures
        convert::plain_array(convert::plain_items(items)) == items,
    decreases items, 0nat,
{
    if items.len() > 0 {
        let before = items.subrange(0, items.len() - 1);
        assert forall|i: int| 0 <= i < before.len() implies all_plain(#[trigger] before[i]) by {
            assert(before[i] == items[i]);
        }
        lemma_plain_items(before);
        let last = items[items.len() - 1];
        law_plain_json_round_trip(last);
        let out = convert::plain_items(items);
        assert(out.subrange(0, out.len() - 1) =~= convert::plain_items(before));
        assert(before.push(last) =~= items);
    }
}

proof fn lemma_plain_members(members: Seq<(Seq<char>, JsonView)>)
    requires
        forall|i: int| 0 <= i < members.len() ==> all_plain((#[trigger] members[i]).1),
    ensures
        convert::plain_object(convert::plain_members(members)) == members,
    decreases members, 0nat,
{
    if members.len() > 0 {
        let before = members.subrange(0, members.len() - 1);
        assert forall|i: int| 0 <= i < before.len() implies all_plain((#[trigger] before[i]).1) by {
            assert(before[i] == members[i]);
        }
        lemma_plain_members(before);
        let last = members[members.len() - 1];
        law_plain_json_round_trip(last.1);
        let out = convert::plain_members(members);
        assert(out.subrange(0, out.len() - 1) =~= convert::plain_members(before));
        assert(before.push(last) =~= members);
    }
}

/// A value that has JSON throughout comes back from that JSON unchanged.
pub proof fn law_plain_value_round_trip(v: ValueView)
    requires
        all_resolved(v),
    ensures
        convert::plain_json(v) is Some,
        convert::plain_value(convert::plain_json(v)->0) == Some(v),
    decreases v, 1nat,
{
    match v {
        ValueView::List(items) => {
            lemma_resolved_items(items);
        },
        ValueView::Mapping(entries) => {
            lemma_resolved_entries(entries);
        },
        _ => {},
    }
}

proof fn lemma_resolved_items(items: Seq<ValueView>)
    requires
        forall|i: int| 0 <= i < items.len() ==> all_resolved(#[trigger] items[i]),
    ensures
        convert::plain_items(convert::plain_array(items)) == items,
    decreases items, 0nat,
{
    if items.len() > 0 {
        let before = items.subrange(0, items.len() - 1);
        assert forall|i: int| 0 <= i < before.len() implies all_resolved(#[trigger] before[i]) by {
            assert(before[i] == items[i]);
        }
        lemma_resolved_items(before);
        let last = items[items.len() - 1];
        law_plain_value_round_trip(last);
        let out = convert::plain_array(items);
        assert(out.subrange(0, out.len() - 1) =~= convert::plain_array(before));
        assert(before.push(last) =~= items);
    }
}

/// Entries that have JSON throughout come back from it unchanged.
pub proof fn lemma_resolved_entries(entries: Seq<(Seq<char>, ValueView)>)
    requires
        forall|i: int| 0 <= i < entries.len() ==> all_resolved((#[trigger] entries[i]).1),
    ensures
        convert::plain_members(convert::plain_object(entries)) == entries,
    decreases entries, 0nat,
{
    if entries.len() > 0 {
        let before = entries.subrange(0, entries.len() - 1);
        assert forall|i: int| 0 <= i < before.len() implies all_resolved((#[trigger] before[i]).1) by {
            assert(before[i] == entries[i]);
        }
        lemma_resolved_entries(before);
        let last = entries[entries.len() - 1];
        law_plain_value_round_trip(last.1);
        let out = convert::plain_object(entries);
        assert(out.subrange(0, out.len() - 1) =~= convert::plain_object(before));
        assert(before.push(last) =~= entries);
    }
}

/// The provider's value of an enum is read back from its identifier.
pub open spec fn enum_returns(s: Seq<char>, name: Seq<char>, t: TypeView, resource_type: Seq<char>) -> bool {
    convert::enum_to_aws(
        convert::named_enum_value(convert::enum_to_dsl(s, name, t, resource_type), t),
        resource_type,
        name,
    ) == JsonView::String(s)
}

/// No two fields have the same name, and no two the same key of the provider.
pub open spec fn distinct_fields(fields: Seq<FieldView>) -> bool {
    forall|i: int, j: int|
        0 <= i < fields.len() && 0 <= j < fields.len() && i != j ==> {
            &&& (#[trigger] fields[i]).name != (#[trigger] fields[j]).name
            &&& convert::provider_key(fields[i]) != convert::provider_key(fields[j])
        }
}

/// A key of the provider that some field has.
pub open spec fn known_key(fields: Seq<FieldView>, key: Seq<char>) -> bool {
    exists|i: int| 0 <= i < fields.len() && convert::provider_key(#[trigger] fields[i]) == key
}

/// A document of the form that a type describes: lists for lists, objects with
/// known members for structs, values that are read back for enums.
pub open spec fn fits(name: Seq<char>, j: JsonView, t: TypeView, resource_type: Seq<char>) -> bool
    decreases t,
{
    if schema::namespaced(t) is Some {
        j is String && enum_returns(j->String_0, name, t, resource_type)
    } else {
        match t {
            TypeView::List { inner, ordered } => match j {
                JsonView::Array(items) => forall|i: int|
                    0 <= i < items.len() ==> fits(name, #[trigger] items[i], *inner, resource_type),
                _ => false,
            },
            TypeView::Mapping(inner) => match j {
                JsonView::Object(members) => {
                    &&& keyed::distinct_keys(members)
                    &&& forall|i: int|
                        0 <= i < members.len() ==> fits(name, (#[trigger] members[i]).1, *inner, resource_type)
                },
                _ => false,
            },
            TypeView::Struct { name: _, fields } => match j {
                JsonView::Object(members) => {
                    &&& keyed::distinct_keys(members)
                    &&& distinct_fields(fields)
                    &&& forall|i: int| 0 <= i < members.len() ==> known_key(fields, (#[trigger] members[i]).0)
                    &&& forall|i: int|
                        0 <= i < fields.len() ==> match keyed::lookup(members, convert::provider_key(#[trigger] fields[i])) {
                            Some(m) => fits(fields[i].name, m, fields[i].field_type, resource_type),
                            None => true,
                        }
                },
                _ => false,
            },
            TypeView::Union(types) => types.len() > 0 && fits(name, j, types[0], resource_type),
            _ => all_plain(j),
        }
    }
}

/// A document is read as a value, and that value is written as the document
/// again, but for the order of the members of objects.
pub open spec fn comes_back(name: Seq<char>, j: JsonView, t: TypeView, resource_type: Seq<char>) -> bool {
    let v = convert::to_dsl(name, j, t, resource_type);
    let back = convert::to_aws(v->0, t, resource_type, name);
    v is Some && back is Some && json::same_json(back->0, j)
}

/// A document of the form that a type describes comes back from its value
/// unchanged, but for the order of the members of objects.
pub proof fn law_typed_round_trip(name: Seq<char>, j: JsonView, t: TypeView, resource_type: Seq<char>)
    requires
        fits(name, j, t, resource_type),
    ensures
        comes_back(name, j, t, resource_type),
    decreases t,
{
    if schema::namespaced(t) is Some {
    } else {
        match t {
            TypeView::List { inner, ordered } => {
                let items = j->Array_0;
                assert forall|i: int| 0 <= i < items.len() implies comes_back(name, #[trigger] items[i], *inner, resource_type) by {
                    law_typed_round_trip(name, items[i], *inner, resource_type);
                }
                lemma_items_return(name, items, *inner, resource_type);
            },
            TypeView::Mapping(inner) => {
                let members = j->Object_0;
                assert forall|i: int| 0 <= i < members.len() implies comes_back(
                    name,
                    (#[trigger] members[i]).1,
                    *inner,
                    resource_type,
                ) by {
                    law_typed_round_trip(name, members[i].1, *inner, resource_type);
                }
                lemma_members_return(name, members, *inner, resource_type);
                let back = convert::entries_to_aws(
                    convert::members_to_dsl(name, members, *inner, resource_type),
                    *inner,
                    resource_type,
                    name,
                );
                assert forall|i: int| 0 <= i < back.len() implies {
                    &&& keyed::lookup(members, (#[trigger] back[i]).0) is Some
                    &&& json::same_json(back[i].1, keyed::lookup(members, back[i].0)->0)
                } by {
                    keyed::lemma_index_from(members, members[i].0, 0);
                }
                assert forall|i: int| 0 <= i < members.len() implies keyed::lookup(back, (#[trigger] members[i]).0) is Some by {
                    keyed::lemma_index_from(back, members[i].0, 0);
                    assert(back[i].0 == members[i].0);
                }
                assert(json::same_json(JsonView::Object(back), j));
            },
            TypeView::Struct { name: _, fields } => {
                let members = j->Object_0;
                assert forall|i: int| 0 <= i < fields.len() implies {
                    let m = keyed::lookup(members, convert::provider_key(#[trigger] fields[i]));
                    m is Some ==> comes_back(fields[i].name, m->0, fields[i].field_type, resource_type)
                } by {
                    let m = keyed::lookup(members, convert::provider_key(fields[i]));
                    if m is Some {
                        law_typed_round_trip(fields[i].name, m->0, fields[i].field_type, resource_type);
                    }
                }
                if members.len() > 0 {
                    lemma_struct_returns(members, fields, resource_type);
                } else {
                    let none: Seq<(Seq<char>, ValueView)> = Seq::empty();
                    lemma_no_fields(members, none, fields, resource_type);
                    assert(convert::plain_value(j) == Some(ValueView::Mapping(none)));
                    assert(members =~= Seq::empty());
                }
            },
            TypeView::Union(types) => {
                law_typed_round_trip(name, j, types[0], resource_type);
            },
            _ => {
                law_plain_json_round_trip(j);
            },
        }
    }
}

proof fn lemma_items_return(name: Seq<char>, items: Seq<JsonView>, t: TypeView, resource_type: Seq<char>)
    requires
        forall|i: int| 0 <= i < items.len() ==> comes_back(name, #[trigger] items[i], t, resource_type),
    ensures
        ({
            let back = convert::items_to_aws(
                convert::items_to_dsl(name, items, t, resource_type),
                t,
                resource_type,
                name,
            );
            &&& back.len() == items.len()
            &&& forall|i: int| 0 <= i < items.len() ==> json::same_json(#[trigger] back[i], items[i])
        }),
    decreases items.len(),
{
    if items.len() > 0 {
        let before = items.drop_last();
        assert forall|i: int| 0 <= i < before.len() implies comes_back(name, #[trigger] before[i], t, resource_type) by {
            assert(before[i] == items[i]);
        }
        lemma_items_return(name, before, t, resource_type);
        assert(comes_back(name, items[items.len() - 1], t, resource_type));
        let vs = convert::items_to_dsl(name, items, t, resource_type);
        assert(vs.drop_last() =~= convert::items_to_dsl(name, before, t, resource_type));
        let back = convert::items_to_aws(vs, t, resource_type, name);
        assert forall|i: int| 0 <= i < items.len() implies json::same_json(#[trigger] back[i], items[i]) by {
            if i < before.len() {
                assert(before[i] == items[i]);
                assert(back[i] == convert::items_to_aws(vs.drop_last(), t, resource_type, name)[i]);
            }
        }
    }
}

proof fn lemma_members_return(name: Seq<char>, members: Seq<(Seq<char>, JsonView)>, t: TypeView, resource_type: Seq<char>)
    requires
        forall|i: int| 0 <= i < members.len() ==> comes_back(name, (#[trigger] members[i]).1, t, resource_type),
    ensures
        ({
            let back = convert::entries_to_aws(
                convert::members_to_dsl(name, members, t, resource_type),
                t,
                resource_type,
                name,
            );
            &&& back.len() == members.len()
            &&& forall|i: int|
                0 <= i < members.len() ==> (#[trigger] back[i]).0 == members[i].0 && json::same_json(back[i].1, members[i].1)
        }),
    decreases members.len(),
{
    if members.len() > 0 {
        let before = members.drop_last();
        assert forall|i: int| 0 <= i < before.len() implies comes_back(name, (#[trigger] before[i]).1, t, resource_type) by {
            assert(before[i] == members[i]);
        }
        lemma_members_return(name, before, t, resource_type);
        assert(comes_back(name, members[members.len() - 1].1, t, resource_type));
        let vs = convert::members_to_dsl(name, members, t, resource_type);
        assert(vs.drop_last() =~= convert::members_to_dsl(name, before, t, resource_type));
        let back = convert::entries_to_aws(vs, t, resource_type, name);
        assert forall|i: int| 0 <= i < members.len() implies (#[trigger] back[i]).0 == members[i].0 && json::same_json(
            back[i].1,
            members[i].1,
        ) by {
            if i < before.len() {
                assert(before[i] == members[i]);
                assert(back[i] == convert::entries_to_aws(vs.drop_last(), t, resource_type, name)[i]);
            }
        }
    }
}

/// The value of a field in an object.
pub open spec fn field_value(members: Seq<(Seq<char>, JsonView)>, f: FieldView, resource_type: Seq<char>) -> Option<ValueView> {
    match keyed::lookup(members, convert::provider_key(f)) {
        Some(j) => convert::to_dsl(f.name, j, f.field_type, resource_type),
        None => None,
    }
}

/// The JSON of a field of a map.
pub open spec fn field_json(entries: Seq<(Seq<char>, ValueView)>, f: FieldView, resource_type: Seq<char>) -> Option<JsonView> {
    match keyed::lookup(entries, f.name) {
        Some(v) => convert::to_aws(v, f.field_type, resource_type, f.name),
        None => None,
    }
}

/// What an object is read as holds the value of each of its fields, and nothing else.
pub proof fn lemma_field_values(members: Seq<(Seq<char>, JsonView)>, fields: Seq<FieldView>, resource_type: Seq<char>)
    requires
        distinct_fields(fields),
    ensures
        ({
            let m = convert::fields_to_dsl(members, fields, resource_type);
            &&& forall|i: int|
                0 <= i < fields.len() ==> keyed::lookup(m, (#[trigger] fields[i]).name) == field_value(
                    members,
                    fields[i],
                    resource_type,
                )
            &&& forall|k: Seq<char>| #[trigger]
                keyed::lookup(m, k) is Some ==> exists|i: int| 0 <= i < fields.len() && (#[trigger] fields[i]).name == k
        }),
    decreases fields.len(),
{
    let m = convert::fields_to_dsl(members, fields, resource_type);
    if fields.len() > 0 {
        let before = fields.subrange(0, fields.len() - 1);
        let f = fields[fields.len() - 1];
        assert forall|i: int, j: int| 0 <= i < before.len() && 0 <= j < before.len() && i != j implies {
            &&& (#[trigger] before[i]).name != (#[trigger] before[j]).name
            &&& convert::provider_key(before[i]) != convert::provider_key(before[j])
        } by {
            assert(before[i] == fields[i] && before[j] == fields[j]);
        }
        lemma_field_values(members, before, resource_type);
        let rest = convert::fields_to_dsl(members, before, resource_type);
        assert forall|i: int| 0 <= i < fields.len() implies keyed::lookup(m, (#[trigger] fields[i]).name) == field_value(
            members,
            fields[i],
            resource_type,
        ) by {
            if let Some(v) = field_value(members, f, resource_type) {
                keyed::law_set_then_lookup(rest, f.name, v, fields[i].name);
            }
            if i < before.len() {
                assert(before[i] == fields[i]);
                assert(fields[i].name != f.name);
            } else if field_value(members, f, resource_type) is None && keyed::lookup(rest, f.name) is Some {
                let k = choose|k: int| 0 <= k < before.len() && (#[trigger] before[k]).name == f.name;
                assert(before[k] == fields[k]);
            }
        }
        assert forall|k: Seq<char>| #[trigger] keyed::lookup(m, k) is Some implies exists|i: int|
            0 <= i < fields.len() && (#[trigger] fields[i]).name == k by {
            if k == f.name {
                assert(fields[fields.len() - 1].name == k);
            } else {
                if let Some(v) = field_value(members, f, resource_type) {
                    keyed::law_set_then_lookup(rest, f.name, v, k);
                }
                assert(keyed::lookup(rest, k) is Some);
                let i = choose|i: int| 0 <= i < before.len() && (#[trigger] before[i]).name == k;
                assert(fields[i].name == k);
            }
        }
    }
}

/// What a map is written as holds the JSON of each of its fields, and nothing else.
pub proof fn lemma_field_json(entries: Seq<(Seq<char>, ValueView)>, fields: Seq<FieldView>, resource_type: Seq<char>)
    requires
        distinct_fields(fields),
    ensures
        ({
            let m = convert::fields_to_aws(entries, fields, resource_type);
            &&& forall|i: int|
                0 <= i < fields.len() ==> keyed::lookup(m, convert::provider_key(#[trigger] fields[i])) == field_json(
                    entries,
                    fields[i],
                    resource_type,
                )
            &&& forall|k: Seq<char>| #[trigger] keyed::lookup(m, k) is Some ==> known_key(fields, k)
            &&& keyed::distinct_keys(m)
        }),
    decreases fields.len(),
{
    let m = convert::fields_to_aws(entries, fields, resource_type);
    if fields.len() > 0 {
        let before = fields.subrange(0, fields.len() - 1);
        let f = fields[fields.len() - 1];
        assert forall|i: int, j: int| 0 <= i < before.len() && 0 <= j < before.len() && i != j implies {
            &&& (#[trigger] before[i]).name != (#[trigger] before[j]).name
            &&& convert::provider_key(before[i]) != convert::provider_key(before[j])
        } by {
            assert(before[i] == fields[i] && before[j] == fields[j]);
        }
        lemma_field_json(entries, before, resource_type);
        let rest = convert::fields_to_aws(entries, before, resource_type);
        if let Some(j) = field_json(entries, f, resource_type) {
            keyed::law_set_then_lookup(rest, convert::provider_key(f), j, convert::provider_key(f));
        }
        assert forall|i: int| 0 <= i < fields.len() implies keyed::lookup(m, convert::provider_key(#[trigger] fields[i]))
            == field_json(entries, fields[i], resource_type) by {
            if let Some(j) = field_json(entries, f, resource_type) {
                keyed::law_set_then_lookup(rest, convert::provider_key(f), j, convert::provider_key(fields[i]));
            }
            if i < before.len() {
                assert(before[i] == fields[i]);
                assert(convert::provider_key(fields[i]) != convert::provider_key(f));
            } else if field_json(entries, f, resource_type) is None && keyed::lookup(rest, convert::provider_key(f)) is Some {
                let k = choose|k: int| 0 <= k < before.len() && convert::provider_key(#[trigger] before[k]) == convert::provider_key(f);
                assert(before[k] == fields[k]);
            }
        }
        assert forall|k: Seq<char>| #[trigger] keyed::lookup(m, k) is Some implies known_key(fields, k) by {
            if k == convert::provider_key(f) {
                assert(convert::provider_key(fields[fields.len() - 1]) == k);
            } else {
                if let Some(j) = field_json(entries, f, resource_type) {
                    keyed::law_set_then_lookup(rest, convert::provider_key(f), j, k);
                }
                assert(keyed::lookup(rest, k) is Some);
                let i = choose|i: int| 0 <= i < before.len() && convert::provider_key(#[trigger] before[i]) == k;
                assert(convert::provider_key(fields[i]) == k);
            }
        }
    }
}

/// An object without members has no field, and neither has a map without entries.
proof fn lemma_no_fields(
    members: Seq<(Seq<char>, JsonView)>,
    entries: Seq<(Seq<char>, ValueView)>,
    fields: Seq<FieldView>,
    resource_type: Seq<char>,
)
    requires
        members.len() == 0,
        entries.len() == 0,
    ensures
        convert::fields_to_dsl(members, fields, resource_type) == Seq::<(Seq<char>, ValueView)>::empty(),
        convert::fields_to_aws(entries, fields, resource_type) == Seq::<(Seq<char>, JsonView)>::empty(),
    decreases fields.len(),
{
    if fields.len() > 0 {
        lemma_no_fields(members, entries, fields.subrange(0, fields.len() - 1), resource_type);
    }
}

proof fn lemma_struct_returns(members: Seq<(Seq<char>, JsonView)>, fields: Seq<FieldView>, resource_type: Seq<char>)
    requires
        members.len() > 0,
        keyed::distinct_keys(members),
        distinct_fields(fields),
        forall|i: int| 0 <= i < members.len() ==> known_key(fields, (#[trigger] members[i]).0),
        forall|i: int|
            0 <= i < fields.len() ==> {
                let m = keyed::lookup(members, convert::provider_key(#[trigger] fields[i]));
                m is Some ==> comes_back(fields[i].name, m->0, fields[i].field_type, resource_type)
            },
    ensures
        ({
            let m = convert::fields_to_dsl(members, fields, resource_type);
            let back = convert::fields_to_aws(m, fields, resource_type);
            &&& m.len() > 0
            &&& json::same_json(JsonView::Object(back), JsonView::Object(members))
        }),
{
    let m = convert::fields_to_dsl(members, fields, resource_type);
    let back = convert::fields_to_aws(m, fields, resource_type);
    lemma_field_values(members, fields, resource_type);
    lemma_field_json(m, fields, resource_type);
    assert forall|i: int| 0 <= i < back.len() implies {
        &&& keyed::lookup(members, (#[trigger] back[i]).0) is Some
        &&& json::same_json(back[i].1, keyed::lookup(members, back[i].0)->0)
    } by {
        let key = back[i].0;
        keyed::lemma_index_from(back, key, 0);
        assert(keyed::lookup(back, key) == Some(back[i].1));
        let n = choose|n: int| 0 <= n < fields.len() && convert::provider_key(#[trigger] fields[n]) == key;
        assert(field_json(m, fields[n], resource_type) == Some(back[i].1));
        assert(field_value(members, fields[n], resource_type) is Some);
    }
    assert forall|i: int| 0 <= i < members.len() implies keyed::lookup(back, (#[trigger] members[i]).0) is Some by {
        lemma_member_value(members, fields, i, resource_type);
        let key = members[i].0;
        let n = choose|n: int| 0 <= n < fields.len() && convert::provider_key(#[trigger] fields[n]) == key;
        assert(field_json(m, fields[n], resource_type) is Some);
    }
    lemma_member_value(members, fields, 0, resource_type);
    let n = choose|n: int| 0 <= n < fields.len() && convert::provider_key(#[trigger] fields[n]) == members[0].0;
    assert(keyed::lookup(m, fields[n].name) is Some);
    keyed::lemma_index_from(m, fields[n].name, 0);
}

proof fn lemma_member_value(members: Seq<(Seq<char>, JsonView)>, fields: Seq<FieldView>, i: int, resource_type: Seq<char>)
    requires
        0 <= i < members.len(),
        keyed::distinct_keys(members),
        known_key(fields, members[i].0),
        forall|i: int|
            0 <= i < fields.len() ==> {
                let m = keyed::lookup(members, convert::provider_key(#[trigger] fields[i]));
                m is Some ==> comes_back(fields[i].name, m->0, fields[i].field_type, resource_type)
            },
    ensures
        forall|n: int|
            0 <= n < fields.len() && convert::provider_key(#[trigger] fields[n]) == members[i].0 ==> field_value(
                members,
                fields[n],
                resource_type,
            ) is Some && keyed::lookup(members, members[i].0) == Some(members[i].1),
{
    keyed::lemma_index_from(members, members[i].0, 0);
}

/// An identifier is the value, or ends with it behind a dot.
pub open spec fn may_name(q: Seq<char>, value: Seq<char>) -> bool {
    q == value || text::finishes_with(q, "."@ + value)
}

/// A value of an enum that is spelled as the provider spells it, and that no
/// other value can be mistaken for, is read back from its identifier.
pub proof fn law_enum_returns(s: Seq<char>, name: Seq<char>, t: TypeView, resource_type: Seq<char>)
    requires
        schema::namespaced(t) is Some,
        schema::enum_values(t) is Some,
        schema::enum_values(t)->0.contains(s),
        ({
            let (_, _, form) = schema::namespaced(t)->0;
            schema::spelled(form, s) == s
        }),
        registry::alias_target(resource_type, name, s) is None,
        ({
            let parts = schema::namespaced(t)->0;
            let q = enums::qualified(parts.1, parts.0, s);
            forall|u: Seq<char>|
                schema::enum_values(t)->0.contains(u) && #[trigger] may_name(q, u) ==> u == s
        }),
    ensures
        enum_returns(s, name, t, resource_type),
{
    let values = schema::enum_values(t)->0;
    let parts = schema::namespaced(t)->0;
    let q = enums::qualified(parts.1, parts.0, s);
    assert(text::finishes_with(q, "."@ + s)) by {
        let tail = "."@ + s;
        assert(q.subrange(q.len() - tail.len(), q.len() as int) =~= tail);
    }
    let n = choose|n: int| 0 <= n < values.len() && values[n] == s;
    lemma_final_value(q, values, 0, n);
}

/// The only value that an identifier can name is the one that it names.
pub proof fn lemma_final_value(q: Seq<char>, values: Seq<Seq<char>>, i: int, n: int)
    requires
        0 <= i <= n < values.len(),
        may_name(q, values[n]),
        forall|u: Seq<char>| values.contains(u) && #[trigger] may_name(q, u) ==> u == values[n],
    ensures
        enums::final_value(q, values, i) == Some(values[n]),
    decreases n - i,
{
    assert(values.contains(values[i]));
    if !may_name(q, values[i]) {
        lemma_final_value(q, values, i + 1, n);
    }
}

/// A value of an enum whose hyphens are written as underscores is read back
/// from its identifier, where no other value can be mistaken for it.
pub proof fn law_hyphenated_enum_returns(s: Seq<char>, name: Seq<char>, t: TypeView, resource_type: Seq<char>)
    requires
        schema::namespaced(t) is Some,
        schema::enum_values(t) is Some,
        schema::enum_values(t)->0.contains(s),
        !s.contains('_'),
        !s.contains('.'),
        registry::alias_target(resource_type, name, s) is None,
        ({
            let (type_part, ns, form) = schema::namespaced(t)->0;
            let dsl = text::swapped(s, '-', '_');
            let q = enums::qualified(ns, type_part, dsl);
            &&& schema::spelled(form, s) == dsl
            &&& forall|u: Seq<char>| schema::enum_values(t)->0.contains(u) && #[trigger] may_name(q, u) ==> u == s
            &&& forall|u: Seq<char>|
                schema::enum_values(t)->0.contains(u) && #[trigger] enums::stands_for(dsl, u) ==> u == s
        }),
    ensures
        enum_returns(s, name, t, resource_type),
{
    let values = schema::enum_values(t)->0;
    let (type_part, ns, form) = schema::namespaced(t)->0;
    let dsl = text::swapped(s, '-', '_');
    let q = enums::qualified(ns, type_part, dsl);
    let n = choose|n: int| 0 <= n < values.len() && values[n] == s;
    if may_name(q, s) {
        lemma_final_value(q, values, 0, n);
    } else {
        assert forall|u: Seq<char>| values.contains(u) implies !#[trigger] may_name(q, u) by {}
        lemma_no_final_value(q, values, 0);
        assert(!dsl.contains('.')) by {
            if dsl.contains('.') {
                let i = choose|i: int| 0 <= i < dsl.len() && dsl[i] == '.';
                assert(s[i] == '.');
            }
        }
        enums::lemma_last_part(ns + "."@ + type_part, dsl);
        assert(text::swapped(dsl, '_', '-') =~= s) by {
            assert forall|i: int| 0 <= i < s.len() implies s[i] != '_' by {
                assert(s.contains(s[i]));
            }
        }
        assert(enums::stands_for(dsl, s));
        if values.contains(dsl) {
            assert(enums::stands_for(dsl, dsl));
        } else {
            lemma_first_match(dsl, values, 0, n);
        }
    }
}

/// A value of a custom enum is read back from its identifier, where the
/// provider's value for its spelling is the value itself. The namespace has
/// between one and three parts of which the first is in lower case, and the name
/// of the enum is capitalised.
pub proof fn law_custom_enum_returns(s: Seq<char>, name: Seq<char>, t: TypeView, resource_type: Seq<char>)
    requires
        schema::namespaced(t) is Some,
        schema::enum_values(t) is None,
        registry::valid_values(resource_type, name) matches Some(values) ==> enums::canonical(s, values) == s,
        ({
            let (type_part, ns, form) = schema::namespaced(t)->0;
            let dsl = schema::spelled(form, s);
            &&& !dsl.contains('.')
            &&& !type_part.contains('.')
            &&& enums::capitalised(type_part)
            &&& 1 <= enums::parts(ns).len() <= 3
            &&& enums::all_lower(enums::parts(ns)[0])
            &&& convert::enum_to_aws(text::swapped(dsl, '_', '-'), resource_type, name) == JsonView::String(s)
        }),
    ensures
        enum_returns(s, name, t, resource_type),
{
    let (type_part, ns, form) = schema::namespaced(t)->0;
    let dsl = schema::spelled(form, s);
    let q = enums::qualified(ns, type_part, dsl);
    enums::lemma_last_part(ns, type_part);
    enums::lemma_last_part(ns + "."@ + type_part, dsl);
    let p = enums::parts(q);
    assert(p == enums::parts(ns).push(type_part).push(dsl));
    assert(p[0] == enums::parts(ns)[0]);
    assert(p[p.len() - 2] == type_part);
    assert(enums::long_identifier(p) == Some(dsl));
}

/// An identifier that can name no value names none.
pub proof fn lemma_no_final_value(q: Seq<char>, values: Seq<Seq<char>>, i: int)
    requires
        0 <= i <= values.len(),
        forall|u: Seq<char>| values.contains(u) ==> !#[trigger] may_name(q, u),
    ensures
        enums::final_value(q, values, i) is None,
    decreases values.len() - i,
{
    if i < values.len() {
        assert(values.contains(values[i]));
        assert(!may_name(q, values[i]));
        lemma_no_final_value(q, values, i + 1);
    }
}

/// The only value that a written one can stand for is the one that it matches.
pub proof fn lemma_first_match(written: Seq<char>, values: Seq<Seq<char>>, i: int, n: int)
    requires
        0 <= i <= n < values.len(),
        enums::stands_for(written, values[n]),
        forall|u: Seq<char>| values.contains(u) && #[trigger] enums::stands_for(written, u) ==> u == values[n],
    ensures
        enums::first_match(written, values, i) == Some(values[n]),
    decreases n - i,
{
    assert(values.contains(values[i]));
    if !enums::stands_for(written, values[i]) {
        lemma_first_match(written, values, i + 1, n);
    }
}

} // verus!
