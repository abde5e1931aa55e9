//! Conversion between values of the configuration language and the JSON of
//! the Cloud Control API.
use vstd::prelude::*;
use vstd::string::*;

use crate::enums;
use crate::json;
use crate::json::{Json, JsonNumber, JsonView};
use crate::keyed;
use crate::schema;
use crate::schema::{AttributeType, FieldView, StructField, TypeView};
use crate::schemas::registry;
use crate::text;
use crate::value;
use crate::value::{DslValue, Float, ValueView};

verus! {

/// A JSON document as a value, without regard to a type. What has no value,
/// such as null, is left out of lists and maps.
pub open spec fn plain_value(j: JsonView) -> Option<ValueView>
    decreases j,
{
    match j {
        JsonView::Null => None,
        JsonView::Bool(b) => Some(ValueView::Bool(b)),
        JsonView::Number(n) => Some(
            match json::number_as_i64(n) {
                Some(i) => ValueView::Int(i),
                None => match n {
                    JsonNumber::Float(f) => ValueView::Float(f),
                    JsonNumber::PosInt(u) => ValueView::Float(value::nearest_float(u)),
                    JsonNumber::NegInt(i) => ValueView::Int(i),
                },
            },
        ),
        JsonView::String(s) => Some(ValueView::String(s)),
        JsonView::Array(items) => Some(ValueView::List(plain_items(items))),
        JsonView::Object(members) => Some(ValueView::Mapping(plain_members(members))),
    }
}

/// The items that have a value.
pub open spec fn plain_items(items: Seq<JsonView>) -> Seq<ValueView>
    decreases items,
{
    if items.len() == 0 {
        Seq::empty()
    } else {
        let before = plain_items(items.subrange(0, items.len() - 1));
        match plain_value(items[items.len() - 1]) {
            Some(v) => before.push(v),
            None => before,
        }
    }
}

/// The members that have a value.
pub open spec fn plain_members(members: Seq<(Seq<char>, JsonView)>) -> Seq<(Seq<char>, ValueView)>
    decreases members,
{
    if members.len() == 0 {
        Seq::empty()
    } else {
        let last = members[members.len() - 1];
        let before = plain_members(members.subrange(0, members.len() - 1));
        match plain_value(last.1) {
            Some(v) => before.push((last.0, v)),
            None => before,
        }
    }
}

/// A JSON document as a value, without regard to a type.
pub fn json_to_value(j: &Json) -> (r: Option<DslValue>)
    ensures
        value::opt_value(r) == plain_value(j@),
    decreases j,
{
    match j {
        Json::Null => None,
        Json::Bool(b) => Some(DslValue::Bool(*b)),
        Json::Number(n) => Some(
            match n.as_i64() {
                Some(i) => DslValue::Int(i),
                None => match n {
                    JsonNumber::Float(f) => DslValue::Float(*f),
                    JsonNumber::PosInt(u) => DslValue::Float(Float::nearest(*u)),
                    JsonNumber::NegInt(i) => DslValue::Int(*i),
                },
            },
        ),
        Json::String(s) => Some(DslValue::String(s.clone())),
        Json::Array(items) => Some(DslValue::List(plain_list(items))),
        Json::Object(members) => Some(DslValue::Mapping(plain_map(members))),
    }
}

fn plain_list(items: &Vec<Json>) -> (r: Vec<DslValue>)
    ensures
        value::values_view(r@) == plain_items(json::array_view(items@)),
    decreases items@,
{
    let mut out: Vec<DslValue> = Vec::new();
    let mut i: usize = 0;
    while i < items.len()
        invariant
            i <= items.len(),
            value::values_view(out@) == plain_items(json::array_view(items@.take(i as int))),
        decreases items.len() - i,
    {
        proof {
            json::lemma_next_item(items@, i as int);
            let all = json::array_view(items@.take(i + 1));
            assert(all.subrange(0, all.len() - 1) =~= json::array_view(items@.take(i as int)));
        }
        if let Some(v) = json_to_value(&items[i]) {
            proof {
                value::lemma_push_value(out@, v);
            }
            out.push(v);
        }
        i = i + 1;
    }
    assert(items@.take(i as int) =~= items@);
    out
}

/// The members that have a value.
pub fn plain_map(members: &Vec<(String, Json)>) -> (r: Vec<(String, DslValue)>)
    ensures
        value::entries_view(r@) == plain_members(json::object_view(members@)),
    decreases members@,
{
    let mut out: Vec<(String, DslValue)> = Vec::new();
    let mut i: usize = 0;
    while i < members.len()
        invariant
            i <= members.len(),
            value::entries_view(out@) == plain_members(json::object_view(members@.take(i as int))),
        decreases members.len() - i,
    {
        proof {
            json::lemma_next_member(members@, i as int);
            let all = json::object_view(members@.take(i + 1));
            assert(all.subrange(0, all.len() - 1) =~= json::object_view(members@.take(i as int)));
        }
        if let Some(v) = json_to_value(&members[i].1) {
            let e = (members[i].0.clone(), v);
            proof {
                value::lemma_push_entry(out@, e);
            }
            out.push(e);
        }
        i = i + 1;
    }
    assert(members@.take(i as int) =~= members@);
    out
}

/// A value as JSON, without regard to a type. Numbers that are not finite and
/// values that are not resolved have no JSON and are left out of lists and maps.
pub open spec fn plain_json(v: ValueView) -> Option<JsonView>
    decreases v,
{
    match v {
        ValueView::String(s) => Some(JsonView::String(s)),
        ValueView::Bool(b) => Some(JsonView::Bool(b)),
        ValueView::Int(i) => Some(JsonView::Number(json::number_of_i64(i))),
        ValueView::Float(f) => if value::float_finite(f) {
            Some(JsonView::Number(JsonNumber::Float(f)))
        } else {
            None
        },
        ValueView::List(items) => Some(JsonView::Array(plain_array(items))),
        ValueView::Mapping(entries) => Some(JsonView::Object(plain_object(entries))),
        ValueView::UnresolvedIdent(_, _) => None,
        ValueView::ResourceRef(_, _) => None,
    }
}

/// The items that have JSON.
pub open spec fn plain_array(items: Seq<ValueView>) -> Seq<JsonView>
    decreases items,
{
    if items.len() == 0 {
        Seq::empty()
    } else {
        let before = plain_array(items.subrange(0, items.len() - 1));
        match plain_json(items[items.len() - 1]) {
            Some(j) => before.push(j),
            None => before,
        }
    }
}

/// The entries that have JSON.
pub open spec fn plain_object(entries: Seq<(Seq<char>, ValueView)>) -> Seq<(Seq<char>, JsonView)>
    decreases entries,
{
    if entries.len() == 0 {
        Seq::empty()
    } else {
        let last = entries[entries.len() - 1];
        let before = plain_object(entries.subrange(0, entries.len() - 1));
        match plain_json(last.1) {
            Some(j) => before.push((last.0, j)),
            None => before,
        }
    }
}

/// A value as JSON, without regard to a type.
pub fn value_to_json(v: &DslValue) -> (r: Option<Json>)
    ensures
        json::opt_json(r) == plain_json(v@),
    decreases v,
{
    match v {
        DslValue::String(s) => Some(Json::String(s.clone())),
        DslValue::Bool(b) => Some(Json::Bool(*b)),
        DslValue::Int(i) => Some(Json::Number(JsonNumber::of_i64(*i))),
        DslValue::Float(f) => if f.is_finite() {
            Some(Json::Number(JsonNumber::Float(*f)))
        } else {
            None
        },
        DslValue::List(items) => Some(Json::Array(json_list(items))),
        DslValue::Mapping(entries) => Some(Json::Object(json_map(entries))),
        DslValue::UnresolvedIdent(_, _) => None,
        DslValue::ResourceRef(_, _) => None,
    }
}

fn json_list(items: &Vec<DslValue>) -> (r: Vec<Json>)
    ensures
        json::array_view(r@) == plain_array(value::values_view(items@)),
    decreases items@,
{
    let mut out: Vec<Json> = Vec::new();
    let mut i: usize = 0;
    while i < items.len()
        invariant
            i <= items.len(),
            json::array_view(out@) == plain_array(value::values_view(items@.take(i as int))),
        decreases items.len() - i,
    {
        proof {
            value::lemma_next_value(items@, i as int);
            let all = value::values_view(items@.take(i + 1));
            assert(all.subrange(0, all.len() - 1) =~= value::values_view(items@.take(i as int)));
        }
        if let Some(j) = value_to_json(&items[i]) {
            proof {
                json::lemma_push_item(out@, j);
            }
            out.push(j);
        }
        i = i + 1;
    }
    assert(items@.take(i as int) =~= items@);
    out
}

/// The entries that have JSON.
pub fn json_map(entries: &Vec<(String, DslValue)>) -> (r: Vec<(String, Json)>)
    ensures
        json::object_view(r@) == plain_object(value::entries_view(entries@)),
    decreases entries@,
{
    let mut out: Vec<(String, Json)> = Vec::new();
    let mut i: usize = 0;
    while i < entries.len()
        invariant
            i <= entries.len(),
            json::object_view(out@) == plain_object(value::entries_view(entries@.take(i as int))),
        decreases entries.len() - i,
    {
        proof {
            value::lemma_next_entry(entries@, i as int);
            let all = value::entries_view(entries@.take(i + 1));
            assert(all.subrange(0, all.len() - 1) =~= value::entries_view(entries@.take(i as int)));
        }
        if let Some(j) = value_to_json(&entries[i].1) {
            let e = (entries[i].0.clone(), j);
            proof {
                json::lemma_push_member(out@, e);
            }
            out.push(e);
        }
        i = i + 1;
    }
    assert(entries@.take(i as int) =~= entries@);
    out
}

/// The key of a field in JSON: the provider's name, or else the field's own.
pub open spec fn provider_key(f: FieldView) -> Seq<char> {
    match f.provider_name {
        Some(n) => n,
        None => f.name,
    }
}

/// The value of the configuration language for a provider's enum value.
pub open spec fn enum_to_dsl(
    s: Seq<char>,
    name: Seq<char>,
    t: TypeView,
    resource_type: Seq<char>,
) -> Seq<char> {
    let parts = schema::namespaced(t)->0;
    let canonical = match schema::enum_values(t) {
        Some(values) => enums::canonical(s, values),
        None => match registry::valid_values(resource_type, name) {
            Some(values) => enums::canonical(s, values),
            None => s,
        },
    };
    enums::qualified(parts.1, parts.0, schema::spelled(parts.2, canonical))
}

/// A JSON document as a value of a type.
pub open spec fn to_dsl(name: Seq<char>, j: JsonView, t: TypeView, resource_type: Seq<char>) -> Option<ValueView>
    decreases t, 0nat,
{
    if schema::namespaced(t) is Some && j is String {
        Some(ValueView::String(enum_to_dsl(j->String_0, name, t, resource_type)))
    } else {
        match t {
            TypeView::List { inner, ordered } => match j {
                JsonView::Array(items) => Some(ValueView::List(items_to_dsl(name, items, *inner, resource_type))),
                _ => plain_value(j),
            },
            TypeView::Union(members) => match member_to_dsl(name, j, members, 0, resource_type) {
                Some(v) => Some(v),
                None => plain_value(j),
            },
            TypeView::Struct { name: _, fields } => match j {
                JsonView::Object(members) => {
                    let m = fields_to_dsl(members, fields, resource_type);
                    if m.len() > 0 {
                        Some(ValueView::Mapping(m))
                    } else {
                        plain_value(j)
                    }
                },
                _ => plain_value(j),
            },
            TypeView::Mapping(inner) => match j {
                JsonView::Object(members) => Some(
                    ValueView::Mapping(members_to_dsl(name, members, *inner, resource_type)),
                ),
                _ => plain_value(j),
            },
            _ => plain_value(j),
        }
    }
}

/// The items that have a value of the type.
pub open spec fn items_to_dsl(name: Seq<char>, items: Seq<JsonView>, t: TypeView, resource_type: Seq<char>) -> Seq<ValueView>
    decreases t, items.len() + 1,
{
    if items.len() == 0 {
        Seq::empty()
    } else {
        let before = items_to_dsl(name, items.drop_last(), t, resource_type);
        match to_dsl(name, items.last(), t, resource_type) {
            Some(v) => before.push(v),
            None => before,
        }
    }
}

/// The members that have a value of the type, under the keys that they have.
pub open spec fn members_to_dsl(
    name: Seq<char>,
    members: Seq<(Seq<char>, JsonView)>,
    t: TypeView,
    resource_type: Seq<char>,
) -> Seq<(Seq<char>, ValueView)>
    decreases t, members.len() + 1,
{
    if members.len() == 0 {
        Seq::empty()
    } else {
        let before = members_to_dsl(name, members.drop_last(), t, resource_type);
        match to_dsl(name, members.last().1, t, resource_type) {
            Some(v) => before.push((members.last().0, v)),
            None => before,
        }
    }
}

/// The value of the first type from `i` on that gives one.
pub open spec fn member_to_dsl(name: Seq<char>, j: JsonView, types: Seq<TypeView>, i: int, resource_type: Seq<char>) -> Option<ValueView>
    decreases types, types.len() - i,
{
    if i < 0 || i >= types.len() {
        None
    } else {
        match to_dsl(name, j, types[i], resource_type) {
            Some(v) => Some(v),
            None => member_to_dsl(name, j, types, i + 1, resource_type),
        }
    }
}

/// The fields of a struct that an object has, under the names of the fields.
pub open spec fn fields_to_dsl(
    members: Seq<(Seq<char>, JsonView)>,
    fields: Seq<FieldView>,
    resource_type: Seq<char>,
) -> Seq<(Seq<char>, ValueView)>
    decreases fields, 0nat,
{
    if fields.len() == 0 {
        Seq::empty()
    } else {
        let f = fields[fields.len() - 1];
        let before = fields_to_dsl(members, fields.subrange(0, fields.len() - 1), resource_type);
        match keyed::lookup(members, provider_key(f)) {
            Some(j) => match to_dsl(f.name, j, f.field_type, resource_type) {
                Some(v) => keyed::set(before, f.name, v),
                None => before,
            },
            None => before,
        }
    }
}

/// The key of a field in JSON.
pub fn key_of_field(f: &StructField) -> (r: &str)
    ensures
        r@ == provider_key(f@),
{
    match &f.provider_name {
        Some(n) => n.as_str(),
        None => f.name.as_str(),
    }
}

/// A JSON document of the provider as a value of the type of an attribute.
pub fn aws_value_to_dsl(dsl_name: &str, j: &Json, attr_type: &AttributeType, resource_type: &str) -> (r: Option<DslValue>)
    ensures
        value::opt_value(r) == to_dsl(dsl_name@, j@, attr_type@, resource_type@),
    decreases attr_type, 0nat,
{
    if let Some((enum_name, ns, form)) = attr_type.namespaced_enum_parts() {
        if let Some(s) = j.as_str() {
            let canonical = match attr_type.string_enum_values() {
                Some(values) => enums::canonicalize_enum_value(s, values),
                None => match registry::get_enum_valid_values(resource_type, dsl_name) {
                    Some(values) => enums::canonicalize_enum_value(s, &values),
                    None => s.to_owned(),
                },
            };
            let dsl = schema::spell(form, canonical.as_str());
            return Some(DslValue::String(enums::qualify(ns, enum_name, dsl.as_str())));
        }
    }
    match attr_type {
        AttributeType::List { inner, ordered: _ } => match j {
            Json::Array(items) => Some(DslValue::List(list_to_dsl(dsl_name, items, inner, resource_type))),
            _ => json_to_value(j),
        },
        AttributeType::Union(members) => {
            let mut i: usize = 0;
            proof {
                schema::lemma_types(members@);
            }
            let ghost types = schema::types_view(members@);
            while i < members.len()
                invariant
                    i <= members.len(),
                    *attr_type == AttributeType::Union(*members),
                    types == schema::types_view(members@),
                    types.len() == members.len(),
                    forall|k: int| 0 <= k < types.len() ==> #[trigger] types[k] == schema::type_view(members@[k]),
                    member_to_dsl(dsl_name@, j@, types, 0, resource_type@) == member_to_dsl(
                        dsl_name@,
                        j@,
                        types,
                        i as int,
                        resource_type@,
                    ),
                    attr_type@ == TypeView::Union(types),
                    !(schema::namespaced(attr_type@) is Some && j@ is String),
                decreases members.len() - i,
            {
                assert(types[i as int] == members@[i as int]@);
                if let Some(v) = aws_value_to_dsl(dsl_name, j, &members[i], resource_type) {
                    return Some(v);
                }
                i = i + 1;
            }
            json_to_value(j)
        },
        AttributeType::Struct { name: _, fields } => match j {
            Json::Object(members) => {
                let m = struct_to_dsl(members, fields, resource_type);
                proof {
                    value::lemma_entries(m@);
                }
                if m.len() > 0 {
                    Some(DslValue::Mapping(m))
                } else {
                    json_to_value(j)
                }
            },
            _ => json_to_value(j),
        },
        AttributeType::Mapping(inner) => match j {
            Json::Object(members) => Some(
                DslValue::Mapping(map_to_dsl(dsl_name, members, inner, resource_type)),
            ),
            _ => json_to_value(j),
        },
        _ => json_to_value(j),
    }
}

fn list_to_dsl(dsl_name: &str, items: &Vec<Json>, inner: &AttributeType, resource_type: &str) -> (r: Vec<DslValue>)
    ensures
        value::values_view(r@) == items_to_dsl(dsl_name@, json::array_view(items@), inner@, resource_type@),
    decreases inner, 1nat,
{
    let mut out: Vec<DslValue> = Vec::new();
    let mut i: usize = 0;
    let ghost all = json::array_view(items@);
    proof {
        json::lemma_array(items@);
    }
    assert(all.take(0).len() == 0);
    while i < items.len()
        invariant
            i <= items.len(),
            all.len() == items.len(),
            forall|k: int| 0 <= k < all.len() ==> #[trigger] all[k] == json::json_view(items@[k]),
            value::values_view(out@) == items_to_dsl(dsl_name@, all.take(i as int), inner@, resource_type@),
        decreases items.len() - i,
    {
        proof {
            assert(all.take(i + 1).drop_last() =~= all.take(i as int));
            assert(all.take(i + 1).last() == items@[i as int]@);
        }
        if let Some(v) = aws_value_to_dsl(dsl_name, &items[i], inner, resource_type) {
            proof {
                value::lemma_push_value(out@, v);
            }
            out.push(v);
        }
        i = i + 1;
    }
    assert(all.take(i as int) =~= all);
    out
}

fn map_to_dsl(dsl_name: &str, members: &Vec<(String, Json)>, inner: &AttributeType, resource_type: &str) -> (r: Vec<
    (String, DslValue),
>)
    ensures
        value::entries_view(r@) == members_to_dsl(
            dsl_name@,
            json::object_view(members@),
            inner@,
            resource_type@,
        ),
    decreases inner, 1nat,
{
    let mut out: Vec<(String, DslValue)> = Vec::new();
    let mut i: usize = 0;
    let ghost all = json::object_view(members@);
    proof {
        json::lemma_object(members@);
    }
    assert(all.take(0).len() == 0);
    while i < members.len()
        invariant
            i <= members.len(),
            all.len() == members.len(),
            forall|k: int| 0 <= k < all.len() ==> #[trigger] all[k] == (members@[k].0@, json::json_view(members@[k].1)),
            value::entries_view(out@) == members_to_dsl(dsl_name@, all.take(i as int), inner@, resource_type@),
        decreases members.len() - i,
    {
        proof {
            assert(all.take(i + 1).drop_last() =~= all.take(i as int));
            assert(all.take(i + 1).last() == all[i as int]);
        }
        if let Some(v) = aws_value_to_dsl(dsl_name, &members[i].1, inner, resource_type) {
            let e = (members[i].0.clone(), v);
            proof {
                value::lemma_push_entry(out@, e);
            }
            out.push(e);
        }
        i = i + 1;
    }
    assert(all.take(i as int) =~= all);
    out
}

/// The fields of a struct that an object has.
pub fn struct_to_dsl(members: &Vec<(String, Json)>, fields: &Vec<StructField>, resource_type: &str) -> (r: Vec<
    (String, DslValue),
>)
    ensures
        value::entries_view(r@) == fields_to_dsl(
            json::object_view(members@),
            schema::fields_view(fields@),
            resource_type@,
        ),
    decreases fields@, 0nat,
{
    let mut out: Vec<(String, DslValue)> = Vec::new();
    let mut i: usize = 0;
    let ghost all = schema::fields_view(fields@);
    let ghost object = json::object_view(members@);
    proof {
        schema::lemma_fields(fields@);
    }
    assert(all.subrange(0, 0).len() == 0);
    while i < fields.len()
        invariant
            i <= fields.len(),
            all.len() == fields.len(),
            object == json::object_view(members@),
            forall|k: int| 0 <= k < all.len() ==> #[trigger] all[k] == schema::field_view(fields@[k]),
            value::entries_view(out@) == fields_to_dsl(object, all.subrange(0, i as int), resource_type@),
        decreases fields.len() - i,
    {
        let ghost upto = all.subrange(0, i + 1);
        proof {
            assert(upto.subrange(0, upto.len() - 1) =~= all.subrange(0, i as int));
            assert(upto[upto.len() - 1] == fields@[i as int]@);
        }
        let f = &fields[i];
        if let Some(j) = json::member(members, key_of_field(f)) {
            if let Some(v) = aws_value_to_dsl(f.name.as_str(), j, &f.field_type, resource_type) {
                value::put(&mut out, f.name.clone(), v);
            }
        }
        i = i + 1;
    }
    assert(all.subrange(0, i as int) =~= all);
    out
}

/// The provider's value for an enum value as written.
pub open spec fn enum_to_aws(raw: Seq<char>, resource_type: Seq<char>, attr_name: Seq<char>) -> JsonView {
    JsonView::String(
        match registry::alias_target(resource_type, attr_name, raw) {
            Some(target) => target,
            None => raw,
        },
    )
}

/// The enum value that an identifier of the configuration language names.
pub open spec fn named_enum_value(s: Seq<char>, t: TypeView) -> Seq<char> {
    match schema::enum_values(t) {
        Some(values) => enums::canonical(enums::named_value(s, values), values),
        None => enums::provider_spelling(s, enums::long_identifier(enums::parts(s))),
    }
}

/// The enum value that a bare identifier stands for.
pub open spec fn bare_enum_value(raw: Seq<char>, t: TypeView) -> Seq<char> {
    match schema::enum_values(t) {
        Some(values) => enums::canonical(raw, values),
        None => text::swapped(raw, '_', '-'),
    }
}

/// The entries that a struct is written from: those of a map, or those of the
/// only item of a list.
pub open spec fn struct_entries(v: ValueView) -> Option<Seq<(Seq<char>, ValueView)>> {
    match v {
        ValueView::Mapping(entries) => Some(entries),
        ValueView::List(items) => if items.len() == 1 && items[0] is Mapping {
            Some(items[0]->Mapping_0)
        } else {
            None
        },
        _ => None,
    }
}

/// A value of a type as JSON.
pub open spec fn to_aws(v: ValueView, t: TypeView, resource_type: Seq<char>, attr_name: Seq<char>) -> Option<JsonView>
    decreases t, 0nat,
{
    if schema::namespaced(t) is Some {
        match v {
            ValueView::String(s) => Some(enum_to_aws(named_enum_value(s, t), resource_type, attr_name)),
            ValueView::UnresolvedIdent(ident, member) => {
                let raw = match member {
                    Some(m) => m,
                    None => ident,
                };
                Some(enum_to_aws(bare_enum_value(raw, t), resource_type, attr_name))
            },
            _ => plain_json(v),
        }
    } else {
        match t {
            TypeView::List { inner, ordered } => match v {
                ValueView::List(items) => Some(JsonView::Array(items_to_aws(items, *inner, resource_type, attr_name))),
                _ => plain_json(v),
            },
            TypeView::Union(members) => match member_to_aws(v, members, 0, resource_type, attr_name) {
                Some(j) => Some(j),
                None => plain_json(v),
            },
            TypeView::Struct { name: _, fields } => match struct_entries(v) {
                Some(entries) => Some(JsonView::Object(fields_to_aws(entries, fields, resource_type))),
                None => plain_json(v),
            },
            TypeView::Mapping(inner) => match v {
                ValueView::Mapping(entries) => Some(
                    JsonView::Object(entries_to_aws(entries, *inner, resource_type, attr_name)),
                ),
                _ => plain_json(v),
            },
            _ => plain_json(v),
        }
    }
}

/// The items that have JSON as values of the type.
pub open spec fn items_to_aws(items: Seq<ValueView>, t: TypeView, resource_type: Seq<char>, attr_name: Seq<char>) -> Seq<JsonView>
    decreases t, items.len() + 1,
{
    if items.len() == 0 {
        Seq::empty()
    } else {
        let before = items_to_aws(items.drop_last(), t, resource_type, attr_name);
        match to_aws(items.last(), t, resource_type, attr_name) {
            Some(j) => before.push(j),
            None => before,
        }
    }
}

/// The entries that have JSON as values of the type, under the keys that they have.
pub open spec fn entries_to_aws(
    entries: Seq<(Seq<char>, ValueView)>,
    t: TypeView,
    resource_type: Seq<char>,
    attr_name: Seq<char>,
) -> Seq<(Seq<char>, JsonView)>
    decreases t, entries.len() + 1,
{
    if entries.len() == 0 {
        Seq::empty()
    } else {
        let before = entries_to_aws(entries.drop_last(), t, resource_type, attr_name);
        match to_aws(entries.last().1, t, resource_type, attr_name) {
            Some(j) => before.push((entries.last().0, j)),
            None => before,
        }
    }
}

/// The JSON of the first type from `i` on that gives any.
pub open spec fn member_to_aws(v: ValueView, types: Seq<TypeView>, i: int, resource_type: Seq<char>, attr_name: Seq<char>) -> Option<JsonView>
    decreases types, types.len() - i,
{
    if i < 0 || i >= types.len() {
        None
    } else {
        match to_aws(v, types[i], resource_type, attr_name) {
            Some(j) => Some(j),
            None => member_to_aws(v, types, i + 1, resource_type, attr_name),
        }
    }
}

/// The fields of a struct that a map has, under the keys of the provider.
pub open spec fn fields_to_aws(
    entries: Seq<(Seq<char>, ValueView)>,
    fields: Seq<FieldView>,
    resource_type: Seq<char>,
) -> Seq<(Seq<char>, JsonView)>
    decreases fields, 0nat,
{
    if fields.len() == 0 {
        Seq::empty()
    } else {
        let f = fields[fields.len() - 1];
        let before = fields_to_aws(entries, fields.subrange(0, fields.len() - 1), resource_type);
        match keyed::lookup(entries, f.name) {
            Some(v) => match to_aws(v, f.field_type, resource_type, f.name) {
                Some(j) => keyed::set(before, provider_key(f), j),
                None => before,
            },
            None => before,
        }
    }
}

fn resolve_alias(raw: String, resource_type: &str, attr_name: &str) -> (r: Json)
    ensures
        r@ == enum_to_aws(raw@, resource_type@, attr_name@),
{
    match registry::get_enum_alias_reverse(resource_type, attr_name, raw.as_str()) {
        Some(target) => Json::text(target),
        None => Json::String(raw),
    }
}

/// A value of the type of an attribute as JSON for the provider.
pub fn dsl_value_to_aws(v: &DslValue, attr_type: &AttributeType, resource_type: &str, attr_name: &str) -> (r: Option<Json>)
    ensures
        json::opt_json(r) == to_aws(v@, attr_type@, resource_type@, attr_name@),
    decreases attr_type, 0nat,
{
    if attr_type.namespaced_enum_parts().is_some() {
        return match v {
            DslValue::String(s) => {
                let raw = match attr_type.string_enum_values() {
                    Some(values) => {
                        let named = enums::extract_enum_value_with_values(s.as_str(), values);
                        enums::canonicalize_enum_value(named.as_str(), values)
                    },
                    None => enums::convert_namespaced_value(s.as_str()),
                };
                Some(resolve_alias(raw, resource_type, attr_name))
            },
            DslValue::UnresolvedIdent(ident, member) => {
                let raw = match member {
                    Some(m) => m.as_str(),
                    None => ident.as_str(),
                };
                let converted = match attr_type.string_enum_values() {
                    Some(values) => enums::canonicalize_enum_value(raw, values),
                    None => text::swap_char(raw, '_', '-'),
                };
                Some(resolve_alias(converted, resource_type, attr_name))
            },
            _ => value_to_json(v),
        };
    }
    match attr_type {
        AttributeType::List { inner, ordered: _ } => match v {
            DslValue::List(items) => Some(Json::Array(list_to_aws(items, inner, resource_type, attr_name))),
            _ => value_to_json(v),
        },
        AttributeType::Union(members) => {
            let mut i: usize = 0;
            proof {
                schema::lemma_types(members@);
            }
            let ghost types = schema::types_view(members@);
            while i < members.len()
                invariant
                    i <= members.len(),
                    *attr_type == AttributeType::Union(*members),
                    types == schema::types_view(members@),
                    types.len() == members.len(),
                    forall|k: int| 0 <= k < types.len() ==> #[trigger] types[k] == schema::type_view(members@[k]),
                    member_to_aws(v@, types, 0, resource_type@, attr_name@) == member_to_aws(
                        v@,
                        types,
                        i as int,
                        resource_type@,
                        attr_name@,
                    ),
                    attr_type@ == TypeView::Union(types),
                    schema::namespaced(attr_type@) is None,
                decreases members.len() - i,
            {
                assert(types[i as int] == members@[i as int]@);
                if let Some(j) = dsl_value_to_aws(v, &members[i], resource_type, attr_name) {
                    return Some(j);
                }
                i = i + 1;
            }
            value_to_json(v)
        },
        AttributeType::Struct { name: _, fields } => {
            let entries = match v {
                DslValue::Mapping(entries) => Some(entries),
                DslValue::List(items) => {
                    proof {
                        value::lemma_values(items@);
                    }
                    if items.len() == 1 {
                        match &items[0] {
                            DslValue::Mapping(entries) => Some(entries),
                            _ => None,
                        }
                    } else {
                        None
                    }
                },
                _ => None,
            };
            match entries {
                Some(entries) => Some(Json::Object(struct_to_aws(entries, fields, resource_type))),
                None => value_to_json(v),
            }
        },
        AttributeType::Mapping(inner) => match v {
            DslValue::Mapping(entries) => Some(Json::Object(map_to_aws(entries, inner, resource_type, attr_name))),
            _ => value_to_json(v),
        },
        _ => value_to_json(v),
    }
}

fn list_to_aws(items: &Vec<DslValue>, inner: &AttributeType, resource_type: &str, attr_name: &str) -> (r: Vec<Json>)
    ensures
        json::array_view(r@) == items_to_aws(value::values_view(items@), inner@, resource_type@, attr_name@),
    decreases inner, 1nat,
{
    let mut out: Vec<Json> = Vec::new();
    let mut i: usize = 0;
    let ghost all = value::values_view(items@);
    proof {
        value::lemma_values(items@);
    }
    assert(all.take(0).len() == 0);
    while i < items.len()
        invariant
            i <= items.len(),
            all.len() == items.len(),
            forall|k: int| 0 <= k < all.len() ==> #[trigger] all[k] == value::value_view(items@[k]),
            json::array_view(out@) == items_to_aws(all.take(i as int), inner@, resource_type@, attr_name@),
        decreases items.len() - i,
    {
        proof {
            assert(all.take(i + 1).drop_last() =~= all.take(i as int));
            assert(all.take(i + 1).last() == items@[i as int]@);
        }
        if let Some(j) = dsl_value_to_aws(&items[i], inner, resource_type, attr_name) {
            proof {
                json::lemma_push_item(out@, j);
            }
            out.push(j);
        }
        i = i + 1;
    }
    assert(all.take(i as int) =~= all);
    out
}

fn map_to_aws(entries: &Vec<(String, DslValue)>, inner: &AttributeType, resource_type: &str, attr_name: &str) -> (r: Vec<
    (String, Json),
>)
    ensures
        json::object_view(r@) == entries_to_aws(
            value::entries_view(entries@),
            inner@,
            resource_type@,
            attr_name@,
        ),
    decreases inner, 1nat,
{
    let mut out: Vec<(String, Json)> = Vec::new();
    let mut i: usize = 0;
    let ghost all = value::entries_view(entries@);
    proof {
        value::lemma_entries(entries@);
    }
    assert(all.take(0).len() == 0);
    while i < entries.len()
        invariant
            i <= entries.len(),
            all.len() == entries.len(),
            forall|k: int| 0 <= k < all.len() ==> #[trigger] all[k] == (entries@[k].0@, value::value_view(entries@[k].1)),
            json::object_view(out@) == entries_to_aws(all.take(i as int), inner@, resource_type@, attr_name@),
        decreases entries.len() - i,
    {
        proof {
            assert(all.take(i + 1).drop_last() =~= all.take(i as int));
            assert(all.take(i + 1).last() == all[i as int]);
        }
        if let Some(j) = dsl_value_to_aws(&entries[i].1, inner, resource_type, attr_name) {
            let e = (entries[i].0.clone(), j);
            proof {
                json::lemma_push_member(out@, e);
            }
            out.push(e);
        }
        i = i + 1;
    }
    assert(all.take(i as int) =~= all);
    out
}

fn struct_to_aws(entries: &Vec<(String, DslValue)>, fields: &Vec<StructField>, resource_type: &str) -> (r: Vec<
    (String, Json),
>)
    ensures
        json::object_view(r@) == fields_to_aws(
            value::entries_view(entries@),
            schema::fields_view(fields@),
            resource_type@,
        ),
    decreases fields@, 0nat,
{
    let mut out: Vec<(String, Json)> = Vec::new();
    let mut i: usize = 0;
    let ghost all = schema::fields_view(fields@);
    let ghost map = value::entries_view(entries@);
    proof {
        schema::lemma_fields(fields@);
    }
    assert(all.subrange(0, 0).len() == 0);
    while i < fields.len()
        invariant
            i <= fields.len(),
            all.len() == fields.len(),
            map == value::entries_view(entries@),
            forall|k: int| 0 <= k < all.len() ==> #[trigger] all[k] == schema::field_view(fields@[k]),
            json::object_view(out@) == fields_to_aws(map, all.subrange(0, i as int), resource_type@),
        decreases fields.len() - i,
    {
        let ghost upto = all.subrange(0, i + 1);
        proof {
            assert(upto.subrange(0, upto.len() - 1) =~= all.subrange(0, i as int));
            assert(upto[upto.len() - 1] == fields@[i as int]@);
        }
        let f = &fields[i];
        if let Some(v) = value::get(entries, f.name.as_str()) {
            if let Some(j) = dsl_value_to_aws(v, &f.field_type, resource_type, f.name.as_str()) {
                json::put_member(&mut out, key_of_field(f).to_owned(), j);
            }
        }
        i = i + 1;
    }
    assert(all.subrange(0, i as int) =~= all);
    out
}

} // verus!
