//! What conversions leave out: the items of lists and the entries of maps that
//! have no counterpart, in the order in which a conversion comes upon them.
use vstd::prelude::*;
use vstd::string::*;

use crate::json;
use crate::json::{Json, JsonView};
use crate::keyed;
use crate::provider::convert;
use crate::resource::Resource;
use crate::schema;
use crate::schema::{AttrView, AttributeType, AwsccSchemaConfig, FieldView, StructField, TypeView};
use crate::text;
use crate::value;
use crate::value::{DslValue, ValueView};

verus! {

/// Something that a conversion leaves out, with the attribute that is converted
/// where its type is known.
#[derive(Debug, PartialEq)]
pub enum Dropped {
    /// The item of a list at an index.
    Item { attribute: Option<String>, index: usize },
    /// The entry of a map under a key.
    Entry { attribute: Option<String>, key: String },
}

pub enum DroppedView {
    Item { attribute: Option<Seq<char>>, index: int },
    Entry { attribute: Option<Seq<char>>, key: Seq<char> },
}

impl View for Dropped {
    type V = DroppedView;

    open spec fn view(&self) -> DroppedView {
        match *self {
            Dropped::Item { attribute, index } => DroppedView::Item {
                attribute: text::opt_string(attribute),
                index: index as int,
            },
            Dropped::Entry { attribute, key } => DroppedView::Entry { attribute: text::opt_string(attribute), key: key@ },
        }
    }
}

/// The views of a list.
pub open spec fn drops_view(s: Seq<Dropped>) -> Seq<DroppedView> {
    Seq::new(s.len(), |i: int| s[i]@)
}

/// The item at an index, if it is dropped.
pub open spec fn item_if(dropped: bool, attribute: Option<Seq<char>>, index: int) -> Seq<DroppedView> {
    if dropped {
        Seq::empty().push(DroppedView::Item { attribute, index })
    } else {
        Seq::empty()
    }
}

/// The entry under a key, if it is dropped.
pub open spec fn entry_if(dropped: bool, attribute: Option<Seq<char>>, key: Seq<char>) -> Seq<DroppedView> {
    if dropped {
        Seq::empty().push(DroppedView::Entry { attribute, key })
    } else {
        Seq::empty()
    }
}

fn extend(out: &mut Vec<Dropped>, more: Vec<Dropped>)
    ensures
        drops_view(final(out)@) == drops_view(old(out)@) + drops_view(more@),
{
    let ghost before = out@;
    let mut more = more;
    let ghost added = more@;
    out.append(&mut more);
    assert(drops_view(out@) =~= drops_view(before) + drops_view(added));
}

fn add_item(out: &mut Vec<Dropped>, dropped: bool, attribute: Option<&str>, index: usize)
    ensures
        drops_view(final(out)@) == drops_view(old(out)@) + item_if(dropped, text::opt_slice(attribute), index as int),
{
    let ghost before = out@;
    if dropped {
        let d = Dropped::Item { attribute: own(attribute), index };
        let ghost view = d@;
        out.push(d);
        assert(drops_view(out@) =~= drops_view(before).push(view));
    }
    assert(drops_view(out@) =~= drops_view(before) + item_if(dropped, text::opt_slice(attribute), index as int));
}

fn add_entry(out: &mut Vec<Dropped>, dropped: bool, attribute: Option<&str>, key: &str)
    ensures
        drops_view(final(out)@) == drops_view(old(out)@) + entry_if(dropped, text::opt_slice(attribute), key@),
{
    let ghost before = out@;
    if dropped {
        let d = Dropped::Entry { attribute: own(attribute), key: key.to_owned() };
        let ghost view = d@;
        out.push(d);
        assert(drops_view(out@) =~= drops_view(before).push(view));
    }
    assert(drops_view(out@) =~= drops_view(before) + entry_if(dropped, text::opt_slice(attribute), key@));
}

fn own(s: Option<&str>) -> (r: Option<String>)
    ensures
        text::opt_string(r) == text::opt_slice(s),
{
    match s {
        Some(t) => Some(t.to_owned()),
        None => None,
    }
}

fn nothing() -> (r: Vec<Dropped>)
    ensures
        drops_view(r@) == Seq::<DroppedView>::empty(),
{
    let r: Vec<Dropped> = Vec::new();
    assert(drops_view(r@) =~= Seq::empty());
    r
}

/// What converting a document leaves out, without regard to a type.
pub open spec fn json_drops(v: JsonView) -> Seq<DroppedView>
    decreases v,
{
    match v {
        JsonView::Array(items) => json_item_drops(items),
        JsonView::Object(entries) => json_entry_drops(entries),
        _ => Seq::empty(),
    }
}

pub open spec fn json_item_drops(items: Seq<JsonView>) -> Seq<DroppedView>
    decreases items,
{
    if items.len() == 0 {
        Seq::empty()
    } else {
        let n = items.len() - 1;
        json_item_drops(items.subrange(0, n)) + json_drops(items[n]) + item_if(
            convert::plain_value(items[n]) is None,
            None,
            n,
        )
    }
}

pub open spec fn json_entry_drops(entries: Seq<(Seq<char>, JsonView)>) -> Seq<DroppedView>
    decreases entries,
{
    if entries.len() == 0 {
        Seq::empty()
    } else {
        let n = entries.len() - 1;
        json_entry_drops(entries.subrange(0, n)) + json_drops(entries[n].1) + entry_if(
            convert::plain_value(entries[n].1) is None,
            None,
            entries[n].0,
        )
    }
}

/// What converting a document leaves out, without regard to a type.
pub fn json_to_value_drops(v: &Json) -> (r: Vec<Dropped>)
    ensures
        drops_view(r@) == json_drops(v@),
    decreases v,
{
    match v {
        Json::Array(items) => json_items(items),
        Json::Object(entries) => json_entries(entries),
        _ => nothing(),
    }
}

fn json_items(items: &Vec<Json>) -> (r: Vec<Dropped>)
    ensures
        drops_view(r@) == json_item_drops(json::array_view(items@)),
    decreases items@,
{
    let mut out = nothing();
    let mut i: usize = 0;
    while i < items.len()
        invariant
            i <= items.len(),
            drops_view(out@) == json_item_drops(json::array_view(items@.take(i as int))),
        decreases items.len() - i,
    {
        proof {
            json::lemma_next_item(items@, i as int);
            json::lemma_array(items@.take(i as int));
            let all = json::array_view(items@.take(i + 1));
            assert(all.subrange(0, all.len() - 1) =~= json::array_view(items@.take(i as int)));
        }
        extend(&mut out, json_to_value_drops(&items[i]));
        add_item(&mut out, convert::json_to_value(&items[i]).is_none(), None, i);
        i = i + 1;
    }
    assert(items@.take(i as int) =~= items@);
    out
}

fn json_entries(entries: &Vec<(String, Json)>) -> (r: Vec<Dropped>)
    ensures
        drops_view(r@) == json_entry_drops(json::object_view(entries@)),
    decreases entries@,
{
    let mut out = nothing();
    let mut i: usize = 0;
    while i < entries.len()
        invariant
            i <= entries.len(),
            drops_view(out@) == json_entry_drops(json::object_view(entries@.take(i as int))),
        decreases entries.len() - i,
    {
        proof {
            json::lemma_next_member(entries@, i as int);
            json::lemma_object(entries@.take(i as int));
            let all = json::object_view(entries@.take(i + 1));
            assert(all.subrange(0, all.len() - 1) =~= json::object_view(entries@.take(i as int)));
        }
        extend(&mut out, json_to_value_drops(&entries[i].1));
        add_entry(&mut out, convert::json_to_value(&entries[i].1).is_none(), None, entries[i].0.as_str());
        i = i + 1;
    }
    assert(entries@.take(i as int) =~= entries@);
    out
}

/// What converting a value leaves out, without regard to a type.
pub open spec fn value_drops(v: ValueView) -> Seq<DroppedView>
    decreases v,
{
    match v {
        ValueView::List(items) => value_item_drops(items),
        ValueView::Mapping(entries) => value_entry_drops(entries),
        _ => Seq::empty(),
    }
}

pub open spec fn value_item_drops(items: Seq<ValueView>) -> Seq<DroppedView>
    decreases items,
{
    if items.len() == 0 {
        Seq::empty()
    } else {
        let n = items.len() - 1;
        value_item_drops(items.subrange(0, n)) + value_drops(items[n]) + item_if(
            convert::plain_json(items[n]) is None,
            None,
            n,
        )
    }
}

pub open spec fn value_entry_drops(entries: Seq<(Seq<char>, ValueView)>) -> Seq<DroppedView>
    decreases entries,
{
    if entries.len() == 0 {
        Seq::empty()
    } else {
        let n = entries.len() - 1;
        value_entry_drops(entries.subrange(0, n)) + value_drops(entries[n].1) + entry_if(
            convert::plain_json(entries[n].1) is None,
            None,
            entries[n].0,
        )
    }
}

/// What converting a value leaves out, without regard to a type.
pub fn value_to_json_drops(v: &DslValue) -> (r: Vec<Dropped>)
    ensures
        drops_view(r@) == value_drops(v@),
    decreases v,
{
    match v {
        DslValue::List(items) => value_items(items),
        DslValue::Mapping(entries) => value_entries(entries),
        _ => nothing(),
    }
}

fn value_items(items: &Vec<DslValue>) -> (r: Vec<Dropped>)
    ensures
        drops_view(r@) == value_item_drops(value::values_view(items@)),
    decreases items@,
{
    let mut out = nothing();
    let mut i: usize = 0;
    while i < items.len()
        invariant
            i <= items.len(),
            drops_view(out@) == value_item_drops(value::values_view(items@.take(i as int))),
        decreases items.len() - i,
    {
        proof {
            value::lemma_next_value(items@, i as int);
            value::lemma_values(items@.take(i as int));
            let all = value::values_view(items@.take(i + 1));
            assert(all.subrange(0, all.len() - 1) =~= value::values_view(items@.take(i as int)));
        }
        extend(&mut out, value_to_json_drops(&items[i]));
        add_item(&mut out, convert::value_to_json(&items[i]).is_none(), None, i);
        i = i + 1;
    }
    assert(items@.take(i as int) =~= items@);
    out
}

fn value_entries(entries: &Vec<(String, DslValue)>) -> (r: Vec<Dropped>)
    ensures
        drops_view(r@) == value_entry_drops(value::entries_view(entries@)),
    decreases entries@,
{
    let mut out = nothing();
    let mut i: usize = 0;
    while i < entries.len()
        invariant
            i <= entries.len(),
            drops_view(out@) == value_entry_drops(value::entries_view(entries@.take(i as int))),
        decreases entries.len() - i,
    {
        proof {
            value::lemma_next_entry(entries@, i as int);
            value::lemma_entries(entries@.take(i as int));
            let all = value::entries_view(entries@.take(i + 1));
            assert(all.subrange(0, all.len() - 1) =~= value::entries_view(entries@.take(i as int)));
        }
        extend(&mut out, value_to_json_drops(&entries[i].1));
        add_entry(&mut out, convert::value_to_json(&entries[i].1).is_none(), None, entries[i].0.as_str());
        i = i + 1;
    }
    assert(entries@.take(i as int) =~= entries@);
    out
}

/// What converting a document leaves out, by a type.
pub open spec fn dsl_drops(name: Seq<char>, v: JsonView, t: TypeView, resource_type: Seq<char>) -> Seq<DroppedView>
    decreases t, 0nat,
{
    if schema::namespaced(t) is Some && v is String {
        Seq::empty()
    } else {
        match t {
            TypeView::List { inner, ordered } => match v {
                JsonView::Array(items) => dsl_item_drops(name, items, *inner, resource_type),
                _ => json_drops(v),
            },
            TypeView::Union(members) => dsl_union_drops(name, v, members, 0, resource_type),
            TypeView::Struct { name: _, fields } => match v {
                JsonView::Object(members) => {
                    let drops = dsl_field_drops(members, fields, resource_type);
                    if convert::fields_to_dsl(members, fields, resource_type).len() > 0 {
                        drops
                    } else {
                        drops + json_drops(v)
                    }
                },
                _ => json_drops(v),
            },
            TypeView::Mapping(inner) => match v {
                JsonView::Object(entries) => dsl_entry_drops(name, entries, *inner, resource_type),
                _ => json_drops(v),
            },
            _ => json_drops(v),
        }
    }
}

pub open spec fn dsl_item_drops(name: Seq<char>, items: Seq<JsonView>, t: TypeView, resource_type: Seq<char>) -> Seq<DroppedView>
    decreases t, items.len() + 1,
{
    if items.len() == 0 {
        Seq::empty()
    } else {
        let last = items.last();
        dsl_item_drops(name, items.drop_last(), t, resource_type) + dsl_drops(name, last, t, resource_type) + item_if(
            convert::to_dsl(name, last, t, resource_type) is None,
            Some(name),
            items.len() - 1,
        )
    }
}

pub open spec fn dsl_entry_drops(
    name: Seq<char>,
    entries: Seq<(Seq<char>, JsonView)>,
    t: TypeView,
    resource_type: Seq<char>,
) -> Seq<DroppedView>
    decreases t, entries.len() + 1,
{
    if entries.len() == 0 {
        Seq::empty()
    } else {
        let last = entries.last();
        dsl_entry_drops(name, entries.drop_last(), t, resource_type) + dsl_drops(name, last.1, t, resource_type)
            + entry_if(convert::to_dsl(name, last.1, t, resource_type) is None, Some(name), last.0)
    }
}

/// What trying the types of a union from `i` on leaves out.
pub open spec fn dsl_union_drops(
    name: Seq<char>,
    v: JsonView,
    types: Seq<TypeView>,
    i: int,
    resource_type: Seq<char>,
) -> Seq<DroppedView>
    decreases types, types.len() - i,
{
    if i < 0 || i >= types.len() {
        json_drops(v)
    } else {
        let tried = dsl_drops(name, v, types[i], resource_type);
        if convert::to_dsl(name, v, types[i], resource_type) is Some {
            tried
        } else {
            tried + dsl_union_drops(name, v, types, i + 1, resource_type)
        }
    }
}

pub open spec fn dsl_field_drops(
    entries: Seq<(Seq<char>, JsonView)>,
    fields: Seq<FieldView>,
    resource_type: Seq<char>,
) -> Seq<DroppedView>
    decreases fields, 0nat,
{
    if fields.len() == 0 {
        Seq::empty()
    } else {
        let f = fields[fields.len() - 1];
        let before = dsl_field_drops(entries, fields.subrange(0, fields.len() - 1), resource_type);
        match keyed::lookup(entries, convert::provider_key(f)) {
            Some(v) => before + dsl_drops(f.name, v, f.field_type, resource_type),
            None => before,
        }
    }
}

/// What converting a document leaves out, by the type of an attribute.
pub fn aws_value_to_dsl_drops(name: &str, v: &Json, attr_type: &AttributeType, resource_type: &str) -> (r: Vec<Dropped>)
    ensures
        drops_view(r@) == dsl_drops(name@, v@, attr_type@, resource_type@),
    decreases attr_type, 0nat,
{
    if attr_type.namespaced_enum_parts().is_some() && v.as_str().is_some() {
        return nothing();
    }
    match attr_type {
        AttributeType::List { inner, ordered: _ } => match v {
            Json::Array(items) => dsl_items(name, items, inner, resource_type),
            _ => json_to_value_drops(v),
        },
        AttributeType::Union(members) => {
            let mut out = nothing();
            let mut i: usize = 0;
            proof {
                schema::lemma_types(members@);
            }
            let ghost types = schema::types_view(members@);
            while i < members.len()
                invariant
                    i <= members.len(),
                    *attr_type == AttributeType::Union(*members),
                    types == schema::types_view(members@),
                    types.len() == members.len(),
                    forall|k: int| 0 <= k < types.len() ==> #[trigger] types[k] == schema::type_view(members@[k]),
                    dsl_union_drops(name@, v@, types, 0, resource_type@) == drops_view(out@) + dsl_union_drops(
                        name@,
                        v@,
                        types,
                        i as int,
                        resource_type@,
                    ),
                    attr_type@ == TypeView::Union(types),
                    !(schema::namespaced(attr_type@) is Some && v@ is String),
                decreases members.len() - i,
            {
                assert(types[i as int] == members@[i as int]@);
                let ghost before = drops_view(out@);
                let tried = aws_value_to_dsl_drops(name, v, &members[i], resource_type);
                let ghost found = drops_view(tried@);
                extend(&mut out, tried);
                if convert::aws_value_to_dsl(name, v, &members[i], resource_type).is_some() {
                    return out;
                }
                proof {
                    let rest = dsl_union_drops(name@, v@, types, i + 1, resource_type@);
                    assert(before + (found + rest) =~= (before + found) + rest);
                }
                i = i + 1;
            }
            extend(&mut out, json_to_value_drops(v));
            out
        },
        AttributeType::Struct { name: _, fields } => match v {
            Json::Object(members) => {
                let mut out = dsl_fields(members, fields, resource_type);
                let m = convert::struct_to_dsl(members, fields, resource_type);
                proof {
                    value::lemma_entries(m@);
                }
                if m.len() == 0 {
                    extend(&mut out, json_to_value_drops(v));
                }
                out
            },
            _ => json_to_value_drops(v),
        },
        AttributeType::Mapping(inner) => match v {
            Json::Object(entries) => dsl_entries(name, entries, inner, resource_type),
            _ => json_to_value_drops(v),
        },
        _ => json_to_value_drops(v),
    }
}

fn dsl_items(name: &str, items: &Vec<Json>, inner: &AttributeType, resource_type: &str) -> (r: Vec<Dropped>)
    ensures
        drops_view(r@) == dsl_item_drops(name@, json::array_view(items@), inner@, resource_type@),
    decreases inner, 1nat,
{
    let mut out = nothing();
    let mut i: usize = 0;
    let ghost all = json::array_view(items@);
    proof {
        json::lemma_array(items@);
    }
    assert(all.take(0).len() == 0);
    while i < items.len()
        invariant
            i <= items.len(),
            all.len() == items.len(),
            forall|k: int| 0 <= k < all.len() ==> #[trigger] all[k] == json::json_view(items@[k]),
            drops_view(out@) == dsl_item_drops(name@, all.take(i as int), inner@, resource_type@),
        decreases items.len() - i,
    {
        proof {
            assert(all.take(i + 1).drop_last() =~= all.take(i as int));
            assert(all.take(i + 1).last() == items@[i as int]@);
        }
        extend(&mut out, aws_value_to_dsl_drops(name, &items[i], inner, resource_type));
        add_item(&mut out, convert::aws_value_to_dsl(name, &items[i], inner, resource_type).is_none(), Some(name), i);
        i = i + 1;
    }
    assert(all.take(i as int) =~= all);
    out
}

fn dsl_entries(name: &str, entries: &Vec<(String, Json)>, inner: &AttributeType, resource_type: &str) -> (r: Vec<
    Dropped,
>)
    ensures
        drops_view(r@) == dsl_entry_drops(name@, json::object_view(entries@), inner@, resource_type@),
    decreases inner, 1nat,
{
    let mut out = nothing();
    let mut i: usize = 0;
    let ghost all = json::object_view(entries@);
    proof {
        json::lemma_object(entries@);
    }
    assert(all.take(0).len() == 0);
    while i < entries.len()
        invariant
            i <= entries.len(),
            all.len() == entries.len(),
            forall|k: int| 0 <= k < all.len() ==> #[trigger] all[k] == (entries@[k].0@, json::json_view(entries@[k].1)),
            drops_view(out@) == dsl_entry_drops(name@, all.take(i as int), inner@, resource_type@),
        decreases entries.len() - i,
    {
        proof {
            assert(all.take(i + 1).drop_last() =~= all.take(i as int));
            assert(all.take(i + 1).last() == all[i as int]);
        }
        extend(&mut out, aws_value_to_dsl_drops(name, &entries[i].1, inner, resource_type));
        add_entry(&mut out, convert::aws_value_to_dsl(name, &entries[i].1, inner, resource_type).is_none(), Some(name), entries[i].0.as_str());
        i = i + 1;
    }
    assert(all.take(i as int) =~= all);
    out
}

fn dsl_fields(entries: &Vec<(String, Json)>, fields: &Vec<StructField>, resource_type: &str) -> (r: Vec<Dropped>)
    ensures
        drops_view(r@) == dsl_field_drops(json::object_view(entries@), schema::fields_view(fields@), resource_type@),
    decreases fields@, 0nat,
{
    let mut out = nothing();
    let mut i: usize = 0;
    let ghost all = schema::fields_view(fields@);
    let ghost map = json::object_view(entries@);
    proof {
        schema::lemma_fields(fields@);
    }
    assert(all.subrange(0, 0).len() == 0);
    while i < fields.len()
        invariant
            i <= fields.len(),
            all.len() == fields.len(),
            map == json::object_view(entries@),
            forall|k: int| 0 <= k < all.len() ==> #[trigger] all[k] == schema::field_view(fields@[k]),
            drops_view(out@) == dsl_field_drops(map, all.subrange(0, i as int), resource_type@),
        decreases fields.len() - i,
    {
        let ghost upto = all.subrange(0, i + 1);
        proof {
            assert(upto.subrange(0, upto.len() - 1) =~= all.subrange(0, i as int));
            assert(upto[upto.len() - 1] == fields@[i as int]@);
        }
        let f = &fields[i];
        if let Some(v) = json::member(entries, convert::key_of_field(f)) {
            extend(&mut out, aws_value_to_dsl_drops(f.name.as_str(), v, &f.field_type, resource_type));
        }
        i = i + 1;
    }
    assert(all.subrange(0, i as int) =~= all);
    out
}

/// What converting a value leaves out, by a type.
pub open spec fn aws_drops(name: Seq<char>, v: ValueView, t: TypeView, resource_type: Seq<char>) -> Seq<DroppedView>
    decreases t, 0nat,
{
    if schema::namespaced(t) is Some {
        value_drops(v)
    } else {
        match t {
            TypeView::List { inner, ordered } => match v {
                ValueView::List(items) => aws_item_drops(name, items, *inner, resource_type),
                _ => value_drops(v),
            },
            TypeView::Union(members) => aws_union_drops(name, v, members, 0, resource_type),
            TypeView::Struct { name: _, fields } => match convert::struct_entries(v) {
                Some(entries) => aws_field_drops(entries, fields, resource_type),
                None => value_drops(v),
            },
            TypeView::Mapping(inner) => match v {
                ValueView::Mapping(entries) => aws_entry_drops(name, entries, *inner, resource_type),
                _ => value_drops(v),
            },
            _ => value_drops(v),
        }
    }
}

pub open spec fn aws_item_drops(name: Seq<char>, items: Seq<ValueView>, t: TypeView, resource_type: Seq<char>) -> Seq<DroppedView>
    decreases t, items.len() + 1,
{
    if items.len() == 0 {
        Seq::empty()
    } else {
        let last = items.last();
        aws_item_drops(name, items.drop_last(), t, resource_type) + aws_drops(name, last, t, resource_type) + item_if(
            convert::to_aws(last, t, resource_type, name) is None,
            Some(name),
            items.len() - 1,
        )
    }
}

pub open spec fn aws_entry_drops(
    name: Seq<char>,
    entries: Seq<(Seq<char>, ValueView)>,
    t: TypeView,
    resource_type: Seq<char>,
) -> Seq<DroppedView>
    decreases t, entries.len() + 1,
{
    if entries.len() == 0 {
        Seq::empty()
    } else {
        let last = entries.last();
        aws_entry_drops(name, entries.drop_last(), t, resource_type) + aws_drops(name, last.1, t, resource_type)
            + entry_if(convert::to_aws(last.1, t, resource_type, name) is None, Some(name), last.0)
    }
}

/// What trying the types of a union from `i` on leaves out.
pub open spec fn aws_union_drops(
    name: Seq<char>,
    v: ValueView,
    types: Seq<TypeView>,
    i: int,
    resource_type: Seq<char>,
) -> Seq<DroppedView>
    decreases types, types.len() - i,
{
    if i < 0 || i >= types.len() {
        value_drops(v)
    } else {
        let tried = aws_drops(name, v, types[i], resource_type);
        if convert::to_aws(v, types[i], resource_type, name) is Some {
            tried
        } else {
            tried + aws_union_drops(name, v, types, i + 1, resource_type)
        }
    }
}

pub open spec fn aws_field_drops(
    entries: Seq<(Seq<char>, ValueView)>,
    fields: Seq<FieldView>,
    resource_type: Seq<char>,
) -> Seq<DroppedView>
    decreases fields, 0nat,
{
    if fields.len() == 0 {
        Seq::empty()
    } else {
        let f = fields[fields.len() - 1];
        let before = aws_field_drops(entries, fields.subrange(0, fields.len() - 1), resource_type);
        match keyed::lookup(entries, f.name) {
            Some(v) => before + aws_drops(f.name, v, f.field_type, resource_type),
            None => before,
        }
    }
}

/// What converting a value leaves out, by the type of an attribute.
pub fn dsl_value_to_aws_drops(name: &str, v: &DslValue, attr_type: &AttributeType, resource_type: &str) -> (r: Vec<Dropped>)
    ensures
        drops_view(r@) == aws_drops(name@, v@, attr_type@, resource_type@),
    decreases attr_type, 0nat,
{
    if attr_type.namespaced_enum_parts().is_some() {
        return value_to_json_drops(v);
    }
    match attr_type {
        AttributeType::List { inner, ordered: _ } => match v {
            DslValue::List(items) => aws_items(name, items, inner, resource_type),
            _ => value_to_json_drops(v),
        },
        AttributeType::Union(members) => {
            let mut out = nothing();
            let mut i: usize = 0;
            proof {
                schema::lemma_types(members@);
            }
            let ghost types = schema::types_view(members@);
            while i < members.len()
                invariant
                    i <= members.len(),
                    *attr_type == AttributeType::Union(*members),
                    types == schema::types_view(members@),
                    types.len() == members.len(),
                    forall|k: int| 0 <= k < types.len() ==> #[trigger] types[k] == schema::type_view(members@[k]),
                    aws_union_drops(name@, v@, types, 0, resource_type@) == drops_view(out@) + aws_union_drops(
                        name@,
                        v@,
                        types,
                        i as int,
                        resource_type@,
                    ),
                    attr_type@ == TypeView::Union(types),
                    schema::namespaced(attr_type@) is None,
                decreases members.len() - i,
            {
                assert(types[i as int] == members@[i as int]@);
                let ghost before = drops_view(out@);
                let tried = dsl_value_to_aws_drops(name, v, &members[i], resource_type);
                let ghost found = drops_view(tried@);
                extend(&mut out, tried);
                if convert::dsl_value_to_aws(v, &members[i], resource_type, name).is_some() {
                    return out;
                }
                proof {
                    let rest = aws_union_drops(name@, v@, types, i + 1, resource_type@);
                    assert(before + (found + rest) =~= (before + found) + rest);
                }
                i = i + 1;
            }
            extend(&mut out, value_to_json_drops(v));
            out
        },
        AttributeType::Struct { name: _, fields } => match v {
            DslValue::Mapping(entries) => aws_fields(entries, fields, resource_type),
            DslValue::List(items) => {
                proof {
                    value::lemma_values(items@);
                }
                if items.len() == 1 {
                    match &items[0] {
                        DslValue::Mapping(entries) => aws_fields(entries, fields, resource_type),
                        _ => value_to_json_drops(v),
                    }
                } else {
                    value_to_json_drops(v)
                }
            },
            _ => value_to_json_drops(v),
        },
        AttributeType::Mapping(inner) => match v {
            DslValue::Mapping(entries) => aws_entries(name, entries, inner, resource_type),
            _ => value_to_json_drops(v),
        },
        _ => value_to_json_drops(v),
    }
}

fn aws_items(name: &str, items: &Vec<DslValue>, inner: &AttributeType, resource_type: &str) -> (r: Vec<Dropped>)
    ensures
        drops_view(r@) == aws_item_drops(name@, value::values_view(items@), inner@, resource_type@),
    decreases inner, 1nat,
{
    let mut out = nothing();
    let mut i: usize = 0;
    let ghost all = value::values_view(items@);
    proof {
        value::lemma_values(items@);
    }
    assert(all.take(0).len() == 0);
    while i < items.len()
        invariant
            i <= items.len(),
            all.len() == items.len(),
            forall|k: int| 0 <= k < all.len() ==> #[trigger] all[k] == value::value_view(items@[k]),
            drops_view(out@) == aws_item_drops(name@, all.take(i as int), inner@, resource_type@),
        decreases items.len() - i,
    {
        proof {
            assert(all.take(i + 1).drop_last() =~= all.take(i as int));
            assert(all.take(i + 1).last() == items@[i as int]@);
        }
        extend(&mut out, dsl_value_to_aws_drops(name, &items[i], inner, resource_type));
        add_item(&mut out, convert::dsl_value_to_aws(&items[i], inner, resource_type, name).is_none(), Some(name), i);
        i = i + 1;
    }
    assert(all.take(i as int) =~= all);
    out
}

fn aws_entries(name: &str, entries: &Vec<(String, DslValue)>, inner: &AttributeType, resource_type: &str) -> (r: Vec<
    Dropped,
>)
    ensures
        drops_view(r@) == aws_entry_drops(name@, value::entries_view(entries@), inner@, resource_type@),
    decreases inner, 1nat,
{
    let mut out = nothing();
    let mut i: usize = 0;
    let ghost all = value::entries_view(entries@);
    proof {
        value::lemma_entries(entries@);
    }
    assert(all.take(0).len() == 0);
    while i < entries.len()
        invariant
            i <= entries.len(),
            all.len() == entries.len(),
            forall|k: int| 0 <= k < all.len() ==> #[trigger] all[k] == (entries@[k].0@, value::value_view(entries@[k].1)),
            drops_view(out@) == aws_entry_drops(name@, all.take(i as int), inner@, resource_type@),
        decreases entries.len() - i,
    {
        proof {
            assert(all.take(i + 1).drop_last() =~= all.take(i as int));
            assert(all.take(i + 1).last() == all[i as int]);
        }
        extend(&mut out, dsl_value_to_aws_drops(name, &entries[i].1, inner, resource_type));
        add_entry(&mut out, convert::dsl_value_to_aws(&entries[i].1, inner, resource_type, name).is_none(), Some(name), entries[i].0.as_str());
        i = i + 1;
    }
    assert(all.take(i as int) =~= all);
    out
}

fn aws_fields(entries: &Vec<(String, DslValue)>, fields: &Vec<StructField>, resource_type: &str) -> (r: Vec<Dropped>)
    ensures
        drops_view(r@) == aws_field_drops(value::entries_view(entries@), schema::fields_view(fields@), resource_type@),
    decreases fields@, 0nat,
{
    let mut out = nothing();
    let mut i: usize = 0;
    let ghost all = schema::fields_view(fields@);
    let ghost map = value::entries_view(entries@);
    proof {
        schema::lemma_fields(fields@);
    }
    assert(all.subrange(0, 0).len() == 0);
    while i < fields.len()
        invariant
            i <= fields.len(),
            all.len() == fields.len(),
            map == value::entries_view(entries@),
            forall|k: int| 0 <= k < all.len() ==> #[trigger] all[k] == schema::field_view(fields@[k]),
            drops_view(out@) == aws_field_drops(map, all.subrange(0, i as int), resource_type@),
        decreases fields.len() - i,
    {
        let ghost upto = all.subrange(0, i + 1);
        proof {
            assert(upto.subrange(0, upto.len() - 1) =~= all.subrange(0, i as int));
            assert(upto[upto.len() - 1] == fields@[i as int]@);
        }
        let f = &fields[i];
        if let Some(v) = value::get(entries, f.name.as_str()) {
            extend(&mut out, dsl_value_to_aws_drops(f.name.as_str(), v, &f.field_type, resource_type));
        }
        i = i + 1;
    }
    assert(all.subrange(0, i as int) =~= all);
    out
}

/// What reading an attribute from the properties of a resource leaves out.
pub open spec fn property_drops(name: Seq<char>, a: AttrView, props: JsonView, resource_type: Seq<char>) -> Seq<
    DroppedView,
> {
    match a.provider_name {
        Some(property) => match json::view_member(props, property) {
            Some(j) => dsl_drops(name, j, a.attr_type, resource_type),
            None => Seq::empty(),
        },
        None => Seq::empty(),
    }
}

/// What reading the attributes but `tags` leaves out.
pub open spec fn read_drops(attributes: Seq<(Seq<char>, AttrView)>, props: JsonView, resource_type: Seq<char>) -> Seq<
    DroppedView,
>
    decreases attributes.len(),
{
    if attributes.len() == 0 {
        Seq::empty()
    } else {
        let (name, a) = attributes.last();
        let before = read_drops(attributes.drop_last(), props, resource_type);
        if name == "tags"@ {
            before
        } else {
            before + property_drops(name, a, props, resource_type)
        }
    }
}

/// What is left out where the attributes of a resource are read from its
/// properties.
pub fn drops_of_read(config: &AwsccSchemaConfig, props: &Json, resource_type: &str) -> (r: Vec<Dropped>)
    ensures
        drops_view(r@) == read_drops(config@.schema.attributes, props@, resource_type@),
{
    let mut out = nothing();
    let ghost attributes = config@.schema.attributes;
    let list = &config.schema.attributes;
    let mut i: usize = 0;
    assert(attributes.take(0).len() == 0);
    while i < list.len()
        invariant
            i <= list.len(),
            attributes == schema::attributes_view(list@),
            drops_view(out@) == read_drops(attributes.take(i as int), props@, resource_type@),
        decreases list.len() - i,
    {
        proof {
            assert(attributes.take(i + 1).drop_last() =~= attributes.take(i as int));
            assert(attributes.take(i + 1).last() == attributes[i as int]);
        }
        let name = list[i].0.as_str();
        let a = &list[i].1;
        let mut more = nothing();
        if let Some(property) = &a.provider_name {
            if let Some(j) = props.get(property.as_str()) {
                more = aws_value_to_dsl_drops(name, j, &a.attr_type, resource_type);
            }
        }
        if !text::same(name, "tags") {
            extend(&mut out, more);
        }
        i = i + 1;
    }
    assert(attributes.take(i as int) =~= attributes);
    out
}

/// What sending the attributes but `tags` that are wanted leaves out.
pub open spec fn send_drops(
    attributes: Seq<(Seq<char>, AttrView)>,
    wanted: Seq<(Seq<char>, ValueView)>,
    resource_type: Seq<char>,
) -> Seq<DroppedView>
    decreases attributes.len(),
{
    if attributes.len() == 0 {
        Seq::empty()
    } else {
        let (name, a) = attributes.last();
        let before = send_drops(attributes.drop_last(), wanted, resource_type);
        if name == "tags"@ {
            before
        } else {
            match (a.provider_name, keyed::lookup(wanted, name)) {
                (Some(_), Some(v)) => before + aws_drops(name, v, a.attr_type, resource_type),
                _ => before,
            }
        }
    }
}

/// What is left out where the attributes of a resource are sent, in a create or
/// in an update.
pub fn drops_of_send(config: &AwsccSchemaConfig, wanted: &Resource) -> (r: Vec<Dropped>)
    ensures
        drops_view(r@) == send_drops(config@.schema.attributes, wanted@.attributes, wanted@.id.resource_type),
{
    let mut out = nothing();
    let ghost attributes = config@.schema.attributes;
    let ghost attrs = wanted@.attributes;
    let resource_type = wanted.id.resource_type.as_str();
    let list = &config.schema.attributes;
    let mut i: usize = 0;
    assert(attributes.take(0).len() == 0);
    while i < list.len()
        invariant
            i <= list.len(),
            attributes == schema::attributes_view(list@),
            attrs == value::entries_view(wanted.attributes@),
            drops_view(out@) == send_drops(attributes.take(i as int), attrs, resource_type@),
        decreases list.len() - i,
    {
        proof {
            assert(attributes.take(i + 1).drop_last() =~= attributes.take(i as int));
            assert(attributes.take(i + 1).last() == attributes[i as int]);
        }
        let name = list[i].0.as_str();
        let a = &list[i].1;
        if let Some(v) = value::get(&wanted.attributes, name) {
            if a.provider_name.is_some() && !text::same(name, "tags") {
                extend(&mut out, dsl_value_to_aws_drops(name, v, &a.attr_type, resource_type));
            }
        }
        i = i + 1;
    }
    assert(attributes.take(i as int) =~= attributes);
    out
}

} // verus!
