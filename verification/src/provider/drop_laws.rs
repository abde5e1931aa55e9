//! What is reported as left out by a conversion is what the result lacks.
use vstd::prelude::*;

use crate::json;
use crate::json::JsonView;
use crate::keyed;
use crate::provider::convert;
use crate::provider::dropped;
use crate::provider::dropped::DroppedView;
use crate::schema;
use crate::schema::{AttrView, FieldView, TypeView};
use crate::value::ValueView;

verus! {

/// One report where a part is lost, and none where it is not.
pub open spec fn reported(lost: bool, d: DroppedView) -> Seq<DroppedView> {
    if lost {
        seq![d]
    } else {
        seq![]
    }
}

/// Of a list, each item that cannot be read is reported with the attribute and its
/// index, behind what it leaves out itself and behind the reports of the items
/// before it.
pub proof fn law_unread_items_are_reported(
    name: Seq<char>,
    items: Seq<JsonView>,
    item: JsonView,
    t: TypeView,
    resource_type: Seq<char>,
)
    requires
        t matches TypeView::List { inner, ordered },
    ensures
        dropped::dsl_drops(name, JsonView::Array(seq![]), t, resource_type) == Seq::<DroppedView>::empty(),
        dropped::dsl_drops(name, JsonView::Array(items.push(item)), t, resource_type) == dropped::dsl_drops(
            name,
            JsonView::Array(items),
            t,
            resource_type,
        ) + dropped::dsl_drops(name, item, *t->inner, resource_type) + reported(
            convert::to_dsl(name, item, *t->inner, resource_type) is None,
            DroppedView::Item { attribute: Some(name), index: items.len() as int },
        ),
{
    assert(items.push(item).drop_last() =~= items);
    assert(dropped::dsl_item_drops(name, seq![], *t->inner, resource_type) =~= seq![]);
    assert(seq![DroppedView::Item { attribute: Some(name), index: items.len() as int }] =~= Seq::empty().push(
        DroppedView::Item { attribute: Some(name), index: items.len() as int },
    ));
}

/// Of a map, each entry that cannot be read is reported with the attribute and its
/// key.
pub proof fn law_unread_entries_are_reported(
    name: Seq<char>,
    entries: Seq<(Seq<char>, JsonView)>,
    key: Seq<char>,
    j: JsonView,
    t: TypeView,
    resource_type: Seq<char>,
)
    requires
        t is Mapping,
    ensures
        dropped::dsl_drops(name, JsonView::Object(seq![]), t, resource_type) == Seq::<DroppedView>::empty(),
        dropped::dsl_drops(name, JsonView::Object(entries.push((key, j))), t, resource_type) == dropped::dsl_drops(
            name,
            JsonView::Object(entries),
            t,
            resource_type,
        ) + dropped::dsl_drops(name, j, *t->Mapping_0, resource_type) + reported(
            convert::to_dsl(name, j, *t->Mapping_0, resource_type) is None,
            DroppedView::Entry { attribute: Some(name), key },
        ),
{
    assert(entries.push((key, j)).drop_last() =~= entries);
    assert(dropped::dsl_entry_drops(name, seq![], *t->Mapping_0, resource_type) =~= seq![]);
    assert(seq![DroppedView::Entry { attribute: Some(name), key }] =~= Seq::empty().push(
        DroppedView::Entry { attribute: Some(name), key },
    ));
}

/// Of a struct, what is reported is what its fields report, each under its own
/// name, and for the struct as a whole where no field could be read.
pub proof fn law_unread_fields_are_reported(
    name: Seq<char>,
    members: Seq<(Seq<char>, JsonView)>,
    typename: Seq<char>,
    fields: Seq<FieldView>,
    f: FieldView,
    resource_type: Seq<char>,
)
    ensures
        dropped::dsl_field_drops(members, seq![], resource_type) == Seq::<DroppedView>::empty(),
        dropped::dsl_field_drops(members, fields.push(f), resource_type) == dropped::dsl_field_drops(
            members,
            fields,
            resource_type,
        ) + match keyed::lookup(members, convert::provider_key(f)) {
            Some(j) => dropped::dsl_drops(f.name, j, f.field_type, resource_type),
            None => seq![],
        },
        dropped::dsl_drops(name, JsonView::Object(members), TypeView::Struct { name: typename, fields }, resource_type)
            == dropped::dsl_field_drops(members, fields, resource_type) + if convert::fields_to_dsl(
            members,
            fields,
            resource_type,
        ).len() == 0 {
            dropped::json_drops(JsonView::Object(members))
        } else {
            seq![]
        },
{
    assert(fields.push(f).subrange(0, fields.len() as int) =~= fields);
    assert(dropped::dsl_field_drops(members, fields.push(f), resource_type) =~= dropped::dsl_field_drops(
        members,
        fields,
        resource_type,
    ) + match keyed::lookup(members, convert::provider_key(f)) {
        Some(j) => dropped::dsl_drops(f.name, j, f.field_type, resource_type),
        None => seq![],
    });
    let drops = dropped::dsl_field_drops(members, fields, resource_type);
    assert(drops + Seq::<DroppedView>::empty() =~= drops);
}

/// Of a union, what is reported is what the types leave out that are tried: those up
/// to the first that can read the value, and what a reading without a type leaves
/// out where none can.
pub proof fn law_unread_unions_are_reported(
    name: Seq<char>,
    j: JsonView,
    types: Seq<TypeView>,
    i: int,
    resource_type: Seq<char>,
)
    requires
        0 <= i <= types.len(),
    ensures
        dropped::dsl_drops(name, j, TypeView::Union(types), resource_type) == dropped::dsl_union_drops(
            name,
            j,
            types,
            0,
            resource_type,
        ),
        i == types.len() ==> dropped::dsl_union_drops(name, j, types, i, resource_type) == dropped::json_drops(j),
        i < types.len() ==> dropped::dsl_union_drops(name, j, types, i, resource_type) == dropped::dsl_drops(
            name,
            j,
            types[i],
            resource_type,
        ) + if convert::to_dsl(name, j, types[i], resource_type) is Some {
            seq![]
        } else {
            dropped::dsl_union_drops(name, j, types, i + 1, resource_type)
        },
{
    if i < types.len() {
        let tried = dropped::dsl_drops(name, j, types[i], resource_type);
        assert(tried + Seq::<DroppedView>::empty() =~= tried);
    }
}

/// Without a type, the same holds of lists and maps, without an attribute. Texts,
/// numbers, truth values and nothing leave nothing out.
pub proof fn law_unread_documents_are_reported(
    items: Seq<JsonView>,
    item: JsonView,
    entries: Seq<(Seq<char>, JsonView)>,
    key: Seq<char>,
)
    ensures
        !(item is Array || item is Object) ==> dropped::json_drops(item) == Seq::<DroppedView>::empty(),
        dropped::json_drops(JsonView::Array(seq![])) == Seq::<DroppedView>::empty(),
        dropped::json_drops(JsonView::Object(seq![])) == Seq::<DroppedView>::empty(),
        dropped::json_drops(JsonView::Array(items.push(item))) == dropped::json_drops(JsonView::Array(items))
            + dropped::json_drops(item) + reported(
            convert::plain_value(item) is None,
            DroppedView::Item { attribute: None, index: items.len() as int },
        ),
        dropped::json_drops(JsonView::Object(entries.push((key, item)))) == dropped::json_drops(JsonView::Object(entries))
            + dropped::json_drops(item) + reported(
            convert::plain_value(item) is None,
            DroppedView::Entry { attribute: None, key },
        ),
{
    assert(items.push(item).subrange(0, items.len() as int) =~= items);
    assert(entries.push((key, item)).subrange(0, entries.len() as int) =~= entries);
    let i = DroppedView::Item { attribute: None, index: items.len() as int };
    let e = DroppedView::Entry { attribute: None, key };
    assert(seq![i] =~= Seq::empty().push(i));
    assert(seq![e] =~= Seq::empty().push(e));
}

/// Of a list, each item that cannot be sent is reported with the attribute and its
/// index, behind what it leaves out itself and behind the reports of the items
/// before it.
pub proof fn law_unsent_items_are_reported(
    name: Seq<char>,
    items: Seq<ValueView>,
    item: ValueView,
    t: TypeView,
    resource_type: Seq<char>,
)
    requires
        t matches TypeView::List { inner, ordered },
    ensures
        dropped::aws_drops(name, ValueView::List(seq![]), t, resource_type) == Seq::<DroppedView>::empty(),
        dropped::aws_drops(name, ValueView::List(items.push(item)), t, resource_type) == dropped::aws_drops(
            name,
            ValueView::List(items),
            t,
            resource_type,
        ) + dropped::aws_drops(name, item, *t->inner, resource_type) + reported(
            convert::to_aws(item, *t->inner, resource_type, name) is None,
            DroppedView::Item { attribute: Some(name), index: items.len() as int },
        ),
{
    assert(items.push(item).drop_last() =~= items);
    assert(dropped::aws_item_drops(name, seq![], *t->inner, resource_type) =~= seq![]);
    let d = DroppedView::Item { attribute: Some(name), index: items.len() as int };
    assert(seq![d] =~= Seq::empty().push(d));
}

/// Of a map, each entry that cannot be sent is reported with the attribute and its
/// key.
pub proof fn law_unsent_entries_are_reported(
    name: Seq<char>,
    entries: Seq<(Seq<char>, ValueView)>,
    key: Seq<char>,
    v: ValueView,
    t: TypeView,
    resource_type: Seq<char>,
)
    requires
        t is Mapping,
    ensures
        dropped::aws_drops(name, ValueView::Mapping(seq![]), t, resource_type) == Seq::<DroppedView>::empty(),
        dropped::aws_drops(name, ValueView::Mapping(entries.push((key, v))), t, resource_type) == dropped::aws_drops(
            name,
            ValueView::Mapping(entries),
            t,
            resource_type,
        ) + dropped::aws_drops(name, v, *t->Mapping_0, resource_type) + reported(
            convert::to_aws(v, *t->Mapping_0, resource_type, name) is None,
            DroppedView::Entry { attribute: Some(name), key },
        ),
{
    assert(entries.push((key, v)).drop_last() =~= entries);
    assert(dropped::aws_entry_drops(name, seq![], *t->Mapping_0, resource_type) =~= seq![]);
    let d = DroppedView::Entry { attribute: Some(name), key };
    assert(seq![d] =~= Seq::empty().push(d));
}

/// Of a struct, what is reported is what its fields report, each under its own name.
/// A list with one struct in it stands for that struct.
pub proof fn law_unsent_fields_are_reported(
    name: Seq<char>,
    entries: Seq<(Seq<char>, ValueView)>,
    typename: Seq<char>,
    fields: Seq<FieldView>,
    f: FieldView,
    resource_type: Seq<char>,
)
    ensures
        dropped::aws_field_drops(entries, seq![], resource_type) == Seq::<DroppedView>::empty(),
        dropped::aws_field_drops(entries, fields.push(f), resource_type) == dropped::aws_field_drops(
            entries,
            fields,
            resource_type,
        ) + match keyed::lookup(entries, f.name) {
            Some(v) => dropped::aws_drops(f.name, v, f.field_type, resource_type),
            None => seq![],
        },
        dropped::aws_drops(name, ValueView::Mapping(entries), TypeView::Struct { name: typename, fields }, resource_type)
            == dropped::aws_field_drops(entries, fields, resource_type),
        dropped::aws_drops(
            name,
            ValueView::List(seq![ValueView::Mapping(entries)]),
            TypeView::Struct { name: typename, fields },
            resource_type,
        ) == dropped::aws_field_drops(entries, fields, resource_type),
{
    assert(fields.push(f).subrange(0, fields.len() as int) =~= fields);
    let before = dropped::aws_field_drops(entries, fields, resource_type);
    assert(before + Seq::<DroppedView>::empty() =~= before);
}

/// Of a union, what is reported is what the types leave out that are tried: those up
/// to the first that can send the value, and what sending without a type leaves out
/// where none can.
pub proof fn law_unsent_unions_are_reported(
    name: Seq<char>,
    v: ValueView,
    types: Seq<TypeView>,
    i: int,
    resource_type: Seq<char>,
)
    requires
        0 <= i <= types.len(),
    ensures
        dropped::aws_drops(name, v, TypeView::Union(types), resource_type) == dropped::aws_union_drops(
            name,
            v,
            types,
            0,
            resource_type,
        ),
        i == types.len() ==> dropped::aws_union_drops(name, v, types, i, resource_type) == dropped::value_drops(v),
        i < types.len() ==> dropped::aws_union_drops(name, v, types, i, resource_type) == dropped::aws_drops(
            name,
            v,
            types[i],
            resource_type,
        ) + if convert::to_aws(v, types[i], resource_type, name) is Some {
            seq![]
        } else {
            dropped::aws_union_drops(name, v, types, i + 1, resource_type)
        },
{
    if i < types.len() {
        let tried = dropped::aws_drops(name, v, types[i], resource_type);
        assert(tried + Seq::<DroppedView>::empty() =~= tried);
    }
}

/// Without a type, the same holds of lists and maps, without an attribute. All other
/// values leave nothing out.
pub proof fn law_unsent_values_are_reported(
    items: Seq<ValueView>,
    item: ValueView,
    entries: Seq<(Seq<char>, ValueView)>,
    key: Seq<char>,
)
    ensures
        !(item is List || item is Mapping) ==> dropped::value_drops(item) == Seq::<DroppedView>::empty(),
        dropped::value_drops(ValueView::List(seq![])) == Seq::<DroppedView>::empty(),
        dropped::value_drops(ValueView::Mapping(seq![])) == Seq::<DroppedView>::empty(),
        dropped::value_drops(ValueView::List(items.push(item))) == dropped::value_drops(ValueView::List(items))
            + dropped::value_drops(item) + reported(
            convert::plain_json(item) is None,
            DroppedView::Item { attribute: None, index: items.len() as int },
        ),
        dropped::value_drops(ValueView::Mapping(entries.push((key, item)))) == dropped::value_drops(
            ValueView::Mapping(entries),
        ) + dropped::value_drops(item) + reported(
            convert::plain_json(item) is None,
            DroppedView::Entry { attribute: None, key },
        ),
{
    assert(items.push(item).subrange(0, items.len() as int) =~= items);
    assert(entries.push((key, item)).subrange(0, entries.len() as int) =~= entries);
    let i = DroppedView::Item { attribute: None, index: items.len() as int };
    let e = DroppedView::Entry { attribute: None, key };
    assert(seq![i] =~= Seq::empty().push(i));
    assert(seq![e] =~= Seq::empty().push(e));
}

/// What a type that holds no parts leaves out is what is left out without a type;
/// an enum that is read from a text leaves nothing out.
pub proof fn law_parts_of_untyped_values(name: Seq<char>, j: JsonView, v: ValueView, t: TypeView, resource_type: Seq<char>)
    ensures
        schema::namespaced(t) is Some && j is String ==> dropped::dsl_drops(name, j, t, resource_type).len() == 0,
        !(t is List || t is Mapping || t is Struct || t is Union) && !(schema::namespaced(t) is Some && j is String)
            ==> dropped::dsl_drops(name, j, t, resource_type) == dropped::json_drops(j),
        !(t is List || t is Mapping || t is Struct || t is Union) ==> dropped::aws_drops(name, v, t, resource_type)
            == dropped::value_drops(v),
        t is List && !(j is Array) ==> dropped::dsl_drops(name, j, t, resource_type) == dropped::json_drops(j),
        (t is Mapping || t is Struct) && !(j is Object) ==> dropped::dsl_drops(name, j, t, resource_type)
            == dropped::json_drops(j),
        t is List && !(v is List) ==> dropped::aws_drops(name, v, t, resource_type) == dropped::value_drops(v),
        t is Mapping && !(v is Mapping) ==> dropped::aws_drops(name, v, t, resource_type) == dropped::value_drops(v),
{
}

/// What a read and a send report of a resource is what its attributes report, in
/// order: all but the tags, by the property that the service has or by the value
/// that is wanted.
pub proof fn law_resources_report_their_attributes(
    attributes: Seq<(Seq<char>, AttrView)>,
    name: Seq<char>,
    a: AttrView,
    props: JsonView,
    wanted: Seq<(Seq<char>, ValueView)>,
    resource_type: Seq<char>,
)
    ensures
        dropped::read_drops(seq![], props, resource_type).len() == 0,
        dropped::send_drops(seq![], wanted, resource_type).len() == 0,
        ({
            let before = dropped::read_drops(attributes, props, resource_type);
            let after = dropped::read_drops(attributes.push((name, a)), props, resource_type);
            match (a.provider_name, json::view_member(props, a.provider_name->0)) {
                (Some(_), Some(j)) => if name == "tags"@ {
                    after == before
                } else {
                    after == before + dropped::dsl_drops(name, j, a.attr_type, resource_type)
                },
                _ => after == before,
            }
        }),
        ({
            let before = dropped::send_drops(attributes, wanted, resource_type);
            let after = dropped::send_drops(attributes.push((name, a)), wanted, resource_type);
            if name != "tags"@ && a.provider_name is Some && keyed::lookup(wanted, name) is Some {
                after == before + dropped::aws_drops(name, keyed::lookup(wanted, name)->0, a.attr_type, resource_type)
            } else {
                after == before
            }
        }),
{
    assert(attributes.push((name, a)).drop_last() =~= attributes);
    let before = dropped::read_drops(attributes, props, resource_type);
    assert(before + Seq::<DroppedView>::empty() =~= before);
}

} // verus!
