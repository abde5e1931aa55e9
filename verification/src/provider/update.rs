//! The patch that turns a resource into what is wanted.
use vstd::prelude::*;
use vstd::string::*;

use crate::json;
use crate::json::{Json, JsonView};
use crate::keyed;
use crate::provider::convert;
use crate::resource::{Resource, State};
use crate::schema;
use crate::schema::{AttrView, AttributeSchema, AwsccSchemaConfig, ConfigView};
use crate::text;
use crate::value;
use crate::value::{DslValue, ValueView};

verus! {

/// The operation that puts a value at a property.
pub open spec fn replace_op(property: Seq<char>, j: JsonView) -> JsonView {
    JsonView::Object(
        Seq::empty()
            .push(("op"@, JsonView::String("replace"@)))
            .push(("path"@, JsonView::String("/"@ + property)))
            .push(("value"@, j)),
    )
}

/// The operation that takes a property away.
pub open spec fn remove_op(property: Seq<char>) -> JsonView {
    JsonView::Object(
        Seq::empty()
            .push(("op"@, JsonView::String("remove"@)))
            .push(("path"@, JsonView::String("/"@ + property))),
    )
}

/// The operation that an attribute needs because its value changed.
pub open spec fn replacement(
    name: Seq<char>,
    a: AttrView,
    from: Seq<(Seq<char>, ValueView)>,
    to: Seq<(Seq<char>, ValueView)>,
    resource_type: Seq<char>,
) -> Option<JsonView> {
    match (a.provider_name, keyed::lookup(to, name)) {
        (Some(property), Some(v)) => match convert::to_aws(v, a.attr_type, resource_type, name) {
            Some(j) => match keyed::lookup(from, name) {
                Some(w) => if value::same_value(w, v) {
                    None
                } else {
                    Some(replace_op(property, j))
                },
                None => Some(replace_op(property, j)),
            },
            None => None,
        },
        _ => None,
    }
}

/// The operation that an attribute needs because it is wanted no more.
pub open spec fn removal(
    name: Seq<char>,
    a: AttrView,
    from: Seq<(Seq<char>, ValueView)>,
    to: Seq<(Seq<char>, ValueView)>,
) -> Option<JsonView> {
    match a.provider_name {
        Some(property) => if !a.required && !a.create_only && keyed::lookup(from, name) is Some && keyed::lookup(
            to,
            name,
        ) is None {
            Some(remove_op(property))
        } else {
            None
        },
        None => None,
    }
}

/// The list with one more item, where there is one.
pub open spec fn with_op(ops: Seq<JsonView>, op: Option<JsonView>) -> Seq<JsonView> {
    match op {
        Some(j) => ops.push(j),
        None => ops,
    }
}

/// What the attributes but `tags` need because their values changed.
pub open spec fn replacements(
    attributes: Seq<(Seq<char>, AttrView)>,
    from: Seq<(Seq<char>, ValueView)>,
    to: Seq<(Seq<char>, ValueView)>,
    resource_type: Seq<char>,
) -> Seq<JsonView>
    decreases attributes.len(),
{
    if attributes.len() == 0 {
        Seq::empty()
    } else {
        let (name, a) = attributes.last();
        let before = replacements(attributes.drop_last(), from, to, resource_type);
        if name == "tags"@ {
            before
        } else {
            with_op(before, replacement(name, a, from, to, resource_type))
        }
    }
}

/// What the attributes but `tags` need because they are wanted no more.
pub open spec fn removals(
    attributes: Seq<(Seq<char>, AttrView)>,
    from: Seq<(Seq<char>, ValueView)>,
    to: Seq<(Seq<char>, ValueView)>,
) -> Seq<JsonView>
    decreases attributes.len(),
{
    if attributes.len() == 0 {
        Seq::empty()
    } else {
        let (name, a) = attributes.last();
        let before = removals(attributes.drop_last(), from, to);
        if name == "tags"@ {
            before
        } else {
            with_op(before, removal(name, a, from, to))
        }
    }
}

/// A tag as Cloud Control has it.
pub open spec fn tag_item(key: Seq<char>, text: Seq<char>) -> JsonView {
    JsonView::Object(
        Seq::empty().push(("Key"@, JsonView::String(key))).push(("Value"@, JsonView::String(text))),
    )
}

/// The tags as Cloud Control has them; those that are no strings are left out.
pub open spec fn tag_items(tags: Seq<(Seq<char>, ValueView)>) -> Seq<JsonView>
    decreases tags.len(),
{
    if tags.len() == 0 {
        Seq::empty()
    } else {
        let before = tag_items(tags.drop_last());
        match tags.last().1 {
            ValueView::String(s) => before.push(tag_item(tags.last().0, s)),
            _ => before,
        }
    }
}

/// The tags of a value, where it is a map.
pub open spec fn user_tags(v: Option<ValueView>) -> Seq<JsonView> {
    match v {
        Some(ValueView::Mapping(tags)) => tag_items(tags),
        _ => Seq::empty(),
    }
}

/// What the tags need.
pub open spec fn tags_change(from: Seq<(Seq<char>, ValueView)>, to: Seq<(Seq<char>, ValueView)>) -> Option<JsonView> {
    match keyed::lookup(to, "tags"@) {
        Some(ValueView::Mapping(tags)) => {
            let unchanged = match keyed::lookup(from, "tags"@) {
                Some(ValueView::Mapping(was)) => value::same_value(ValueView::Mapping(was), ValueView::Mapping(tags)),
                _ => false,
            };
            if !unchanged && tag_items(tags).len() > 0 {
                Some(replace_op("Tags"@, JsonView::Array(tag_items(tags))))
            } else {
                None
            }
        },
        _ => if keyed::lookup(from, "tags"@) is Some {
            Some(remove_op("Tags"@))
        } else {
            None
        },
    }
}

/// The patch that turns one set of attributes into another.
pub open spec fn update_patches(
    c: ConfigView,
    from: Seq<(Seq<char>, ValueView)>,
    to: Seq<(Seq<char>, ValueView)>,
    resource_type: Seq<char>,
) -> Seq<JsonView> {
    let ops = replacements(c.schema.attributes, from, to, resource_type) + removals(c.schema.attributes, from, to);
    if c.has_tags {
        with_op(ops, tags_change(from, to))
    } else {
        ops
    }
}

fn path_of(property: &str) -> (r: String)
    ensures
        r@ == "/"@ + property@,
{
    let mut s = "/".to_owned();
    s.append(property);
    s
}

fn make_replace(property: &str, j: Json) -> (r: Json)
    ensures
        r@ == replace_op(property@, j@),
{
    let mut members: Vec<(String, Json)> = Vec::new();
    let op = ("op".to_owned(), Json::text("replace"));
    let path = ("path".to_owned(), Json::String(path_of(property)));
    let body = ("value".to_owned(), j);
    proof {
        json::lemma_push_member(members@, op);
        json::lemma_push_member(members@.push(op), path);
        json::lemma_push_member(members@.push(op).push(path), body);
    }
    members.push(op);
    members.push(path);
    members.push(body);
    Json::Object(members)
}

/// The operation that takes a property away.
pub fn make_remove(property: &str) -> (r: Json)
    ensures
        r@ == remove_op(property@),
{
    let mut members: Vec<(String, Json)> = Vec::new();
    let op = ("op".to_owned(), Json::text("remove"));
    let path = ("path".to_owned(), Json::String(path_of(property)));
    proof {
        json::lemma_push_member(members@, op);
        json::lemma_push_member(members@.push(op), path);
    }
    members.push(op);
    members.push(path);
    Json::Object(members)
}

fn make_tag(key: &str, text: &str) -> (r: Json)
    ensures
        r@ == tag_item(key@, text@),
{
    let mut members: Vec<(String, Json)> = Vec::new();
    let k = ("Key".to_owned(), Json::text(key));
    let v = ("Value".to_owned(), Json::text(text));
    proof {
        json::lemma_push_member(members@, k);
        json::lemma_push_member(members@.push(k), v);
    }
    members.push(k);
    members.push(v);
    Json::Object(members)
}

fn push_op(ops: &mut Vec<Json>, op: Option<Json>)
    ensures
        json::array_view(final(ops)@) == with_op(json::array_view(old(ops)@), json::opt_json(op)),
{
    if let Some(j) = op {
        proof {
            json::lemma_push_item(ops@, j);
        }
        ops.push(j);
    }
}

fn make_replacement(
    name: &str,
    a: &AttributeSchema,
    from: &Vec<(String, DslValue)>,
    to: &Vec<(String, DslValue)>,
    resource_type: &str,
) -> (r: Option<Json>)
    ensures
        json::opt_json(r) == replacement(
            name@,
            a@,
            value::entries_view(from@),
            value::entries_view(to@),
            resource_type@,
        ),
{
    if let Some(property) = &a.provider_name {
        if let Some(v) = value::get(to, name) {
            if let Some(j) = convert::dsl_value_to_aws(v, &a.attr_type, resource_type, name) {
                if let Some(w) = value::get(from, name) {
                    if value::value_eq(w, v) {
                        return None;
                    }
                }
                return Some(make_replace(property.as_str(), j));
            }
        }
    }
    None
}

fn make_removal(
    name: &str,
    a: &AttributeSchema,
    from: &Vec<(String, DslValue)>,
    to: &Vec<(String, DslValue)>,
) -> (r: Option<Json>)
    ensures
        json::opt_json(r) == removal(name@, a@, value::entries_view(from@), value::entries_view(to@)),
{
    if let Some(property) = &a.provider_name {
        if !a.required && !a.create_only && value::has_key(from, name) && !value::has_key(to, name) {
            return Some(make_remove(property.as_str()));
        }
    }
    None
}

/// The tags as Cloud Control has them; those that are no strings are left out.
pub fn tags_to_items(tags: &Vec<(String, DslValue)>) -> (r: Vec<Json>)
    ensures
        json::array_view(r@) == tag_items(value::entries_view(tags@)),
{
    let mut out: Vec<Json> = Vec::new();
    let mut i: usize = 0;
    let ghost all = value::entries_view(tags@);
    proof {
        value::lemma_entries(tags@);
    }
    assert(all.take(0).len() == 0);
    while i < tags.len()
        invariant
            i <= tags.len(),
            all.len() == tags.len(),
            forall|k: int| 0 <= k < all.len() ==> #[trigger] all[k] == (tags@[k].0@, value::value_view(tags@[k].1)),
            json::array_view(out@) == tag_items(all.take(i as int)),
        decreases tags.len() - i,
    {
        proof {
            assert(all.take(i + 1).drop_last() =~= all.take(i as int));
            assert(all.take(i + 1).last() == all[i as int]);
        }
        if let DslValue::String(s) = &tags[i].1 {
            let tag = make_tag(tags[i].0.as_str(), s.as_str());
            proof {
                json::lemma_push_item(out@, tag);
            }
            out.push(tag);
        }
        i = i + 1;
    }
    assert(all.take(i as int) =~= all);
    out
}

/// The tags of a resource as Cloud Control has them.
pub fn build_tags(tags: Option<&DslValue>) -> (r: Vec<Json>)
    ensures
        json::array_view(r@) == user_tags(
            match tags {
                Some(v) => Some(v@),
                None => None,
            },
        ),
{
    match tags {
        Some(DslValue::Mapping(m)) => tags_to_items(m),
        _ => Vec::new(),
    }
}

fn make_tags_change(from: &Vec<(String, DslValue)>, to: &Vec<(String, DslValue)>) -> (r: Option<Json>)
    ensures
        json::opt_json(r) == tags_change(value::entries_view(from@), value::entries_view(to@)),
{
    match value::get(to, "tags") {
        Some(DslValue::Mapping(tags)) => {
            let unchanged = match value::get(from, "tags") {
                Some(DslValue::Mapping(was)) => value::entries_eq(was, tags),
                _ => false,
            };
            if !unchanged {
                let items = tags_to_items(tags);
                proof {
                    json::lemma_array(items@);
                }
                if items.len() > 0 {
                    return Some(make_replace("Tags", Json::Array(items)));
                }
            }
            None
        },
        _ => if value::has_key(from, "tags") {
            Some(make_remove("Tags"))
        } else {
            None
        },
    }
}

/// The patch that turns a resource from its state into what is wanted: new
/// values, then attributes to remove, then tags.
pub fn build_update_patches(config: &AwsccSchemaConfig, from: &State, to: &Resource) -> (r: Vec<Json>)
    ensures
        json::array_view(r@) == update_patches(config@, from@.attributes, to@.attributes, to@.id.resource_type),
{
    let mut ops: Vec<Json> = Vec::new();
    let ghost attributes = config@.schema.attributes;
    let ghost f = from@.attributes;
    let ghost t = to@.attributes;
    let resource_type = to.id.resource_type.as_str();
    let list = &config.schema.attributes;
    let mut i: usize = 0;
    assert(attributes.take(0).len() == 0);
    while i < list.len()
        invariant
            i <= list.len(),
            attributes == schema::attributes_view(list@),
            f == value::entries_view(from.attributes@),
            t == value::entries_view(to.attributes@),
            json::array_view(ops@) == replacements(attributes.take(i as int), f, t, resource_type@),
        decreases list.len() - i,
    {
        proof {
            assert(attributes.take(i + 1).drop_last() =~= attributes.take(i as int));
            assert(attributes.take(i + 1).last() == attributes[i as int]);
        }
        let name = list[i].0.as_str();
        if !text::same(name, "tags") {
            push_op(&mut ops, make_replacement(name, &list[i].1, &from.attributes, &to.attributes, resource_type));
        }
        i = i + 1;
    }
    assert(attributes.take(i as int) =~= attributes);
    let ghost first = json::array_view(ops@);
    let mut i: usize = 0;
    assert(attributes.take(0).len() == 0);
    assert(first + removals(attributes.take(0), f, t) =~= first);
    while i < list.len()
        invariant
            i <= list.len(),
            attributes == schema::attributes_view(list@),
            f == value::entries_view(from.attributes@),
            t == value::entries_view(to.attributes@),
            json::array_view(ops@) == first + removals(attributes.take(i as int), f, t),
        decreases list.len() - i,
    {
        proof {
            assert(attributes.take(i + 1).drop_last() =~= attributes.take(i as int));
            assert(attributes.take(i + 1).last() == attributes[i as int]);
        }
        let name = list[i].0.as_str();
        if !text::same(name, "tags") {
            let op = make_removal(name, &list[i].1, &from.attributes, &to.attributes);
            let ghost o = json::opt_json(op);
            let ghost so_far = removals(attributes.take(i as int), f, t);
            push_op(&mut ops, op);
            assert(json::array_view(ops@) =~= first + with_op(so_far, o));
        }
        i = i + 1;
    }
    assert(attributes.take(i as int) =~= attributes);
    if config.has_tags {
        push_op(&mut ops, make_tags_change(&from.attributes, &to.attributes));
    }
    ops
}

/// The tags that items of Cloud Control describe; an item without a key or
/// without a text is left out.
pub open spec fn tags_of(items: Seq<JsonView>) -> Seq<(Seq<char>, ValueView)>
    decreases items.len(),
{
    if items.len() == 0 {
        Seq::empty()
    } else {
        let before = tags_of(items.drop_last());
        match (text_at(items.last(), "Key"@), text_at(items.last(), "Value"@)) {
            (Some(k), Some(v)) => keyed::set(before, k, ValueView::String(v)),
            _ => before,
        }
    }
}

/// The text of a member of an object.
pub open spec fn text_at(j: JsonView, key: Seq<char>) -> Option<Seq<char>> {
    match json::view_member(j, key) {
        Some(m) => json::view_text(m),
        None => None,
    }
}

/// The text of a member of an object.
pub fn get_text<'a>(j: &'a Json, key: &str) -> (r: Option<&'a str>)
    ensures
        text::opt_slice(r) == text_at(j@, key@),
{
    match j.get(key) {
        Some(m) => m.as_str(),
        None => None,
    }
}

/// The tags that items of Cloud Control describe.
pub fn parse_tags(items: &Vec<Json>) -> (r: Vec<(String, DslValue)>)
    ensures
        value::entries_view(r@) == tags_of(json::array_view(items@)),
{
    let mut out: Vec<(String, DslValue)> = Vec::new();
    let mut i: usize = 0;
    let ghost all = json::array_view(items@);
    proof {
        json::lemma_array(items@);
    }
    assert(all.take(0).len() == 0);
    while i < items.len()
        invariant
            i <= items.len(),
            all.len() == items.len(),
            forall|k: int| 0 <= k < all.len() ==> #[trigger] all[k] == json::json_view(items@[k]),
            value::entries_view(out@) == tags_of(all.take(i as int)),
        decreases items.len() - i,
    {
        proof {
            assert(all.take(i + 1).drop_last() =~= all.take(i as int));
            assert(all.take(i + 1).last() == items@[i as int]@);
        }
        if let (Some(k), Some(v)) = (get_text(&items[i], "Key"), get_text(&items[i], "Value")) {
            value::put(&mut out, k.to_owned(), DslValue::String(v.to_owned()));
        }
        i = i + 1;
    }
    assert(all.take(i as int) =~= all);
    out
}

/// Where nothing changes, the patch is empty.
pub proof fn law_no_change_no_patch(
    c: ConfigView,
    from: Seq<(Seq<char>, ValueView)>,
    to: Seq<(Seq<char>, ValueView)>,
    resource_type: Seq<char>,
)
    requires
        forall|k: Seq<char>|
            match (#[trigger] keyed::lookup(from, k), keyed::lookup(to, k)) {
                (Some(v), Some(w)) => value::same_value(v, w),
                (None, None) => true,
                _ => false,
            },
        keyed::lookup(to, "tags"@) matches Some(v) ==> v is Mapping,
    ensures
        update_patches(c, from, to, resource_type) == Seq::<JsonView>::empty(),
{
    lemma_no_ops(c.schema.attributes, from, to, resource_type);
    assert(keyed::lookup(from, "tags"@) is Some == keyed::lookup(to, "tags"@) is Some);
}

proof fn lemma_no_ops(
    attributes: Seq<(Seq<char>, AttrView)>,
    from: Seq<(Seq<char>, ValueView)>,
    to: Seq<(Seq<char>, ValueView)>,
    resource_type: Seq<char>,
)
    requires
        forall|k: Seq<char>|
            match (#[trigger] keyed::lookup(from, k), keyed::lookup(to, k)) {
                (Some(v), Some(w)) => value::same_value(v, w),
                (None, None) => true,
                _ => false,
            },
    ensures
        replacements(attributes, from, to, resource_type) == Seq::<JsonView>::empty(),
        removals(attributes, from, to) == Seq::<JsonView>::empty(),
    decreases attributes.len(),
{
    if attributes.len() > 0 {
        lemma_no_ops(attributes.drop_last(), from, to, resource_type);
        let name = attributes.last().0;
        assert(keyed::lookup(from, name) is Some == keyed::lookup(to, name) is Some);
    }
}

/// Tags come back from the items that they are written as.
pub proof fn law_tags_round_trip(tags: Seq<(Seq<char>, ValueView)>)
    requires
        keyed::distinct_keys(tags),
        forall|i: int| 0 <= i < tags.len() ==> (#[trigger] tags[i]).1 is String,
    ensures
        tags_of(tag_items(tags)) == tags,
    decreases tags.len(),
{
    if tags.len() > 0 {
        let before = tags.drop_last();
        assert forall|i: int| 0 <= i < before.len() implies (#[trigger] before[i]).1 is String by {
            assert(before[i] == tags[i]);
        }
        assert forall|i: int, j: int| 0 <= i < before.len() && 0 <= j < before.len() && i != j implies (#[trigger] before[i]).0
            != (#[trigger] before[j]).0 by {
            assert(before[i] == tags[i] && before[j] == tags[j]);
        }
        law_tags_round_trip(before);
        let last = tags[tags.len() - 1];
        let item = tag_item(last.0, last.1->String_0);
        let items = tag_items(tags);
        assert(items.drop_last() =~= tag_items(before));
        assert(items.last() == item);
        lemma_tag_texts(last.0, last.1->String_0);
        keyed::lemma_index_from(before, last.0, 0);
        if let Some(i) = keyed::index_from(before, last.0, 0) {
            assert(before[i] == tags[i]);
        }
        assert(before.push(last) =~= tags);
    }
}

proof fn lemma_tag_texts(k: Seq<char>, v: Seq<char>)
    ensures
        text_at(tag_item(k, v), "Key"@) == Some(k),
        text_at(tag_item(k, v), "Value"@) == Some(v),
{
    reveal_strlit("Key");
    reveal_strlit("Value");
    assert("Key"@.len() != "Value"@.len());
    reveal_with_fuel(keyed::index_from, 3);
}

/// What an attribute needs, a new value or its removal, is in the patch, and so
/// is what the tags need.
pub proof fn law_every_change_is_patched(
    c: ConfigView,
    from: Seq<(Seq<char>, ValueView)>,
    to: Seq<(Seq<char>, ValueView)>,
    resource_type: Seq<char>,
    i: int,
)
    requires
        0 <= i < c.schema.attributes.len(),
        c.schema.attributes[i].0 != "tags"@,
    ensures
        ({
            let (name, a) = c.schema.attributes[i];
            let patches = update_patches(c, from, to, resource_type);
            &&& replacement(name, a, from, to, resource_type) matches Some(op) ==> patches.contains(op)
            &&& removal(name, a, from, to) matches Some(op) ==> patches.contains(op)
            &&& c.has_tags && tags_change(from, to) is Some ==> patches.contains(tags_change(from, to)->0)
        }),
{
    let attributes = c.schema.attributes;
    let (name, a) = attributes[i];
    let first = replacements(attributes, from, to, resource_type);
    let second = removals(attributes, from, to);
    let ops = first + second;
    let patches = update_patches(c, from, to, resource_type);
    lemma_attribute_ops(attributes, from, to, resource_type, i);
    if let Some(op) = replacement(name, a, from, to, resource_type) {
        let k = choose|k: int| 0 <= k < first.len() && first[k] == op;
        assert(ops[k] == op);
        assert(patches[k] == op);
    }
    if let Some(op) = removal(name, a, from, to) {
        let k = choose|k: int| 0 <= k < second.len() && second[k] == op;
        assert(ops[first.len() + k] == op);
        assert(patches[first.len() + k] == op);
    }
    if c.has_tags && tags_change(from, to) is Some {
        assert(patches.last() == tags_change(from, to)->0);
    }
}

proof fn lemma_attribute_ops(
    attributes: Seq<(Seq<char>, AttrView)>,
    from: Seq<(Seq<char>, ValueView)>,
    to: Seq<(Seq<char>, ValueView)>,
    resource_type: Seq<char>,
    i: int,
)
    requires
        0 <= i < attributes.len(),
        attributes[i].0 != "tags"@,
    ensures
        replacement(attributes[i].0, attributes[i].1, from, to, resource_type) matches Some(op) ==> replacements(
            attributes,
            from,
            to,
            resource_type,
        ).contains(op),
        removal(attributes[i].0, attributes[i].1, from, to) matches Some(op) ==> removals(attributes, from, to).contains(
            op,
        ),
    decreases attributes.len(),
{
    let first = replacements(attributes, from, to, resource_type);
    let second = removals(attributes, from, to);
    if i < attributes.len() - 1 {
        let before = attributes.drop_last();
        assert(before[i] == attributes[i]);
        lemma_attribute_ops(before, from, to, resource_type, i);
        if let Some(op) = replacement(attributes[i].0, attributes[i].1, from, to, resource_type) {
            let so_far = replacements(before, from, to, resource_type);
            let k = choose|k: int| 0 <= k < so_far.len() && so_far[k] == op;
            assert(first[k] == op);
        }
        if let Some(op) = removal(attributes[i].0, attributes[i].1, from, to) {
            let so_far = removals(before, from, to);
            let k = choose|k: int| 0 <= k < so_far.len() && so_far[k] == op;
            assert(second[k] == op);
        }
    } else {
        if let Some(op) = replacement(attributes[i].0, attributes[i].1, from, to, resource_type) {
            assert(first.last() == op);
        }
        if let Some(op) = removal(attributes[i].0, attributes[i].1, from, to) {
            assert(second.last() == op);
        }
    }
}

/// An operation is what some attribute but `tags` needs.
pub open spec fn needed(
    attributes: Seq<(Seq<char>, AttrView)>,
    from: Seq<(Seq<char>, ValueView)>,
    to: Seq<(Seq<char>, ValueView)>,
    resource_type: Seq<char>,
    op: JsonView,
) -> bool {
    exists|i: int|
        0 <= i < attributes.len() && (#[trigger] attributes[i]).0 != "tags"@ && (replacement(
            attributes[i].0,
            attributes[i].1,
            from,
            to,
            resource_type,
        ) == Some(op) || removal(attributes[i].0, attributes[i].1, from, to) == Some(op))
}

/// Nothing is in the patch but what some attribute or the tags need.
pub proof fn law_only_changes_are_patched(
    c: ConfigView,
    from: Seq<(Seq<char>, ValueView)>,
    to: Seq<(Seq<char>, ValueView)>,
    resource_type: Seq<char>,
    k: int,
)
    requires
        0 <= k < update_patches(c, from, to, resource_type).len(),
    ensures
        ({
            let op = update_patches(c, from, to, resource_type)[k];
            needed(c.schema.attributes, from, to, resource_type, op) || (c.has_tags && tags_change(from, to) == Some(op))
        }),
{
    let attributes = c.schema.attributes;
    lemma_ops_needed(attributes, from, to, resource_type);
    let first = replacements(attributes, from, to, resource_type);
    let second = removals(attributes, from, to);
    let ops = first + second;
    if k < first.len() {
        assert(ops[k] == first[k]);
    } else if k < ops.len() {
        assert(ops[k] == second[k - first.len()]);
    }
}

proof fn lemma_ops_needed(
    attributes: Seq<(Seq<char>, AttrView)>,
    from: Seq<(Seq<char>, ValueView)>,
    to: Seq<(Seq<char>, ValueView)>,
    resource_type: Seq<char>,
)
    ensures
        forall|k: int|
            0 <= k < replacements(attributes, from, to, resource_type).len() ==> needed(
                attributes,
                from,
                to,
                resource_type,
                #[trigger] replacements(attributes, from, to, resource_type)[k],
            ),
        forall|k: int|
            0 <= k < removals(attributes, from, to).len() ==> needed(
                attributes,
                from,
                to,
                resource_type,
                #[trigger] removals(attributes, from, to)[k],
            ),
    decreases attributes.len(),
{
    if attributes.len() > 0 {
        let before = attributes.drop_last();
        lemma_ops_needed(before, from, to, resource_type);
        let last = attributes.len() - 1;
        assert forall|op: JsonView| needed(before, from, to, resource_type, op) implies #[trigger] needed(
            attributes,
            from,
            to,
            resource_type,
            op,
        ) by {
            let i = choose|i: int|
                0 <= i < before.len() && (#[trigger] before[i]).0 != "tags"@ && (replacement(
                    before[i].0,
                    before[i].1,
                    from,
                    to,
                    resource_type,
                ) == Some(op) || removal(before[i].0, before[i].1, from, to) == Some(op));
            assert(attributes[i] == before[i]);
        }
        let first = replacements(attributes, from, to, resource_type);
        let so_far = replacements(before, from, to, resource_type);
        assert forall|k: int| 0 <= k < first.len() implies needed(attributes, from, to, resource_type, #[trigger] first[k]) by {
            if k < so_far.len() {
                assert(first[k] == so_far[k]);
                assert(needed(before, from, to, resource_type, so_far[k]));
            } else {
                assert(attributes[last].0 != "tags"@);
            }
        }
        let second = removals(attributes, from, to);
        let kept = removals(before, from, to);
        assert forall|k: int| 0 <= k < second.len() implies needed(attributes, from, to, resource_type, #[trigger] second[k]) by {
            if k < kept.len() {
                assert(second[k] == kept[k]);
                assert(needed(before, from, to, resource_type, kept[k]));
            } else {
                assert(attributes[last].0 != "tags"@);
            }
        }
    }
}

} // verus!
