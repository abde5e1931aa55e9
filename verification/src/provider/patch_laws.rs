//! What the patch of an update does to the properties of a resource.
use vstd::prelude::*;

use crate::json;
use crate::json::JsonView;
use crate::keyed;
use crate::provider::convert;
use crate::provider::update;
use crate::schema;
use crate::schema::{AttrView, ConfigView};
use crate::value;
use crate::value::ValueView;

verus! {

/// An operation puts a value at a property: it says so, names the property
/// behind a slash, holds the value, and says nothing else.
pub open spec fn puts(op: JsonView, property: Seq<char>, j: JsonView) -> bool {
    &&& op matches JsonView::Object(m)
    &&& m.len() == 3
    &&& keyed::lookup(m, "op"@) == Some(JsonView::String("replace"@))
    &&& keyed::lookup(m, "path"@) == Some(JsonView::String("/"@ + property))
    &&& keyed::lookup(m, "value"@) == Some(j)
}

/// An operation takes a property away: it says so, names the property behind a
/// slash, and says nothing else.
pub open spec fn takes(op: JsonView, property: Seq<char>) -> bool {
    &&& op matches JsonView::Object(m)
    &&& m.len() == 2
    &&& keyed::lookup(m, "op"@) == Some(JsonView::String("remove"@))
    &&& keyed::lookup(m, "path"@) == Some(JsonView::String("/"@ + property))
}

/// The wanted value of an attribute differs from the one that it has.
pub open spec fn differs(from: Seq<(Seq<char>, ValueView)>, to: Seq<(Seq<char>, ValueView)>, name: Seq<char>) -> bool {
    &&& keyed::lookup(to, name) matches Some(v)
    &&& match keyed::lookup(from, name) {
        Some(w) => !value::same_value(w, v),
        None => true,
    }
}

/// What an attribute is to be changed to.
pub open spec fn new_json(
    from: Seq<(Seq<char>, ValueView)>,
    to: Seq<(Seq<char>, ValueView)>,
    name: Seq<char>,
    a: AttrView,
    resource_type: Seq<char>,
) -> Option<JsonView> {
    if differs(from, to, name) {
        convert::to_aws(keyed::lookup(to, name)->0, a.attr_type, resource_type, name)
    } else {
        None
    }
}

/// An attribute is wanted no more, and the provider lets it be taken away.
pub open spec fn is_given_up(
    from: Seq<(Seq<char>, ValueView)>,
    to: Seq<(Seq<char>, ValueView)>,
    name: Seq<char>,
    a: AttrView,
) -> bool {
    !a.required && !a.create_only && keyed::lookup(from, name) is Some && keyed::lookup(to, name) is None
}

proof fn lemma_op_members()
    ensures
        forall|p: Seq<char>, j: JsonView| puts(#[trigger] update::replace_op(p, j), p, j),
        forall|p: Seq<char>| takes(#[trigger] update::remove_op(p), p),
        "replace"@ != "remove"@,
{
    reveal_strlit("op");
    reveal_strlit("path");
    reveal_strlit("value");
    reveal_strlit("replace");
    reveal_strlit("remove");
    assert("op"@.len() == 2 && "path"@.len() == 4 && "value"@.len() == 5);
    assert("replace"@.len() == 7 && "remove"@.len() == 6);
    reveal_with_fuel(keyed::index_from, 4);
}

/// A wanted value that the resource does not have, because it has another or none
/// at all, is put at the property of its attribute.
pub proof fn law_new_values_are_put(
    c: ConfigView,
    from: Seq<(Seq<char>, ValueView)>,
    to: Seq<(Seq<char>, ValueView)>,
    resource_type: Seq<char>,
    i: int,
)
    requires
        0 <= i < c.schema.attributes.len(),
        c.schema.attributes[i].0 != "tags"@,
        c.schema.attributes[i].1.provider_name is Some,
        differs(from, to, c.schema.attributes[i].0),
        ({
            let (name, a) = c.schema.attributes[i];
            convert::to_aws(keyed::lookup(to, name)->0, a.attr_type, resource_type, name) is Some
        }),
    ensures
        ({
            let (name, a) = c.schema.attributes[i];
            let patches = update::update_patches(c, from, to, resource_type);
            let j = convert::to_aws(keyed::lookup(to, name)->0, a.attr_type, resource_type, name)->0;
            exists|k: int| 0 <= k < patches.len() && puts(#[trigger] patches[k], a.provider_name->0, j)
        }),
{
    let (name, a) = c.schema.attributes[i];
    let patches = update::update_patches(c, from, to, resource_type);
    let j = convert::to_aws(keyed::lookup(to, name)->0, a.attr_type, resource_type, name)->0;
    let op = update::replace_op(a.provider_name->0, j);
    lemma_op_members();
    update::law_every_change_is_patched(c, from, to, resource_type, i);
    assert(update::replacement(name, a, from, to, resource_type) == Some(op));
    let k = choose|k: int| 0 <= k < patches.len() && patches[k] == op;
    assert(puts(patches[k], a.provider_name->0, j));
}

/// An attribute that is wanted no more is taken away, unless it is required or
/// set for good when the resource is created.
pub proof fn law_given_up_values_are_taken(
    c: ConfigView,
    from: Seq<(Seq<char>, ValueView)>,
    to: Seq<(Seq<char>, ValueView)>,
    resource_type: Seq<char>,
    i: int,
)
    requires
        0 <= i < c.schema.attributes.len(),
        c.schema.attributes[i].0 != "tags"@,
        c.schema.attributes[i].1.provider_name is Some,
        is_given_up(from, to, c.schema.attributes[i].0, c.schema.attributes[i].1),
    ensures
        ({
            let property = c.schema.attributes[i].1.provider_name->0;
            let patches = update::update_patches(c, from, to, resource_type);
            exists|k: int| 0 <= k < patches.len() && takes(#[trigger] patches[k], property)
        }),
{
    let (name, a) = c.schema.attributes[i];
    let patches = update::update_patches(c, from, to, resource_type);
    let op = update::remove_op(a.provider_name->0);
    lemma_op_members();
    update::law_every_change_is_patched(c, from, to, resource_type, i);
    assert(update::removal(name, a, from, to) == Some(op));
    let k = choose|k: int| 0 <= k < patches.len() && patches[k] == op;
    assert(takes(patches[k], a.provider_name->0));
}

/// An operation is due to an attribute but `tags`.
pub open spec fn is_due(
    op: JsonView,
    entry: (Seq<char>, AttrView),
    from: Seq<(Seq<char>, ValueView)>,
    to: Seq<(Seq<char>, ValueView)>,
    resource_type: Seq<char>,
) -> bool {
    let (name, a) = entry;
    &&& name != "tags"@
    &&& a.provider_name matches Some(property)
    &&& (new_json(from, to, name, a, resource_type) matches Some(j) && puts(op, property, j)) || (is_given_up(
        from,
        to,
        name,
        a,
    ) && takes(op, property))
}

/// Nothing else is in the patch: every operation puts a new value of an attribute,
/// takes one away that is given up, or is about the tags.
pub proof fn law_only_due_operations(
    c: ConfigView,
    from: Seq<(Seq<char>, ValueView)>,
    to: Seq<(Seq<char>, ValueView)>,
    resource_type: Seq<char>,
    k: int,
)
    requires
        0 <= k < update::update_patches(c, from, to, resource_type).len(),
    ensures
        ({
            let op = update::update_patches(c, from, to, resource_type)[k];
            ||| exists|i: int|
                0 <= i < c.schema.attributes.len() && is_due(
                    op,
                    #[trigger] c.schema.attributes[i],
                    from,
                    to,
                    resource_type,
                )
            ||| c.has_tags && takes(op, "Tags"@)
            ||| c.has_tags && exists|items: JsonView| puts(op, "Tags"@, items)
        }),
{
    let attributes = c.schema.attributes;
    let op = update::update_patches(c, from, to, resource_type)[k];
    lemma_op_members();
    update::law_only_changes_are_patched(c, from, to, resource_type, k);
    if update::needed(attributes, from, to, resource_type, op) {
        let i = choose|i: int|
            0 <= i < attributes.len() && (#[trigger] attributes[i]).0 != "tags"@ && (update::replacement(
                attributes[i].0,
                attributes[i].1,
                from,
                to,
                resource_type,
            ) == Some(op) || update::removal(attributes[i].0, attributes[i].1, from, to) == Some(op));
        assert(is_due(op, attributes[i], from, to, resource_type));
    } else if let Some(ValueView::Mapping(tags)) = keyed::lookup(to, "tags"@) {
        assert(puts(op, "Tags"@, JsonView::Array(update::tag_items(tags))));
    }
}

/// The properties after an operation.
pub open spec fn done(props: Seq<(Seq<char>, JsonView)>, op: JsonView) -> Seq<(Seq<char>, JsonView)> {
    match (json::view_member(op, "op"@), json::view_member(op, "path"@), json::view_member(op, "value"@)) {
        (Some(JsonView::String(kind)), Some(JsonView::String(path)), j) => if kind == "remove"@ {
            keyed::without(props, path.skip(1))
        } else if kind == "replace"@ && j is Some {
            keyed::set(props, path.skip(1), j->0)
        } else {
            props
        },
        _ => props,
    }
}

/// The properties after the operations of a patch, one after the other.
pub open spec fn all_done(props: Seq<(Seq<char>, JsonView)>, ops: Seq<JsonView>) -> Seq<(Seq<char>, JsonView)>
    decreases ops.len(),
{
    if ops.len() == 0 {
        props
    } else {
        done(all_done(props, ops.drop_last()), ops.last())
    }
}

proof fn lemma_done(props: Seq<(Seq<char>, JsonView)>, op: JsonView, property: Seq<char>, other: Seq<char>)
    requires
        keyed::distinct_keys(props),
    ensures
        keyed::distinct_keys(done(props, op)),
        forall|j: JsonView|
            #[trigger] puts(op, property, j) ==> keyed::lookup(done(props, op), other) == if other == property {
                Some(j)
            } else {
                keyed::lookup(props, other)
            },
        takes(op, property) ==> keyed::lookup(done(props, op), other) == if other == property {
            None
        } else {
            keyed::lookup(props, other)
        },
{
    lemma_op_members();
    reveal_strlit("/");
    let path = "/"@ + property;
    assert(path.skip(1) =~= property);
    if let (Some(JsonView::String(p)), j) = (json::view_member(op, "path"@), json::view_member(op, "value"@)) {
        keyed::law_without_then_lookup(props, p.skip(1), other);
        if j is Some {
            keyed::law_set_then_lookup(props, p.skip(1), j->0, other);
        }
    }
}

proof fn lemma_all_done_behind(props: Seq<(Seq<char>, JsonView)>, a: Seq<JsonView>, b: Seq<JsonView>)
    ensures
        all_done(props, a + b) == all_done(all_done(props, a), b),
    decreases b.len(),
{
    if b.len() > 0 {
        lemma_all_done_behind(props, a, b.drop_last());
        assert((a + b).drop_last() =~= a + b.drop_last());
        assert((a + b).last() == b.last());
    } else {
        assert(a + b =~= a);
    }
}

/// No attribute but `tags` has a property.
spec fn nobody_has(attributes: Seq<(Seq<char>, AttrView)>, property: Seq<char>) -> bool {
    forall|k: int|
        0 <= k < attributes.len() && (#[trigger] attributes[k]).0 != "tags"@ ==> attributes[k].1.provider_name != Some(
            property,
        )
}

proof fn lemma_push_done(props: Seq<(Seq<char>, JsonView)>, ops: Seq<JsonView>, op: JsonView)
    ensures
        all_done(props, ops.push(op)) == done(all_done(props, ops), op),
{
    assert(ops.push(op).drop_last() =~= ops);
}

/// What the operations for some attributes leave of a property.
proof fn lemma_attributes_done(
    attributes: Seq<(Seq<char>, AttrView)>,
    props: Seq<(Seq<char>, JsonView)>,
    from: Seq<(Seq<char>, ValueView)>,
    to: Seq<(Seq<char>, ValueView)>,
    resource_type: Seq<char>,
    property: Seq<char>,
)
    requires
        schema::distinct_properties(attributes),
        keyed::distinct_keys(props),
    ensures
        ({
            let first = all_done(props, update::replacements(attributes, from, to, resource_type));
            let second = all_done(props, update::removals(attributes, from, to));
            &&& keyed::distinct_keys(first)
            &&& keyed::distinct_keys(second)
            &&& nobody_has(attributes, property) ==> keyed::lookup(first, property) == keyed::lookup(props, property)
                && keyed::lookup(second, property) == keyed::lookup(props, property)
            &&& forall|i: int|
                0 <= i < attributes.len() && (#[trigger] attributes[i]).0 != "tags"@ && attributes[i].1.provider_name
                    == Some(property) ==> {
                    &&& keyed::lookup(first, property) == match new_json(
                        from,
                        to,
                        attributes[i].0,
                        attributes[i].1,
                        resource_type,
                    ) {
                        Some(j) => Some(j),
                        None => keyed::lookup(props, property),
                    }
                    &&& keyed::lookup(second, property) == if is_given_up(from, to, attributes[i].0, attributes[i].1) {
                        None
                    } else {
                        keyed::lookup(props, property)
                    }
                }
        }),
    decreases attributes.len(),
{
    if attributes.len() > 0 {
        let before = attributes.drop_last();
        let (name, a) = attributes.last();
        let n = attributes.len() - 1;
        assert(attributes[n] == (name, a));
        assert forall|k: int| 0 <= k < before.len() implies #[trigger] before[k] == attributes[k] by {}
        assert(schema::distinct_properties(before));
        lemma_attributes_done(before, props, from, to, resource_type, property);
        lemma_op_members();
        let puts_before = update::replacements(before, from, to, resource_type);
        let takes_before = update::removals(before, from, to);
        if name != "tags"@ {
            if let Some(op) = update::replacement(name, a, from, to, resource_type) {
                let j = convert::to_aws(keyed::lookup(to, name)->0, a.attr_type, resource_type, name)->0;
                lemma_push_done(props, puts_before, op);
                lemma_done(all_done(props, puts_before), op, a.provider_name->0, property);
                assert(puts(op, a.provider_name->0, j));
            }
            if let Some(op) = update::removal(name, a, from, to) {
                lemma_push_done(props, takes_before, op);
                lemma_done(all_done(props, takes_before), op, a.provider_name->0, property);
                assert(takes(op, a.provider_name->0));
            }
        }
        if nobody_has(attributes, property) {
            assert(nobody_has(before, property)) by {
                assert forall|k: int| 0 <= k < before.len() && (#[trigger] before[k]).0 != "tags"@ implies before[k].1.provider_name
                    != Some(property) by {
                    assert(attributes[k].1.provider_name != Some(property));
                }
            }
        }
        if name != "tags"@ && a.provider_name == Some(property) {
            assert(nobody_has(before, property)) by {
                assert forall|k: int| 0 <= k < before.len() && (#[trigger] before[k]).0 != "tags"@ implies before[k].1.provider_name
                    != Some(property) by {
                    assert(attributes[n].1.provider_name != attributes[k].1.provider_name);
                }
            }
        }
        assert forall|i: int|
            0 <= i < attributes.len() && (#[trigger] attributes[i]).0 != "tags"@ && attributes[i].1.provider_name == Some(
                property,
            ) implies {
            &&& keyed::lookup(all_done(props, update::replacements(attributes, from, to, resource_type)), property)
                == match new_json(from, to, attributes[i].0, attributes[i].1, resource_type) {
                Some(j) => Some(j),
                None => keyed::lookup(props, property),
            }
            &&& keyed::lookup(all_done(props, update::removals(attributes, from, to)), property) == if is_given_up(
                from,
                to,
                attributes[i].0,
                attributes[i].1,
            ) {
                None
            } else {
                keyed::lookup(props, property)
            }
        } by {
            if i < n {
                assert(before[i] == attributes[i]);
                assert(attributes[i].1.provider_name != attributes[n].1.provider_name);
            }
        }
    }
}

/// What the patch makes of the property of an attribute: the wanted value where it
/// is new, nothing where the attribute is given up, and else what was there.
pub proof fn law_patch_makes_what_is_wanted(
    c: ConfigView,
    props: Seq<(Seq<char>, JsonView)>,
    from: Seq<(Seq<char>, ValueView)>,
    to: Seq<(Seq<char>, ValueView)>,
    resource_type: Seq<char>,
    i: int,
)
    requires
        schema::distinct_properties(c.schema.attributes),
        keyed::distinct_keys(props),
        0 <= i < c.schema.attributes.len(),
        c.schema.attributes[i].0 != "tags"@,
        c.schema.attributes[i].1.provider_name is Some,
    ensures
        ({
            let (name, a) = c.schema.attributes[i];
            let property = a.provider_name->0;
            let after = all_done(props, update::update_patches(c, from, to, resource_type));
            keyed::lookup(after, property) == if is_given_up(from, to, name, a) {
                None
            } else {
                match new_json(from, to, name, a, resource_type) {
                    Some(j) => Some(j),
                    None => keyed::lookup(props, property),
                }
            }
        }),
{
    let attributes = c.schema.attributes;
    let (name, a) = attributes[i];
    let property = a.provider_name->0;
    let first = update::replacements(attributes, from, to, resource_type);
    let second = update::removals(attributes, from, to);
    lemma_attributes_done(attributes, props, from, to, resource_type, property);
    lemma_all_done_behind(props, first, second);
    let middle = all_done(props, first);
    lemma_attributes_done(attributes, middle, from, to, resource_type, property);
    if c.has_tags {
        if let Some(op) = update::tags_change(from, to) {
            let both = all_done(props, first + second);
            lemma_op_members();
            lemma_push_done(props, first + second, op);
            lemma_done(both, op, "Tags"@, property);
            if let Some(ValueView::Mapping(tags)) = keyed::lookup(to, "tags"@) {
                assert(puts(op, "Tags"@, JsonView::Array(update::tag_items(tags))));
            }
            assert(property != "Tags"@);
        }
    }
}

/// What the patch makes of the tags: the wanted ones where they are new and any of
/// them is a text, nothing where no tags are wanted any more, and else what was
/// there.
pub proof fn law_patch_makes_the_wanted_tags(
    c: ConfigView,
    props: Seq<(Seq<char>, JsonView)>,
    from: Seq<(Seq<char>, ValueView)>,
    to: Seq<(Seq<char>, ValueView)>,
    resource_type: Seq<char>,
)
    requires
        schema::distinct_properties(c.schema.attributes),
        keyed::distinct_keys(props),
        c.has_tags,
    ensures
        ({
            let after = keyed::lookup(all_done(props, update::update_patches(c, from, to, resource_type)), "Tags"@);
            match keyed::lookup(to, "tags"@) {
                Some(ValueView::Mapping(tags)) => {
                    let same = keyed::lookup(from, "tags"@) matches Some(was) && was is Mapping && value::same_value(
                        was,
                        ValueView::Mapping(tags),
                    );
                    let some = exists|i: int| 0 <= i < tags.len() && (#[trigger] tags[i]).1 is String;
                    after == if !same && some {
                        Some(JsonView::Array(update::tag_items(tags)))
                    } else {
                        keyed::lookup(props, "Tags"@)
                    }
                },
                _ => after == if keyed::lookup(from, "tags"@) is Some {
                    None
                } else {
                    keyed::lookup(props, "Tags"@)
                },
            }
        }),
{
    let attributes = c.schema.attributes;
    let first = update::replacements(attributes, from, to, resource_type);
    let second = update::removals(attributes, from, to);
    assert(nobody_has(attributes, "Tags"@));
    lemma_attributes_done(attributes, props, from, to, resource_type, "Tags"@);
    lemma_all_done_behind(props, first, second);
    lemma_attributes_done(attributes, all_done(props, first), from, to, resource_type, "Tags"@);
    let both = all_done(props, first + second);
    if let Some(ValueView::Mapping(tags)) = keyed::lookup(to, "tags"@) {
        lemma_some_items(tags);
    }
    if let Some(op) = update::tags_change(from, to) {
        lemma_op_members();
        lemma_push_done(props, first + second, op);
        lemma_done(both, op, "Tags"@, "Tags"@);
        if let Some(ValueView::Mapping(tags)) = keyed::lookup(to, "tags"@) {
            assert(puts(op, "Tags"@, JsonView::Array(update::tag_items(tags))));
        }
    }
}

proof fn lemma_some_items(tags: Seq<(Seq<char>, ValueView)>)
    ensures
        update::tag_items(tags).len() > 0 <==> exists|i: int| 0 <= i < tags.len() && (#[trigger] tags[i]).1 is String,
    decreases tags.len(),
{
    if tags.len() > 0 {
        let before = tags.drop_last();
        lemma_some_items(before);
        let n = tags.len() - 1;
        if tags[n].1 is String {
            assert(update::tag_items(tags).len() > 0);
        }
        if exists|i: int| 0 <= i < before.len() && (#[trigger] before[i]).1 is String {
            let i = choose|i: int| 0 <= i < before.len() && (#[trigger] before[i]).1 is String;
            assert(tags[i].1 is String);
        }
        if exists|i: int| 0 <= i < tags.len() && (#[trigger] tags[i]).1 is String {
            let i = choose|i: int| 0 <= i < tags.len() && (#[trigger] tags[i]).1 is String;
            if i < n {
                assert(before[i].1 is String);
            }
        }
    }
}

/// Tags are sent one by one, in order, each that is a text as an object with its
/// key and its text; others are left out.
pub proof fn law_tags_are_sent(a: Seq<(Seq<char>, ValueView)>, key: Seq<char>, v: ValueView)
    ensures
        update::user_tags(Some(ValueView::Mapping(Seq::empty()))) == Seq::<JsonView>::empty(),
        update::user_tags(None) == Seq::<JsonView>::empty(),
        !(v is Mapping) ==> update::user_tags(Some(v)) == Seq::<JsonView>::empty(),
        ({
            let before = update::user_tags(Some(ValueView::Mapping(a)));
            let after = update::user_tags(Some(ValueView::Mapping(a.push((key, v)))));
            match v {
                ValueView::String(s) => {
                    &&& after.len() == before.len() + 1
                    &&& after.drop_last() == before
                    &&& after.last() matches JsonView::Object(m) && m.len() == 2 && keyed::lookup(m, "Key"@) == Some(
                        JsonView::String(key),
                    ) && keyed::lookup(m, "Value"@) == Some(JsonView::String(s))
                },
                _ => after == before,
            }
        }),
{
    assert(a.push((key, v)).drop_last() =~= a);
    reveal_strlit("Key");
    reveal_strlit("Value");
    assert("Key"@.len() == 3 && "Value"@.len() == 5);
    reveal_with_fuel(keyed::index_from, 3);
    let before = update::tag_items(a);
    let after = update::tag_items(a.push((key, v)));
    if v is String {
        assert(after.drop_last() =~= before);
    }
}

/// The tags of a resource are read from the items of its properties, each under
/// its key; a later one with the same key replaces an earlier one, and what lacks
/// a key or a text is left out.
pub proof fn law_tags_are_read(items: Seq<JsonView>, item: JsonView, key: Seq<char>)
    ensures
        update::tags_of(Seq::<JsonView>::empty()) == Seq::<(Seq<char>, ValueView)>::empty(),
        ({
            let before = update::tags_of(items);
            let after = update::tags_of(items.push(item));
            match (json::view_member(item, "Key"@), json::view_member(item, "Value"@)) {
                (Some(JsonView::String(k)), Some(JsonView::String(v))) => keyed::lookup(after, key) == if key == k {
                    Some(ValueView::String(v))
                } else {
                    keyed::lookup(before, key)
                },
                _ => after == before,
            }
        }),
{
    assert(items.push(item).drop_last() =~= items);
    if let (Some(JsonView::String(k)), Some(JsonView::String(v))) = (
        json::view_member(item, "Key"@),
        json::view_member(item, "Value"@),
    ) {
        keyed::law_set_then_lookup(update::tags_of(items), k, ValueView::String(v), key);
    }
}

} // verus!
