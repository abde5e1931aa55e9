//! What creating, reading, updating and deleting a resource send and give.
use vstd::prelude::*;

use crate::json;
use crate::json::JsonView;
use crate::keyed;
use crate::provider::cloud_control;
use crate::provider::cloud_control::{VersionEntry, VersionsPage};
use crate::provider::convert;
use crate::provider::normalizer;
use crate::provider::operations;
use crate::provider::update;
use crate::resource::{IdView, ResourceId, StateView};
use crate::schema;
use crate::schema::{AttrView, ConfigView};
use crate::schemas::registry;
use crate::text;
use crate::value;
use crate::value::{DslValue, ValueView};

verus! {

/// A create sends every wanted attribute of the schema that can be sent, under the
/// name that the service has for it.
pub proof fn law_create_sends_what_is_wanted(
    c: ConfigView,
    wanted: Seq<(Seq<char>, ValueView)>,
    resource_type: Seq<char>,
    i: int,
    property: Seq<char>,
    v: ValueView,
    j: JsonView,
)
    requires
        schema::distinct_properties(c.schema.attributes),
        0 <= i < c.schema.attributes.len(),
        c.schema.attributes[i].0 != "tags"@,
        c.schema.attributes[i].1.provider_name == Some(property),
        keyed::lookup(wanted, c.schema.attributes[i].0) == Some(v),
        convert::to_aws(v, c.schema.attributes[i].1.attr_type, resource_type, c.schema.attributes[i].0) == Some(j),
    ensures
        json::view_member(operations::desired_state(c, wanted, resource_type), property) == Some(j),
{
    let attributes = c.schema.attributes;
    let members = operations::desired_members(attributes, wanted, resource_type);
    let tags = update::user_tags(keyed::lookup(wanted, "tags"@));
    operations::lemma_desired_member(attributes, wanted, resource_type, i);
    keyed::law_set_then_lookup(members, "Tags"@, JsonView::Array(tags), property);
    let tagged = if c.has_tags && tags.len() > 0 {
        keyed::set(members, "Tags"@, JsonView::Array(tags))
    } else {
        members
    };
    keyed::law_set_then_lookup(tagged, "Domain"@, JsonView::String("vpc"@), property);
}

/// An attribute that is sent under a property.
pub open spec fn sends(
    name: Seq<char>,
    a: AttrView,
    wanted: Seq<(Seq<char>, ValueView)>,
    resource_type: Seq<char>,
    property: Seq<char>,
) -> bool {
    &&& name != "tags"@
    &&& a.provider_name == Some(property)
    &&& keyed::lookup(wanted, name) matches Some(v) && convert::to_aws(v, a.attr_type, resource_type, name) is Some
}

/// A create sends nothing but what is wanted of the attributes of the schema, the
/// tags where the type has any, and the domain of an address.
pub proof fn law_create_sends_nothing_else(
    c: ConfigView,
    wanted: Seq<(Seq<char>, ValueView)>,
    resource_type: Seq<char>,
    property: Seq<char>,
)
    requires
        forall|i: int|
            0 <= i < c.schema.attributes.len() ==> !sends(
                (#[trigger] c.schema.attributes[i]).0,
                c.schema.attributes[i].1,
                wanted,
                resource_type,
                property,
            ),
    ensures
        ({
            let sent = json::view_member(operations::desired_state(c, wanted, resource_type), property);
            let tags = update::user_tags(keyed::lookup(wanted, "tags"@));
            if property == "Tags"@ && c.has_tags && tags.len() > 0 {
                sent == Some(JsonView::Array(tags))
            } else if property == "Domain"@ && resource_type == "ec2.eip"@ {
                sent == Some(JsonView::String("vpc"@))
            } else {
                sent is None
            }
        }),
{
    reveal_strlit("Tags");
    reveal_strlit("Domain");
    assert("Tags"@.len() != "Domain"@.len());
    let members = operations::desired_members(c.schema.attributes, wanted, resource_type);
    let tags = update::user_tags(keyed::lookup(wanted, "tags"@));
    lemma_unsent(c.schema.attributes, wanted, resource_type, property);
    keyed::law_set_then_lookup(members, "Tags"@, JsonView::Array(tags), property);
    let tagged = if c.has_tags && tags.len() > 0 {
        keyed::set(members, "Tags"@, JsonView::Array(tags))
    } else {
        members
    };
    keyed::law_set_then_lookup(tagged, "Domain"@, JsonView::String("vpc"@), property);
}

proof fn lemma_unsent(
    attributes: Seq<(Seq<char>, AttrView)>,
    wanted: Seq<(Seq<char>, ValueView)>,
    resource_type: Seq<char>,
    property: Seq<char>,
)
    requires
        forall|i: int|
            0 <= i < attributes.len() ==> !sends(
                (#[trigger] attributes[i]).0,
                attributes[i].1,
                wanted,
                resource_type,
                property,
            ),
    ensures
        keyed::lookup(operations::desired_members(attributes, wanted, resource_type), property) is None,
    decreases attributes.len(),
{
    if attributes.len() > 0 {
        let before = attributes.drop_last();
        let (name, a) = attributes.last();
        assert(attributes[attributes.len() - 1] == (name, a));
        assert forall|i: int| 0 <= i < before.len() implies !sends(
            (#[trigger] before[i]).0,
            before[i].1,
            wanted,
            resource_type,
            property,
        ) by {
            assert(before[i] == attributes[i]);
        }
        lemma_unsent(before, wanted, resource_type, property);
        if let (Some(p), Some(v)) = (a.provider_name, keyed::lookup(wanted, name)) {
            if let Some(j) = convert::to_aws(v, a.attr_type, resource_type, name) {
                keyed::law_set_then_lookup(
                    operations::desired_members(before, wanted, resource_type),
                    p,
                    j,
                    property,
                );
            }
        }
    }
}

/// A read gives every attribute of the schema whose property the service returned,
/// as it is read from that property, and none whose property is missing.
pub proof fn law_read_gives_the_properties(c: ConfigView, props: JsonView, resource_type: Seq<char>, i: int)
    requires
        keyed::distinct_keys(c.schema.attributes),
        0 <= i < c.schema.attributes.len(),
        c.schema.attributes[i].0 != "tags"@,
        !operations::is_special(resource_type, c.schema.attributes[i].0),
    ensures
        ({
            let (name, a) = c.schema.attributes[i];
            let read = keyed::lookup(operations::read_attributes(c, props, resource_type), name);
            &&& a.provider_name is None ==> read is None
            &&& a.provider_name matches Some(property) ==> match json::view_member(props, property) {
                Some(j) => read == convert::to_dsl(name, j, a.attr_type, resource_type),
                None => read is None,
            }
        }),
{
    let name = c.schema.attributes[i].0;
    operations::lemma_property_value(c.schema.attributes, props, resource_type, i);
    let values = operations::property_values(c.schema.attributes, props, resource_type);
    operations::lemma_with_tags(values, props, name);
    let tagged = if c.has_tags {
        operations::with_tags(values, props)
    } else {
        values
    };
    operations::lemma_with_special(tagged, resource_type, props, name);
}

/// A read gives no attribute that the schema does not have, but for the tags and
/// those that some types have from elsewhere.
pub proof fn law_read_gives_nothing_else(c: ConfigView, props: JsonView, resource_type: Seq<char>, name: Seq<char>)
    requires
        keyed::lookup(c.schema.attributes, name) is None,
        name != "tags"@,
        !operations::is_special(resource_type, name),
    ensures
        keyed::lookup(operations::read_attributes(c, props, resource_type), name) is None,
{
    keyed::lemma_index_from(c.schema.attributes, name, 0);
    operations::lemma_not_read(c.schema.attributes, props, resource_type, name);
    let values = operations::property_values(c.schema.attributes, props, resource_type);
    operations::lemma_with_tags(values, props, name);
    let tagged = if c.has_tags {
        operations::with_tags(values, props)
    } else {
        values
    };
    operations::lemma_with_special(tagged, resource_type, props, name);
}

/// A read gives the tags of the properties where the type has tags and at least one
/// tag is there, and no tags else.
pub proof fn law_read_gives_tags(c: ConfigView, props: JsonView, resource_type: Seq<char>)
    ensures
        ({
            let read = keyed::lookup(operations::read_attributes(c, props, resource_type), "tags"@);
            match json::view_member(props, "Tags"@) {
                Some(JsonView::Array(items)) => if c.has_tags && update::tags_of(items).len() > 0 {
                    read == Some(ValueView::Mapping(update::tags_of(items)))
                } else {
                    read is None
                },
                _ => read is None,
            }
        }),
{
    lemma_tags_apart(c.schema.attributes, props, resource_type);
    reveal_strlit("tags");
    reveal_strlit("vpc_id");
    reveal_strlit("route_table_ids");
    assert("tags"@.len() != "vpc_id"@.len() && "tags"@.len() != "route_table_ids"@.len());
    let values = operations::property_values(c.schema.attributes, props, resource_type);
    if let Some(items) = operations::items_at(props, "Tags"@) {
        keyed::law_set_then_lookup(values, "tags"@, ValueView::Mapping(update::tags_of(items)), "tags"@);
    }
    let tagged = if c.has_tags {
        operations::with_tags(values, props)
    } else {
        values
    };
    operations::lemma_with_special(tagged, resource_type, props, "tags"@);
}

proof fn lemma_tags_apart(attributes: Seq<(Seq<char>, AttrView)>, props: JsonView, resource_type: Seq<char>)
    ensures
        keyed::lookup(operations::property_values(attributes, props, resource_type), "tags"@) is None,
    decreases attributes.len(),
{
    if attributes.len() > 0 {
        let (name, a) = attributes.last();
        let before = attributes.drop_last();
        lemma_tags_apart(before, props, resource_type);
        if let Some(v) = operations::property_value(name, a, props, resource_type) {
            keyed::law_set_then_lookup(
                operations::property_values(before, props, resource_type),
                name,
                v,
                "tags"@,
            );
        }
    }
}

/// An internet gateway has the VPC of its first attachment, and an endpoint the
/// route tables that the service lists, in order.
pub proof fn law_read_gives_what_is_attached(c: ConfigView, props: JsonView, items: Seq<JsonView>, id: Seq<char>)
    requires
        items.len() > 0,
    ensures
        ({
            let read = operations::read_attributes(c, props, "ec2.internet_gateway"@);
            json::view_member(props, "Attachments"@) == Some(JsonView::Array(items)) && json::view_member(
                items[0],
                "VpcId"@,
            ) == Some(JsonView::String(id)) ==> keyed::lookup(read, "vpc_id"@) == Some(ValueView::String(id))
        }),
        ({
            let read = operations::read_attributes(c, props, "ec2.vpc_endpoint"@);
            json::view_member(props, "RouteTableIds"@) == Some(JsonView::Array(items)) && (forall|i: int|
                0 <= i < items.len() ==> #[trigger] items[i] is String) ==> keyed::lookup(read, "route_table_ids"@) == Some(
                ValueView::List(Seq::new(items.len(), |i: int| ValueView::String(items[i]->String_0))),
            )
        }),
{
    reveal_strlit("ec2.internet_gateway");
    reveal_strlit("ec2.vpc_endpoint");
    assert("ec2.internet_gateway"@.len() != "ec2.vpc_endpoint"@.len());
    let gateway = operations::property_values(c.schema.attributes, props, "ec2.internet_gateway"@);
    let gateway = if c.has_tags {
        operations::with_tags(gateway, props)
    } else {
        gateway
    };
    keyed::law_set_then_lookup(gateway, "vpc_id"@, ValueView::String(id), "vpc_id"@);
    let endpoint = operations::property_values(c.schema.attributes, props, "ec2.vpc_endpoint"@);
    let endpoint = if c.has_tags {
        operations::with_tags(endpoint, props)
    } else {
        endpoint
    };
    let listed = ValueView::List(operations::string_items(items));
    keyed::law_set_then_lookup(endpoint, "route_table_ids"@, listed, "route_table_ids"@);
    if forall|i: int| 0 <= i < items.len() ==> #[trigger] items[i] is String {
        lemma_texts(items);
    }
}

proof fn lemma_texts(items: Seq<JsonView>)
    requires
        forall|i: int| 0 <= i < items.len() ==> #[trigger] items[i] is String,
    ensures
        operations::string_items(items) == Seq::new(items.len(), |i: int| ValueView::String(items[i]->String_0)),
    decreases items.len(),
{
    let all = Seq::new(items.len(), |i: int| ValueView::String(items[i]->String_0));
    if items.len() > 0 {
        let before = items.drop_last();
        assert forall|i: int| 0 <= i < before.len() implies #[trigger] before[i] is String by {
            assert(before[i] == items[i]);
        }
        lemma_texts(before);
        assert(items.last() == items[items.len() - 1]);
    }
    assert(operations::string_items(items) =~= all);
}

/// A resource exists after a read exactly when the service returned properties for
/// it, and is then known by the identifier that it was asked for.
pub proof fn law_read_tells_what_exists(c: ConfigView, id: IdView, identifier: Seq<char>, props: Option<JsonView>)
    ensures
        ({
            let s = operations::read_state(c, id, identifier, props);
            &&& s.id == id
            &&& s.exists <==> props is Some
            &&& s.identifier == if props is Some {
                Some(identifier)
            } else {
                None
            }
            &&& props is None ==> s.attributes.len() == 0
            &&& props matches Some(j) ==> s.attributes == operations::read_attributes(c, j, id.resource_type)
        }),
{
}

/// After a create or an update an attribute has the value that was read. Where none
/// was read, it has the wanted one. What the schema does not have is not added, and
/// all else of the state stays.
pub proof fn law_settling_completes_what_was_read(
    c: ConfigView,
    read: StateView,
    wanted: Seq<(Seq<char>, ValueView)>,
    name: Seq<char>,
)
    ensures
        ({
            let s = operations::settled(c, read, wanted);
            let now = keyed::lookup(s.attributes, name);
            &&& s.id == read.id && s.exists == read.exists && s.identifier == read.identifier
            &&& keyed::lookup(read.attributes, name) is Some ==> now == keyed::lookup(read.attributes, name)
            &&& keyed::lookup(read.attributes, name) is None && keyed::lookup(c.schema.attributes, name) is Some
                ==> now == keyed::lookup(wanted, name)
            &&& keyed::lookup(read.attributes, name) is None && keyed::lookup(c.schema.attributes, name) is None
                ==> now is None
        }),
{
    normalizer::law_carried(read.attributes, wanted, c.schema.attributes, name);
}

/// A gateway is detached by one operation, which takes its attachments away, where
/// it has at least one, and by none else.
pub proof fn law_only_what_is_attached_is_detached(props: JsonView)
    ensures
        operations::detachment(None).len() == 0,
        ({
            let ops = operations::detachment(Some(props));
            match json::view_member(props, "Attachments"@) {
                Some(JsonView::Array(items)) => if items.len() == 0 {
                    ops.len() == 0
                } else {
                    &&& ops.len() == 1
                    &&& json::view_member(ops[0], "op"@) == Some(JsonView::String("remove"@))
                    &&& json::view_member(ops[0], "path"@) == Some(JsonView::String("/Attachments"@))
                    &&& json::view_member(ops[0], "value"@) is None
                },
                _ => ops.len() == 0,
            }
        }),
{
    reveal_strlit("op");
    reveal_strlit("path");
    reveal_strlit("value");
    reveal_strlit("/");
    reveal_strlit("Attachments");
    reveal_strlit("/Attachments");
    assert("op"@.len() == 2 && "path"@.len() == 4 && "value"@.len() == 5);
    assert("/Attachments"@ =~= "/"@ + "Attachments"@);
    reveal_with_fuel(keyed::index_from, 3);
}

/// Errors name the resource type and carry the id of the resource.
pub proof fn law_errors_name_the_resource(id: IdView)
    ensures
        operations::unknown_type(id).resource_id == Some(id),
        operations::unknown_type(id).message == "Unknown resource type: "@ + id.resource_type,
        operations::replace_only(id).resource_id == Some(id),
        operations::replace_only(id).message == "Update not supported for "@ + id.resource_type + ", delete and recreate"@,
{
}

/// The saved attributes of a resource are those of the first entry with its id; none
/// where no entry has it.
pub proof fn law_saved_attributes_are_found(saved: Seq<(ResourceId, Vec<(String, DslValue)>)>, id: IdView, k: int)
    requires
        0 <= k <= saved.len(),
        forall|i: int| 0 <= i < k ==> (#[trigger] saved[i]).0@ != id,
    ensures
        k == saved.len() ==> normalizer::saved_from(saved, id, 0) is None,
        k < saved.len() && saved[k].0@ == id ==> normalizer::saved_from(saved, id, 0) == Some(
            value::entries_view(saved[k].1@),
        ),
{
    lemma_saved(saved, id, k, 0);
}

proof fn lemma_saved(saved: Seq<(ResourceId, Vec<(String, DslValue)>)>, id: IdView, k: int, from: int)
    requires
        0 <= from <= k <= saved.len(),
        forall|i: int| 0 <= i < k ==> (#[trigger] saved[i]).0@ != id,
    ensures
        normalizer::saved_from(saved, id, from) == normalizer::saved_from(saved, id, k),
    decreases k - from,
{
    if from < k {
        assert(saved[from].0@ != id);
        lemma_saved(saved, id, k, from + 1);
    }
}

/// A state of this provider's that exists gets back each saved attribute of its
/// schema that the read did not return, and keeps those that it did. Any other state
/// stays as it is.
pub proof fn law_unreturned_attributes_come_back(
    id: IdView,
    state: StateView,
    saved: Seq<(Seq<char>, ValueView)>,
    c: ConfigView,
    name: Seq<char>,
)
    ensures
        ({
            let s = normalizer::restored(id, state, Some(saved));
            let now = keyed::lookup(s.attributes, name);
            &&& s.id == state.id && s.exists == state.exists && s.identifier == state.identifier
            &&& keyed::lookup(state.attributes, name) is Some ==> now == keyed::lookup(state.attributes, name)
            &&& state.exists && id.provider == "awscc"@ && registry::config_named(id.resource_type) == Some(c)
                && keyed::lookup(c.schema.attributes, name) is Some && keyed::lookup(state.attributes, name) is None
                ==> now == keyed::lookup(saved, name)
            &&& registry::config_named(id.resource_type) == Some(c) && keyed::lookup(c.schema.attributes, name) is None
                ==> now == keyed::lookup(state.attributes, name)
        }),
        normalizer::restored(id, state, None) == state,
        !state.exists ==> normalizer::restored(id, state, Some(saved)) == state,
        id.provider != "awscc"@ ==> normalizer::restored(id, state, Some(saved)) == state,
        registry::config_named(id.resource_type) is None ==> normalizer::restored(id, state, Some(saved)) == state,
{
    if let Some(known) = registry::config_named(id.resource_type) {
        normalizer::law_carried(state.attributes, saved, known.schema.attributes, name);
    }
}

/// Emptying a bucket deletes every version and every marker that has a key, each with
/// its own version, in the order in which they are listed, and nothing else.
pub proof fn law_every_version_is_deleted(entries: Seq<VersionEntry>, e: VersionEntry, i: int)
    ensures
        cloud_control::keyed_versions(Seq::empty()).len() == 0,
        cloud_control::keyed_versions(entries.push(e)) == match e.key {
            Some(k) => cloud_control::keyed_versions(entries).push((k@, text::opt_string(e.version_id))),
            None => cloud_control::keyed_versions(entries),
        },
        0 <= i < entries.len() && entries[i].key is Some ==> cloud_control::keyed_versions(entries).contains(
            (entries[i].key->0@, text::opt_string(entries[i].version_id)),
        ),
    decreases entries.len(),
{
    assert(entries.push(e).drop_last() =~= entries);
    if 0 <= i < entries.len() && entries[i].key is Some {
        let before = entries.drop_last();
        let all = cloud_control::keyed_versions(entries);
        let some = cloud_control::keyed_versions(before);
        let wanted = (entries[i].key->0@, text::opt_string(entries[i].version_id));
        if i < before.len() {
            assert(before[i] == entries[i]);
            law_every_version_is_deleted(before, e, i);
            let k = choose|k: int| 0 <= k < some.len() && some[k] == wanted;
            assert(all[k] == wanted);
        } else {
            assert(entries.last() == entries[i]);
            assert(all[all.len() - 1] == wanted);
        }
    }
}

/// The ids of this provider's resources name it. Properties that cannot be read are
/// an error with the reason as its cause.
pub proof fn law_ids_and_errors_of_reads(resource_type: Seq<char>, name: Seq<char>, reason: Seq<char>)
    ensures
        operations::own_id(resource_type, name).provider == "awscc"@,
        operations::own_id(resource_type, name).resource_type == resource_type,
        operations::own_id(resource_type, name).name == name,
        cloud_control::no_properties(reason).cause == Some(reason),
        cloud_control::no_properties(reason).message == "Failed to parse resource properties"@,
{
}

/// Before a delete only a gateway is detached, and only a bucket is emptied, and that
/// only where the delete is forced.
pub proof fn law_only_gateways_and_buckets_are_prepared(resource_type: Seq<char>, force: bool)
    ensures
        operations::is_detached("ec2.internet_gateway"@),
        operations::is_emptied("s3.bucket"@, true),
        !operations::is_emptied(resource_type, false),
        resource_type != "ec2.internet_gateway"@ ==> !operations::is_detached(resource_type),
        resource_type != "s3.bucket"@ ==> !operations::is_emptied(resource_type, force),
{
}

/// Emptying a bucket deletes the versions and the markers of a page, all of them that
/// have a key.
pub proof fn law_versions_and_markers_are_deleted(page: VersionsPage, i: int)
    ensures
        0 <= i < page.versions@.len() && page.versions@[i].key is Some ==> page.all_deletions().contains(
            (page.versions@[i].key->0@, text::opt_string(page.versions@[i].version_id)),
        ),
        0 <= i < page.delete_markers@.len() && page.delete_markers@[i].key is Some ==> page.all_deletions().contains(
            (page.delete_markers@[i].key->0@, text::opt_string(page.delete_markers@[i].version_id)),
        ),
{
    let a = cloud_control::keyed_versions(page.versions@);
    let b = cloud_control::keyed_versions(page.delete_markers@);
    let all = page.all_deletions();
    if 0 <= i < page.versions@.len() && page.versions@[i].key is Some {
        let e = page.versions@[i];
        law_every_version_is_deleted(page.versions@, e, i);
        let wanted = (e.key->0@, text::opt_string(e.version_id));
        let k = choose|k: int| 0 <= k < a.len() && a[k] == wanted;
        assert(all[k] == wanted);
    }
    if 0 <= i < page.delete_markers@.len() && page.delete_markers@[i].key is Some {
        let e = page.delete_markers@[i];
        law_every_version_is_deleted(page.delete_markers@, e, i);
        let wanted = (e.key->0@, text::opt_string(e.version_id));
        let k = choose|k: int| 0 <= k < b.len() && b[k] == wanted;
        assert(all[a.len() + k] == wanted);
    }
}

} // verus!
