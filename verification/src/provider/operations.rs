//! What reading, creating, updating and deleting a resource decide and compute
//! between the calls of the Cloud Control API.
use vstd::prelude::*;
use vstd::string::*;

use crate::json;
use crate::json::{Json, JsonView};
use crate::keyed;
use crate::protocol::types::{ErrorView, ProviderError};
use crate::provider::convert;
use crate::provider::normalizer;
use crate::provider::update;
use crate::resource;
use crate::resource::{IdView, LifecycleConfig, Resource, ResourceId, State, StateView};
use crate::schema;
use crate::schema::{AttrView, AwsccSchemaConfig, ConfigView};
use crate::schemas::registry;
use crate::text;
use crate::value;
use crate::value::{DslValue, ValueView};

verus! {

/// The items of a member of an object.
pub open spec fn items_at(j: JsonView, key: Seq<char>) -> Option<Seq<JsonView>> {
    match json::view_member(j, key) {
        Some(m) => json::view_items(m),
        None => None,
    }
}

fn get_items<'a>(j: &'a Json, key: &str) -> (r: Option<&'a Vec<Json>>)
    ensures
        match r {
            Some(items) => items_at(j@, key@) == Some(json::array_view(items@)),
            None => items_at(j@, key@) is None,
        },
{
    match j.get(key) {
        Some(m) => m.as_array(),
        None => None,
    }
}

/// The value of an attribute in the properties of a resource.
pub open spec fn property_value(
    name: Seq<char>,
    a: AttrView,
    props: JsonView,
    resource_type: Seq<char>,
) -> Option<ValueView> {
    match a.provider_name {
        Some(property) => match json::view_member(props, property) {
            Some(j) => convert::to_dsl(name, j, a.attr_type, resource_type),
            None => None,
        },
        None => None,
    }
}

/// The attributes but `tags` that the properties of a resource give.
pub open spec fn property_values(
    attributes: Seq<(Seq<char>, AttrView)>,
    props: JsonView,
    resource_type: Seq<char>,
) -> Seq<(Seq<char>, ValueView)>
    decreases attributes.len(),
{
    if attributes.len() == 0 {
        Seq::empty()
    } else {
        let (name, a) = attributes.last();
        let before = property_values(attributes.drop_last(), props, resource_type);
        if name == "tags"@ {
            before
        } else {
            match property_value(name, a, props, resource_type) {
                Some(v) => keyed::set(before, name, v),
                None => before,
            }
        }
    }
}

/// The attributes with the tags of the properties, where there are any.
pub open spec fn with_tags(attributes: Seq<(Seq<char>, ValueView)>, props: JsonView) -> Seq<(Seq<char>, ValueView)> {
    match items_at(props, "Tags"@) {
        Some(items) => if update::tags_of(items).len() > 0 {
            keyed::set(attributes, "tags"@, ValueView::Mapping(update::tags_of(items)))
        } else {
            attributes
        },
        None => attributes,
    }
}

/// The strings among the items.
pub open spec fn string_items(items: Seq<JsonView>) -> Seq<ValueView>
    decreases items.len(),
{
    if items.len() == 0 {
        Seq::empty()
    } else {
        let before = string_items(items.drop_last());
        match json::view_text(items.last()) {
            Some(s) => before.push(ValueView::String(s)),
            None => before,
        }
    }
}

/// The attributes with those that some resource types have from elsewhere in
/// the properties.
pub open spec fn with_special(
    attributes: Seq<(Seq<char>, ValueView)>,
    resource_type: Seq<char>,
    props: JsonView,
) -> Seq<(Seq<char>, ValueView)> {
    if resource_type == "ec2.internet_gateway"@ {
        match items_at(props, "Attachments"@) {
            Some(items) => if items.len() > 0 {
                match update::text_at(items[0], "VpcId"@) {
                    Some(id) => keyed::set(attributes, "vpc_id"@, ValueView::String(id)),
                    None => attributes,
                }
            } else {
                attributes
            },
            None => attributes,
        }
    } else if resource_type == "ec2.vpc_endpoint"@ {
        match items_at(props, "RouteTableIds"@) {
            Some(items) => if string_items(items).len() > 0 {
                keyed::set(attributes, "route_table_ids"@, ValueView::List(string_items(items)))
            } else {
                attributes
            },
            None => attributes,
        }
    } else {
        attributes
    }
}

/// The attributes that the properties of a resource give.
pub open spec fn read_attributes(c: ConfigView, props: JsonView, resource_type: Seq<char>) -> Seq<
    (Seq<char>, ValueView),
> {
    let values = property_values(c.schema.attributes, props, resource_type);
    let tagged = if c.has_tags {
        with_tags(values, props)
    } else {
        values
    };
    with_special(tagged, resource_type, props)
}

fn string_values(items: &Vec<Json>) -> (r: Vec<DslValue>)
    ensures
        value::values_view(r@) == string_items(json::array_view(items@)),
{
    let mut out: Vec<DslValue> = Vec::new();
    let mut i: usize = 0;
    let ghost all = json::array_view(items@);
    proof {
        json::lemma_array(items@);
    }
    assert(all.take(0).len() == 0);
    while i < items.len()
        invariant
            i <= items.len(),
            all.len() == items.len(),
            forall|k: int| 0 <= k < all.len() ==> #[trigger] all[k] == json::json_view(items@[k]),
            value::values_view(out@) == string_items(all.take(i as int)),
        decreases items.len() - i,
    {
        proof {
            assert(all.take(i + 1).drop_last() =~= all.take(i as int));
            assert(all.take(i + 1).last() == items@[i as int]@);
        }
        if let Some(s) = items[i].as_str() {
            let v = DslValue::String(s.to_owned());
            proof {
                value::lemma_push_value(out@, v);
            }
            out.push(v);
        }
        i = i + 1;
    }
    assert(all.take(i as int) =~= all);
    out
}

/// Adds the attributes that some resource types have from elsewhere in the
/// properties.
pub fn read_special_attributes(resource_type: &str, props: &Json, attributes: &mut Vec<(String, DslValue)>)
    ensures
        value::entries_view(final(attributes)@) == with_special(
            value::entries_view(old(attributes)@),
            resource_type@,
            props@,
        ),
{
    if text::same(resource_type, "ec2.internet_gateway") {
        if let Some(items) = get_items(props, "Attachments") {
            proof {
                json::lemma_array(items@);
            }
            if items.len() > 0 {
                if let Some(id) = update::get_text(&items[0], "VpcId") {
                    value::put(attributes, "vpc_id".to_owned(), DslValue::String(id.to_owned()));
                }
            }
        }
    } else if text::same(resource_type, "ec2.vpc_endpoint") {
        if let Some(items) = get_items(props, "RouteTableIds") {
            let ids = string_values(items);
            proof {
                value::lemma_values(ids@);
            }
            if ids.len() > 0 {
                value::put(attributes, "route_table_ids".to_owned(), DslValue::List(ids));
            }
        }
    }
}

/// The attributes that the properties of a resource give.
pub fn attributes_from_properties(config: &AwsccSchemaConfig, props: &Json, resource_type: &str) -> (r: Vec<
    (String, DslValue),
>)
    ensures
        value::entries_view(r@) == read_attributes(config@, props@, resource_type@),
{
    let mut out: Vec<(String, DslValue)> = Vec::new();
    let ghost attributes = config@.schema.attributes;
    let list = &config.schema.attributes;
    let mut i: usize = 0;
    assert(attributes.take(0).len() == 0);
    while i < list.len()
        invariant
            i <= list.len(),
            attributes == schema::attributes_view(list@),
            value::entries_view(out@) == property_values(attributes.take(i as int), props@, resource_type@),
        decreases list.len() - i,
    {
        proof {
            assert(attributes.take(i + 1).drop_last() =~= attributes.take(i as int));
            assert(attributes.take(i + 1).last() == attributes[i as int]);
        }
        let name = list[i].0.as_str();
        let a = &list[i].1;
        if !text::same(name, "tags") {
            if let Some(property) = &a.provider_name {
                if let Some(j) = props.get(property.as_str()) {
                    if let Some(v) = convert::aws_value_to_dsl(name, j, &a.attr_type, resource_type) {
                        value::put(&mut out, list[i].0.clone(), v);
                    }
                }
            }
        }
        i = i + 1;
    }
    assert(attributes.take(i as int) =~= attributes);
    if config.has_tags {
        if let Some(items) = get_items(props, "Tags") {
            let tags = update::parse_tags(items);
            proof {
                value::lemma_entries(tags@);
            }
            if tags.len() > 0 {
                value::put(&mut out, "tags".to_owned(), DslValue::Mapping(tags));
            }
        }
    }
    read_special_attributes(resource_type, props, &mut out);
    out
}

/// The attributes but `tags` as properties.
pub open spec fn desired_members(
    attributes: Seq<(Seq<char>, AttrView)>,
    wanted: Seq<(Seq<char>, ValueView)>,
    resource_type: Seq<char>,
) -> Seq<(Seq<char>, JsonView)>
    decreases attributes.len(),
{
    if attributes.len() == 0 {
        Seq::empty()
    } else {
        let (name, a) = attributes.last();
        let before = desired_members(attributes.drop_last(), wanted, resource_type);
        if name == "tags"@ {
            before
        } else {
            match (a.provider_name, keyed::lookup(wanted, name)) {
                (Some(property), Some(v)) => match convert::to_aws(v, a.attr_type, resource_type, name) {
                    Some(j) => keyed::set(before, property, j),
                    None => before,
                },
                _ => before,
            }
        }
    }
}

/// The properties with the values that some resource types have unless others
/// are wanted.
pub open spec fn with_defaults(members: Seq<(Seq<char>, JsonView)>, resource_type: Seq<char>) -> Seq<
    (Seq<char>, JsonView),
> {
    if resource_type == "ec2.eip"@ && keyed::lookup(members, "Domain"@) is None {
        keyed::set(members, "Domain"@, JsonView::String("vpc"@))
    } else {
        members
    }
}

/// The properties of a resource that is to be created.
pub open spec fn desired_state(c: ConfigView, wanted: Seq<(Seq<char>, ValueView)>, resource_type: Seq<char>) -> JsonView {
    let members = desired_members(c.schema.attributes, wanted, resource_type);
    let tags = update::user_tags(keyed::lookup(wanted, "tags"@));
    let tagged = if c.has_tags && tags.len() > 0 {
        keyed::set(members, "Tags"@, JsonView::Array(tags))
    } else {
        members
    };
    JsonView::Object(with_defaults(tagged, resource_type))
}

/// Adds the values that some resource types have unless others are wanted.
pub fn set_default_values(resource_type: &str, members: &mut Vec<(String, Json)>)
    ensures
        json::object_view(final(members)@) == with_defaults(json::object_view(old(members)@), resource_type@),
{
    if text::same(resource_type, "ec2.eip") && json::member(members, "Domain").is_none() {
        json::put_member(members, "Domain".to_owned(), Json::text("vpc"));
    }
}

/// The properties of a resource that is to be created.
pub fn build_desired_state(config: &AwsccSchemaConfig, wanted: &Resource) -> (r: Json)
    ensures
        r@ == desired_state(config@, wanted@.attributes, wanted@.id.resource_type),
{
    let mut out: Vec<(String, Json)> = Vec::new();
    let ghost attributes = config@.schema.attributes;
    let ghost attrs = wanted@.attributes;
    let resource_type = wanted.id.resource_type.as_str();
    let list = &config.schema.attributes;
    let mut i: usize = 0;
    assert(attributes.take(0).len() == 0);
    while i < list.len()
        invariant
            i <= list.len(),
            attributes == schema::attributes_view(list@),
            attrs == value::entries_view(wanted.attributes@),
            json::object_view(out@) == desired_members(attributes.take(i as int), attrs, resource_type@),
        decreases list.len() - i,
    {
        proof {
            assert(attributes.take(i + 1).drop_last() =~= attributes.take(i as int));
            assert(attributes.take(i + 1).last() == attributes[i as int]);
        }
        let name = list[i].0.as_str();
        let a = &list[i].1;
        if !text::same(name, "tags") {
            if let Some(property) = &a.provider_name {
                if let Some(v) = value::get(&wanted.attributes, name) {
                    if let Some(j) = convert::dsl_value_to_aws(v, &a.attr_type, resource_type, name) {
                        json::put_member(&mut out, property.clone(), j);
                    }
                }
            }
        }
        i = i + 1;
    }
    assert(attributes.take(i as int) =~= attributes);
    if config.has_tags {
        let tags = update::build_tags(value::get(&wanted.attributes, "tags"));
        proof {
            json::lemma_array(tags@);
        }
        if tags.len() > 0 {
            json::put_member(&mut out, "Tags".to_owned(), Json::Array(tags));
        }
    }
    set_default_values(resource_type, &mut out);
    Json::Object(out)
}

/// The error for a resource type that is not known.
pub open spec fn unknown_type(id: IdView) -> ErrorView {
    ErrorView::new("Unknown resource type: "@ + id.resource_type).for_resource(id)
}

/// The config of the type of a resource.
pub fn config_for(id: &ResourceId) -> (r: Result<AwsccSchemaConfig, ProviderError>)
    ensures
        match r {
            Ok(c) => registry::config_of(id@.resource_type) == Some(c@),
            Err(e) => registry::config_of(id@.resource_type) is None && e@ == unknown_type(id@),
        },
{
    match registry::get_schema_config(id.resource_type.as_str()) {
        Some(c) => Ok(c),
        None => {
            let mut message = "Unknown resource type: ".to_owned();
            message.append(id.resource_type.as_str());
            Err(ProviderError::new(message.as_str()).for_resource(id.clone()))
        },
    }
}

/// The id of a resource of this provider.
pub open spec fn own_id(resource_type: Seq<char>, name: Seq<char>) -> IdView {
    IdView { provider: "awscc"@, resource_type, name }
}

/// How a read goes on: the resource is known not to exist, or its properties
/// are to be fetched by its identifier.
pub enum ReadStep {
    Absent(State),
    Fetch(AwsccSchemaConfig),
}

/// Begins to read a resource.
pub fn begin_read(resource_type: &str, name: &str, identifier: Option<&str>) -> (r: Result<ReadStep, ProviderError>)
    ensures
        match r {
            Err(e) => registry::config_of(resource_type@) is None && e@ == unknown_type(own_id(resource_type@, name@)),
            Ok(ReadStep::Absent(s)) => registry::config_of(resource_type@) is Some && identifier is None && s@
                == resource::absent(own_id(resource_type@, name@)),
            Ok(ReadStep::Fetch(c)) => registry::config_of(resource_type@) == Some(c@) && identifier is Some,
        },
{
    let id = ResourceId::with_provider("awscc", resource_type, name);
    let config = match config_for(&id) {
        Ok(c) => c,
        Err(e) => return Err(e),
    };
    match identifier {
        Some(_) => Ok(ReadStep::Fetch(config)),
        None => Ok(ReadStep::Absent(State::not_found(id))),
    }
}

/// The state that a read gives.
pub open spec fn read_state(
    c: ConfigView,
    id: IdView,
    identifier: Seq<char>,
    props: Option<JsonView>,
) -> StateView {
    match props {
        Some(j) => resource::present(id, read_attributes(c, j, id.resource_type), Some(identifier)),
        None => resource::absent(id),
    }
}

/// The state of a resource whose properties were fetched.
pub fn finish_read(
    config: &AwsccSchemaConfig,
    resource_type: &str,
    name: &str,
    identifier: &str,
    props: Option<&Json>,
) -> (r: State)
    ensures
        r@ == read_state(
            config@,
            own_id(resource_type@, name@),
            identifier@,
            match props {
                Some(j) => Some(j@),
                None => None,
            },
        ),
{
    let id = ResourceId::with_provider("awscc", resource_type, name);
    match props {
        Some(j) => State::existing(id, attributes_from_properties(config, j, resource_type)).with_identifier(identifier),
        None => State::not_found(id),
    }
}

/// What is to be created, and as which type of Cloud Control.
pub struct CreateStep {
    pub config: AwsccSchemaConfig,
    pub desired_state: Json,
}

/// Begins to create a resource.
pub fn begin_create(wanted: &Resource) -> (r: Result<CreateStep, ProviderError>)
    ensures
        match r {
            Err(e) => registry::config_of(wanted@.id.resource_type) is None && e@ == unknown_type(wanted@.id),
            Ok(step) => {
                &&& registry::config_of(wanted@.id.resource_type) == Some(step.config@)
                &&& step.desired_state@ == desired_state(step.config@, wanted@.attributes, wanted@.id.resource_type)
            },
        },
{
    match config_for(&wanted.id) {
        Ok(config) => {
            let desired_state = build_desired_state(&config, wanted);
            Ok(CreateStep { config, desired_state })
        },
        Err(e) => Err(e),
    }
}

/// The state after a create or an update: what was read, with the wanted
/// attributes that the read did not return.
pub open spec fn settled(c: ConfigView, read: StateView, wanted: Seq<(Seq<char>, ValueView)>) -> StateView {
    StateView { attributes: normalizer::carried(read.attributes, wanted, c.schema.attributes), ..read }
}

/// Adds the wanted attributes that a read after a create or an update did not
/// return.
pub fn settle(config: &AwsccSchemaConfig, state: &mut State, wanted: &Resource)
    ensures
        final(state)@ == settled(config@, old(state)@, wanted@.attributes),
{
    normalizer::carry_forward(&mut state.attributes, &wanted.attributes, &config.schema);
}

/// The patch that is to be made, and for which type of Cloud Control.
pub struct UpdateStep {
    pub config: AwsccSchemaConfig,
    pub patches: Vec<Json>,
}

/// The error for a resource type that cannot be updated.
pub open spec fn replace_only(id: IdView) -> ErrorView {
    ErrorView::new("Update not supported for "@ + id.resource_type + ", delete and recreate"@).for_resource(id)
}

/// Begins to update a resource whose config is known.
pub fn plan_update(config: AwsccSchemaConfig, id: &ResourceId, from: &State, to: &Resource) -> (r: Result<
    UpdateStep,
    ProviderError,
>)
    ensures
        match r {
            Err(e) => config@.schema.force_replace && e@ == replace_only(id@),
            Ok(step) => {
                &&& !config@.schema.force_replace
                &&& step.config@ == config@
                &&& json::array_view(step.patches@) == update::update_patches(
                    config@,
                    from@.attributes,
                    to@.attributes,
                    to@.id.resource_type,
                )
            },
        },
{
    if config.schema.force_replace {
        let mut message = "Update not supported for ".to_owned();
        message.append(id.resource_type.as_str());
        message.append(", delete and recreate");
        return Err(ProviderError::new(message.as_str()).for_resource(id.clone()));
    }
    let patches = update::build_update_patches(&config, from, to);
    Ok(UpdateStep { config, patches })
}

/// Begins to update a resource.
pub fn begin_update(id: &ResourceId, from: &State, to: &Resource) -> (r: Result<UpdateStep, ProviderError>)
    ensures
        match (registry::config_of(id@.resource_type), r) {
            (None, Err(e)) => e@ == unknown_type(id@),
            (None, Ok(_)) => false,
            (Some(c), Err(e)) => c.schema.force_replace && e@ == replace_only(id@),
            (Some(c), Ok(step)) => {
                &&& !c.schema.force_replace
                &&& step.config@ == c
                &&& json::array_view(step.patches@) == update::update_patches(
                    c,
                    from@.attributes,
                    to@.attributes,
                    to@.id.resource_type,
                )
            },
        },
{
    match config_for(id) {
        Ok(config) => plan_update(config, id, from, to),
        Err(e) => Err(e),
    }
}

/// What is to happen before a resource is deleted.
pub struct DeleteStep {
    pub config: AwsccSchemaConfig,
    /// The properties are to be fetched, and what `detach_patches` makes of
    /// them is to be sent.
    pub detach: bool,
    /// The bucket is to be emptied.
    pub empty_bucket: bool,
}

/// A resource is to be detached before it is deleted.
pub open spec fn is_detached(resource_type: Seq<char>) -> bool {
    resource_type == "ec2.internet_gateway"@
}

/// A resource is to be emptied before it is deleted.
pub open spec fn is_emptied(resource_type: Seq<char>, force: bool) -> bool {
    force && resource_type == "s3.bucket"@
}

/// Begins to delete a resource.
pub fn begin_delete(id: &ResourceId, lifecycle: &LifecycleConfig) -> (r: Result<DeleteStep, ProviderError>)
    ensures
        match r {
            Err(e) => registry::config_of(id@.resource_type) is None && e@ == unknown_type(id@),
            Ok(step) => {
                &&& registry::config_of(id@.resource_type) == Some(step.config@)
                &&& step.detach == is_detached(id@.resource_type)
                &&& step.empty_bucket == is_emptied(id@.resource_type, lifecycle.force_delete)
                &&& step.detach == (id@.resource_type == "ec2.internet_gateway"@)
                &&& step.empty_bucket == (lifecycle.force_delete && id@.resource_type == "s3.bucket"@)
            },
        },
{
    match config_for(id) {
        Ok(config) => Ok(
            DeleteStep {
                config,
                detach: text::same(id.resource_type.as_str(), "ec2.internet_gateway"),
                empty_bucket: lifecycle.force_delete && text::same(id.resource_type.as_str(), "s3.bucket"),
            },
        ),
        Err(e) => Err(e),
    }
}

/// The patch that detaches a gateway with these properties.
pub open spec fn detachment(props: Option<JsonView>) -> Seq<JsonView> {
    match props {
        Some(j) => match items_at(j, "Attachments"@) {
            Some(items) => if items.len() > 0 {
                Seq::empty().push(update::remove_op("Attachments"@))
            } else {
                Seq::empty()
            },
            None => Seq::empty(),
        },
        None => Seq::empty(),
    }
}

/// The patch that detaches a gateway with these properties; none where nothing
/// is attached.
pub fn detach_patches(props: Option<&Json>) -> (r: Vec<Json>)
    ensures
        json::array_view(r@) == detachment(
            match props {
                Some(j) => Some(j@),
                None => None,
            },
        ),
{
    let mut ops: Vec<Json> = Vec::new();
    if let Some(j) = props {
        if let Some(items) = get_items(j, "Attachments") {
            proof {
                json::lemma_array(items@);
            }
            if items.len() > 0 {
                let op = update::make_remove("Attachments");
                proof {
                    json::lemma_push_item(ops@, op);
                }
                ops.push(op);
            }
        }
    }
    ops
}

/// Some resource types have these attributes from elsewhere in the properties.
pub open spec fn is_special(resource_type: Seq<char>, name: Seq<char>) -> bool {
    ||| resource_type == "ec2.internet_gateway"@ && name == "vpc_id"@
    ||| resource_type == "ec2.vpc_endpoint"@ && name == "route_table_ids"@
}

/// Where the service returns the properties that a create has sent, each
/// attribute is read from what was sent for it.
pub proof fn law_read_gives_what_create_sent(
    c: ConfigView,
    wanted: Seq<(Seq<char>, ValueView)>,
    resource_type: Seq<char>,
    i: int,
)
    requires
        schema::distinct_properties(c.schema.attributes),
        0 <= i < c.schema.attributes.len(),
        c.schema.attributes[i].0 != "tags"@,
        c.schema.attributes[i].1.provider_name is Some,
        keyed::lookup(wanted, c.schema.attributes[i].0) is Some,
        !is_special(resource_type, c.schema.attributes[i].0),
    ensures
        ({
            let (name, a) = c.schema.attributes[i];
            let sent = convert::to_aws(keyed::lookup(wanted, name)->0, a.attr_type, resource_type, name);
            sent is Some ==> keyed::lookup(
                read_attributes(c, desired_state(c, wanted, resource_type), resource_type),
                name,
            ) == convert::to_dsl(name, sent->0, a.attr_type, resource_type)
        }),
{
    let attributes = c.schema.attributes;
    let (name, a) = attributes[i];
    let property = a.provider_name->0;
    let members = desired_members(attributes, wanted, resource_type);
    let tags = JsonView::Array(update::user_tags(keyed::lookup(wanted, "tags"@)));
    let state = desired_state(c, wanted, resource_type);
    lemma_desired_member(attributes, wanted, resource_type, i);
    keyed::law_set_then_lookup(members, "Tags"@, tags, property);
    let tagged = if c.has_tags && tags->Array_0.len() > 0 {
        keyed::set(members, "Tags"@, tags)
    } else {
        members
    };
    keyed::law_set_then_lookup(tagged, "Domain"@, JsonView::String("vpc"@), property);
    let values = property_values(attributes, state, resource_type);
    lemma_property_value(attributes, state, resource_type, i);
    lemma_with_tags(values, state, name);
    let read = if c.has_tags {
        with_tags(values, state)
    } else {
        values
    };
    lemma_with_special(read, resource_type, state, name);
}

/// Where the service returns the properties that a create has sent, the tags are
/// those that are wanted.
pub proof fn law_read_gives_the_tags(
    c: ConfigView,
    wanted: Seq<(Seq<char>, ValueView)>,
    tags: Seq<(Seq<char>, ValueView)>,
    resource_type: Seq<char>,
)
    requires
        c.has_tags,
        keyed::lookup(wanted, "tags"@) == Some(ValueView::Mapping(tags)),
        tags.len() > 0,
        keyed::distinct_keys(tags),
        forall|i: int| 0 <= i < tags.len() ==> (#[trigger] tags[i]).1 is String,
    ensures
        keyed::lookup(read_attributes(c, desired_state(c, wanted, resource_type), resource_type), "tags"@) == Some(
            ValueView::Mapping(tags),
        ),
{
    let members = desired_members(c.schema.attributes, wanted, resource_type);
    let items = update::tag_items(tags);
    let state = desired_state(c, wanted, resource_type);
    update::law_tags_round_trip(tags);
    keyed::law_set_then_lookup(members, "Tags"@, JsonView::Array(items), "Tags"@);
    reveal_strlit("Tags");
    reveal_strlit("Domain");
    assert("Tags"@.len() != "Domain"@.len());
    keyed::law_set_then_lookup(
        keyed::set(members, "Tags"@, JsonView::Array(items)),
        "Domain"@,
        JsonView::String("vpc"@),
        "Tags"@,
    );
    let values = property_values(c.schema.attributes, state, resource_type);
    keyed::law_set_then_lookup(values, "tags"@, ValueView::Mapping(tags), "tags"@);
    reveal_strlit("tags");
    reveal_strlit("vpc_id");
    reveal_strlit("route_table_ids");
    assert("tags"@.len() != "vpc_id"@.len() && "tags"@.len() != "route_table_ids"@.len());
    lemma_with_special(with_tags(values, state), resource_type, state, "tags"@);
}

/// What is sent under the property of an attribute.
pub proof fn lemma_desired_member(
    attributes: Seq<(Seq<char>, AttrView)>,
    wanted: Seq<(Seq<char>, ValueView)>,
    resource_type: Seq<char>,
    i: int,
)
    requires
        schema::distinct_properties(attributes),
        0 <= i < attributes.len(),
        attributes[i].0 != "tags"@,
        attributes[i].1.provider_name is Some,
        keyed::lookup(wanted, attributes[i].0) is Some,
    ensures
        ({
            let (name, a) = attributes[i];
            let sent = convert::to_aws(keyed::lookup(wanted, name)->0, a.attr_type, resource_type, name);
            sent is Some ==> keyed::lookup(
                desired_members(attributes, wanted, resource_type),
                a.provider_name->0,
            ) == sent
        }),
    decreases attributes.len(),
{
    let before = attributes.drop_last();
    let (name, a) = attributes.last();
    assert(attributes[attributes.len() - 1] == (name, a));
    if let (Some(property), Some(v)) = (a.provider_name, keyed::lookup(wanted, name)) {
        if let Some(j) = convert::to_aws(v, a.attr_type, resource_type, name) {
            keyed::law_set_then_lookup(
                desired_members(before, wanted, resource_type),
                property,
                j,
                attributes[i].1.provider_name->0,
            );
        }
    }
    if i < before.len() {
        assert forall|k: int| 0 <= k < before.len() implies #[trigger] before[k] == attributes[k] by {};
        lemma_desired_member(before, wanted, resource_type, i);
    }
}

/// What is read of the property of an attribute.
pub proof fn lemma_property_value(attributes: Seq<(Seq<char>, AttrView)>, props: JsonView, resource_type: Seq<char>, i: int)
    requires
        keyed::distinct_keys(attributes),
        0 <= i < attributes.len(),
        attributes[i].0 != "tags"@,
    ensures
        keyed::lookup(property_values(attributes, props, resource_type), attributes[i].0) == property_value(
            attributes[i].0,
            attributes[i].1,
            props,
            resource_type,
        ),
    decreases attributes.len(),
{
    let before = attributes.drop_last();
    let (name, a) = attributes.last();
    assert(attributes[attributes.len() - 1] == (name, a));
    assert forall|k: int| 0 <= k < before.len() implies #[trigger] before[k] == attributes[k] by {};
    let values = property_values(before, props, resource_type);
    if let Some(v) = property_value(name, a, props, resource_type) {
        keyed::law_set_then_lookup(values, name, v, attributes[i].0);
    }
    if i < before.len() {
        lemma_property_value(before, props, resource_type, i);
    } else {
        lemma_not_read(before, props, resource_type, name);
    }
}

/// A name that no attribute has is not read.
pub proof fn lemma_not_read(
    attributes: Seq<(Seq<char>, AttrView)>,
    props: JsonView,
    resource_type: Seq<char>,
    name: Seq<char>,
)
    requires
        forall|k: int| 0 <= k < attributes.len() ==> (#[trigger] attributes[k]).0 != name,
    ensures
        keyed::lookup(property_values(attributes, props, resource_type), name) is None,
    decreases attributes.len(),
{
    if attributes.len() > 0 {
        let before = attributes.drop_last();
        let (last, a) = attributes.last();
        assert(attributes[attributes.len() - 1] == (last, a));
        assert forall|k: int| 0 <= k < before.len() implies (#[trigger] before[k]).0 != name by {
            assert(before[k] == attributes[k]);
        };
        lemma_not_read(before, props, resource_type, name);
        if let Some(v) = property_value(last, a, props, resource_type) {
            keyed::law_set_then_lookup(property_values(before, props, resource_type), last, v, name);
        }
    }
}

/// The tags leave the other attributes as they are.
pub proof fn lemma_with_tags(attributes: Seq<(Seq<char>, ValueView)>, props: JsonView, name: Seq<char>)
    requires
        name != "tags"@,
    ensures
        keyed::lookup(with_tags(attributes, props), name) == keyed::lookup(attributes, name),
{
    if let Some(items) = items_at(props, "Tags"@) {
        keyed::law_set_then_lookup(attributes, "tags"@, ValueView::Mapping(update::tags_of(items)), name);
    }
}

/// The attributes from elsewhere leave the others as they are.
pub proof fn lemma_with_special(
    attributes: Seq<(Seq<char>, ValueView)>,
    resource_type: Seq<char>,
    props: JsonView,
    name: Seq<char>,
)
    requires
        !is_special(resource_type, name),
    ensures
        keyed::lookup(with_special(attributes, resource_type, props), name) == keyed::lookup(attributes, name),
{
    if let Some(items) = items_at(props, "Attachments"@) {
        if let Some(id) = update::text_at(items[0], "VpcId"@) {
            keyed::law_set_then_lookup(attributes, "vpc_id"@, ValueView::String(id), name);
        }
    }
    if let Some(items) = items_at(props, "RouteTableIds"@) {
        keyed::law_set_then_lookup(attributes, "route_table_ids"@, ValueView::List(string_items(items)), name);
    }
}

} // verus!
