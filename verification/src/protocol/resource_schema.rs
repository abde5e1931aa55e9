//! The schema of a resource type as it crosses the boundary, and its JSON.
use vstd::prelude::*;
use vstd::string::*;

use crate::json;
use crate::json::{Json, JsonView};
use crate::keyed;
use crate::protocol::fields;
use crate::protocol::schema;
use crate::protocol::schema::{AttributeType, WireTypeView};
use crate::protocol::types::{OperationConfig, SchemaKind, ValidatorType};
use crate::protocol::value;
use crate::protocol::value::{WireValue, WireView};
use crate::protocol::wire;
use crate::text;

verus! {

/// An attribute of a resource type.
#[derive(Debug)]
pub struct AttributeSchema {
    pub name: String,
    pub attr_type: AttributeType,
    pub required: bool,
    pub default: Option<WireValue>,
    pub description: Option<String>,
    pub create_only: bool,
    pub read_only: bool,
    pub write_only: bool,
    pub block_name: Option<String>,
    pub provider_name: Option<String>,
    /// Whether the attribute can be removed, where that is not to be found out.
    pub removable: Option<bool>,
    /// Whether the attribute tells resources without a name apart.
    pub identity: bool,
}

#[verifier::ext_equal]
pub struct WireAttrView {
    pub name: Seq<char>,
    pub attr_type: WireTypeView,
    pub required: bool,
    pub default: Option<WireView>,
    pub description: Option<Seq<char>>,
    pub create_only: bool,
    pub read_only: bool,
    pub write_only: bool,
    pub block_name: Option<Seq<char>>,
    pub provider_name: Option<Seq<char>>,
    pub removable: Option<bool>,
    pub identity: bool,
}

impl View for AttributeSchema {
    type V = WireAttrView;

    open spec fn view(&self) -> WireAttrView {
        WireAttrView {
            name: self.name@,
            attr_type: self.attr_type@,
            required: self.required,
            default: value::opt_value(self.default),
            description: text::opt_string(self.description),
            create_only: self.create_only,
            read_only: self.read_only,
            write_only: self.write_only,
            block_name: text::opt_string(self.block_name),
            provider_name: text::opt_string(self.provider_name),
            removable: self.removable,
            identity: self.identity,
        }
    }
}

/// The JSON of a value: null where there is none.
pub open spec fn value_or_null(o: Option<WireView>) -> JsonView {
    match o {
        Some(v) => value::json_of(v),
        None => JsonView::Null,
    }
}

/// The JSON of a truth value, where there is one.
pub open spec fn some_bool(o: Option<bool>) -> Option<JsonView> {
    match o {
        Some(b) => Some(JsonView::Bool(b)),
        None => None,
    }
}

/// The members that every attribute has.
pub open spec fn plain_members(a: WireAttrView) -> Seq<(Seq<char>, JsonView)> {
    Seq::empty()
        .push(("name"@, JsonView::String(a.name)))
        .push(("attr_type"@, schema::type_json(a.attr_type)))
        .push(("required"@, JsonView::Bool(a.required)))
        .push(("default"@, value_or_null(a.default)))
        .push(("description"@, fields::text_or_null(a.description)))
        .push(("create_only"@, JsonView::Bool(a.create_only)))
        .push(("read_only"@, JsonView::Bool(a.read_only)))
        .push(("write_only"@, JsonView::Bool(a.write_only)))
}

/// The members of an attribute but the last.
pub open spec fn most_members(a: WireAttrView) -> Seq<(Seq<char>, JsonView)> {
    fields::with_some(
        fields::with_some(
            fields::with_some(plain_members(a), "block_name"@, fields::some_text(a.block_name)),
            "provider_name"@,
            fields::some_text(a.provider_name),
        ),
        "removable"@,
        some_bool(a.removable),
    )
}

/// The JSON of an attribute.
pub open spec fn attribute_json(a: WireAttrView) -> JsonView {
    JsonView::Object(most_members(a).push(("identity"@, JsonView::Bool(a.identity))))
}

/// A value that may be missing or null.
pub open spec fn may_value(j: JsonView, i: int, key: Seq<char>) -> Option<WireView> {
    match fields::at(j, i, key) {
        None => None,
        Some(JsonView::Null) => None,
        Some(m) => Some(value::value_of(m)),
    }
}

/// A truth value that may be missing or null.
pub open spec fn may_bool(j: JsonView, i: int, key: Seq<char>) -> Option<Option<bool>> {
    match fields::at(j, i, key) {
        None => Some(None),
        Some(JsonView::Null) => Some(None),
        Some(JsonView::Bool(b)) => Some(Some(b)),
        Some(_) => None,
    }
}

/// The texts of an attribute: its name, and what may be missing.
pub open spec fn attribute_texts(j: JsonView) -> Option<
    (Seq<char>, Option<Seq<char>>, Option<Seq<char>>, Option<Seq<char>>),
> {
    match (
        fields::need_text(j, 0, "name"@),
        fields::may_text(j, 4, "description"@),
        fields::may_text(j, 8, "block_name"@),
        fields::may_text(j, 9, "provider_name"@),
    ) {
        (Some(name), Some(description), Some(block_name), Some(provider_name)) => Some(
            (name, description, block_name, provider_name),
        ),
        _ => None,
    }
}

/// The attribute that a document stands for, if it stands for one.
pub open spec fn attribute_of(j: JsonView) -> Option<WireAttrView> {
    if fields::is_record(j, 3, 12) {
        match (
            attribute_texts(j),
            schema::type_at(j, 1, "attr_type"@, false),
            fields::need_bool(j, 2, "required"@),
            fields::bool_or(j, 5, "create_only"@, false),
            fields::bool_or(j, 6, "read_only"@, false),
            fields::bool_or(j, 7, "write_only"@, false),
            may_bool(j, 10, "removable"@),
            fields::bool_or(j, 11, "identity"@, false),
        ) {
            (
                Some((name, description, block_name, provider_name)),
                Some(attr_type),
                Some(required),
                Some(create_only),
                Some(read_only),
                Some(write_only),
                Some(removable),
                Some(identity),
            ) => Some(
                WireAttrView {
                    name,
                    attr_type,
                    required,
                    default: may_value(j, 3, "default"@),
                    description,
                    create_only,
                    read_only,
                    write_only,
                    block_name,
                    provider_name,
                    removable,
                    identity,
                },
            ),
            _ => None,
        }
    } else {
        None
    }
}

fn get_may_bool(j: &Json, i: usize, key: &str) -> (r: Option<Option<bool>>)
    ensures
        r == may_bool(j@, i as int, key@),
{
    match fields::get_at(j, i, key) {
        None => Some(None),
        Some(Json::Null) => Some(None),
        Some(Json::Bool(b)) => Some(Some(*b)),
        Some(_) => None,
    }
}

fn get_may_value(j: &Json, i: usize, key: &str) -> (r: Option<WireValue>)
    ensures
        value::opt_value(r) == may_value(j@, i as int, key@),
{
    match fields::get_at(j, i, key) {
        None => None,
        Some(Json::Null) => None,
        Some(m) => Some(WireValue::from_json(m)),
    }
}

fn put_some_bool(members: &mut Vec<(String, Json)>, key: &str, o: Option<bool>)
    ensures
        json::object_view(final(members)@) == fields::with_some(json::object_view(old(members)@), key@, some_bool(o)),
{
    if let Some(b) = o {
        fields::put(members, key, Json::Bool(b));
    }
}

impl AttributeSchema {
    /// The JSON of the attribute.
    pub fn to_json(&self) -> (r: Json)
        ensures
            r@ == attribute_json(self@),
    {
        let mut m: Vec<(String, Json)> = Vec::new();
        fields::put(&mut m, "name", Json::String(self.name.clone()));
        fields::put(&mut m, "attr_type", self.attr_type.to_json());
        fields::put(&mut m, "required", Json::Bool(self.required));
        let default = match &self.default {
            Some(v) => v.to_json(),
            None => Json::Null,
        };
        fields::put(&mut m, "default", default);
        fields::put(&mut m, "description", fields::make_text_or_null(&self.description));
        fields::put(&mut m, "create_only", Json::Bool(self.create_only));
        fields::put(&mut m, "read_only", Json::Bool(self.read_only));
        fields::put(&mut m, "write_only", Json::Bool(self.write_only));
        fields::put_some_text(&mut m, "block_name", &self.block_name);
        fields::put_some_text(&mut m, "provider_name", &self.provider_name);
        put_some_bool(&mut m, "removable", self.removable);
        fields::put(&mut m, "identity", Json::Bool(self.identity));
        Json::Object(m)
    }

    /// The attribute that a document stands for.
    pub fn from_json(j: &Json) -> (r: Option<AttributeSchema>)
        ensures
            match r {
                Some(a) => attribute_of(j@) == Some(a@),
                None => attribute_of(j@) is None,
            },
    {
        if !fields::has_record(j, 3, 12) {
            return None;
        }
        let name = match fields::get_need_text(j, 0, "name") {
            Some(s) => s,
            None => return None,
        };
        let description = match fields::get_may_text(j, 4, "description") {
            Some(o) => o,
            None => return None,
        };
        let block_name = match fields::get_may_text(j, 8, "block_name") {
            Some(o) => o,
            None => return None,
        };
        let provider_name = match fields::get_may_text(j, 9, "provider_name") {
            Some(o) => o,
            None => return None,
        };
        let attr_type = match schema::read_type_at(j, 1, "attr_type", false) {
            Some(t) => t,
            None => return None,
        };
        match (
            fields::get_need_bool(j, 2, "required"),
            fields::get_bool_or(j, 5, "create_only", false),
            fields::get_bool_or(j, 6, "read_only", false),
            fields::get_bool_or(j, 7, "write_only", false),
            get_may_bool(j, 10, "removable"),
            fields::get_bool_or(j, 11, "identity", false),
        ) {
            (Some(required), Some(create_only), Some(read_only), Some(write_only), Some(removable), Some(identity)) => Some(
                AttributeSchema {
                    name,
                    attr_type,
                    required,
                    default: get_may_value(j, 3, "default"),
                    description,
                    create_only,
                    read_only,
                    write_only,
                    block_name,
                    provider_name,
                    removable,
                    identity,
                },
            ),
            _ => None,
        }
    }
}

/// The schema of a resource type.
#[derive(Debug)]
pub struct ResourceSchema {
    pub resource_type: String,
    /// The attributes by their names. No name occurs twice.
    pub attributes: Vec<(String, AttributeSchema)>,
    pub description: Option<String>,
    pub kind: SchemaKind,
    pub name_attribute: Option<String>,
    pub force_replace: bool,
    pub operation_config: Option<OperationConfig>,
    pub validators: Vec<ValidatorType>,
    /// Groups of attributes of which exactly one is to be given.
    pub exclusive_required: Vec<Vec<String>>,
    /// The types that attributes refer to by name. No name occurs twice.
    pub defs: Vec<(String, AttributeType)>,
}

#[verifier::ext_equal]
pub struct WireSchemaView {
    pub resource_type: Seq<char>,
    pub attributes: Seq<(Seq<char>, WireAttrView)>,
    pub description: Option<Seq<char>>,
    pub kind: SchemaKind,
    pub name_attribute: Option<Seq<char>>,
    pub force_replace: bool,
    pub operation_config: Option<OperationConfig>,
    pub validators: Seq<ValidatorType>,
    pub exclusive_required: Seq<Seq<Seq<char>>>,
    pub defs: Seq<(Seq<char>, WireTypeView)>,
}

pub open spec fn attributes_view(s: Seq<(String, AttributeSchema)>) -> Seq<(Seq<char>, WireAttrView)> {
    Seq::new(s.len(), |i: int| (s[i].0@, s[i].1@))
}

pub open spec fn groups_view(s: Seq<Vec<String>>) -> Seq<Seq<Seq<char>>> {
    Seq::new(s.len(), |i: int| text::strings(s[i]@))
}

pub open spec fn defs_view(s: Seq<(String, AttributeType)>) -> Seq<(Seq<char>, WireTypeView)> {
    Seq::new(s.len(), |i: int| (s[i].0@, s[i].1@))
}

impl View for ResourceSchema {
    type V = WireSchemaView;

    open spec fn view(&self) -> WireSchemaView {
        WireSchemaView {
            resource_type: self.resource_type@,
            attributes: attributes_view(self.attributes@),
            description: text::opt_string(self.description),
            kind: self.kind,
            name_attribute: text::opt_string(self.name_attribute),
            force_replace: self.force_replace,
            operation_config: self.operation_config,
            validators: self.validators@,
            exclusive_required: groups_view(self.exclusive_required@),
            defs: defs_view(self.defs@),
        }
    }
}

/// The JSON of attributes by their names.
pub open spec fn attributes_json(s: Seq<(Seq<char>, WireAttrView)>) -> Seq<(Seq<char>, JsonView)> {
    s.map_values(|e: (Seq<char>, WireAttrView)| (e.0, attribute_json(e.1)))
}

/// The JSON of types by their names.
pub open spec fn defs_json(s: Seq<(Seq<char>, WireTypeView)>) -> Seq<(Seq<char>, JsonView)> {
    s.map_values(|e: (Seq<char>, WireTypeView)| (e.0, schema::type_json(e.1)))
}

/// The JSON of groups of names.
pub open spec fn groups_json(s: Seq<Seq<Seq<char>>>) -> Seq<JsonView> {
    s.map_values(|g: Seq<Seq<char>>| JsonView::Array(fields::texts_json(g)))
}

pub open spec fn kind_text(kind: SchemaKind) -> Seq<char> {
    match kind {
        SchemaKind::Managed => "managed"@,
        SchemaKind::DataSource => "data_source"@,
    }
}

/// The JSON of validators.
pub open spec fn validators_json(s: Seq<ValidatorType>) -> Seq<JsonView> {
    s.map_values(|v: ValidatorType| JsonView::String("tags_key_value_check"@))
}

pub open spec fn operation_or_none(o: Option<OperationConfig>) -> Option<JsonView> {
    match o {
        Some(c) => Some(wire::operation_json(c)),
        None => None,
    }
}

/// A list, where it is not empty.
pub open spec fn some_items(items: Seq<JsonView>) -> Option<JsonView> {
    if items.len() == 0 {
        None
    } else {
        Some(JsonView::Array(items))
    }
}

/// An object, where it is not empty.
pub open spec fn some_object(members: Seq<(Seq<char>, JsonView)>) -> Option<JsonView> {
    if members.len() == 0 {
        None
    } else {
        Some(JsonView::Object(members))
    }
}

/// The members that every schema has.
pub open spec fn common_members(s: WireSchemaView) -> Seq<(Seq<char>, JsonView)> {
    Seq::empty()
        .push(("resource_type"@, JsonView::String(s.resource_type)))
        .push(("attributes"@, JsonView::Object(attributes_json(s.attributes))))
        .push(("description"@, fields::text_or_null(s.description)))
        .push(("kind"@, JsonView::String(kind_text(s.kind))))
        .push(("name_attribute"@, fields::text_or_null(s.name_attribute)))
        .push(("force_replace"@, JsonView::Bool(s.force_replace)))
}

/// The members of a schema.
pub open spec fn schema_members(s: WireSchemaView) -> Seq<(Seq<char>, JsonView)> {
    fields::with_some(
        fields::with_some(
            fields::with_some(
                fields::with_some(
                    common_members(s),
                    "operation_config"@,
                    operation_or_none(s.operation_config),
                ),
                "validators"@,
                some_items(validators_json(s.validators)),
            ),
            "exclusive_required"@,
            some_items(groups_json(s.exclusive_required)),
        ),
        "defs"@,
        some_object(defs_json(s.defs)),
    )
}

/// The JSON of a schema.
pub open spec fn schema_json(s: WireSchemaView) -> JsonView {
    JsonView::Object(schema_members(s))
}

fn make_attributes(list: &Vec<(String, AttributeSchema)>) -> (r: Vec<(String, Json)>)
    ensures
        json::object_view(r@) == attributes_json(attributes_view(list@)),
{
    let ghost goal = attributes_json(attributes_view(list@));
    let mut out: Vec<(String, Json)> = Vec::new();
    let mut i: usize = 0;
    assert(goal.take(0) =~= Seq::empty());
    while i < list.len()
        invariant
            i <= list.len(),
            goal == attributes_json(attributes_view(list@)),
            json::object_view(out@) == goal.take(i as int),
        decreases list.len() - i,
    {
        let e = (list[i].0.clone(), list[i].1.to_json());
        proof {
            json::lemma_push_member(out@, e);
            assert(goal.take(i + 1) =~= goal.take(i as int).push(goal[i as int]));
        }
        out.push(e);
        i = i + 1;
    }
    assert(goal.take(i as int) =~= goal);
    out
}

fn make_defs(list: &Vec<(String, AttributeType)>) -> (r: Vec<(String, Json)>)
    ensures
        json::object_view(r@) == defs_json(defs_view(list@)),
{
    let ghost goal = defs_json(defs_view(list@));
    let mut out: Vec<(String, Json)> = Vec::new();
    let mut i: usize = 0;
    assert(goal.take(0) =~= Seq::empty());
    while i < list.len()
        invariant
            i <= list.len(),
            goal == defs_json(defs_view(list@)),
            json::object_view(out@) == goal.take(i as int),
        decreases list.len() - i,
    {
        let e = (list[i].0.clone(), list[i].1.to_json());
        proof {
            json::lemma_push_member(out@, e);
            assert(goal.take(i + 1) =~= goal.take(i as int).push(goal[i as int]));
        }
        out.push(e);
        i = i + 1;
    }
    assert(goal.take(i as int) =~= goal);
    out
}

fn make_groups(list: &Vec<Vec<String>>) -> (r: Vec<Json>)
    ensures
        json::array_view(r@) == groups_json(groups_view(list@)),
{
    let ghost goal = groups_json(groups_view(list@));
    let mut out: Vec<Json> = Vec::new();
    let mut i: usize = 0;
    assert(goal.take(0) =~= Seq::empty());
    while i < list.len()
        invariant
            i <= list.len(),
            goal == groups_json(groups_view(list@)),
            json::array_view(out@) == goal.take(i as int),
        decreases list.len() - i,
    {
        let j = Json::Array(fields::make_texts(&list[i]));
        proof {
            json::lemma_push_item(out@, j);
            assert(goal.take(i + 1) =~= goal.take(i as int).push(goal[i as int]));
        }
        out.push(j);
        i = i + 1;
    }
    assert(goal.take(i as int) =~= goal);
    out
}

fn make_validators(list: &Vec<ValidatorType>) -> (r: Vec<Json>)
    ensures
        json::array_view(r@) == validators_json(list@),
{
    let ghost goal = validators_json(list@);
    let mut out: Vec<Json> = Vec::new();
    let mut i: usize = 0;
    assert(goal.take(0) =~= Seq::empty());
    while i < list.len()
        invariant
            i <= list.len(),
            goal == validators_json(list@),
            json::array_view(out@) == goal.take(i as int),
        decreases list.len() - i,
    {
        let j = Json::text("tags_key_value_check");
        proof {
            json::lemma_push_item(out@, j);
            assert(goal.take(i + 1) =~= goal.take(i as int).push(goal[i as int]));
        }
        out.push(j);
        i = i + 1;
    }
    assert(goal.take(i as int) =~= goal);
    out
}

impl ResourceSchema {
    /// The JSON of the schema.
    pub fn to_json(&self) -> (r: Json)
        ensures
            r@ == schema_json(self@),
    {
        let mut m: Vec<(String, Json)> = Vec::new();
        fields::put(&mut m, "resource_type", Json::String(self.resource_type.clone()));
        fields::put(&mut m, "attributes", Json::Object(make_attributes(&self.attributes)));
        fields::put(&mut m, "description", fields::make_text_or_null(&self.description));
        let kind = match self.kind {
            SchemaKind::Managed => Json::text("managed"),
            SchemaKind::DataSource => Json::text("data_source"),
        };
        fields::put(&mut m, "kind", kind);
        fields::put(&mut m, "name_attribute", fields::make_text_or_null(&self.name_attribute));
        fields::put(&mut m, "force_replace", Json::Bool(self.force_replace));
        if let Some(c) = &self.operation_config {
            fields::put(&mut m, "operation_config", c.to_json());
        }
        if self.validators.len() > 0 {
            fields::put(&mut m, "validators", Json::Array(make_validators(&self.validators)));
        }
        if self.exclusive_required.len() > 0 {
            fields::put(&mut m, "exclusive_required", Json::Array(make_groups(&self.exclusive_required)));
        }
        if self.defs.len() > 0 {
            fields::put(&mut m, "defs", Json::Object(make_defs(&self.defs)));
        }
        Json::Object(m)
    }
}

/// The attributes that members stand for, where each stands for one.
pub open spec fn attributes_of(members: Seq<(Seq<char>, JsonView)>) -> Option<Seq<(Seq<char>, WireAttrView)>>
    decreases members.len(),
{
    if members.len() == 0 {
        Some(Seq::empty())
    } else {
        match (attributes_of(members.drop_last()), attribute_of(members.last().1)) {
            (Some(before), Some(a)) => Some(before.push((members.last().0, a))),
            _ => None,
        }
    }
}

/// The types that members stand for, where each stands for one.
pub open spec fn defs_of(members: Seq<(Seq<char>, JsonView)>) -> Option<Seq<(Seq<char>, WireTypeView)>>
    decreases members.len(),
{
    if members.len() == 0 {
        Some(Seq::empty())
    } else {
        match (defs_of(members.drop_last()), schema::type_of(members.last().1, false)) {
            (Some(before), Some(t)) => Some(before.push((members.last().0, t))),
            _ => None,
        }
    }
}

/// The groups of names that documents stand for, where each stands for one.
pub open spec fn groups_of(items: Seq<JsonView>) -> Option<Seq<Seq<Seq<char>>>>
    decreases items.len(),
{
    if items.len() == 0 {
        Some(Seq::empty())
    } else {
        let last = match items.last() {
            JsonView::Array(names) => fields::texts_of(names),
            _ => None,
        };
        match (groups_of(items.drop_last()), last) {
            (Some(before), Some(g)) => Some(before.push(g)),
            _ => None,
        }
    }
}

/// The validators that documents name, where each names one.
pub open spec fn validators_of(items: Seq<JsonView>) -> Option<Seq<ValidatorType>>
    decreases items.len(),
{
    if items.len() == 0 {
        Some(Seq::empty())
    } else {
        match validators_of(items.drop_last()) {
            Some(before) => if fields::variant_name(items.last()) == Some("tags_key_value_check"@) {
                Some(before.push(ValidatorType::TagsKeyValueCheck))
            } else {
                None
            },
            None => None,
        }
    }
}

/// The kind that a document names: managed where it names none.
pub open spec fn kind_at(j: JsonView) -> Option<SchemaKind> {
    match fields::at(j, 3, "kind"@) {
        None => Some(SchemaKind::Managed),
        Some(m) => match fields::variant_name(m) {
            Some(s) => if s == "managed"@ {
                Some(SchemaKind::Managed)
            } else if s == "data_source"@ {
                Some(SchemaKind::DataSource)
            } else {
                None
            },
            None => None,
        },
    }
}

/// The attributes, which have to be there.
pub open spec fn attributes_at(j: JsonView) -> Option<Seq<(Seq<char>, WireAttrView)>> {
    match fields::at(j, 1, "attributes"@) {
        Some(JsonView::Object(members)) => attributes_of(members),
        _ => None,
    }
}

/// The definitions, none where they are missing.
pub open spec fn defs_at(j: JsonView) -> Option<Seq<(Seq<char>, WireTypeView)>> {
    match fields::at(j, 9, "defs"@) {
        None => Some(Seq::empty()),
        Some(JsonView::Object(members)) => defs_of(members),
        Some(_) => None,
    }
}

/// The groups of names, none where they are missing.
pub open spec fn groups_at(j: JsonView) -> Option<Seq<Seq<Seq<char>>>> {
    match fields::at(j, 8, "exclusive_required"@) {
        None => Some(Seq::empty()),
        Some(JsonView::Array(items)) => groups_of(items),
        Some(_) => None,
    }
}

/// The validators, none where they are missing.
pub open spec fn validators_at(j: JsonView) -> Option<Seq<ValidatorType>> {
    match fields::at(j, 7, "validators"@) {
        None => Some(Seq::empty()),
        Some(JsonView::Array(items)) => validators_of(items),
        Some(_) => None,
    }
}

/// A document holds an operation config, or none where it is missing or null.
pub open spec fn has_operation(j: JsonView, o: Option<OperationConfig>) -> bool {
    match fields::at(j, 6, "operation_config"@) {
        None => o is None,
        Some(JsonView::Null) => o is None,
        Some(m) => o matches Some(c) && wire::is_operation(m, c),
    }
}

/// A document stands for a schema.
pub open spec fn is_schema(j: JsonView, s: WireSchemaView) -> bool {
    &&& fields::is_record(j, 2, 10)
    &&& fields::need_text(j, 0, "resource_type"@) == Some(s.resource_type)
    &&& attributes_at(j) == Some(s.attributes)
    &&& fields::may_text(j, 2, "description"@) == Some(s.description)
    &&& kind_at(j) == Some(s.kind)
    &&& fields::may_text(j, 4, "name_attribute"@) == Some(s.name_attribute)
    &&& fields::bool_or(j, 5, "force_replace"@, false) == Some(s.force_replace)
    &&& has_operation(j, s.operation_config)
    &&& validators_at(j) == Some(s.validators)
    &&& groups_at(j) == Some(s.exclusive_required)
    &&& defs_at(j) == Some(s.defs)
}

proof fn lemma_members_prefix(members: Seq<(Seq<char>, JsonView)>, i: int)
    requires
        0 <= i <= members.len(),
    ensures
        attributes_of(members) is Some ==> attributes_of(members.take(i)) is Some,
        defs_of(members) is Some ==> defs_of(members.take(i)) is Some,
    decreases members.len() - i,
{
    if i < members.len() {
        lemma_members_prefix(members, i + 1);
        assert(members.take(i + 1).drop_last() =~= members.take(i));
    } else {
        assert(members.take(i) =~= members);
    }
}

proof fn lemma_items_prefix(items: Seq<JsonView>, i: int)
    requires
        0 <= i <= items.len(),
    ensures
        groups_of(items) is Some ==> groups_of(items.take(i)) is Some,
        validators_of(items) is Some ==> validators_of(items.take(i)) is Some,
    decreases items.len() - i,
{
    if i < items.len() {
        lemma_items_prefix(items, i + 1);
        assert(items.take(i + 1).drop_last() =~= items.take(i));
    } else {
        assert(items.take(i) =~= items);
    }
}

fn read_attributes(members: &Vec<(String, Json)>) -> (r: Option<Vec<(String, AttributeSchema)>>)
    ensures
        match r {
            Some(list) => attributes_of(json::object_view(members@)) == Some(attributes_view(list@)),
            None => attributes_of(json::object_view(members@)) is None,
        },
{
    let ghost all = json::object_view(members@);
    let mut out: Vec<(String, AttributeSchema)> = Vec::new();
    let mut i: usize = 0;
    proof {
        json::lemma_object(members@);
    }
    assert(attributes_view(out@) =~= Seq::empty());
    assert(all.take(0).len() == 0);
    while i < members.len()
        invariant
            i <= members.len(),
            all.len() == members.len(),
            all == json::object_view(members@),
            forall|k: int| 0 <= k < all.len() ==> #[trigger] all[k] == (members@[k].0@, json::json_view(members@[k].1)),
            attributes_of(all.take(i as int)) == Some(attributes_view(out@)),
        decreases members.len() - i,
    {
        let ghost before = attributes_view(out@);
        proof {
            assert(all.take(i + 1).drop_last() =~= all.take(i as int));
            assert(all.take(i + 1).last() == all[i as int]);
            lemma_members_prefix(all, i + 1);
        }
        match AttributeSchema::from_json(&members[i].1) {
            Some(a) => {
                let ghost e = (members@[i as int].0@, a@);
                out.push((members[i].0.clone(), a));
                assert(attributes_view(out@) =~= before.push(e));
            },
            None => return None,
        }
        i = i + 1;
    }
    assert(all.take(i as int) =~= all);
    Some(out)
}

fn read_defs(members: &Vec<(String, Json)>) -> (r: Option<Vec<(String, AttributeType)>>)
    ensures
        match r {
            Some(list) => defs_of(json::object_view(members@)) == Some(defs_view(list@)),
            None => defs_of(json::object_view(members@)) is None,
        },
{
    let ghost all = json::object_view(members@);
    let mut out: Vec<(String, AttributeType)> = Vec::new();
    let mut i: usize = 0;
    proof {
        json::lemma_object(members@);
    }
    assert(defs_view(out@) =~= Seq::empty());
    assert(all.take(0).len() == 0);
    while i < members.len()
        invariant
            i <= members.len(),
            all.len() == members.len(),
            all == json::object_view(members@),
            forall|k: int| 0 <= k < all.len() ==> #[trigger] all[k] == (members@[k].0@, json::json_view(members@[k].1)),
            defs_of(all.take(i as int)) == Some(defs_view(out@)),
        decreases members.len() - i,
    {
        let ghost before = defs_view(out@);
        proof {
            assert(all.take(i + 1).drop_last() =~= all.take(i as int));
            assert(all.take(i + 1).last() == all[i as int]);
            lemma_members_prefix(all, i + 1);
        }
        match AttributeType::from_json(&members[i].1) {
            Some(t) => {
                let ghost e = (members@[i as int].0@, t@);
                out.push((members[i].0.clone(), t));
                assert(defs_view(out@) =~= before.push(e));
            },
            None => return None,
        }
        i = i + 1;
    }
    assert(all.take(i as int) =~= all);
    Some(out)
}

fn read_groups(items: &Vec<Json>) -> (r: Option<Vec<Vec<String>>>)
    ensures
        match r {
            Some(list) => groups_of(json::array_view(items@)) == Some(groups_view(list@)),
            None => groups_of(json::array_view(items@)) is None,
        },
{
    let ghost all = json::array_view(items@);
    let mut out: Vec<Vec<String>> = Vec::new();
    let mut i: usize = 0;
    proof {
        json::lemma_array(items@);
    }
    assert(groups_view(out@) =~= Seq::empty());
    assert(all.take(0).len() == 0);
    while i < items.len()
        invariant
            i <= items.len(),
            all.len() == items.len(),
            all == json::array_view(items@),
            forall|k: int| 0 <= k < all.len() ==> #[trigger] all[k] == json::json_view(items@[k]),
            groups_of(all.take(i as int)) == Some(groups_view(out@)),
        decreases items.len() - i,
    {
        let ghost before = groups_view(out@);
        proof {
            assert(all.take(i + 1).drop_last() =~= all.take(i as int));
            assert(all.take(i + 1).last() == items@[i as int]@);
            lemma_items_prefix(all, i + 1);
        }
        let names = match &items[i] {
            Json::Array(names) => fields::read_texts(names),
            _ => None,
        };
        match names {
            Some(g) => {
                let ghost view = text::strings(g@);
                out.push(g);
                assert(groups_view(out@) =~= before.push(view));
            },
            None => return None,
        }
        i = i + 1;
    }
    assert(all.take(i as int) =~= all);
    Some(out)
}

fn read_validators(items: &Vec<Json>) -> (r: Option<Vec<ValidatorType>>)
    ensures
        match r {
            Some(list) => validators_of(json::array_view(items@)) == Some(list@),
            None => validators_of(json::array_view(items@)) is None,
        },
{
    let ghost all = json::array_view(items@);
    let mut out: Vec<ValidatorType> = Vec::new();
    let mut i: usize = 0;
    proof {
        json::lemma_array(items@);
    }
    assert(out@ =~= Seq::empty());
    assert(all.take(0).len() == 0);
    while i < items.len()
        invariant
            i <= items.len(),
            all.len() == items.len(),
            all == json::array_view(items@),
            forall|k: int| 0 <= k < all.len() ==> #[trigger] all[k] == json::json_view(items@[k]),
            validators_of(all.take(i as int)) == Some(out@),
        decreases items.len() - i,
    {
        proof {
            assert(all.take(i + 1).drop_last() =~= all.take(i as int));
            assert(all.take(i + 1).last() == items@[i as int]@);
            lemma_items_prefix(all, i + 1);
        }
        let known = match fields::get_variant_name(&items[i]) {
            Some(s) => text::same(s, "tags_key_value_check"),
            None => false,
        };
        if !known {
            return None;
        }
        out.push(ValidatorType::TagsKeyValueCheck);
        i = i + 1;
    }
    assert(all.take(i as int) =~= all);
    Some(out)
}

fn read_kind(j: &Json) -> (r: Option<SchemaKind>)
    ensures
        r == kind_at(j@),
{
    match fields::get_at(j, 3, "kind") {
        None => Some(SchemaKind::Managed),
        Some(m) => match fields::get_variant_name(m) {
            Some(s) => if text::same(s, "managed") {
                Some(SchemaKind::Managed)
            } else if text::same(s, "data_source") {
                Some(SchemaKind::DataSource)
            } else {
                None
            },
            None => None,
        },
    }
}

fn read_operation(j: &Json) -> (r: Option<Option<OperationConfig>>)
    ensures
        match r {
            Some(o) => has_operation(j@, o),
            None => forall|o: Option<OperationConfig>| !has_operation(j@, o),
        },
{
    match fields::get_at(j, 6, "operation_config") {
        None => Some(None),
        Some(Json::Null) => Some(None),
        Some(m) => match OperationConfig::from_json(m) {
            Some(c) => Some(Some(c)),
            None => None,
        },
    }
}

impl ResourceSchema {
    /// The schema that a document stands for.
    pub fn from_json(j: &Json) -> (r: Option<ResourceSchema>)
        ensures
            match r {
                Some(s) => is_schema(j@, s@),
                None => forall|s: WireSchemaView| !is_schema(j@, s),
            },
    {
        if !fields::has_record(j, 2, 10) {
            return None;
        }
        let resource_type = match fields::get_need_text(j, 0, "resource_type") {
            Some(s) => s,
            None => return None,
        };
        let attributes = match fields::get_at(j, 1, "attributes") {
            Some(Json::Object(members)) => match read_attributes(members) {
                Some(list) => list,
                None => return None,
            },
            _ => return None,
        };
        let description = match fields::get_may_text(j, 2, "description") {
            Some(o) => o,
            None => return None,
        };
        let kind = match read_kind(j) {
            Some(k) => k,
            None => return None,
        };
        let name_attribute = match fields::get_may_text(j, 4, "name_attribute") {
            Some(o) => o,
            None => return None,
        };
        let force_replace = match fields::get_bool_or(j, 5, "force_replace", false) {
            Some(b) => b,
            None => return None,
        };
        let operation_config = match read_operation(j) {
            Some(o) => o,
            None => return None,
        };
        let validators = match fields::get_at(j, 7, "validators") {
            None => Vec::new(),
            Some(Json::Array(items)) => match read_validators(items) {
                Some(list) => list,
                None => return None,
            },
            Some(_) => return None,
        };
        let exclusive_required = match fields::get_at(j, 8, "exclusive_required") {
            None => Vec::new(),
            Some(Json::Array(items)) => match read_groups(items) {
                Some(list) => list,
                None => return None,
            },
            Some(_) => return None,
        };
        let defs = match fields::get_at(j, 9, "defs") {
            None => Vec::new(),
            Some(Json::Object(members)) => match read_defs(members) {
                Some(list) => list,
                None => return None,
            },
            Some(_) => return None,
        };
        let r = ResourceSchema {
            resource_type,
            attributes,
            description,
            kind,
            name_attribute,
            force_replace,
            operation_config,
            validators,
            exclusive_required,
            defs,
        };
        proof {
            if validators_at(j@) == Some(Seq::<ValidatorType>::empty()) {
                assert(r@.validators =~= Seq::empty());
            }
            if fields::at(j@, 8, "exclusive_required"@) is None {
                assert(r@.exclusive_required =~= Seq::empty());
            }
            if fields::at(j@, 9, "defs"@) is None {
                assert(r@.defs =~= Seq::empty());
            }
        }
        Some(r)
    }
}

proof fn lemma_attribute_keys()
    ensures
        "name"@.len() == 4,
        "default"@.len() == 7,
        "required"@.len() == 8 && "identity"@.len() == 8,
        "attr_type"@.len() == 9 && "read_only"@.len() == 9 && "removable"@.len() == 9,
        "write_only"@.len() == 10 && "block_name"@.len() == 10,
        "description"@.len() == 11 && "create_only"@.len() == 11,
        "provider_name"@.len() == 13,
        "required"@ != "identity"@,
        "attr_type"@ != "read_only"@,
        "attr_type"@ != "removable"@,
        "read_only"@ != "removable"@,
        "write_only"@ != "block_name"@,
        "description"@ != "create_only"@,
{
    reveal_strlit("name");
    reveal_strlit("default");
    reveal_strlit("required");
    reveal_strlit("identity");
    reveal_strlit("attr_type");
    reveal_strlit("read_only");
    reveal_strlit("removable");
    reveal_strlit("write_only");
    reveal_strlit("block_name");
    reveal_strlit("description");
    reveal_strlit("create_only");
    reveal_strlit("provider_name");
    assert("required"@[0] != "identity"@[0]);
    assert("attr_type"@[0] == 'a' && "read_only"@[0] == 'r' && "removable"@[0] == 'r');
    assert("read_only"@[2] != "removable"@[2]);
    assert("write_only"@[0] != "block_name"@[0]);
    assert("description"@[0] != "create_only"@[0]);
}

/// The JSON of an attribute can be read back: its type and its default can.
pub open spec fn attribute_keeps(a: WireAttrView) -> bool {
    schema::type_keeps(a.attr_type) && (a.default matches Some(v) ==> value::all_finite(v))
}

/// Members under the keys of an attribute hold what it holds.
pub open spec fn attribute_members(m: Seq<(Seq<char>, JsonView)>, a: WireAttrView) -> bool {
    &&& keyed::lookup(m, "name"@) == Some(JsonView::String(a.name))
    &&& keyed::lookup(m, "attr_type"@) == Some(schema::type_json(a.attr_type))
    &&& keyed::lookup(m, "required"@) == Some(JsonView::Bool(a.required))
    &&& keyed::lookup(m, "default"@) == Some(value_or_null(a.default))
    &&& keyed::lookup(m, "description"@) == Some(fields::text_or_null(a.description))
    &&& keyed::lookup(m, "create_only"@) == Some(JsonView::Bool(a.create_only))
    &&& keyed::lookup(m, "read_only"@) == Some(JsonView::Bool(a.read_only))
    &&& keyed::lookup(m, "write_only"@) == Some(JsonView::Bool(a.write_only))
    &&& keyed::lookup(m, "block_name"@) == fields::some_text(a.block_name)
    &&& keyed::lookup(m, "provider_name"@) == fields::some_text(a.provider_name)
    &&& keyed::lookup(m, "removable"@) == some_bool(a.removable)
    &&& keyed::lookup(m, "identity"@) == Some(JsonView::Bool(a.identity))
}

proof fn lemma_attribute_read(m: Seq<(Seq<char>, JsonView)>, a: WireAttrView)
    requires
        attribute_members(m, a),
        schema::type_of(schema::type_json(a.attr_type), false) == Some(a.attr_type),
        may_value(JsonView::Object(m), 3, "default"@) == a.default,
    ensures
        attribute_of(JsonView::Object(m)) == Some(a),
{
    let j = JsonView::Object(m);
    assert(schema::type_at(j, 1, "attr_type"@, false) == Some(a.attr_type));
    assert(attribute_texts(j) == Some((a.name, a.description, a.block_name, a.provider_name)));
}

proof fn lemma_attribute_found(a: WireAttrView)
    ensures
        attribute_members(most_members(a).push(("identity"@, JsonView::Bool(a.identity))), a),
{
    lemma_attribute_keys();
    lemma_plain_found(a);
    let m0 = plain_members(a);
    let m1 = fields::with_some(m0, "block_name"@, fields::some_text(a.block_name));
    let m2 = fields::with_some(m1, "provider_name"@, fields::some_text(a.provider_name));
    fields::lemma_found_after(m0, "block_name"@, fields::some_text(a.block_name));
    fields::lemma_found_after(m1, "provider_name"@, fields::some_text(a.provider_name));
    fields::lemma_found_after(m2, "removable"@, some_bool(a.removable));
    fields::lemma_found_after_push(most_members(a), "identity"@, JsonView::Bool(a.identity));
}

/// A default comes back from its JSON.
proof fn lemma_default_comes_back(a: WireAttrView)
    requires
        a.default matches Some(v) ==> value::all_finite(v),
    ensures
        match value_or_null(a.default) {
            JsonView::Null => a.default is None,
            m => a.default == Some(value::value_of(m)),
        },
{
    if let Some(v) = a.default {
        value::law_value_round_trip(v);
    }
}

/// An attribute comes back from its JSON.
pub proof fn law_attribute_round_trip(a: WireAttrView)
    requires
        attribute_keeps(a),
    ensures
        attribute_of(attribute_json(a)) == Some(a),
{
    let m = most_members(a).push(("identity"@, JsonView::Bool(a.identity)));
    lemma_attribute_found(a);
    schema::law_type_round_trip(a.attr_type, false);
    lemma_default_comes_back(a);
    lemma_attribute_read(m, a);
}

proof fn lemma_plain_found(a: WireAttrView)
    ensures
        ({
            let m = plain_members(a);
            &&& keyed::lookup(m, "name"@) == Some(JsonView::String(a.name))
            &&& keyed::lookup(m, "attr_type"@) == Some(schema::type_json(a.attr_type))
            &&& keyed::lookup(m, "required"@) == Some(JsonView::Bool(a.required))
            &&& keyed::lookup(m, "default"@) == Some(value_or_null(a.default))
            &&& keyed::lookup(m, "description"@) == Some(fields::text_or_null(a.description))
            &&& keyed::lookup(m, "create_only"@) == Some(JsonView::Bool(a.create_only))
            &&& keyed::lookup(m, "read_only"@) == Some(JsonView::Bool(a.read_only))
            &&& keyed::lookup(m, "write_only"@) == Some(JsonView::Bool(a.write_only))
            &&& keyed::lookup(m, "block_name"@) is None
            &&& keyed::lookup(m, "provider_name"@) is None
            &&& keyed::lookup(m, "removable"@) is None
            &&& keyed::lookup(m, "identity"@) is None
        }),
{
    lemma_attribute_keys();
    reveal_with_fuel(keyed::index_from, 9);
}

proof fn lemma_schema_keys()
    ensures
        "kind"@.len() == 4 && "defs"@.len() == 4,
        "attributes"@.len() == 10 && "validators"@.len() == 10,
        "description"@.len() == 11,
        "resource_type"@.len() == 13 && "force_replace"@.len() == 13,
        "name_attribute"@.len() == 14,
        "operation_config"@.len() == 16,
        "exclusive_required"@.len() == 18,
        "kind"@ != "defs"@,
        "attributes"@ != "validators"@,
        "resource_type"@ != "force_replace"@,
{
    reveal_strlit("kind");
    reveal_strlit("defs");
    reveal_strlit("attributes");
    reveal_strlit("validators");
    reveal_strlit("description");
    reveal_strlit("resource_type");
    reveal_strlit("force_replace");
    reveal_strlit("name_attribute");
    reveal_strlit("operation_config");
    reveal_strlit("exclusive_required");
    assert("kind"@[0] != "defs"@[0]);
    assert("attributes"@[0] != "validators"@[0]);
    assert("resource_type"@[0] != "force_replace"@[0]);
}

/// Members under the keys of a schema hold what it holds.
pub open spec fn schema_has(m: Seq<(Seq<char>, JsonView)>, s: WireSchemaView) -> bool {
    &&& keyed::lookup(m, "resource_type"@) == Some(JsonView::String(s.resource_type))
    &&& keyed::lookup(m, "attributes"@) == Some(JsonView::Object(attributes_json(s.attributes)))
    &&& keyed::lookup(m, "description"@) == Some(fields::text_or_null(s.description))
    &&& keyed::lookup(m, "kind"@) == Some(JsonView::String(kind_text(s.kind)))
    &&& keyed::lookup(m, "name_attribute"@) == Some(fields::text_or_null(s.name_attribute))
    &&& keyed::lookup(m, "force_replace"@) == Some(JsonView::Bool(s.force_replace))
    &&& keyed::lookup(m, "operation_config"@) == operation_or_none(s.operation_config)
    &&& keyed::lookup(m, "validators"@) == some_items(validators_json(s.validators))
    &&& keyed::lookup(m, "exclusive_required"@) == some_items(groups_json(s.exclusive_required))
    &&& keyed::lookup(m, "defs"@) == some_object(defs_json(s.defs))
}

proof fn lemma_common_found(s: WireSchemaView)
    ensures
        ({
            let m = common_members(s);
            &&& keyed::lookup(m, "resource_type"@) == Some(JsonView::String(s.resource_type))
            &&& keyed::lookup(m, "attributes"@) == Some(JsonView::Object(attributes_json(s.attributes)))
            &&& keyed::lookup(m, "description"@) == Some(fields::text_or_null(s.description))
            &&& keyed::lookup(m, "kind"@) == Some(JsonView::String(kind_text(s.kind)))
            &&& keyed::lookup(m, "name_attribute"@) == Some(fields::text_or_null(s.name_attribute))
            &&& keyed::lookup(m, "force_replace"@) == Some(JsonView::Bool(s.force_replace))
            &&& keyed::lookup(m, "operation_config"@) is None
            &&& keyed::lookup(m, "validators"@) is None
            &&& keyed::lookup(m, "exclusive_required"@) is None
            &&& keyed::lookup(m, "defs"@) is None
        }),
{
    lemma_schema_keys();
    reveal_with_fuel(keyed::index_from, 7);
}

proof fn lemma_schema_found(s: WireSchemaView)
    ensures
        schema_has(schema_members(s), s),
{
    lemma_schema_keys();
    lemma_common_found(s);
    let m0 = common_members(s);
    let m1 = fields::with_some(m0, "operation_config"@, operation_or_none(s.operation_config));
    let m2 = fields::with_some(m1, "validators"@, some_items(validators_json(s.validators)));
    let m3 = fields::with_some(m2, "exclusive_required"@, some_items(groups_json(s.exclusive_required)));
    fields::lemma_found_after(m0, "operation_config"@, operation_or_none(s.operation_config));
    fields::lemma_found_after(m1, "validators"@, some_items(validators_json(s.validators)));
    fields::lemma_found_after(m2, "exclusive_required"@, some_items(groups_json(s.exclusive_required)));
    fields::lemma_found_after(m3, "defs"@, some_object(defs_json(s.defs)));
}

proof fn lemma_attributes_come_back(s: Seq<(Seq<char>, WireAttrView)>)
    requires
        forall|i: int| 0 <= i < s.len() ==> attribute_keeps((#[trigger] s[i]).1),
    ensures
        attributes_of(attributes_json(s)) == Some(s),
    decreases s.len(),
{
    let out = attributes_json(s);
    if s.len() > 0 {
        let before = s.drop_last();
        assert forall|i: int| 0 <= i < before.len() implies attribute_keeps((#[trigger] before[i]).1) by {
            assert(before[i] == s[i]);
        }
        lemma_attributes_come_back(before);
        law_attribute_round_trip(s[s.len() - 1].1);
        assert(out.drop_last() =~= attributes_json(before));
        assert(before.push(s.last()) =~= s);
    } else {
        assert(s =~= Seq::empty());
    }
}

proof fn lemma_defs_come_back(s: Seq<(Seq<char>, WireTypeView)>)
    requires
        forall|i: int| 0 <= i < s.len() ==> schema::type_keeps((#[trigger] s[i]).1),
    ensures
        defs_of(defs_json(s)) == Some(s),
    decreases s.len(),
{
    let out = defs_json(s);
    if s.len() > 0 {
        let before = s.drop_last();
        assert forall|i: int| 0 <= i < before.len() implies schema::type_keeps((#[trigger] before[i]).1) by {
            assert(before[i] == s[i]);
        }
        lemma_defs_come_back(before);
        schema::law_type_round_trip(s[s.len() - 1].1, false);
        assert(out.drop_last() =~= defs_json(before));
        assert(before.push(s.last()) =~= s);
    } else {
        assert(s =~= Seq::empty());
    }
}

proof fn lemma_groups_come_back(s: Seq<Seq<Seq<char>>>)
    ensures
        groups_of(groups_json(s)) == Some(s),
    decreases s.len(),
{
    let out = groups_json(s);
    if s.len() > 0 {
        let before = s.drop_last();
        lemma_groups_come_back(before);
        fields::lemma_texts_come_back(s.last());
        assert(out.drop_last() =~= groups_json(before));
        assert(out.last() == JsonView::Array(fields::texts_json(s.last())));
        assert(before.push(s.last()) =~= s);
    } else {
        assert(s =~= Seq::empty());
    }
}

proof fn lemma_validators_come_back(s: Seq<ValidatorType>)
    ensures
        validators_of(validators_json(s)) == Some(s),
    decreases s.len(),
{
    let out = validators_json(s);
    if s.len() > 0 {
        let before = s.drop_last();
        lemma_validators_come_back(before);
        assert(out.drop_last() =~= validators_json(before));
        assert(s.last() == ValidatorType::TagsKeyValueCheck);
        assert(before.push(s.last()) =~= s);
    } else {
        assert(s =~= Seq::empty());
    }
}

/// A schema comes back from its JSON.
pub proof fn law_schema_round_trip(s: WireSchemaView)
    requires
        forall|i: int| 0 <= i < s.attributes.len() ==> attribute_keeps((#[trigger] s.attributes[i]).1),
        forall|i: int| 0 <= i < s.defs.len() ==> schema::type_keeps((#[trigger] s.defs[i]).1),
    ensures
        is_schema(schema_json(s), s),
{
    lemma_schema_found(s);
    lemma_attributes_come_back(s.attributes);
    lemma_defs_come_back(s.defs);
    lemma_groups_come_back(s.exclusive_required);
    lemma_validators_come_back(s.validators);
    if let Some(c) = s.operation_config {
        wire::law_operation_round_trip(c);
    }
    lemma_schema_read(schema_members(s), s);
}

proof fn lemma_schema_read(m: Seq<(Seq<char>, JsonView)>, s: WireSchemaView)
    requires
        schema_has(m, s),
        attributes_of(attributes_json(s.attributes)) == Some(s.attributes),
        defs_of(defs_json(s.defs)) == Some(s.defs),
        groups_of(groups_json(s.exclusive_required)) == Some(s.exclusive_required),
        validators_of(validators_json(s.validators)) == Some(s.validators),
        s.operation_config matches Some(c) ==> wire::is_operation(wire::operation_json(c), c),
    ensures
        is_schema(JsonView::Object(m), s),
{
    reveal_strlit("managed");
    reveal_strlit("data_source");
    assert("managed"@.len() != "data_source"@.len());
    if s.defs.len() == 0 {
        assert(s.defs =~= Seq::empty());
    }
    if s.exclusive_required.len() == 0 {
        assert(s.exclusive_required =~= Seq::empty());
    }
    if s.validators.len() == 0 {
        assert(s.validators =~= Seq::empty());
    }
}

} // verus!
