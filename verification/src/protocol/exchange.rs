//! The JSON of what each method of the protocol takes and gives.
use vstd::prelude::*;
use vstd::string::*;

use crate::json;
use crate::json::{Json, JsonView};
use crate::keyed;
use crate::protocol::fields;
use crate::protocol::methods::{
    CreateParams, CreateResult, DeleteParams, DeleteResult, HydrateReadStateParams, HydrateReadStateResult,
    InitializeParams, InitializeResult, MergeDefaultTagsParams, MergeDefaultTagsResult, NormalizeDesiredParams,
    NormalizeDesiredResult, NormalizeStateParams, NormalizeStateResult, ProviderInfoResult, ReadParams, ReadResult,
    SchemasResult, UpdateParams, UpdateResult, ValidateConfigParams, ValidateConfigResult,
};
use crate::protocol::records;
use crate::protocol::resource_schema;
use crate::protocol::resource_schema::{ResourceSchema, WireSchemaView};
use crate::protocol::schema;
use crate::protocol::types;
use crate::protocol::types::{InfoView, ProviderInfo, State, WireResourceView, WireStateView};
use crate::protocol::value;
use crate::protocol::value::{WireValue, WireView};
use crate::protocol::wire;
use crate::resource::{IdView, LifecycleConfig};
use crate::text;

verus! {

/// The JSON of what a provider says of itself.
pub open spec fn info_json(i: InfoView) -> JsonView {
    JsonView::Object(wire::info_members(i))
}

proof fn lemma_info_comes_back(i: InfoView)
    ensures
        wire::info_of(info_json(i)) == Some(i),
{
    wire::law_info_round_trip(i, 0);
}

/// What a provider says of itself that has to be there.
pub open spec fn info_at(j: JsonView, i: int, key: Seq<char>) -> Option<InfoView> {
    match fields::at(j, i, key) {
        Some(m) => wire::info_of(m),
        None => None,
    }
}

/// Reads what a provider says of itself that has to be there.
pub fn get_info(j: &Json, i: usize, key: &str) -> (r: Option<ProviderInfo>)
    ensures
        match r {
            Some(x) => info_at(j@, i as int, key@) == Some(x@),
            None => info_at(j@, i as int, key@) is None,
        },
{
    match fields::get_at(j, i, key) {
        Some(m) => ProviderInfo::from_json(m),
        None => None,
    }
}

/// The schema that a document stands for, if it stands for one.
pub open spec fn schema_of(j: JsonView) -> Option<WireSchemaView> {
    if exists|s: WireSchemaView| resource_schema::is_schema(j, s) {
        Some(choose|s: WireSchemaView| resource_schema::is_schema(j, s))
    } else {
        None
    }
}

/// A document stands for one schema at most.
proof fn lemma_one_schema(j: JsonView, s: WireSchemaView)
    requires
        resource_schema::is_schema(j, s),
    ensures
        schema_of(j) == Some(s),
{
    let t = choose|t: WireSchemaView| resource_schema::is_schema(j, t);
    assert(s.operation_config == t.operation_config);
    assert(s =~= t);
}

fn schema_from_json(j: &Json) -> (r: Option<ResourceSchema>)
    ensures
        match r {
            Some(s) => schema_of(j@) == Some(s@),
            None => schema_of(j@) is None,
        },
{
    match ResourceSchema::from_json(j) {
        Some(s) => {
            proof {
                lemma_one_schema(j@, s@);
            }
            Some(s)
        },
        None => None,
    }
}

/// The JSON of a schema can be read back.
pub open spec fn schema_keeps(s: WireSchemaView) -> bool {
    &&& forall|i: int| 0 <= i < s.attributes.len() ==> resource_schema::attribute_keeps((#[trigger] s.attributes[i]).1)
    &&& forall|i: int| 0 <= i < s.defs.len() ==> schema::type_keeps((#[trigger] s.defs[i]).1)
}

proof fn lemma_schema_comes_back(s: WireSchemaView)
    requires
        schema_keeps(s),
    ensures
        schema_of(resource_schema::schema_json(s)) == Some(s),
{
    resource_schema::law_schema_round_trip(s);
    lemma_one_schema(resource_schema::schema_json(s), s);
}

/// The views of schemas.
pub open spec fn schemas_view(s: Seq<ResourceSchema>) -> Seq<WireSchemaView> {
    Seq::new(s.len(), |i: int| s[i]@)
}

/// The JSON of schemas.
pub open spec fn schemas_json(s: Seq<WireSchemaView>) -> Seq<JsonView> {
    Seq::new(s.len(), |i: int| resource_schema::schema_json(s[i]))
}

/// What documents stand for, where each stands for one of schemas.
pub open spec fn schemas_of(items: Seq<JsonView>) -> Option<Seq<WireSchemaView>>
    decreases items.len(),
{
    if items.len() == 0 {
        Some(Seq::empty())
    } else {
        match (schemas_of(items.drop_last()), schema_of(items.last())) {
            (Some(before), Some(x)) => Some(before.push(x)),
            _ => None,
        }
    }
}

/// Schemas, which have to be there.
pub open spec fn schemas_at(j: JsonView, i: int, key: Seq<char>) -> Option<Seq<WireSchemaView>> {
    match fields::at(j, i, key) {
        Some(JsonView::Array(items)) => schemas_of(items),
        _ => None,
    }
}

/// The JSON of schemas.
pub fn make_schemas(list: &Vec<ResourceSchema>) -> (r: Vec<Json>)
    ensures
        json::array_view(r@) == schemas_json(schemas_view(list@)),
{
    let ghost goal = schemas_json(schemas_view(list@));
    let mut out: Vec<Json> = Vec::new();
    let mut i: usize = 0;
    assert(goal.take(0) =~= Seq::empty());
    while i < list.len()
        invariant
            i <= list.len(),
            goal == schemas_json(schemas_view(list@)),
            json::array_view(out@) == goal.take(i as int),
        decreases list.len() - i,
    {
        let j = list[i].to_json();
        proof {
            json::lemma_push_item(out@, j);
            assert(goal.take(i + 1) =~= goal.take(i as int).push(goal[i as int]));
        }
        out.push(j);
        i = i + 1;
    }
    assert(goal.take(i as int) =~= goal);
    out
}

proof fn lemma_schemas_prefix(items: Seq<JsonView>, i: int)
    requires
        0 <= i <= items.len(),
    ensures
        schemas_of(items) is Some ==> schemas_of(items.take(i)) is Some,
    decreases items.len() - i,
{
    if i < items.len() {
        lemma_schemas_prefix(items, i + 1);
        assert(items.take(i + 1).drop_last() =~= items.take(i));
    } else {
        assert(items.take(i) =~= items);
    }
}

fn read_schemas(items: &Vec<Json>) -> (r: Option<Vec<ResourceSchema>>)
    ensures
        match r {
            Some(list) => schemas_of(json::array_view(items@)) == Some(schemas_view(list@)),
            None => schemas_of(json::array_view(items@)) is None,
        },
{
    let ghost all = json::array_view(items@);
    let mut out: Vec<ResourceSchema> = Vec::new();
    let mut i: usize = 0;
    proof {
        json::lemma_array(items@);
    }
    assert(schemas_view(out@) =~= Seq::empty());
    assert(all.take(0).len() == 0);
    while i < items.len()
        invariant
            i <= items.len(),
            all.len() == items.len(),
            all == json::array_view(items@),
            forall|k: int| 0 <= k < all.len() ==> #[trigger] all[k] == json::json_view(items@[k]),
            schemas_of(all.take(i as int)) == Some(schemas_view(out@)),
        decreases items.len() - i,
    {
        let ghost before = schemas_view(out@);
        proof {
            assert(all.take(i + 1).drop_last() =~= all.take(i as int));
            assert(all.take(i + 1).last() == all[i as int]);
            lemma_schemas_prefix(all, i + 1);
        }
        match schema_from_json(&items[i]) {
            Some(x) => {
                let ghost view = x@;
                out.push(x);
                assert(schemas_view(out@) =~= before.push(view));
            },
            None => return None,
        }
        i = i + 1;
    }
    assert(all.take(i as int) =~= all);
    Some(out)
}

/// Reads schemas, which have to be there.
pub fn get_schemas(j: &Json, i: usize, key: &str) -> (r: Option<Vec<ResourceSchema>>)
    ensures
        match r {
            Some(list) => schemas_at(j@, i as int, key@) == Some(schemas_view(list@)),
            None => schemas_at(j@, i as int, key@) is None,
        },
{
    match fields::get_at(j, i, key) {
        Some(Json::Array(items)) => read_schemas(items),
        _ => None,
    }
}

/// The JSON of schemas can be read back.
pub open spec fn schemas_keep(s: Seq<WireSchemaView>) -> bool {
    forall|i: int| 0 <= i < s.len() ==> schema_keeps(#[trigger] s[i])
}

/// Schemas come back from their JSON.
pub proof fn lemma_schemas_come_back(s: Seq<WireSchemaView>)
    requires
        schemas_keep(s),
    ensures
        schemas_of(schemas_json(s)) == Some(s),
    decreases s.len(),
{
    let out = schemas_json(s);
    if s.len() > 0 {
        let before = s.drop_last();
        assert forall|i: int| 0 <= i < before.len() implies schema_keeps(#[trigger] before[i]) by {
            assert(before[i] == s[i]);
        }
        lemma_schemas_come_back(before);
        lemma_schema_comes_back(s.last());
        assert(out.drop_last() =~= schemas_json(before));
        assert(before.push(s.last()) =~= s);
    } else {
        assert(s =~= Seq::empty());
    }
}

/// The views of states.
pub open spec fn states_view(s: Seq<(String, State)>) -> Seq<(Seq<char>, WireStateView)> {
    Seq::new(s.len(), |i: int| (s[i].0@, s[i].1@))
}

/// The JSON of states.
pub open spec fn states_json(s: Seq<(Seq<char>, WireStateView)>) -> Seq<(Seq<char>, JsonView)> {
    Seq::new(s.len(), |i: int| (s[i].0, wire::state_json(s[i].1)))
}

/// What documents stand for, where each stands for one of states.
pub open spec fn states_of(items: Seq<(Seq<char>, JsonView)>) -> Option<Seq<(Seq<char>, WireStateView)>>
    decreases items.len(),
{
    if items.len() == 0 {
        Some(Seq::empty())
    } else {
        match (states_of(items.drop_last()), wire::state_of(items.last().1)) {
            (Some(before), Some(x)) => Some(before.push((items.last().0, x))),
            _ => None,
        }
    }
}

/// States, which have to be there.
pub open spec fn states_at(j: JsonView, i: int, key: Seq<char>) -> Option<Seq<(Seq<char>, WireStateView)>> {
    match fields::at(j, i, key) {
        Some(JsonView::Object(items)) => states_of(items),
        _ => None,
    }
}

/// The JSON of states.
pub fn make_states(list: &Vec<(String, State)>) -> (r: Vec<(String, Json)>)
    ensures
        json::object_view(r@) == states_json(states_view(list@)),
{
    let ghost goal = states_json(states_view(list@));
    let mut out: Vec<(String, Json)> = Vec::new();
    let mut i: usize = 0;
    assert(goal.take(0) =~= Seq::empty());
    while i < list.len()
        invariant
            i <= list.len(),
            goal == states_json(states_view(list@)),
            json::object_view(out@) == goal.take(i as int),
        decreases list.len() - i,
    {
        let j = (list[i].0.clone(), list[i].1.to_json());
        proof {
            json::lemma_push_member(out@, j);
            assert(goal.take(i + 1) =~= goal.take(i as int).push(goal[i as int]));
        }
        out.push(j);
        i = i + 1;
    }
    assert(goal.take(i as int) =~= goal);
    out
}

proof fn lemma_states_prefix(items: Seq<(Seq<char>, JsonView)>, i: int)
    requires
        0 <= i <= items.len(),
    ensures
        states_of(items) is Some ==> states_of(items.take(i)) is Some,
    decreases items.len() - i,
{
    if i < items.len() {
        lemma_states_prefix(items, i + 1);
        assert(items.take(i + 1).drop_last() =~= items.take(i));
    } else {
        assert(items.take(i) =~= items);
    }
}

fn read_states(items: &Vec<(String, Json)>) -> (r: Option<Vec<(String, State)>>)
    ensures
        match r {
            Some(list) => states_of(json::object_view(items@)) == Some(states_view(list@)),
            None => states_of(json::object_view(items@)) is None,
        },
{
    let ghost all = json::object_view(items@);
    let mut out: Vec<(String, State)> = Vec::new();
    let mut i: usize = 0;
    proof {
        json::lemma_object(items@);
    }
    assert(states_view(out@) =~= Seq::empty());
    assert(all.take(0).len() == 0);
    while i < items.len()
        invariant
            i <= items.len(),
            all.len() == items.len(),
            all == json::object_view(items@),
            forall|k: int| 0 <= k < all.len() ==> #[trigger] all[k] == (items@[k].0@, json::json_view(items@[k].1)),
            states_of(all.take(i as int)) == Some(states_view(out@)),
        decreases items.len() - i,
    {
        let ghost before = states_view(out@);
        proof {
            assert(all.take(i + 1).drop_last() =~= all.take(i as int));
            assert(all.take(i + 1).last() == all[i as int]);
            lemma_states_prefix(all, i + 1);
        }
        match State::from_json(&items[i].1) {
            Some(x) => {
                let ghost view = (items@[i as int].0@, x@);
                out.push((items[i].0.clone(), x));
                assert(states_view(out@) =~= before.push(view));
            },
            None => return None,
        }
        i = i + 1;
    }
    assert(all.take(i as int) =~= all);
    Some(out)
}

/// Reads states, which have to be there.
pub fn get_states(j: &Json, i: usize, key: &str) -> (r: Option<Vec<(String, State)>>)
    ensures
        match r {
            Some(list) => states_at(j@, i as int, key@) == Some(states_view(list@)),
            None => states_at(j@, i as int, key@) is None,
        },
{
    match fields::get_at(j, i, key) {
        Some(Json::Object(items)) => read_states(items),
        _ => None,
    }
}

/// The JSON of states can be read back.
pub open spec fn states_keep(s: Seq<(Seq<char>, WireStateView)>) -> bool {
    forall|i: int| 0 <= i < s.len() ==> records::state_keeps((#[trigger] s[i]).1)
}

/// States come back from their JSON.
pub proof fn lemma_states_come_back(s: Seq<(Seq<char>, WireStateView)>)
    requires
        states_keep(s),
    ensures
        states_of(states_json(s)) == Some(s),
    decreases s.len(),
{
    let out = states_json(s);
    if s.len() > 0 {
        let before = s.drop_last();
        assert forall|i: int| 0 <= i < before.len() implies records::state_keeps((#[trigger] before[i]).1) by {
            assert(before[i] == s[i]);
        }
        lemma_states_come_back(before);
        wire::law_state_round_trip(s.last().1);
        assert(out.drop_last() =~= states_json(before));
        assert(before.push(s.last()) =~= s);
    } else {
        assert(s =~= Seq::empty());
    }
}

/// The entries that a document stands for, if it is an object.
pub open spec fn entries_of(j: JsonView) -> Option<Seq<(Seq<char>, WireView)>> {
    match j {
        JsonView::Object(members) => Some(value::map_of(members)),
        _ => None,
    }
}

fn entries_from_json(j: &Json) -> (r: Option<Vec<(String, WireValue)>>)
    ensures
        match r {
            Some(e) => entries_of(j@) == Some(value::entries_view(e@)),
            None => entries_of(j@) is None,
        },
{
    match j {
        Json::Object(members) => Some(value::entries_of_object(members)),
        _ => None,
    }
}

/// The views of saved attributes.
pub open spec fn saved_view(s: Seq<(String, Vec<(String, WireValue)>)>) -> Seq<(Seq<char>, Seq<(Seq<char>, WireView)>)> {
    Seq::new(s.len(), |i: int| (s[i].0@, value::entries_view(s[i].1@)))
}

/// The JSON of saved attributes.
pub open spec fn saved_json(s: Seq<(Seq<char>, Seq<(Seq<char>, WireView)>)>) -> Seq<(Seq<char>, JsonView)> {
    Seq::new(s.len(), |i: int| (s[i].0, JsonView::Object(value::object_of(s[i].1))))
}

/// What documents stand for, where each stands for one of saved attributes.
pub open spec fn saved_of(items: Seq<(Seq<char>, JsonView)>) -> Option<Seq<(Seq<char>, Seq<(Seq<char>, WireView)>)>>
    decreases items.len(),
{
    if items.len() == 0 {
        Some(Seq::empty())
    } else {
        match (saved_of(items.drop_last()), entries_of(items.last().1)) {
            (Some(before), Some(x)) => Some(before.push((items.last().0, x))),
            _ => None,
        }
    }
}

/// Saved attributes, which have to be there.
pub open spec fn saved_at(j: JsonView, i: int, key: Seq<char>) -> Option<Seq<(Seq<char>, Seq<(Seq<char>, WireView)>)>> {
    match fields::at(j, i, key) {
        Some(JsonView::Object(items)) => saved_of(items),
        _ => None,
    }
}

/// The JSON of saved attributes.
pub fn make_saved(list: &Vec<(String, Vec<(String, WireValue)>)>) -> (r: Vec<(String, Json)>)
    ensures
        json::object_view(r@) == saved_json(saved_view(list@)),
{
    let ghost goal = saved_json(saved_view(list@));
    let mut out: Vec<(String, Json)> = Vec::new();
    let mut i: usize = 0;
    assert(goal.take(0) =~= Seq::empty());
    while i < list.len()
        invariant
            i <= list.len(),
            goal == saved_json(saved_view(list@)),
            json::object_view(out@) == goal.take(i as int),
        decreases list.len() - i,
    {
        let j = (list[i].0.clone(), Json::Object(value::object_of_entries(&list[i].1)));
        proof {
            json::lemma_push_member(out@, j);
            assert(goal.take(i + 1) =~= goal.take(i as int).push(goal[i as int]));
        }
        out.push(j);
        i = i + 1;
    }
    assert(goal.take(i as int) =~= goal);
    out
}

proof fn lemma_saved_prefix(items: Seq<(Seq<char>, JsonView)>, i: int)
    requires
        0 <= i <= items.len(),
    ensures
        saved_of(items) is Some ==> saved_of(items.take(i)) is Some,
    decreases items.len() - i,
{
    if i < items.len() {
        lemma_saved_prefix(items, i + 1);
        assert(items.take(i + 1).drop_last() =~= items.take(i));
    } else {
        assert(items.take(i) =~= items);
    }
}

fn read_saved(items: &Vec<(String, Json)>) -> (r: Option<Vec<(String, Vec<(String, WireValue)>)>>)
    ensures
        match r {
            Some(list) => saved_of(json::object_view(items@)) == Some(saved_view(list@)),
            None => saved_of(json::object_view(items@)) is None,
        },
{
    let ghost all = json::object_view(items@);
    let mut out: Vec<(String, Vec<(String, WireValue)>)> = Vec::new();
    let mut i: usize = 0;
    proof {
        json::lemma_object(items@);
    }
    assert(saved_view(out@) =~= Seq::empty());
    assert(all.take(0).len() == 0);
    while i < items.len()
        invariant
            i <= items.len(),
            all.len() == items.len(),
            all == json::object_view(items@),
            forall|k: int| 0 <= k < all.len() ==> #[trigger] all[k] == (items@[k].0@, json::json_view(items@[k].1)),
            saved_of(all.take(i as int)) == Some(saved_view(out@)),
        decreases items.len() - i,
    {
        let ghost before = saved_view(out@);
        proof {
            assert(all.take(i + 1).drop_last() =~= all.take(i as int));
            assert(all.take(i + 1).last() == all[i as int]);
            lemma_saved_prefix(all, i + 1);
        }
        match entries_from_json(&items[i].1) {
            Some(x) => {
                let ghost view = (items@[i as int].0@, value::entries_view(x@));
                out.push((items[i].0.clone(), x));
                assert(saved_view(out@) =~= before.push(view));
            },
            None => return None,
        }
        i = i + 1;
    }
    assert(all.take(i as int) =~= all);
    Some(out)
}

/// Reads saved attributes, which have to be there.
pub fn get_saved(j: &Json, i: usize, key: &str) -> (r: Option<Vec<(String, Vec<(String, WireValue)>)>>)
    ensures
        match r {
            Some(list) => saved_at(j@, i as int, key@) == Some(saved_view(list@)),
            None => saved_at(j@, i as int, key@) is None,
        },
{
    match fields::get_at(j, i, key) {
        Some(Json::Object(items)) => read_saved(items),
        _ => None,
    }
}

/// The JSON of saved attributes can be read back.
pub open spec fn saved_keep(s: Seq<(Seq<char>, Seq<(Seq<char>, WireView)>)>) -> bool {
    forall|i: int| 0 <= i < s.len() ==> records::entries_keep((#[trigger] s[i]).1)
}

/// Saved attributes come back from their JSON.
pub proof fn lemma_saved_come_back(s: Seq<(Seq<char>, Seq<(Seq<char>, WireView)>)>)
    requires
        saved_keep(s),
    ensures
        saved_of(saved_json(s)) == Some(s),
    decreases s.len(),
{
    let out = saved_json(s);
    if s.len() > 0 {
        let before = s.drop_last();
        assert forall|i: int| 0 <= i < before.len() implies records::entries_keep((#[trigger] before[i]).1) by {
            assert(before[i] == s[i]);
        }
        lemma_saved_come_back(before);
        value::law_entries_round_trip(s.last().1);
        assert(out.drop_last() =~= saved_json(before));
        assert(before.push(s.last()) =~= s);
    } else {
        assert(s =~= Seq::empty());
    }
}

/// The JSON of how a resource is to be replaced and deleted.
pub open spec fn lifecycle_json(v: LifecycleConfig) -> JsonView {
    JsonView::Object(
        Seq::empty()
            .push(("force_delete"@, JsonView::Bool(v.force_delete)))
            .push(("create_before_destroy"@, JsonView::Bool(v.create_before_destroy))),
    )
}

/// How a resource is to be replaced and deleted. What is missing is off.
pub open spec fn lifecycle_at(j: JsonView, i: int, key: Seq<char>) -> Option<LifecycleConfig> {
    match fields::at(j, i, key) {
        Some(m) => if fields::is_record(m, 0, 2) {
            match (fields::bool_or(m, 0, "force_delete"@, false), fields::bool_or(m, 1, "create_before_destroy"@, false)) {
                (Some(force_delete), Some(create_before_destroy)) => Some(
                    LifecycleConfig { force_delete, create_before_destroy },
                ),
                _ => None,
            }
        } else {
            None
        },
        None => None,
    }
}

fn lifecycle_to_json(v: &LifecycleConfig) -> (r: Json)
    ensures
        r@ == lifecycle_json(*v),
{
    let mut m: Vec<(String, Json)> = Vec::new();
    fields::put(&mut m, "force_delete", Json::Bool(v.force_delete));
    fields::put(&mut m, "create_before_destroy", Json::Bool(v.create_before_destroy));
    Json::Object(m)
}

fn get_lifecycle(j: &Json, i: usize, key: &str) -> (r: Option<LifecycleConfig>)
    ensures
        r == lifecycle_at(j@, i as int, key@),
{
    let m = match fields::get_at(j, i, key) {
        Some(m) => m,
        None => return None,
    };
    if !fields::has_record(m, 0, 2) {
        return None;
    }
    match (
        fields::get_bool_or(m, 0, "force_delete", false),
        fields::get_bool_or(m, 1, "create_before_destroy", false),
    ) {
        (Some(force_delete), Some(create_before_destroy)) => Some(
            LifecycleConfig { force_delete, create_before_destroy },
        ),
        _ => None,
    }
}

proof fn lemma_lifecycle_comes_back(v: LifecycleConfig)
    ensures
        forall|j: JsonView, i: int, key: Seq<char>|
            fields::at(j, i, key) == Some(lifecycle_json(v)) ==> #[trigger] lifecycle_at(j, i, key) == Some(v),
{
    reveal_strlit("force_delete");
    reveal_strlit("create_before_destroy");
    assert("force_delete"@.len() == 12 && "create_before_destroy"@.len() == 21);
    reveal_with_fuel(keyed::index_from, 3);
}

#[verifier::ext_equal]
pub struct ProviderInfoResultView {
    pub info: InfoView,
}

impl View for ProviderInfoResult {
    type V = ProviderInfoResultView;

    open spec fn view(&self) -> ProviderInfoResultView {
        ProviderInfoResultView { info: self.info@ }
    }
}

/// The JSON of a result of asking for the provider.
pub open spec fn provider_info_result_json(v: ProviderInfoResultView) -> JsonView {
    JsonView::Object(Seq::empty().push(("info"@, info_json(v.info))))
}

/// The result of asking for the provider that a document stands for, if it stands for one.
pub open spec fn provider_info_result_of(j: JsonView) -> Option<ProviderInfoResultView> {
    if fields::is_record(j, 1, 1) {
        match info_at(j, 0, "info"@) {
            Some(info) => Some(ProviderInfoResultView { info }),
            None => None,
        }
    } else {
        None
    }
}

impl ProviderInfoResult {
    /// The JSON of the result of asking for the provider.
    pub fn to_json(&self) -> (r: Json)
        ensures
            r@ == provider_info_result_json(self@),
    {
        let mut m: Vec<(String, Json)> = Vec::new();
        fields::put(&mut m, "info", self.info.to_json());
        Json::Object(m)
    }

    /// The result of asking for the provider that a document stands for.
    pub fn from_json(j: &Json) -> (r: Option<ProviderInfoResult>)
        ensures
            match r {
                Some(x) => provider_info_result_of(j@) == Some(x@),
                None => provider_info_result_of(j@) is None,
            },
    {
        if !fields::has_record(j, 1, 1) {
            return None;
        }
        let info = match get_info(j, 0, "info") {
            Some(x) => x,
            None => return None,
        };
        Some(ProviderInfoResult { info })
    }
}

/// A result of asking for the provider comes back from its JSON.
pub proof fn law_provider_info_result_round_trip(v: ProviderInfoResultView)
    ensures
        provider_info_result_of(provider_info_result_json(v)) == Some(v),
{
    reveal_strlit("info");
    assert("info"@.len() == 4);
    lemma_info_comes_back(v.info);
    reveal_with_fuel(keyed::index_from, 2);
}

#[verifier::ext_equal]
pub struct ValidateConfigParamsView {
    pub attributes: Seq<(Seq<char>, WireView)>,
}

impl View for ValidateConfigParams {
    type V = ValidateConfigParamsView;

    open spec fn view(&self) -> ValidateConfigParamsView {
        ValidateConfigParamsView { attributes: value::entries_view(self.attributes@) }
    }
}

/// The JSON of a question for the validity of a config.
pub open spec fn validate_config_params_json(v: ValidateConfigParamsView) -> JsonView {
    JsonView::Object(Seq::empty().push(("attributes"@, JsonView::Object(value::object_of(v.attributes)))))
}

/// The question for the validity of a config that a document stands for, if it stands for one.
pub open spec fn validate_config_params_of(j: JsonView) -> Option<ValidateConfigParamsView> {
    if fields::is_record(j, 1, 1) {
        match records::entries_at(j, 0, "attributes"@) {
            Some(attributes) => Some(ValidateConfigParamsView { attributes }),
            None => None,
        }
    } else {
        None
    }
}

impl ValidateConfigParams {
    /// The JSON of the question for the validity of a config.
    pub fn to_json(&self) -> (r: Json)
        ensures
            r@ == validate_config_params_json(self@),
    {
        let mut m: Vec<(String, Json)> = Vec::new();
        fields::put(&mut m, "attributes", Json::Object(value::object_of_entries(&self.attributes)));
        Json::Object(m)
    }

    /// The question for the validity of a config that a document stands for.
    pub fn from_json(j: &Json) -> (r: Option<ValidateConfigParams>)
        ensures
            match r {
                Some(x) => validate_config_params_of(j@) == Some(x@),
                None => validate_config_params_of(j@) is None,
            },
    {
        if !fields::has_record(j, 1, 1) {
            return None;
        }
        let attributes = match records::get_entries(j, 0, "attributes") {
            Some(x) => x,
            None => return None,
        };
        Some(ValidateConfigParams { attributes })
    }
}

/// The JSON of a question for the validity of a config can be read back.
pub open spec fn validate_config_params_keeps(v: ValidateConfigParamsView) -> bool {
    records::entries_keep(v.attributes)
}

/// A question for the validity of a config comes back from its JSON.
pub proof fn law_validate_config_params_round_trip(v: ValidateConfigParamsView)
    requires
        validate_config_params_keeps(v),
    ensures
        validate_config_params_of(validate_config_params_json(v)) == Some(v),
{
    reveal_strlit("attributes");
    assert("attributes"@.len() == 10);
    value::law_entries_round_trip(v.attributes);
    reveal_with_fuel(keyed::index_from, 2);
}

#[verifier::ext_equal]
pub struct ValidateConfigResultView {
    pub error: Option<Seq<char>>,
}

impl View for ValidateConfigResult {
    type V = ValidateConfigResultView;

    open spec fn view(&self) -> ValidateConfigResultView {
        ValidateConfigResultView { error: text::opt_string(self.error) }
    }
}

/// The JSON of an answer on the validity of a config.
pub open spec fn validate_config_result_json(v: ValidateConfigResultView) -> JsonView {
    JsonView::Object(Seq::empty().push(("error"@, fields::text_or_null(v.error))))
}

/// The answer on the validity of The config that a document stands for, if it stands for one.
pub open spec fn validate_config_result_of(j: JsonView) -> Option<ValidateConfigResultView> {
    if fields::is_record(j, 1, 1) {
        match fields::may_text(j, 0, "error"@) {
            Some(error) => Some(ValidateConfigResultView { error }),
            None => None,
        }
    } else {
        None
    }
}

impl ValidateConfigResult {
    /// The JSON of the answer on the validity of a config.
    pub fn to_json(&self) -> (r: Json)
        ensures
            r@ == validate_config_result_json(self@),
    {
        let mut m: Vec<(String, Json)> = Vec::new();
        fields::put(&mut m, "error", fields::make_text_or_null(&self.error));
        Json::Object(m)
    }

    /// The answer on the validity of a config that a document stands for.
    pub fn from_json(j: &Json) -> (r: Option<ValidateConfigResult>)
        ensures
            match r {
                Some(x) => validate_config_result_of(j@) == Some(x@),
                None => validate_config_result_of(j@) is None,
            },
    {
        if !fields::has_record(j, 1, 1) {
            return None;
        }
        let error = match fields::get_may_text(j, 0, "error") {
            Some(x) => x,
            None => return None,
        };
        Some(ValidateConfigResult { error })
    }
}

/// An answer on the validity of a config comes back from its JSON.
pub proof fn law_validate_config_result_round_trip(v: ValidateConfigResultView)
    ensures
        validate_config_result_of(validate_config_result_json(v)) == Some(v),
{
    reveal_strlit("error");
    assert("error"@.len() == 5);
    reveal_with_fuel(keyed::index_from, 2);
}

#[verifier::ext_equal]
pub struct SchemasResultView {
    pub schemas: Seq<WireSchemaView>,
}

impl View for SchemasResult {
    type V = SchemasResultView;

    open spec fn view(&self) -> SchemasResultView {
        SchemasResultView { schemas: schemas_view(self.schemas@) }
    }
}

/// The JSON of a result of asking for the schemas.
pub open spec fn schemas_result_json(v: SchemasResultView) -> JsonView {
    JsonView::Object(Seq::empty().push(("schemas"@, JsonView::Array(schemas_json(v.schemas)))))
}

/// The result of asking for the schemas that a document stands for, if it stands for one.
pub open spec fn schemas_result_of(j: JsonView) -> Option<SchemasResultView> {
    if fields::is_record(j, 1, 1) {
        match schemas_at(j, 0, "schemas"@) {
            Some(schemas) => Some(SchemasResultView { schemas }),
            None => None,
        }
    } else {
        None
    }
}

impl SchemasResult {
    /// The JSON of the result of asking for the schemas.
    pub fn to_json(&self) -> (r: Json)
        ensures
            r@ == schemas_result_json(self@),
    {
        let mut m: Vec<(String, Json)> = Vec::new();
        fields::put(&mut m, "schemas", Json::Array(make_schemas(&self.schemas)));
        Json::Object(m)
    }

    /// The result of asking for the schemas that a document stands for.
    pub fn from_json(j: &Json) -> (r: Option<SchemasResult>)
        ensures
            match r {
                Some(x) => schemas_result_of(j@) == Some(x@),
                None => schemas_result_of(j@) is None,
            },
    {
        if !fields::has_record(j, 1, 1) {
            return None;
        }
        let schemas = match get_schemas(j, 0, "schemas") {
            Some(x) => x,
            None => return None,
        };
        Some(SchemasResult { schemas })
    }
}

/// The JSON of a result of asking for the schemas can be read back.
pub open spec fn schemas_result_keeps(v: SchemasResultView) -> bool {
    schemas_keep(v.schemas)
}

/// A result of asking for the schemas comes back from its JSON.
pub proof fn law_schemas_result_round_trip(v: SchemasResultView)
    requires
        schemas_result_keeps(v),
    ensures
        schemas_result_of(schemas_result_json(v)) == Some(v),
{
    reveal_strlit("schemas");
    assert("schemas"@.len() == 7);
    lemma_schemas_come_back(v.schemas);
    reveal_with_fuel(keyed::index_from, 2);
}

#[verifier::ext_equal]
pub struct InitializeParamsView {
    pub attributes: Seq<(Seq<char>, WireView)>,
}

impl View for InitializeParams {
    type V = InitializeParamsView;

    open spec fn view(&self) -> InitializeParamsView {
        InitializeParamsView { attributes: value::entries_view(self.attributes@) }
    }
}

/// The JSON of a request to initialize.
pub open spec fn initialize_params_json(v: InitializeParamsView) -> JsonView {
    JsonView::Object(Seq::empty().push(("attributes"@, JsonView::Object(value::object_of(v.attributes)))))
}

/// The request to initialize that a document stands for, if it stands for one.
pub open spec fn initialize_params_of(j: JsonView) -> Option<InitializeParamsView> {
    if fields::is_record(j, 1, 1) {
        match records::entries_at(j, 0, "attributes"@) {
            Some(attributes) => Some(InitializeParamsView { attributes }),
            None => None,
        }
    } else {
        None
    }
}

impl InitializeParams {
    /// The JSON of the request to initialize.
    pub fn to_json(&self) -> (r: Json)
        ensures
            r@ == initialize_params_json(self@),
    {
        let mut m: Vec<(String, Json)> = Vec::new();
        fields::put(&mut m, "attributes", Json::Object(value::object_of_entries(&self.attributes)));
        Json::Object(m)
    }

    /// The request to initialize that a document stands for.
    pub fn from_json(j: &Json) -> (r: Option<InitializeParams>)
        ensures
            match r {
                Some(x) => initialize_params_of(j@) == Some(x@),
                None => initialize_params_of(j@) is None,
            },
    {
        if !fields::has_record(j, 1, 1) {
            return None;
        }
        let attributes = match records::get_entries(j, 0, "attributes") {
            Some(x) => x,
            None => return None,
        };
        Some(InitializeParams { attributes })
    }
}

/// The JSON of a request to initialize can be read back.
pub open spec fn initialize_params_keeps(v: InitializeParamsView) -> bool {
    records::entries_keep(v.attributes)
}

/// A request to initialize comes back from its JSON.
pub proof fn law_initialize_params_round_trip(v: InitializeParamsView)
    requires
        initialize_params_keeps(v),
    ensures
        initialize_params_of(initialize_params_json(v)) == Some(v),
{
    reveal_strlit("attributes");
    assert("attributes"@.len() == 10);
    value::law_entries_round_trip(v.attributes);
    reveal_with_fuel(keyed::index_from, 2);
}

#[verifier::ext_equal]
pub struct InitializeResultView {
    pub ok: bool,
}

impl View for InitializeResult {
    type V = InitializeResultView;

    open spec fn view(&self) -> InitializeResultView {
        InitializeResultView { ok: self.ok }
    }
}

/// The JSON of an answer to a request to initialize.
pub open spec fn initialize_result_json(v: InitializeResultView) -> JsonView {
    JsonView::Object(Seq::empty().push(("ok"@, JsonView::Bool(v.ok))))
}

/// The answer to The request to initialize that a document stands for, if it stands for one.
pub open spec fn initialize_result_of(j: JsonView) -> Option<InitializeResultView> {
    if fields::is_record(j, 1, 1) {
        match fields::need_bool(j, 0, "ok"@) {
            Some(ok) => Some(InitializeResultView { ok }),
            None => None,
        }
    } else {
        None
    }
}

impl InitializeResult {
    /// The JSON of the answer to a request to initialize.
    pub fn to_json(&self) -> (r: Json)
        ensures
            r@ == initialize_result_json(self@),
    {
        let mut m: Vec<(String, Json)> = Vec::new();
        fields::put(&mut m, "ok", Json::Bool(self.ok));
        Json::Object(m)
    }

    /// The answer to a request to initialize that a document stands for.
    pub fn from_json(j: &Json) -> (r: Option<InitializeResult>)
        ensures
            match r {
                Some(x) => initialize_result_of(j@) == Some(x@),
                None => initialize_result_of(j@) is None,
            },
    {
        if !fields::has_record(j, 1, 1) {
            return None;
        }
        let ok = match fields::get_need_bool(j, 0, "ok") {
            Some(x) => x,
            None => return None,
        };
        Some(InitializeResult { ok })
    }
}

/// An answer to a request to initialize comes back from its JSON.
pub proof fn law_initialize_result_round_trip(v: InitializeResultView)
    ensures
        initialize_result_of(initialize_result_json(v)) == Some(v),
{
    reveal_strlit("ok");
    assert("ok"@.len() == 2);
    reveal_with_fuel(keyed::index_from, 2);
}

#[verifier::ext_equal]
pub struct ReadParamsView {
    pub id: IdView,
    pub identifier: Option<Seq<char>>,
}

impl View for ReadParams {
    type V = ReadParamsView;

    open spec fn view(&self) -> ReadParamsView {
        ReadParamsView { id: self.id@, identifier: text::opt_string(self.identifier) }
    }
}

/// The JSON of a request to read.
pub open spec fn read_params_json(v: ReadParamsView) -> JsonView {
    JsonView::Object(
        Seq::empty()
            .push(("id"@, wire::id_json(v.id)))
            .push(("identifier"@, fields::text_or_null(v.identifier))),
    )
}

/// The request to read that a document stands for, if it stands for one.
pub open spec fn read_params_of(j: JsonView) -> Option<ReadParamsView> {
    if fields::is_record(j, 2, 2) {
        match (
            records::id_at(j, 0, "id"@),
            fields::may_text(j, 1, "identifier"@),
        ) {
            (Some(id), Some(identifier)) => Some(
                ReadParamsView { id, identifier },
            ),
            _ => None,
        }
    } else {
        None
    }
}

impl ReadParams {
    /// The JSON of the request to read.
    pub fn to_json(&self) -> (r: Json)
        ensures
            r@ == read_params_json(self@),
    {
        let mut m: Vec<(String, Json)> = Vec::new();
        fields::put(&mut m, "id", wire::id_to_json(&self.id));
        fields::put(&mut m, "identifier", fields::make_text_or_null(&self.identifier));
        Json::Object(m)
    }

    /// The request to read that a document stands for.
    pub fn from_json(j: &Json) -> (r: Option<ReadParams>)
        ensures
            match r {
                Some(x) => read_params_of(j@) == Some(x@),
                None => read_params_of(j@) is None,
            },
    {
        if !fields::has_record(j, 2, 2) {
            return None;
        }
        let id = match records::get_id(j, 0, "id") {
            Some(x) => x,
            None => return None,
        };
        let identifier = match fields::get_may_text(j, 1, "identifier") {
            Some(x) => x,
            None => return None,
        };
        Some(ReadParams { id, identifier })
    }
}

/// A request to read comes back from its JSON.
pub proof fn law_read_params_round_trip(v: ReadParamsView)
    ensures
        read_params_of(read_params_json(v)) == Some(v),
{
    reveal_strlit("id");
    assert("id"@.len() == 2);
    reveal_strlit("identifier");
    assert("identifier"@.len() == 10);
    wire::law_id_round_trip(v.id);
    reveal_with_fuel(keyed::index_from, 3);
}

#[verifier::ext_equal]
pub struct ReadResultView {
    pub state: WireStateView,
}

impl View for ReadResult {
    type V = ReadResultView;

    open spec fn view(&self) -> ReadResultView {
        ReadResultView { state: self.state@ }
    }
}

/// The JSON of an answer to a request to read.
pub open spec fn read_result_json(v: ReadResultView) -> JsonView {
    JsonView::Object(Seq::empty().push(("state"@, wire::state_json(v.state))))
}

/// The answer to The request to read that a document stands for, if it stands for one.
pub open spec fn read_result_of(j: JsonView) -> Option<ReadResultView> {
    if fields::is_record(j, 1, 1) {
        match records::state_at(j, 0, "state"@) {
            Some(state) => Some(ReadResultView { state }),
            None => None,
        }
    } else {
        None
    }
}

impl ReadResult {
    /// The JSON of the answer to a request to read.
    pub fn to_json(&self) -> (r: Json)
        ensures
            r@ == read_result_json(self@),
    {
        let mut m: Vec<(String, Json)> = Vec::new();
        fields::put(&mut m, "state", self.state.to_json());
        Json::Object(m)
    }

    /// The answer to a request to read that a document stands for.
    pub fn from_json(j: &Json) -> (r: Option<ReadResult>)
        ensures
            match r {
                Some(x) => read_result_of(j@) == Some(x@),
                None => read_result_of(j@) is None,
            },
    {
        if !fields::has_record(j, 1, 1) {
            return None;
        }
        let state = match records::get_state(j, 0, "state") {
            Some(x) => x,
            None => return None,
        };
        Some(ReadResult { state })
    }
}

/// The JSON of an answer to a request to read can be read back.
pub open spec fn read_result_keeps(v: ReadResultView) -> bool {
    records::state_keeps(v.state)
}

/// An answer to a request to read comes back from its JSON.
pub proof fn law_read_result_round_trip(v: ReadResultView)
    requires
        read_result_keeps(v),
    ensures
        read_result_of(read_result_json(v)) == Some(v),
{
    reveal_strlit("state");
    assert("state"@.len() == 5);
    wire::law_state_round_trip(v.state);
    reveal_with_fuel(keyed::index_from, 2);
}

#[verifier::ext_equal]
pub struct CreateParamsView {
    pub resource: WireResourceView,
}

impl View for CreateParams {
    type V = CreateParamsView;

    open spec fn view(&self) -> CreateParamsView {
        CreateParamsView { resource: self.resource@ }
    }
}

/// The JSON of a request to create.
pub open spec fn create_params_json(v: CreateParamsView) -> JsonView {
    JsonView::Object(Seq::empty().push(("resource"@, records::resource_json(v.resource))))
}

/// The request to create that a document stands for, if it stands for one.
pub open spec fn create_params_of(j: JsonView) -> Option<CreateParamsView> {
    if fields::is_record(j, 1, 1) {
        match records::resource_at(j, 0, "resource"@) {
            Some(resource) => Some(CreateParamsView { resource }),
            None => None,
        }
    } else {
        None
    }
}

impl CreateParams {
    /// The JSON of the request to create.
    pub fn to_json(&self) -> (r: Json)
        ensures
            r@ == create_params_json(self@),
    {
        let mut m: Vec<(String, Json)> = Vec::new();
        fields::put(&mut m, "resource", self.resource.to_json());
        Json::Object(m)
    }

    /// The request to create that a document stands for.
    pub fn from_json(j: &Json) -> (r: Option<CreateParams>)
        ensures
            match r {
                Some(x) => create_params_of(j@) == Some(x@),
                None => create_params_of(j@) is None,
            },
    {
        if !fields::has_record(j, 1, 1) {
            return None;
        }
        let resource = match records::get_resource(j, 0, "resource") {
            Some(x) => x,
            None => return None,
        };
        Some(CreateParams { resource })
    }
}

/// The JSON of a request to create can be read back.
pub open spec fn create_params_keeps(v: CreateParamsView) -> bool {
    records::resource_keeps(v.resource)
}

/// A request to create comes back from its JSON.
pub proof fn law_create_params_round_trip(v: CreateParamsView)
    requires
        create_params_keeps(v),
    ensures
        create_params_of(create_params_json(v)) == Some(v),
{
    reveal_strlit("resource");
    assert("resource"@.len() == 8);
    records::law_resource_round_trip(v.resource);
    reveal_with_fuel(keyed::index_from, 2);
}

#[verifier::ext_equal]
pub struct CreateResultView {
    pub state: WireStateView,
}

impl View for CreateResult {
    type V = CreateResultView;

    open spec fn view(&self) -> CreateResultView {
        CreateResultView { state: self.state@ }
    }
}

/// The JSON of an answer to a request to create.
pub open spec fn create_result_json(v: CreateResultView) -> JsonView {
    JsonView::Object(Seq::empty().push(("state"@, wire::state_json(v.state))))
}

/// The answer to The request to create that a document stands for, if it stands for one.
pub open spec fn create_result_of(j: JsonView) -> Option<CreateResultView> {
    if fields::is_record(j, 1, 1) {
        match records::state_at(j, 0, "state"@) {
            Some(state) => Some(CreateResultView { state }),
            None => None,
        }
    } else {
        None
    }
}

impl CreateResult {
    /// The JSON of the answer to a request to create.
    pub fn to_json(&self) -> (r: Json)
        ensures
            r@ == create_result_json(self@),
    {
        let mut m: Vec<(String, Json)> = Vec::new();
        fields::put(&mut m, "state", self.state.to_json());
        Json::Object(m)
    }

    /// The answer to a request to create that a document stands for.
    pub fn from_json(j: &Json) -> (r: Option<CreateResult>)
        ensures
            match r {
                Some(x) => create_result_of(j@) == Some(x@),
                None => create_result_of(j@) is None,
            },
    {
        if !fields::has_record(j, 1, 1) {
            return None;
        }
        let state = match records::get_state(j, 0, "state") {
            Some(x) => x,
            None => return None,
        };
        Some(CreateResult { state })
    }
}

/// The JSON of an answer to a request to create can be read back.
pub open spec fn create_result_keeps(v: CreateResultView) -> bool {
    records::state_keeps(v.state)
}

/// An answer to a request to create comes back from its JSON.
pub proof fn law_create_result_round_trip(v: CreateResultView)
    requires
        create_result_keeps(v),
    ensures
        create_result_of(create_result_json(v)) == Some(v),
{
    reveal_strlit("state");
    assert("state"@.len() == 5);
    wire::law_state_round_trip(v.state);
    reveal_with_fuel(keyed::index_from, 2);
}

#[verifier::ext_equal]
pub struct UpdateParamsView {
    pub id: IdView,
    pub identifier: Seq<char>,
    pub from: WireStateView,
    pub to: WireResourceView,
}

impl View for UpdateParams {
    type V = UpdateParamsView;

    open spec fn view(&self) -> UpdateParamsView {
        UpdateParamsView { id: self.id@, identifier: self.identifier@, from: self.from@, to: self.to@ }
    }
}

/// The JSON of a request to update.
pub open spec fn update_params_json(v: UpdateParamsView) -> JsonView {
    JsonView::Object(
        Seq::empty()
            .push(("id"@, wire::id_json(v.id)))
            .push(("identifier"@, JsonView::String(v.identifier)))
            .push(("from"@, wire::state_json(v.from)))
            .push(("to"@, records::resource_json(v.to))),
    )
}

/// The request to update that a document stands for, if it stands for one.
pub open spec fn update_params_of(j: JsonView) -> Option<UpdateParamsView> {
    if fields::is_record(j, 4, 4) {
        match (
            records::id_at(j, 0, "id"@),
            fields::need_text(j, 1, "identifier"@),
            records::state_at(j, 2, "from"@),
            records::resource_at(j, 3, "to"@),
        ) {
            (Some(id), Some(identifier), Some(from), Some(to)) => Some(
                UpdateParamsView { id, identifier, from, to },
            ),
            _ => None,
        }
    } else {
        None
    }
}

impl UpdateParams {
    /// The JSON of the request to update.
    pub fn to_json(&self) -> (r: Json)
        ensures
            r@ == update_params_json(self@),
    {
        let mut m: Vec<(String, Json)> = Vec::new();
        fields::put(&mut m, "id", wire::id_to_json(&self.id));
        fields::put(&mut m, "identifier", Json::String(self.identifier.clone()));
        fields::put(&mut m, "from", self.from.to_json());
        fields::put(&mut m, "to", self.to.to_json());
        Json::Object(m)
    }

    /// The request to update that a document stands for.
    pub fn from_json(j: &Json) -> (r: Option<UpdateParams>)
        ensures
            match r {
                Some(x) => update_params_of(j@) == Some(x@),
                None => update_params_of(j@) is None,
            },
    {
        if !fields::has_record(j, 4, 4) {
            return None;
        }
        let id = match records::get_id(j, 0, "id") {
            Some(x) => x,
            None => return None,
        };
        let identifier = match fields::get_need_text(j, 1, "identifier") {
            Some(x) => x,
            None => return None,
        };
        let from = match records::get_state(j, 2, "from") {
            Some(x) => x,
            None => return None,
        };
        let to = match records::get_resource(j, 3, "to") {
            Some(x) => x,
            None => return None,
        };
        Some(UpdateParams { id, identifier, from, to })
    }
}

/// The JSON of a request to update can be read back.
pub open spec fn update_params_keeps(v: UpdateParamsView) -> bool {
    records::state_keeps(v.from) && records::resource_keeps(v.to)
}

/// A request to update comes back from its JSON.
pub proof fn law_update_params_round_trip(v: UpdateParamsView)
    requires
        update_params_keeps(v),
    ensures
        update_params_of(update_params_json(v)) == Some(v),
{
    reveal_strlit("id");
    assert("id"@.len() == 2);
    reveal_strlit("identifier");
    assert("identifier"@.len() == 10);
    reveal_strlit("from");
    assert("from"@.len() == 4);
    reveal_strlit("to");
    assert("to"@.len() == 2);
    assert("id"@[0] != "to"@[0]);
    wire::law_id_round_trip(v.id);
    wire::law_state_round_trip(v.from);
    records::law_resource_round_trip(v.to);
    reveal_with_fuel(keyed::index_from, 5);
}

#[verifier::ext_equal]
pub struct UpdateResultView {
    pub state: WireStateView,
}

impl View for UpdateResult {
    type V = UpdateResultView;

    open spec fn view(&self) -> UpdateResultView {
        UpdateResultView { state: self.state@ }
    }
}

/// The JSON of an answer to a request to update.
pub open spec fn update_result_json(v: UpdateResultView) -> JsonView {
    JsonView::Object(Seq::empty().push(("state"@, wire::state_json(v.state))))
}

/// The answer to The request to update that a document stands for, if it stands for one.
pub open spec fn update_result_of(j: JsonView) -> Option<UpdateResultView> {
    if fields::is_record(j, 1, 1) {
        match records::state_at(j, 0, "state"@) {
            Some(state) => Some(UpdateResultView { state }),
            None => None,
        }
    } else {
        None
    }
}

impl UpdateResult {
    /// The JSON of the answer to a request to update.
    pub fn to_json(&self) -> (r: Json)
        ensures
            r@ == update_result_json(self@),
    {
        let mut m: Vec<(String, Json)> = Vec::new();
        fields::put(&mut m, "state", self.state.to_json());
        Json::Object(m)
    }

    /// The answer to a request to update that a document stands for.
    pub fn from_json(j: &Json) -> (r: Option<UpdateResult>)
        ensures
            match r {
                Some(x) => update_result_of(j@) == Some(x@),
                None => update_result_of(j@) is None,
            },
    {
        if !fields::has_record(j, 1, 1) {
            return None;
        }
        let state = match records::get_state(j, 0, "state") {
            Some(x) => x,
            None => return None,
        };
        Some(UpdateResult { state })
    }
}

/// The JSON of an answer to a request to update can be read back.
pub open spec fn update_result_keeps(v: UpdateResultView) -> bool {
    records::state_keeps(v.state)
}

/// An answer to a request to update comes back from its JSON.
pub proof fn law_update_result_round_trip(v: UpdateResultView)
    requires
        update_result_keeps(v),
    ensures
        update_result_of(update_result_json(v)) == Some(v),
{
    reveal_strlit("state");
    assert("state"@.len() == 5);
    wire::law_state_round_trip(v.state);
    reveal_with_fuel(keyed::index_from, 2);
}

#[verifier::ext_equal]
pub struct DeleteParamsView {
    pub id: IdView,
    pub identifier: Seq<char>,
    pub lifecycle: LifecycleConfig,
}

impl View for DeleteParams {
    type V = DeleteParamsView;

    open spec fn view(&self) -> DeleteParamsView {
        DeleteParamsView { id: self.id@, identifier: self.identifier@, lifecycle: self.lifecycle }
    }
}

/// The JSON of a request to delete.
pub open spec fn delete_params_json(v: DeleteParamsView) -> JsonView {
    JsonView::Object(
        Seq::empty()
            .push(("id"@, wire::id_json(v.id)))
            .push(("identifier"@, JsonView::String(v.identifier)))
            .push(("lifecycle"@, lifecycle_json(v.lifecycle))),
    )
}

/// The request to delete that a document stands for, if it stands for one.
pub open spec fn delete_params_of(j: JsonView) -> Option<DeleteParamsView> {
    if fields::is_record(j, 3, 3) {
        match (
            records::id_at(j, 0, "id"@),
            fields::need_text(j, 1, "identifier"@),
            lifecycle_at(j, 2, "lifecycle"@),
        ) {
            (Some(id), Some(identifier), Some(lifecycle)) => Some(
                DeleteParamsView { id, identifier, lifecycle },
            ),
            _ => None,
        }
    } else {
        None
    }
}

impl DeleteParams {
    /// The JSON of the request to delete.
    pub fn to_json(&self) -> (r: Json)
        ensures
            r@ == delete_params_json(self@),
    {
        let mut m: Vec<(String, Json)> = Vec::new();
        fields::put(&mut m, "id", wire::id_to_json(&self.id));
        fields::put(&mut m, "identifier", Json::String(self.identifier.clone()));
        fields::put(&mut m, "lifecycle", lifecycle_to_json(&self.lifecycle));
        Json::Object(m)
    }

    /// The request to delete that a document stands for.
    pub fn from_json(j: &Json) -> (r: Option<DeleteParams>)
        ensures
            match r {
                Some(x) => delete_params_of(j@) == Some(x@),
                None => delete_params_of(j@) is None,
            },
    {
        if !fields::has_record(j, 3, 3) {
            return None;
        }
        let id = match records::get_id(j, 0, "id") {
            Some(x) => x,
            None => return None,
        };
        let identifier = match fields::get_need_text(j, 1, "identifier") {
            Some(x) => x,
            None => return None,
        };
        let lifecycle = match get_lifecycle(j, 2, "lifecycle") {
            Some(x) => x,
            None => return None,
        };
        Some(DeleteParams { id, identifier, lifecycle })
    }
}

/// A request to delete comes back from its JSON.
pub proof fn law_delete_params_round_trip(v: DeleteParamsView)
    ensures
        delete_params_of(delete_params_json(v)) == Some(v),
{
    reveal_strlit("id");
    assert("id"@.len() == 2);
    reveal_strlit("identifier");
    assert("identifier"@.len() == 10);
    reveal_strlit("lifecycle");
    assert("lifecycle"@.len() == 9);
    wire::law_id_round_trip(v.id);
    lemma_lifecycle_comes_back(v.lifecycle);
    reveal_with_fuel(keyed::index_from, 4);
}

#[verifier::ext_equal]
pub struct DeleteResultView {
    pub ok: bool,
}

impl View for DeleteResult {
    type V = DeleteResultView;

    open spec fn view(&self) -> DeleteResultView {
        DeleteResultView { ok: self.ok }
    }
}

/// The JSON of an answer to a request to delete.
pub open spec fn delete_result_json(v: DeleteResultView) -> JsonView {
    JsonView::Object(Seq::empty().push(("ok"@, JsonView::Bool(v.ok))))
}

/// The answer to The request to delete that a document stands for, if it stands for one.
pub open spec fn delete_result_of(j: JsonView) -> Option<DeleteResultView> {
    if fields::is_record(j, 1, 1) {
        match fields::need_bool(j, 0, "ok"@) {
            Some(ok) => Some(DeleteResultView { ok }),
            None => None,
        }
    } else {
        None
    }
}

impl DeleteResult {
    /// The JSON of the answer to a request to delete.
    pub fn to_json(&self) -> (r: Json)
        ensures
            r@ == delete_result_json(self@),
    {
        let mut m: Vec<(String, Json)> = Vec::new();
        fields::put(&mut m, "ok", Json::Bool(self.ok));
        Json::Object(m)
    }

    /// The answer to a request to delete that a document stands for.
    pub fn from_json(j: &Json) -> (r: Option<DeleteResult>)
        ensures
            match r {
                Some(x) => delete_result_of(j@) == Some(x@),
                None => delete_result_of(j@) is None,
            },
    {
        if !fields::has_record(j, 1, 1) {
            return None;
        }
        let ok = match fields::get_need_bool(j, 0, "ok") {
            Some(x) => x,
            None => return None,
        };
        Some(DeleteResult { ok })
    }
}

/// An answer to a request to delete comes back from its JSON.
pub proof fn law_delete_result_round_trip(v: DeleteResultView)
    ensures
        delete_result_of(delete_result_json(v)) == Some(v),
{
    reveal_strlit("ok");
    assert("ok"@.len() == 2);
    reveal_with_fuel(keyed::index_from, 2);
}

#[verifier::ext_equal]
pub struct NormalizeDesiredParamsView {
    pub resources: Seq<WireResourceView>,
}

impl View for NormalizeDesiredParams {
    type V = NormalizeDesiredParamsView;

    open spec fn view(&self) -> NormalizeDesiredParamsView {
        NormalizeDesiredParamsView { resources: types::resources_view(self.resources@) }
    }
}

/// The JSON of a request to normalize resources.
pub open spec fn normalize_desired_params_json(v: NormalizeDesiredParamsView) -> JsonView {
    JsonView::Object(Seq::empty().push(("resources"@, JsonView::Array(records::resources_json(v.resources)))))
}

/// The request to normalize resources that a document stands for, if it stands for one.
pub open spec fn normalize_desired_params_of(j: JsonView) -> Option<NormalizeDesiredParamsView> {
    if fields::is_record(j, 1, 1) {
        match records::resources_at(j, 0, "resources"@) {
            Some(resources) => Some(NormalizeDesiredParamsView { resources }),
            None => None,
        }
    } else {
        None
    }
}

impl NormalizeDesiredParams {
    /// The JSON of the request to normalize resources.
    pub fn to_json(&self) -> (r: Json)
        ensures
            r@ == normalize_desired_params_json(self@),
    {
        let mut m: Vec<(String, Json)> = Vec::new();
        fields::put(&mut m, "resources", Json::Array(records::make_resources(&self.resources)));
        Json::Object(m)
    }

    /// The request to normalize resources that a document stands for.
    pub fn from_json(j: &Json) -> (r: Option<NormalizeDesiredParams>)
        ensures
            match r {
                Some(x) => normalize_desired_params_of(j@) == Some(x@),
                None => normalize_desired_params_of(j@) is None,
            },
    {
        if !fields::has_record(j, 1, 1) {
            return None;
        }
        let resources = match records::get_resources(j, 0, "resources") {
            Some(x) => x,
            None => return None,
        };
        Some(NormalizeDesiredParams { resources })
    }
}

/// The JSON of a request to normalize resources can be read back.
pub open spec fn normalize_desired_params_keeps(v: NormalizeDesiredParamsView) -> bool {
    records::resources_keep(v.resources)
}

/// A request to normalize resources comes back from its JSON.
pub proof fn law_normalize_desired_params_round_trip(v: NormalizeDesiredParamsView)
    requires
        normalize_desired_params_keeps(v),
    ensures
        normalize_desired_params_of(normalize_desired_params_json(v)) == Some(v),
{
    reveal_strlit("resources");
    assert("resources"@.len() == 9);
    records::lemma_resources_come_back(v.resources);
    reveal_with_fuel(keyed::index_from, 2);
}

#[verifier::ext_equal]
pub struct NormalizeDesiredResultView {
    pub resources: Seq<WireResourceView>,
}

impl View for NormalizeDesiredResult {
    type V = NormalizeDesiredResultView;

    open spec fn view(&self) -> NormalizeDesiredResultView {
        NormalizeDesiredResultView { resources: types::resources_view(self.resources@) }
    }
}

/// The JSON of an answer with normalized resources.
pub open spec fn normalize_desired_result_json(v: NormalizeDesiredResultView) -> JsonView {
    JsonView::Object(Seq::empty().push(("resources"@, JsonView::Array(records::resources_json(v.resources)))))
}

/// The answer with normalized resources that a document stands for, if it stands for one.
pub open spec fn normalize_desired_result_of(j: JsonView) -> Option<NormalizeDesiredResultView> {
    if fields::is_record(j, 1, 1) {
        match records::resources_at(j, 0, "resources"@) {
            Some(resources) => Some(NormalizeDesiredResultView { resources }),
            None => None,
        }
    } else {
        None
    }
}

impl NormalizeDesiredResult {
    /// The JSON of the answer with normalized resources.
    pub fn to_json(&self) -> (r: Json)
        ensures
            r@ == normalize_desired_result_json(self@),
    {
        let mut m: Vec<(String, Json)> = Vec::new();
        fields::put(&mut m, "resources", Json::Array(records::make_resources(&self.resources)));
        Json::Object(m)
    }

    /// The answer with normalized resources that a document stands for.
    pub fn from_json(j: &Json) -> (r: Option<NormalizeDesiredResult>)
        ensures
            match r {
                Some(x) => normalize_desired_result_of(j@) == Some(x@),
                None => normalize_desired_result_of(j@) is None,
            },
    {
        if !fields::has_record(j, 1, 1) {
            return None;
        }
        let resources = match records::get_resources(j, 0, "resources") {
            Some(x) => x,
            None => return None,
        };
        Some(NormalizeDesiredResult { resources })
    }
}

/// The JSON of an answer with normalized resources can be read back.
pub open spec fn normalize_desired_result_keeps(v: NormalizeDesiredResultView) -> bool {
    records::resources_keep(v.resources)
}

/// An answer with normalized resources comes back from its JSON.
pub proof fn law_normalize_desired_result_round_trip(v: NormalizeDesiredResultView)
    requires
        normalize_desired_result_keeps(v),
    ensures
        normalize_desired_result_of(normalize_desired_result_json(v)) == Some(v),
{
    reveal_strlit("resources");
    assert("resources"@.len() == 9);
    records::lemma_resources_come_back(v.resources);
    reveal_with_fuel(keyed::index_from, 2);
}

#[verifier::ext_equal]
pub struct NormalizeStateParamsView {
    pub states: Seq<(Seq<char>, WireStateView)>,
}

impl View for NormalizeStateParams {
    type V = NormalizeStateParamsView;

    open spec fn view(&self) -> NormalizeStateParamsView {
        NormalizeStateParamsView { states: states_view(self.states@) }
    }
}

/// The JSON of a request to normalize states.
pub open spec fn normalize_state_params_json(v: NormalizeStateParamsView) -> JsonView {
    JsonView::Object(Seq::empty().push(("states"@, JsonView::Object(states_json(v.states)))))
}

/// The request to normalize states that a document stands for, if it stands for one.
pub open spec fn normalize_state_params_of(j: JsonView) -> Option<NormalizeStateParamsView> {
    if fields::is_record(j, 1, 1) {
        match states_at(j, 0, "states"@) {
            Some(states) => Some(NormalizeStateParamsView { states }),
            None => None,
        }
    } else {
        None
    }
}

impl NormalizeStateParams {
    /// The JSON of the request to normalize states.
    pub fn to_json(&self) -> (r: Json)
        ensures
            r@ == normalize_state_params_json(self@),
    {
        let mut m: Vec<(String, Json)> = Vec::new();
        fields::put(&mut m, "states", Json::Object(make_states(&self.states)));
        Json::Object(m)
    }

    /// The request to normalize states that a document stands for.
    pub fn from_json(j: &Json) -> (r: Option<NormalizeStateParams>)
        ensures
            match r {
                Some(x) => normalize_state_params_of(j@) == Some(x@),
                None => normalize_state_params_of(j@) is None,
            },
    {
        if !fields::has_record(j, 1, 1) {
            return None;
        }
        let states = match get_states(j, 0, "states") {
            Some(x) => x,
            None => return None,
        };
        Some(NormalizeStateParams { states })
    }
}

/// The JSON of a request to normalize states can be read back.
pub open spec fn normalize_state_params_keeps(v: NormalizeStateParamsView) -> bool {
    states_keep(v.states)
}

/// A request to normalize states comes back from its JSON.
pub proof fn law_normalize_state_params_round_trip(v: NormalizeStateParamsView)
    requires
        normalize_state_params_keeps(v),
    ensures
        normalize_state_params_of(normalize_state_params_json(v)) == Some(v),
{
    reveal_strlit("states");
    assert("states"@.len() == 6);
    lemma_states_come_back(v.states);
    reveal_with_fuel(keyed::index_from, 2);
}

#[verifier::ext_equal]
pub struct NormalizeStateResultView {
    pub states: Seq<(Seq<char>, WireStateView)>,
}

impl View for NormalizeStateResult {
    type V = NormalizeStateResultView;

    open spec fn view(&self) -> NormalizeStateResultView {
        NormalizeStateResultView { states: states_view(self.states@) }
    }
}

/// The JSON of an answer with normalized states.
pub open spec fn normalize_state_result_json(v: NormalizeStateResultView) -> JsonView {
    JsonView::Object(Seq::empty().push(("states"@, JsonView::Object(states_json(v.states)))))
}

/// The answer with normalized states that a document stands for, if it stands for one.
pub open spec fn normalize_state_result_of(j: JsonView) -> Option<NormalizeStateResultView> {
    if fields::is_record(j, 1, 1) {
        match states_at(j, 0, "states"@) {
            Some(states) => Some(NormalizeStateResultView { states }),
            None => None,
        }
    } else {
        None
    }
}

impl NormalizeStateResult {
    /// The JSON of the answer with normalized states.
    pub fn to_json(&self) -> (r: Json)
        ensures
            r@ == normalize_state_result_json(self@),
    {
        let mut m: Vec<(String, Json)> = Vec::new();
        fields::put(&mut m, "states", Json::Object(make_states(&self.states)));
        Json::Object(m)
    }

    /// The answer with normalized states that a document stands for.
    pub fn from_json(j: &Json) -> (r: Option<NormalizeStateResult>)
        ensures
            match r {
                Some(x) => normalize_state_result_of(j@) == Some(x@),
                None => normalize_state_result_of(j@) is None,
            },
    {
        if !fields::has_record(j, 1, 1) {
            return None;
        }
        let states = match get_states(j, 0, "states") {
            Some(x) => x,
            None => return None,
        };
        Some(NormalizeStateResult { states })
    }
}

/// The JSON of an answer with normalized states can be read back.
pub open spec fn normalize_state_result_keeps(v: NormalizeStateResultView) -> bool {
    states_keep(v.states)
}

/// An answer with normalized states comes back from its JSON.
pub proof fn law_normalize_state_result_round_trip(v: NormalizeStateResultView)
    requires
        normalize_state_result_keeps(v),
    ensures
        normalize_state_result_of(normalize_state_result_json(v)) == Some(v),
{
    reveal_strlit("states");
    assert("states"@.len() == 6);
    lemma_states_come_back(v.states);
    reveal_with_fuel(keyed::index_from, 2);
}

#[verifier::ext_equal]
pub struct HydrateReadStateParamsView {
    pub states: Seq<(Seq<char>, WireStateView)>,
    pub saved_attrs: Seq<(Seq<char>, Seq<(Seq<char>, WireView)>)>,
}

impl View for HydrateReadStateParams {
    type V = HydrateReadStateParamsView;

    open spec fn view(&self) -> HydrateReadStateParamsView {
        HydrateReadStateParamsView { states: states_view(self.states@), saved_attrs: saved_view(self.saved_attrs@) }
    }
}

/// The JSON of a request to hydrate states.
pub open spec fn hydrate_params_json(v: HydrateReadStateParamsView) -> JsonView {
    JsonView::Object(
        Seq::empty()
            .push(("states"@, JsonView::Object(states_json(v.states))))
            .push(("saved_attrs"@, JsonView::Object(saved_json(v.saved_attrs)))),
    )
}

/// The request to hydrate states that a document stands for, if it stands for one.
pub open spec fn hydrate_params_of(j: JsonView) -> Option<HydrateReadStateParamsView> {
    if fields::is_record(j, 2, 2) {
        match (
            states_at(j, 0, "states"@),
            saved_at(j, 1, "saved_attrs"@),
        ) {
            (Some(states), Some(saved_attrs)) => Some(
                HydrateReadStateParamsView { states, saved_attrs },
            ),
            _ => None,
        }
    } else {
        None
    }
}

impl HydrateReadStateParams {
    /// The JSON of the request to hydrate states.
    pub fn to_json(&self) -> (r: Json)
        ensures
            r@ == hydrate_params_json(self@),
    {
        let mut m: Vec<(String, Json)> = Vec::new();
        fields::put(&mut m, "states", Json::Object(make_states(&self.states)));
        fields::put(&mut m, "saved_attrs", Json::Object(make_saved(&self.saved_attrs)));
        Json::Object(m)
    }

    /// The request to hydrate states that a document stands for.
    pub fn from_json(j: &Json) -> (r: Option<HydrateReadStateParams>)
        ensures
            match r {
                Some(x) => hydrate_params_of(j@) == Some(x@),
                None => hydrate_params_of(j@) is None,
            },
    {
        if !fields::has_record(j, 2, 2) {
            return None;
        }
        let states = match get_states(j, 0, "states") {
            Some(x) => x,
            None => return None,
        };
        let saved_attrs = match get_saved(j, 1, "saved_attrs") {
            Some(x) => x,
            None => return None,
        };
        Some(HydrateReadStateParams { states, saved_attrs })
    }
}

/// The JSON of a request to hydrate states can be read back.
pub open spec fn hydrate_params_keeps(v: HydrateReadStateParamsView) -> bool {
    states_keep(v.states) && saved_keep(v.saved_attrs)
}

/// A request to hydrate states comes back from its JSON.
pub proof fn law_hydrate_params_round_trip(v: HydrateReadStateParamsView)
    requires
        hydrate_params_keeps(v),
    ensures
        hydrate_params_of(hydrate_params_json(v)) == Some(v),
{
    reveal_strlit("states");
    assert("states"@.len() == 6);
    reveal_strlit("saved_attrs");
    assert("saved_attrs"@.len() == 11);
    lemma_states_come_back(v.states);
    lemma_saved_come_back(v.saved_attrs);
    reveal_with_fuel(keyed::index_from, 3);
}

#[verifier::ext_equal]
pub struct HydrateReadStateResultView {
    pub states: Seq<(Seq<char>, WireStateView)>,
}

impl View for HydrateReadStateResult {
    type V = HydrateReadStateResultView;

    open spec fn view(&self) -> HydrateReadStateResultView {
        HydrateReadStateResultView { states: states_view(self.states@) }
    }
}

/// The JSON of an answer with hydrated states.
pub open spec fn hydrate_result_json(v: HydrateReadStateResultView) -> JsonView {
    JsonView::Object(Seq::empty().push(("states"@, JsonView::Object(states_json(v.states)))))
}

/// The answer with hydrated states that a document stands for, if it stands for one.
pub open spec fn hydrate_result_of(j: JsonView) -> Option<HydrateReadStateResultView> {
    if fields::is_record(j, 1, 1) {
        match states_at(j, 0, "states"@) {
            Some(states) => Some(HydrateReadStateResultView { states }),
            None => None,
        }
    } else {
        None
    }
}

impl HydrateReadStateResult {
    /// The JSON of the answer with hydrated states.
    pub fn to_json(&self) -> (r: Json)
        ensures
            r@ == hydrate_result_json(self@),
    {
        let mut m: Vec<(String, Json)> = Vec::new();
        fields::put(&mut m, "states", Json::Object(make_states(&self.states)));
        Json::Object(m)
    }

    /// The answer with hydrated states that a document stands for.
    pub fn from_json(j: &Json) -> (r: Option<HydrateReadStateResult>)
        ensures
            match r {
                Some(x) => hydrate_result_of(j@) == Some(x@),
                None => hydrate_result_of(j@) is None,
            },
    {
        if !fields::has_record(j, 1, 1) {
            return None;
        }
        let states = match get_states(j, 0, "states") {
            Some(x) => x,
            None => return None,
        };
        Some(HydrateReadStateResult { states })
    }
}

/// The JSON of an answer with hydrated states can be read back.
pub open spec fn hydrate_result_keeps(v: HydrateReadStateResultView) -> bool {
    states_keep(v.states)
}

/// An answer with hydrated states comes back from its JSON.
pub proof fn law_hydrate_result_round_trip(v: HydrateReadStateResultView)
    requires
        hydrate_result_keeps(v),
    ensures
        hydrate_result_of(hydrate_result_json(v)) == Some(v),
{
    reveal_strlit("states");
    assert("states"@.len() == 6);
    lemma_states_come_back(v.states);
    reveal_with_fuel(keyed::index_from, 2);
}

#[verifier::ext_equal]
pub struct MergeDefaultTagsParamsView {
    pub resources: Seq<WireResourceView>,
    pub default_tags: Seq<(Seq<char>, WireView)>,
    pub schemas: Seq<WireSchemaView>,
}

impl View for MergeDefaultTagsParams {
    type V = MergeDefaultTagsParamsView;

    open spec fn view(&self) -> MergeDefaultTagsParamsView {
        MergeDefaultTagsParamsView { resources: types::resources_view(self.resources@), default_tags: value::entries_view(self.default_tags@), schemas: schemas_view(self.schemas@) }
    }
}

/// The JSON of a request to merge default tags.
pub open spec fn merge_tags_params_json(v: MergeDefaultTagsParamsView) -> JsonView {
    JsonView::Object(
        Seq::empty()
            .push(("resources"@, JsonView::Array(records::resources_json(v.resources))))
            .push(("default_tags"@, JsonView::Object(value::object_of(v.default_tags))))
            .push(("schemas"@, JsonView::Array(schemas_json(v.schemas)))),
    )
}

/// The request to merge default tags that a document stands for, if it stands for one.
pub open spec fn merge_tags_params_of(j: JsonView) -> Option<MergeDefaultTagsParamsView> {
    if fields::is_record(j, 3, 3) {
        match (
            records::resources_at(j, 0, "resources"@),
            records::entries_at(j, 1, "default_tags"@),
            schemas_at(j, 2, "schemas"@),
        ) {
            (Some(resources), Some(default_tags), Some(schemas)) => Some(
                MergeDefaultTagsParamsView { resources, default_tags, schemas },
            ),
            _ => None,
        }
    } else {
        None
    }
}

impl MergeDefaultTagsParams {
    /// The JSON of the request to merge default tags.
    pub fn to_json(&self) -> (r: Json)
        ensures
            r@ == merge_tags_params_json(self@),
    {
        let mut m: Vec<(String, Json)> = Vec::new();
        fields::put(&mut m, "resources", Json::Array(records::make_resources(&self.resources)));
        fields::put(&mut m, "default_tags", Json::Object(value::object_of_entries(&self.default_tags)));
        fields::put(&mut m, "schemas", Json::Array(make_schemas(&self.schemas)));
        Json::Object(m)
    }

    /// The request to merge default tags that a document stands for.
    pub fn from_json(j: &Json) -> (r: Option<MergeDefaultTagsParams>)
        ensures
            match r {
                Some(x) => merge_tags_params_of(j@) == Some(x@),
                None => merge_tags_params_of(j@) is None,
            },
    {
        if !fields::has_record(j, 3, 3) {
            return None;
        }
        let resources = match records::get_resources(j, 0, "resources") {
            Some(x) => x,
            None => return None,
        };
        let default_tags = match records::get_entries(j, 1, "default_tags") {
            Some(x) => x,
            None => return None,
        };
        let schemas = match get_schemas(j, 2, "schemas") {
            Some(x) => x,
            None => return None,
        };
        Some(MergeDefaultTagsParams { resources, default_tags, schemas })
    }
}

/// The JSON of a request to merge default tags can be read back.
pub open spec fn merge_tags_params_keeps(v: MergeDefaultTagsParamsView) -> bool {
    records::resources_keep(v.resources) && records::entries_keep(v.default_tags) && schemas_keep(v.schemas)
}

/// A request to merge default tags comes back from its JSON.
pub proof fn law_merge_tags_params_round_trip(v: MergeDefaultTagsParamsView)
    requires
        merge_tags_params_keeps(v),
    ensures
        merge_tags_params_of(merge_tags_params_json(v)) == Some(v),
{
    reveal_strlit("resources");
    assert("resources"@.len() == 9);
    reveal_strlit("default_tags");
    assert("default_tags"@.len() == 12);
    reveal_strlit("schemas");
    assert("schemas"@.len() == 7);
    records::lemma_resources_come_back(v.resources);
    value::law_entries_round_trip(v.default_tags);
    lemma_schemas_come_back(v.schemas);
    reveal_with_fuel(keyed::index_from, 4);
}

#[verifier::ext_equal]
pub struct MergeDefaultTagsResultView {
    pub resources: Seq<WireResourceView>,
}

impl View for MergeDefaultTagsResult {
    type V = MergeDefaultTagsResultView;

    open spec fn view(&self) -> MergeDefaultTagsResultView {
        MergeDefaultTagsResultView { resources: types::resources_view(self.resources@) }
    }
}

/// The JSON of an answer with merged tags.
pub open spec fn merge_tags_result_json(v: MergeDefaultTagsResultView) -> JsonView {
    JsonView::Object(Seq::empty().push(("resources"@, JsonView::Array(records::resources_json(v.resources)))))
}

/// The answer with merged tags that a document stands for, if it stands for one.
pub open spec fn merge_tags_result_of(j: JsonView) -> Option<MergeDefaultTagsResultView> {
    if fields::is_record(j, 1, 1) {
        match records::resources_at(j, 0, "resources"@) {
            Some(resources) => Some(MergeDefaultTagsResultView { resources }),
            None => None,
        }
    } else {
        None
    }
}

impl MergeDefaultTagsResult {
    /// The JSON of the answer with merged tags.
    pub fn to_json(&self) -> (r: Json)
        ensures
            r@ == merge_tags_result_json(self@),
    {
        let mut m: Vec<(String, Json)> = Vec::new();
        fields::put(&mut m, "resources", Json::Array(records::make_resources(&self.resources)));
        Json::Object(m)
    }

    /// The answer with merged tags that a document stands for.
    pub fn from_json(j: &Json) -> (r: Option<MergeDefaultTagsResult>)
        ensures
            match r {
                Some(x) => merge_tags_result_of(j@) == Some(x@),
                None => merge_tags_result_of(j@) is None,
            },
    {
        if !fields::has_record(j, 1, 1) {
            return None;
        }
        let resources = match records::get_resources(j, 0, "resources") {
            Some(x) => x,
            None => return None,
        };
        Some(MergeDefaultTagsResult { resources })
    }
}

/// The JSON of an answer with merged tags can be read back.
pub open spec fn merge_tags_result_keeps(v: MergeDefaultTagsResultView) -> bool {
    records::resources_keep(v.resources)
}

/// An answer with merged tags comes back from its JSON.
pub proof fn law_merge_tags_result_round_trip(v: MergeDefaultTagsResultView)
    requires
        merge_tags_result_keeps(v),
    ensures
        merge_tags_result_of(merge_tags_result_json(v)) == Some(v),
{
    reveal_strlit("resources");
    assert("resources"@.len() == 9);
    records::lemma_resources_come_back(v.resources);
    reveal_with_fuel(keyed::index_from, 2);
}

} // verus!
