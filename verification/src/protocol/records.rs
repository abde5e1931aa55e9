//! The JSON of errors, resources, patches and requests.
use vstd::prelude::*;
use vstd::string::*;

use crate::json;
use crate::json::{Json, JsonView};
use crate::keyed;
use crate::protocol::fields;
use crate::protocol::types;
use crate::protocol::types::{
    CompletionValue, CreateRequest, DeleteRequest, Directives, ErrorView, PatchOp, PatchOpKind, ProviderError,
    ProviderErrorKind, ReadRequest, Resource, State, TypeIdentity, UpdatePatch, UpdateRequest, WireOpView,
    WireResourceView, WireStateView,
};
use crate::protocol::value;
use crate::protocol::value::{WireValue, WireView};
use crate::protocol::wire;
use crate::resource::{IdView, ResourceId};
use crate::text;

verus! {

/// An id that has to be there.
pub open spec fn id_at(j: JsonView, i: int, key: Seq<char>) -> Option<IdView> {
    match fields::at(j, i, key) {
        Some(m) => wire::id_of(m),
        None => None,
    }
}

/// Reads an id that has to be there.
pub fn get_id(j: &Json, i: usize, key: &str) -> (r: Option<ResourceId>)
    ensures
        match r {
            Some(x) => id_at(j@, i as int, key@) == Some(x@),
            None => id_at(j@, i as int, key@) is None,
        },
{
    match fields::get_at(j, i, key) {
        Some(m) => wire::id_from_json(m),
        None => None,
    }
}

/// A state that has to be there.
pub open spec fn state_at(j: JsonView, i: int, key: Seq<char>) -> Option<WireStateView> {
    match fields::at(j, i, key) {
        Some(m) => wire::state_of(m),
        None => None,
    }
}

/// Reads a state that has to be there.
pub fn get_state(j: &Json, i: usize, key: &str) -> (r: Option<State>)
    ensures
        match r {
            Some(x) => state_at(j@, i as int, key@) == Some(x@),
            None => state_at(j@, i as int, key@) is None,
        },
{
    match fields::get_at(j, i, key) {
        Some(m) => State::from_json(m),
        None => None,
    }
}

/// The floats in a state are finite.
pub open spec fn state_keeps(s: WireStateView) -> bool {
    entries_keep(s.attributes)
}

/// The floats in entries are finite.
pub open spec fn entries_keep(entries: Seq<(Seq<char>, WireView)>) -> bool {
    forall|i: int| 0 <= i < entries.len() ==> value::all_finite((#[trigger] entries[i]).1)
}

/// Entries that have to be there.
pub open spec fn entries_at(j: JsonView, i: int, key: Seq<char>) -> Option<Seq<(Seq<char>, WireView)>> {
    match fields::at(j, i, key) {
        Some(JsonView::Object(members)) => Some(value::map_of(members)),
        _ => None,
    }
}

/// Reads entries that have to be there.
pub fn get_entries(j: &Json, i: usize, key: &str) -> (r: Option<Vec<(String, WireValue)>>)
    ensures
        match r {
            Some(e) => entries_at(j@, i as int, key@) == Some(value::entries_view(e@)),
            None => entries_at(j@, i as int, key@) is None,
        },
{
    match fields::get_at(j, i, key) {
        Some(Json::Object(members)) => Some(value::entries_of_object(members)),
        _ => None,
    }
}

/// The JSON of a set of directives.
pub open spec fn directives_json(v: Directives) -> JsonView {
    JsonView::Object(
        Seq::empty()
            .push(("force_delete"@, JsonView::Bool(v.force_delete)))
            .push(("create_before_destroy"@, JsonView::Bool(v.create_before_destroy)))
            .push(("prevent_destroy"@, JsonView::Bool(v.prevent_destroy))),
    )
}

/// The set of directives that a document stands for, if it stands for one.
pub open spec fn directives_of(j: JsonView) -> Option<Directives> {
    if fields::is_record(j, 0, 3) {
        match (
            fields::bool_or(j, 0, "force_delete"@, false),
            fields::bool_or(j, 1, "create_before_destroy"@, false),
            fields::bool_or(j, 2, "prevent_destroy"@, false),
        ) {
            (Some(force_delete), Some(create_before_destroy), Some(prevent_destroy)) => Some(
                Directives { force_delete, create_before_destroy, prevent_destroy },
            ),
            _ => None,
        }
    } else {
        None
    }
}

impl Directives {
    /// The JSON of the set of directives.
    pub fn to_json(&self) -> (r: Json)
        ensures
            r@ == directives_json(*self),
    {
        let mut m: Vec<(String, Json)> = Vec::new();
        fields::put(&mut m, "force_delete", Json::Bool(self.force_delete));
        fields::put(&mut m, "create_before_destroy", Json::Bool(self.create_before_destroy));
        fields::put(&mut m, "prevent_destroy", Json::Bool(self.prevent_destroy));
        Json::Object(m)
    }

    /// The set of directives that a document stands for.
    pub fn from_json(j: &Json) -> (r: Option<Directives>)
        ensures
            match r {
                Some(x) => directives_of(j@) == Some(x),
                None => directives_of(j@) is None,
            },
    {
        if !fields::has_record(j, 0, 3) {
            return None;
        }
        let force_delete = match fields::get_bool_or(j, 0, "force_delete", false) {
            Some(x) => x,
            None => return None,
        };
        let create_before_destroy = match fields::get_bool_or(j, 1, "create_before_destroy", false) {
            Some(x) => x,
            None => return None,
        };
        let prevent_destroy = match fields::get_bool_or(j, 2, "prevent_destroy", false) {
            Some(x) => x,
            None => return None,
        };
        Some(Directives { force_delete, create_before_destroy, prevent_destroy })
    }
}

/// A set of directives comes back from its JSON.
pub proof fn law_directives_round_trip(v: Directives)
    ensures
        directives_of(directives_json(v)) == Some(v),
{
    reveal_strlit("force_delete");
    assert("force_delete"@.len() == 12);
    reveal_strlit("create_before_destroy");
    assert("create_before_destroy"@.len() == 21);
    reveal_strlit("prevent_destroy");
    assert("prevent_destroy"@.len() == 15);
    reveal_with_fuel(keyed::index_from, 4);
}

/// Directives, all off where they are missing.
pub open spec fn directives_at(j: JsonView, i: int, key: Seq<char>) -> Option<Directives> {
    match fields::at(j, i, key) {
        Some(m) => directives_of(m),
        None => Some(Directives { force_delete: false, create_before_destroy: false, prevent_destroy: false }),
    }
}

/// Reads directives, all off where they are missing.
pub fn get_directives(j: &Json, i: usize, key: &str) -> (r: Option<Directives>)
    ensures
        r == directives_at(j@, i as int, key@),
{
    match fields::get_at(j, i, key) {
        Some(m) => Directives::from_json(m),
        None => Some(Directives::default()),
    }
}

/// The JSON of a resource.
pub open spec fn resource_json(v: WireResourceView) -> JsonView {
    JsonView::Object(
        Seq::empty()
            .push(("id"@, wire::id_json(v.id)))
            .push(("attributes"@, JsonView::Object(value::object_of(v.attributes))))
            .push(("directives"@, directives_json(v.directives))),
    )
}

/// The resource that a document stands for, if it stands for one.
pub open spec fn resource_of(j: JsonView) -> Option<WireResourceView> {
    if fields::is_record(j, 2, 3) {
        match (
            id_at(j, 0, "id"@),
            entries_at(j, 1, "attributes"@),
            directives_at(j, 2, "directives"@),
        ) {
            (Some(id), Some(attributes), Some(directives)) => Some(
                WireResourceView { id, attributes, directives },
            ),
            _ => None,
        }
    } else {
        None
    }
}

impl Resource {
    /// The JSON of the resource.
    pub fn to_json(&self) -> (r: Json)
        ensures
            r@ == resource_json(self@),
    {
        let mut m: Vec<(String, Json)> = Vec::new();
        fields::put(&mut m, "id", wire::id_to_json(&self.id));
        fields::put(&mut m, "attributes", Json::Object(value::object_of_entries(&self.attributes)));
        fields::put(&mut m, "directives", self.directives.to_json());
        Json::Object(m)
    }

    /// The resource that a document stands for.
    pub fn from_json(j: &Json) -> (r: Option<Resource>)
        ensures
            match r {
                Some(x) => resource_of(j@) == Some(x@),
                None => resource_of(j@) is None,
            },
    {
        if !fields::has_record(j, 2, 3) {
            return None;
        }
        let id = match get_id(j, 0, "id") {
            Some(x) => x,
            None => return None,
        };
        let attributes = match get_entries(j, 1, "attributes") {
            Some(x) => x,
            None => return None,
        };
        let directives = match get_directives(j, 2, "directives") {
            Some(x) => x,
            None => return None,
        };
        Some(Resource { id, attributes, directives })
    }
}

/// The JSON of a resource can be read back.
pub open spec fn resource_keeps(v: WireResourceView) -> bool {
    entries_keep(v.attributes)
}

/// A resource comes back from its JSON.
pub proof fn law_resource_round_trip(v: WireResourceView)
    requires
        resource_keeps(v),
    ensures
        resource_of(resource_json(v)) == Some(v),
{
    reveal_strlit("id");
    assert("id"@.len() == 2);
    reveal_strlit("attributes");
    assert("attributes"@.len() == 10);
    reveal_strlit("directives");
    assert("directives"@.len() == 10);
    assert("attributes"@[0] != "directives"@[0]);
    wire::law_id_round_trip(v.id);
    value::law_entries_round_trip(v.attributes);
    law_directives_round_trip(v.directives);
    reveal_with_fuel(keyed::index_from, 4);
}

/// A resource that has to be there.
pub open spec fn resource_at(j: JsonView, i: int, key: Seq<char>) -> Option<WireResourceView> {
    match fields::at(j, i, key) {
        Some(m) => resource_of(m),
        None => None,
    }
}

/// Reads a resource that has to be there.
pub fn get_resource(j: &Json, i: usize, key: &str) -> (r: Option<Resource>)
    ensures
        match r {
            Some(x) => resource_at(j@, i as int, key@) == Some(x@),
            None => resource_at(j@, i as int, key@) is None,
        },
{
    match fields::get_at(j, i, key) {
        Some(m) => Resource::from_json(m),
        None => None,
    }
}

/// The JSON of resources.
pub open spec fn resources_json(s: Seq<WireResourceView>) -> Seq<JsonView> {
    Seq::new(s.len(), |i: int| resource_json(s[i]))
}

/// What documents stand for, where each stands for one of resources.
pub open spec fn resources_of(items: Seq<JsonView>) -> Option<Seq<WireResourceView>>
    decreases items.len(),
{
    if items.len() == 0 {
        Some(Seq::empty())
    } else {
        match (resources_of(items.drop_last()), resource_of(items.last())) {
            (Some(before), Some(x)) => Some(before.push(x)),
            _ => None,
        }
    }
}

/// Resources, which have to be there.
pub open spec fn resources_at(j: JsonView, i: int, key: Seq<char>) -> Option<Seq<WireResourceView>> {
    match fields::at(j, i, key) {
        Some(JsonView::Array(items)) => resources_of(items),
        _ => None,
    }
}

/// The JSON of resources.
pub fn make_resources(list: &Vec<Resource>) -> (r: Vec<Json>)
    ensures
        json::array_view(r@) == resources_json(types::resources_view(list@)),
{
    let ghost goal = resources_json(types::resources_view(list@));
    let mut out: Vec<Json> = Vec::new();
    let mut i: usize = 0;
    assert(goal.take(0) =~= Seq::empty());
    while i < list.len()
        invariant
            i <= list.len(),
            goal == resources_json(types::resources_view(list@)),
            json::array_view(out@) == goal.take(i as int),
        decreases list.len() - i,
    {
        let j = list[i].to_json();
        proof {
            json::lemma_push_item(out@, j);
            assert(goal.take(i + 1) =~= goal.take(i as int).push(goal[i as int]));
        }
        out.push(j);
        i = i + 1;
    }
    assert(goal.take(i as int) =~= goal);
    out
}

proof fn lemma_resources_prefix(items: Seq<JsonView>, i: int)
    requires
        0 <= i <= items.len(),
    ensures
        resources_of(items) is Some ==> resources_of(items.take(i)) is Some,
    decreases items.len() - i,
{
    if i < items.len() {
        lemma_resources_prefix(items, i + 1);
        assert(items.take(i + 1).drop_last() =~= items.take(i));
    } else {
        assert(items.take(i) =~= items);
    }
}

fn read_resources(items: &Vec<Json>) -> (r: Option<Vec<Resource>>)
    ensures
        match r {
            Some(list) => resources_of(json::array_view(items@)) == Some(types::resources_view(list@)),
            None => resources_of(json::array_view(items@)) is None,
        },
{
    let ghost all = json::array_view(items@);
    let mut out: Vec<Resource> = Vec::new();
    let mut i: usize = 0;
    proof {
        json::lemma_array(items@);
    }
    assert(types::resources_view(out@) =~= Seq::empty());
    assert(all.take(0).len() == 0);
    while i < items.len()
        invariant
            i <= items.len(),
            all.len() == items.len(),
            all == json::array_view(items@),
            forall|k: int| 0 <= k < all.len() ==> #[trigger] all[k] == json::json_view(items@[k]),
            resources_of(all.take(i as int)) == Some(types::resources_view(out@)),
        decreases items.len() - i,
    {
        let ghost before = types::resources_view(out@);
        proof {
            assert(all.take(i + 1).drop_last() =~= all.take(i as int));
            assert(all.take(i + 1).last() == all[i as int]);
            lemma_resources_prefix(all, i + 1);
        }
        match Resource::from_json(&items[i]) {
            Some(x) => {
                let ghost view = x@;
                out.push(x);
                assert(types::resources_view(out@) =~= before.push(view));
            },
            None => return None,
        }
        i = i + 1;
    }
    assert(all.take(i as int) =~= all);
    Some(out)
}

/// Reads resources, which have to be there.
pub fn get_resources(j: &Json, i: usize, key: &str) -> (r: Option<Vec<Resource>>)
    ensures
        match r {
            Some(list) => resources_at(j@, i as int, key@) == Some(types::resources_view(list@)),
            None => resources_at(j@, i as int, key@) is None,
        },
{
    match fields::get_at(j, i, key) {
        Some(Json::Array(items)) => read_resources(items),
        _ => None,
    }
}

/// The JSON of resources can be read back.
pub open spec fn resources_keep(s: Seq<WireResourceView>) -> bool {
    forall|i: int| 0 <= i < s.len() ==> resource_keeps(#[trigger] s[i])
}

/// Resources come back from their JSON.
pub proof fn lemma_resources_come_back(s: Seq<WireResourceView>)
    requires
        resources_keep(s),
    ensures
        resources_of(resources_json(s)) == Some(s),
    decreases s.len(),
{
    let out = resources_json(s);
    if s.len() > 0 {
        let before = s.drop_last();
        assert forall|i: int| 0 <= i < before.len() implies resource_keeps(#[trigger] before[i]) by {
            assert(before[i] == s[i]);
        }
        lemma_resources_come_back(before);
        law_resource_round_trip(s.last());
        assert(out.drop_last() =~= resources_json(before));
        assert(before.push(s.last()) =~= s);
    } else {
        assert(s =~= Seq::empty());
    }
}

/// The name of a kind of operation.
pub open spec fn patch_kind_text(k: PatchOpKind) -> Seq<char> {
    match k {
        PatchOpKind::Add => "add"@,
        PatchOpKind::Replace => "replace"@,
        PatchOpKind::Remove => "remove"@,
    }
}

/// The name of a kind of operation.
pub fn patch_kind_name(k: PatchOpKind) -> (r: &'static str)
    ensures
        r@ == patch_kind_text(k),
{
    match k {
        PatchOpKind::Add => "add",
        PatchOpKind::Replace => "replace",
        PatchOpKind::Remove => "remove",
    }
}

/// The kind of operation that a document names.
pub open spec fn patch_kind_of(j: JsonView) -> Option<PatchOpKind> {
    match fields::variant_name(j) {
        Some(s) => if s == "add"@ {
            Some(PatchOpKind::Add)
        } else if s == "replace"@ {
            Some(PatchOpKind::Replace)
        } else if s == "remove"@ {
            Some(PatchOpKind::Remove)
        } else {
            None
        },
        None => None,
    }
}

/// The kind of operation that a field names.
pub open spec fn patch_kind_at(j: JsonView, i: int, key: Seq<char>) -> Option<PatchOpKind> {
    match fields::at(j, i, key) {
        Some(m) => patch_kind_of(m),
        None => None,
    }
}

/// Reads the kind of operation that a field names.
pub fn get_patch_kind(j: &Json, i: usize, key: &str) -> (r: Option<PatchOpKind>)
    ensures
        r == patch_kind_at(j@, i as int, key@),
{
    match fields::get_at(j, i, key) {
        Some(m) => match fields::get_variant_name(m) {
            Some(s) => if text::same(s, "add") {
            Some(PatchOpKind::Add)
        } else if text::same(s, "replace") {
            Some(PatchOpKind::Replace)
        } else if text::same(s, "remove") {
            Some(PatchOpKind::Remove)
        } else {
            None
        },
            None => None,
        },
        None => None,
    }
}

proof fn lemma_patch_kind(k: PatchOpKind)
    ensures
        patch_kind_of(JsonView::String(patch_kind_text(k))) == Some(k),
{
    reveal_strlit("add");
    assert("add"@.len() == 3);
    reveal_strlit("replace");
    assert("replace"@.len() == 7);
    reveal_strlit("remove");
    assert("remove"@.len() == 6);
}

/// The name of a kind of error.
pub open spec fn error_kind_text(k: ProviderErrorKind) -> Seq<char> {
    match k {
        ProviderErrorKind::InvalidInput => "invalid_input"@,
        ProviderErrorKind::ApiError => "api_error"@,
        ProviderErrorKind::NotFound => "not_found"@,
        ProviderErrorKind::Timeout => "timeout"@,
        ProviderErrorKind::Internal => "internal"@,
    }
}

/// The name of a kind of error.
pub fn error_kind_name(k: ProviderErrorKind) -> (r: &'static str)
    ensures
        r@ == error_kind_text(k),
{
    match k {
        ProviderErrorKind::InvalidInput => "invalid_input",
        ProviderErrorKind::ApiError => "api_error",
        ProviderErrorKind::NotFound => "not_found",
        ProviderErrorKind::Timeout => "timeout",
        ProviderErrorKind::Internal => "internal",
    }
}

/// The kind of error that a document names.
pub open spec fn error_kind_of(j: JsonView) -> Option<ProviderErrorKind> {
    match fields::variant_name(j) {
        Some(s) => if s == "invalid_input"@ {
            Some(ProviderErrorKind::InvalidInput)
        } else if s == "api_error"@ {
            Some(ProviderErrorKind::ApiError)
        } else if s == "not_found"@ {
            Some(ProviderErrorKind::NotFound)
        } else if s == "timeout"@ {
            Some(ProviderErrorKind::Timeout)
        } else if s == "internal"@ {
            Some(ProviderErrorKind::Internal)
        } else {
            None
        },
        None => None,
    }
}

/// The kind of error, the internal one where none is named, that a field names.
pub open spec fn error_kind_at(j: JsonView, i: int, key: Seq<char>) -> Option<ProviderErrorKind> {
    match fields::at(j, i, key) {
        Some(m) => error_kind_of(m),
        None => Some(ProviderErrorKind::Internal),
    }
}

/// Reads the kind of error that a field names.
pub fn get_error_kind(j: &Json, i: usize, key: &str) -> (r: Option<ProviderErrorKind>)
    ensures
        r == error_kind_at(j@, i as int, key@),
{
    match fields::get_at(j, i, key) {
        Some(m) => match fields::get_variant_name(m) {
            Some(s) => if text::same(s, "invalid_input") {
            Some(ProviderErrorKind::InvalidInput)
        } else if text::same(s, "api_error") {
            Some(ProviderErrorKind::ApiError)
        } else if text::same(s, "not_found") {
            Some(ProviderErrorKind::NotFound)
        } else if text::same(s, "timeout") {
            Some(ProviderErrorKind::Timeout)
        } else if text::same(s, "internal") {
            Some(ProviderErrorKind::Internal)
        } else {
            None
        },
            None => None,
        },
        None => Some(ProviderErrorKind::Internal),
    }
}

proof fn lemma_error_kind(k: ProviderErrorKind)
    ensures
        error_kind_of(JsonView::String(error_kind_text(k))) == Some(k),
{
    reveal_strlit("invalid_input");
    assert("invalid_input"@.len() == 13);
    reveal_strlit("api_error");
    assert("api_error"@.len() == 9);
    reveal_strlit("not_found");
    assert("not_found"@.len() == 9);
    reveal_strlit("timeout");
    assert("timeout"@.len() == 7);
    reveal_strlit("internal");
    assert("internal"@.len() == 8);
    assert("api_error"@[0] != "not_found"@[0]);
}

/// The JSON of a value, where there is one.
pub open spec fn some_value(o: Option<WireView>) -> Option<JsonView> {
    match o {
        Some(v) => Some(value::json_of(v)),
        None => None,
    }
}

/// A value, none where it is missing or null.
pub open spec fn value_at(j: JsonView, i: int, key: Seq<char>) -> Option<Option<WireView>> {
    match fields::at(j, i, key) {
        None => Some(None),
        Some(JsonView::Null) => Some(None),
        Some(m) => Some(Some(value::value_of(m))),
    }
}

fn put_some_value(members: &mut Vec<(String, Json)>, key: &str, o: &Option<WireValue>)
    ensures
        json::object_view(final(members)@) == fields::with_some(
            json::object_view(old(members)@),
            key@,
            some_value(value::opt_value(*o)),
        ),
{
    if let Some(v) = o {
        fields::put(members, key, v.to_json());
    }
}

fn get_value(j: &Json, i: usize, key: &str) -> (r: Option<Option<WireValue>>)
    ensures
        match r {
            Some(o) => value_at(j@, i as int, key@) == Some(value::opt_value(o)),
            None => value_at(j@, i as int, key@) is None,
        },
{
    match fields::get_at(j, i, key) {
        None => Some(None),
        Some(Json::Null) => Some(None),
        Some(m) => Some(Some(WireValue::from_json(m))),
    }
}

proof fn lemma_value_comes_back(o: Option<WireView>)
    requires
        o matches Some(v) ==> value::all_finite(v),
    ensures
        o matches Some(v) ==> value::value_of(value::json_of(v)) == v && !(value::json_of(v) is Null),
{
    if let Some(v) = o {
        value::law_value_round_trip(v);
    }
}

/// The JSON of an operation of a patch.
pub open spec fn op_json(v: WireOpView) -> JsonView {
    let m = Seq::empty();
    let m = m.push(("kind"@, JsonView::String(patch_kind_text(v.kind))));
    let m = m.push(("key"@, JsonView::String(v.key)));
    let m = fields::with_some(m, "value"@, some_value(v.value));
    JsonView::Object(m)
}

/// The operation of a patch that a document stands for, if it stands for one.
pub open spec fn op_of(j: JsonView) -> Option<WireOpView> {
    if fields::is_record(j, 2, 3) {
        match (
            patch_kind_at(j, 0, "kind"@),
            fields::need_text(j, 1, "key"@),
            value_at(j, 2, "value"@),
        ) {
            (Some(kind), Some(key), Some(value)) => Some(
                WireOpView { kind, key, value },
            ),
            _ => None,
        }
    } else {
        None
    }
}

impl PatchOp {
    /// The JSON of the operation of a patch.
    pub fn to_json(&self) -> (r: Json)
        ensures
            r@ == op_json(self@),
    {
        let mut m: Vec<(String, Json)> = Vec::new();
        fields::put(&mut m, "kind", Json::text(patch_kind_name(self.kind)));
        fields::put(&mut m, "key", Json::String(self.key.clone()));
        put_some_value(&mut m, "value", &self.value);
        Json::Object(m)
    }

    /// The operation of a patch that a document stands for.
    pub fn from_json(j: &Json) -> (r: Option<PatchOp>)
        ensures
            match r {
                Some(x) => op_of(j@) == Some(x@),
                None => op_of(j@) is None,
            },
    {
        if !fields::has_record(j, 2, 3) {
            return None;
        }
        let kind = match get_patch_kind(j, 0, "kind") {
            Some(x) => x,
            None => return None,
        };
        let key = match fields::get_need_text(j, 1, "key") {
            Some(x) => x,
            None => return None,
        };
        let value = match get_value(j, 2, "value") {
            Some(x) => x,
            None => return None,
        };
        Some(PatchOp { kind, key, value })
    }
}

/// The JSON of an operation of a patch can be read back.
pub open spec fn op_keeps(v: WireOpView) -> bool {
    (v.value matches Some(v) ==> value::all_finite(v))
}

/// An operation of a patch comes back from its JSON.
pub proof fn law_op_round_trip(v: WireOpView)
    requires
        op_keeps(v),
    ensures
        op_of(op_json(v)) == Some(v),
{
    reveal_strlit("kind");
    assert("kind"@.len() == 4);
    reveal_strlit("key");
    assert("key"@.len() == 3);
    reveal_strlit("value");
    assert("value"@.len() == 5);
    lemma_patch_kind(v.kind);
    lemma_value_comes_back(v.value);
    reveal_with_fuel(keyed::index_from, 4);
}

/// The JSON of operations.
pub open spec fn ops_json(s: Seq<WireOpView>) -> Seq<JsonView> {
    Seq::new(s.len(), |i: int| op_json(s[i]))
}

/// What documents stand for, where each stands for one of operations.
pub open spec fn ops_of(items: Seq<JsonView>) -> Option<Seq<WireOpView>>
    decreases items.len(),
{
    if items.len() == 0 {
        Some(Seq::empty())
    } else {
        match (ops_of(items.drop_last()), op_of(items.last())) {
            (Some(before), Some(x)) => Some(before.push(x)),
            _ => None,
        }
    }
}

/// Operations, none where they are missing.
pub open spec fn ops_at(j: JsonView, i: int, key: Seq<char>) -> Option<Seq<WireOpView>> {
    match fields::at(j, i, key) {
        Some(JsonView::Array(items)) => ops_of(items),
        None => Some(Seq::empty()),
        Some(_) => None,
    }
}

/// The JSON of operations.
pub fn make_ops(list: &Vec<PatchOp>) -> (r: Vec<Json>)
    ensures
        json::array_view(r@) == ops_json(types::ops_view(list@)),
{
    let ghost goal = ops_json(types::ops_view(list@));
    let mut out: Vec<Json> = Vec::new();
    let mut i: usize = 0;
    assert(goal.take(0) =~= Seq::empty());
    while i < list.len()
        invariant
            i <= list.len(),
            goal == ops_json(types::ops_view(list@)),
            json::array_view(out@) == goal.take(i as int),
        decreases list.len() - i,
    {
        let j = list[i].to_json();
        proof {
            json::lemma_push_item(out@, j);
            assert(goal.take(i + 1) =~= goal.take(i as int).push(goal[i as int]));
        }
        out.push(j);
        i = i + 1;
    }
    assert(goal.take(i as int) =~= goal);
    out
}

proof fn lemma_ops_prefix(items: Seq<JsonView>, i: int)
    requires
        0 <= i <= items.len(),
    ensures
        ops_of(items) is Some ==> ops_of(items.take(i)) is Some,
    decreases items.len() - i,
{
    if i < items.len() {
        lemma_ops_prefix(items, i + 1);
        assert(items.take(i + 1).drop_last() =~= items.take(i));
    } else {
        assert(items.take(i) =~= items);
    }
}

fn read_ops(items: &Vec<Json>) -> (r: Option<Vec<PatchOp>>)
    ensures
        match r {
            Some(list) => ops_of(json::array_view(items@)) == Some(types::ops_view(list@)),
            None => ops_of(json::array_view(items@)) is None,
        },
{
    let ghost all = json::array_view(items@);
    let mut out: Vec<PatchOp> = Vec::new();
    let mut i: usize = 0;
    proof {
        json::lemma_array(items@);
    }
    assert(types::ops_view(out@) =~= Seq::empty());
    assert(all.take(0).len() == 0);
    while i < items.len()
        invariant
            i <= items.len(),
            all.len() == items.len(),
            all == json::array_view(items@),
            forall|k: int| 0 <= k < all.len() ==> #[trigger] all[k] == json::json_view(items@[k]),
            ops_of(all.take(i as int)) == Some(types::ops_view(out@)),
        decreases items.len() - i,
    {
        let ghost before = types::ops_view(out@);
        proof {
            assert(all.take(i + 1).drop_last() =~= all.take(i as int));
            assert(all.take(i + 1).last() == all[i as int]);
            lemma_ops_prefix(all, i + 1);
        }
        match PatchOp::from_json(&items[i]) {
            Some(x) => {
                let ghost view = x@;
                out.push(x);
                assert(types::ops_view(out@) =~= before.push(view));
            },
            None => return None,
        }
        i = i + 1;
    }
    assert(all.take(i as int) =~= all);
    Some(out)
}

/// Reads operations, none where they are missing.
pub fn get_ops(j: &Json, i: usize, key: &str) -> (r: Option<Vec<PatchOp>>)
    ensures
        match r {
            Some(list) => ops_at(j@, i as int, key@) == Some(types::ops_view(list@)),
            None => ops_at(j@, i as int, key@) is None,
        },
{
    match fields::get_at(j, i, key) {
        Some(Json::Array(items)) => read_ops(items),
        None => {
            let none: Vec<PatchOp> = Vec::new();
            assert(types::ops_view(none@) =~= Seq::empty());
            Some(none)
        },
        Some(_) => None,
    }
}

/// The JSON of operations can be read back.
pub open spec fn ops_keep(s: Seq<WireOpView>) -> bool {
    forall|i: int| 0 <= i < s.len() ==> op_keeps(#[trigger] s[i])
}

/// Operations come back from their JSON.
pub proof fn lemma_ops_come_back(s: Seq<WireOpView>)
    requires
        ops_keep(s),
    ensures
        ops_of(ops_json(s)) == Some(s),
    decreases s.len(),
{
    let out = ops_json(s);
    if s.len() > 0 {
        let before = s.drop_last();
        assert forall|i: int| 0 <= i < before.len() implies op_keeps(#[trigger] before[i]) by {
            assert(before[i] == s[i]);
        }
        lemma_ops_come_back(before);
        law_op_round_trip(s.last());
        assert(out.drop_last() =~= ops_json(before));
        assert(before.push(s.last()) =~= s);
    } else {
        assert(s =~= Seq::empty());
    }
}

#[verifier::ext_equal]
pub struct PatchView {
    pub ops: Seq<WireOpView>,
}

impl View for UpdatePatch {
    type V = PatchView;

    open spec fn view(&self) -> PatchView {
        PatchView { ops: types::ops_view(self.ops@) }
    }
}

/// The JSON of a patch.
pub open spec fn patch_json(v: PatchView) -> JsonView {
    JsonView::Object(Seq::empty().push(("ops"@, JsonView::Array(ops_json(v.ops)))))
}

/// The patch that a document stands for, if it stands for one.
pub open spec fn patch_of(j: JsonView) -> Option<PatchView> {
    if fields::is_record(j, 0, 1) {
        match ops_at(j, 0, "ops"@) {
            Some(ops) => Some(PatchView { ops }),
            None => None,
        }
    } else {
        None
    }
}

impl UpdatePatch {
    /// The JSON of the patch.
    pub fn to_json(&self) -> (r: Json)
        ensures
            r@ == patch_json(self@),
    {
        let mut m: Vec<(String, Json)> = Vec::new();
        fields::put(&mut m, "ops", Json::Array(make_ops(&self.ops)));
        Json::Object(m)
    }

    /// The patch that a document stands for.
    pub fn from_json(j: &Json) -> (r: Option<UpdatePatch>)
        ensures
            match r {
                Some(x) => patch_of(j@) == Some(x@),
                None => patch_of(j@) is None,
            },
    {
        if !fields::has_record(j, 0, 1) {
            return None;
        }
        let ops = match get_ops(j, 0, "ops") {
            Some(x) => x,
            None => return None,
        };
        Some(UpdatePatch { ops })
    }
}

/// The JSON of a patch can be read back.
pub open spec fn patch_keeps(v: PatchView) -> bool {
    ops_keep(v.ops)
}

/// A patch comes back from its JSON.
pub proof fn law_patch_round_trip(v: PatchView)
    requires
        patch_keeps(v),
    ensures
        patch_of(patch_json(v)) == Some(v),
{
    reveal_strlit("ops");
    assert("ops"@.len() == 3);
    lemma_ops_come_back(v.ops);
    reveal_with_fuel(keyed::index_from, 2);
}

/// A patch that has to be there.
pub open spec fn patch_at(j: JsonView, i: int, key: Seq<char>) -> Option<PatchView> {
    match fields::at(j, i, key) {
        Some(m) => patch_of(m),
        None => None,
    }
}

/// Reads a patch that has to be there.
pub fn get_patch(j: &Json, i: usize, key: &str) -> (r: Option<UpdatePatch>)
    ensures
        match r {
            Some(x) => patch_at(j@, i as int, key@) == Some(x@),
            None => patch_at(j@, i as int, key@) is None,
        },
{
    match fields::get_at(j, i, key) {
        Some(m) => UpdatePatch::from_json(m),
        None => None,
    }
}

impl ReadRequest {
    /// The JSON of the request: null.
    pub fn to_json(&self) -> (r: Json)
        ensures
            r@ == JsonView::Null,
    {
        Json::Null
    }

    /// The request that a document stands for: null, and nothing else.
    pub fn from_json(j: &Json) -> (r: Option<ReadRequest>)
        ensures
            r is Some == (j@ is Null),
    {
        match j {
            Json::Null => Some(ReadRequest),
            _ => None,
        }
    }
}

#[verifier::ext_equal]
pub struct CreateRequestView {
    pub resource: WireResourceView,
}

impl View for CreateRequest {
    type V = CreateRequestView;

    open spec fn view(&self) -> CreateRequestView {
        CreateRequestView { resource: self.resource@ }
    }
}

/// The JSON of a request to create.
pub open spec fn create_request_json(v: CreateRequestView) -> JsonView {
    JsonView::Object(Seq::empty().push(("resource"@, resource_json(v.resource))))
}

/// The request to create that a document stands for, if it stands for one.
pub open spec fn create_request_of(j: JsonView) -> Option<CreateRequestView> {
    if fields::is_record(j, 1, 1) {
        match resource_at(j, 0, "resource"@) {
            Some(resource) => Some(CreateRequestView { resource }),
            None => None,
        }
    } else {
        None
    }
}

impl CreateRequest {
    /// The JSON of the request to create.
    pub fn to_json(&self) -> (r: Json)
        ensures
            r@ == create_request_json(self@),
    {
        let mut m: Vec<(String, Json)> = Vec::new();
        fields::put(&mut m, "resource", self.resource.to_json());
        Json::Object(m)
    }

    /// The request to create that a document stands for.
    pub fn from_json(j: &Json) -> (r: Option<CreateRequest>)
        ensures
            match r {
                Some(x) => create_request_of(j@) == Some(x@),
                None => create_request_of(j@) is None,
            },
    {
        if !fields::has_record(j, 1, 1) {
            return None;
        }
        let resource = match get_resource(j, 0, "resource") {
            Some(x) => x,
            None => return None,
        };
        Some(CreateRequest { resource })
    }
}

/// The JSON of a request to create can be read back.
pub open spec fn create_request_keeps(v: CreateRequestView) -> bool {
    resource_keeps(v.resource)
}

/// A request to create comes back from its JSON.
pub proof fn law_create_request_round_trip(v: CreateRequestView)
    requires
        create_request_keeps(v),
    ensures
        create_request_of(create_request_json(v)) == Some(v),
{
    reveal_strlit("resource");
    assert("resource"@.len() == 8);
    law_resource_round_trip(v.resource);
    reveal_with_fuel(keyed::index_from, 2);
}

#[verifier::ext_equal]
pub struct UpdateRequestView {
    pub from: WireStateView,
    pub patch: PatchView,
}

impl View for UpdateRequest {
    type V = UpdateRequestView;

    open spec fn view(&self) -> UpdateRequestView {
        UpdateRequestView { from: self.from@, patch: self.patch@ }
    }
}

/// The JSON of a request to update.
pub open spec fn update_request_json(v: UpdateRequestView) -> JsonView {
    JsonView::Object(
        Seq::empty()
            .push(("from"@, wire::state_json(v.from)))
            .push(("patch"@, patch_json(v.patch))),
    )
}

/// The request to update that a document stands for, if it stands for one.
pub open spec fn update_request_of(j: JsonView) -> Option<UpdateRequestView> {
    if fields::is_record(j, 2, 2) {
        match (
            state_at(j, 0, "from"@),
            patch_at(j, 1, "patch"@),
        ) {
            (Some(from), Some(patch)) => Some(
                UpdateRequestView { from, patch },
            ),
            _ => None,
        }
    } else {
        None
    }
}

impl UpdateRequest {
    /// The JSON of the request to update.
    pub fn to_json(&self) -> (r: Json)
        ensures
            r@ == update_request_json(self@),
    {
        let mut m: Vec<(String, Json)> = Vec::new();
        fields::put(&mut m, "from", self.from.to_json());
        fields::put(&mut m, "patch", self.patch.to_json());
        Json::Object(m)
    }

    /// The request to update that a document stands for.
    pub fn from_json(j: &Json) -> (r: Option<UpdateRequest>)
        ensures
            match r {
                Some(x) => update_request_of(j@) == Some(x@),
                None => update_request_of(j@) is None,
            },
    {
        if !fields::has_record(j, 2, 2) {
            return None;
        }
        let from = match get_state(j, 0, "from") {
            Some(x) => x,
            None => return None,
        };
        let patch = match get_patch(j, 1, "patch") {
            Some(x) => x,
            None => return None,
        };
        Some(UpdateRequest { from, patch })
    }
}

/// The JSON of a request to update can be read back.
pub open spec fn update_request_keeps(v: UpdateRequestView) -> bool {
    state_keeps(v.from) && patch_keeps(v.patch)
}

/// A request to update comes back from its JSON.
pub proof fn law_update_request_round_trip(v: UpdateRequestView)
    requires
        update_request_keeps(v),
    ensures
        update_request_of(update_request_json(v)) == Some(v),
{
    reveal_strlit("from");
    assert("from"@.len() == 4);
    reveal_strlit("patch");
    assert("patch"@.len() == 5);
    wire::law_state_round_trip(v.from);
    law_patch_round_trip(v.patch);
    reveal_with_fuel(keyed::index_from, 3);
}

#[verifier::ext_equal]
pub struct DeleteRequestView {
    pub directives: Directives,
}

impl View for DeleteRequest {
    type V = DeleteRequestView;

    open spec fn view(&self) -> DeleteRequestView {
        DeleteRequestView { directives: self.directives }
    }
}

/// The JSON of a request to delete.
pub open spec fn delete_request_json(v: DeleteRequestView) -> JsonView {
    JsonView::Object(Seq::empty().push(("directives"@, directives_json(v.directives))))
}

/// The request to delete that a document stands for, if it stands for one.
pub open spec fn delete_request_of(j: JsonView) -> Option<DeleteRequestView> {
    if fields::is_record(j, 0, 1) {
        match directives_at(j, 0, "directives"@) {
            Some(directives) => Some(DeleteRequestView { directives }),
            None => None,
        }
    } else {
        None
    }
}

impl DeleteRequest {
    /// The JSON of the request to delete.
    pub fn to_json(&self) -> (r: Json)
        ensures
            r@ == delete_request_json(self@),
    {
        let mut m: Vec<(String, Json)> = Vec::new();
        fields::put(&mut m, "directives", self.directives.to_json());
        Json::Object(m)
    }

    /// The request to delete that a document stands for.
    pub fn from_json(j: &Json) -> (r: Option<DeleteRequest>)
        ensures
            match r {
                Some(x) => delete_request_of(j@) == Some(x@),
                None => delete_request_of(j@) is None,
            },
    {
        if !fields::has_record(j, 0, 1) {
            return None;
        }
        let directives = match get_directives(j, 0, "directives") {
            Some(x) => x,
            None => return None,
        };
        Some(DeleteRequest { directives })
    }
}

/// A request to delete comes back from its JSON.
pub proof fn law_delete_request_round_trip(v: DeleteRequestView)
    ensures
        delete_request_of(delete_request_json(v)) == Some(v),
{
    reveal_strlit("directives");
    assert("directives"@.len() == 10);
    law_directives_round_trip(v.directives);
    reveal_with_fuel(keyed::index_from, 2);
}

#[verifier::ext_equal]
pub struct IdentityView {
    pub provider: Seq<char>,
    pub segments: Seq<Seq<char>>,
    pub kind: Seq<char>,
}

impl View for TypeIdentity {
    type V = IdentityView;

    open spec fn view(&self) -> IdentityView {
        IdentityView { provider: self.provider@, segments: text::strings(self.segments@), kind: self.kind@ }
    }
}

/// The JSON of an identity of a type.
pub open spec fn identity_json(v: IdentityView) -> JsonView {
    JsonView::Object(
        Seq::empty()
            .push(("provider"@, JsonView::String(v.provider)))
            .push(("segments"@, JsonView::Array(fields::texts_json(v.segments))))
            .push(("kind"@, JsonView::String(v.kind))),
    )
}

/// The identity of a type that a document stands for, if it stands for one.
pub open spec fn identity_of(j: JsonView) -> Option<IdentityView> {
    if fields::is_record(j, 3, 3) {
        match (
            fields::need_text(j, 0, "provider"@),
            fields::need_texts(j, 1, "segments"@),
            fields::need_text(j, 2, "kind"@),
        ) {
            (Some(provider), Some(segments), Some(kind)) => Some(
                IdentityView { provider, segments, kind },
            ),
            _ => None,
        }
    } else {
        None
    }
}

impl TypeIdentity {
    /// The JSON of the identity of a type.
    pub fn to_json(&self) -> (r: Json)
        ensures
            r@ == identity_json(self@),
    {
        let mut m: Vec<(String, Json)> = Vec::new();
        fields::put(&mut m, "provider", Json::String(self.provider.clone()));
        fields::put(&mut m, "segments", Json::Array(fields::make_texts(&self.segments)));
        fields::put(&mut m, "kind", Json::String(self.kind.clone()));
        Json::Object(m)
    }

    /// The identity of a type that a document stands for.
    pub fn from_json(j: &Json) -> (r: Option<TypeIdentity>)
        ensures
            match r {
                Some(x) => identity_of(j@) == Some(x@),
                None => identity_of(j@) is None,
            },
    {
        if !fields::has_record(j, 3, 3) {
            return None;
        }
        let provider = match fields::get_need_text(j, 0, "provider") {
            Some(x) => x,
            None => return None,
        };
        let segments = match fields::get_need_texts(j, 1, "segments") {
            Some(x) => x,
            None => return None,
        };
        let kind = match fields::get_need_text(j, 2, "kind") {
            Some(x) => x,
            None => return None,
        };
        Some(TypeIdentity { provider, segments, kind })
    }
}

/// An identity of a type comes back from its JSON.
pub proof fn law_identity_round_trip(v: IdentityView)
    ensures
        identity_of(identity_json(v)) == Some(v),
{
    reveal_strlit("provider");
    assert("provider"@.len() == 8);
    reveal_strlit("segments");
    assert("segments"@.len() == 8);
    reveal_strlit("kind");
    assert("kind"@.len() == 4);
    assert("provider"@[0] != "segments"@[0]);
    fields::lemma_texts_come_back(v.segments);
    reveal_with_fuel(keyed::index_from, 4);
}

#[verifier::ext_equal]
pub struct CompletionView {
    pub value: Seq<char>,
    pub description: Seq<char>,
}

impl View for CompletionValue {
    type V = CompletionView;

    open spec fn view(&self) -> CompletionView {
        CompletionView { value: self.value@, description: self.description@ }
    }
}

/// The JSON of a completion.
pub open spec fn completion_json(v: CompletionView) -> JsonView {
    JsonView::Object(
        Seq::empty()
            .push(("value"@, JsonView::String(v.value)))
            .push(("description"@, JsonView::String(v.description))),
    )
}

/// The completion that a document stands for, if it stands for one.
pub open spec fn completion_of(j: JsonView) -> Option<CompletionView> {
    if fields::is_record(j, 2, 2) {
        match (
            fields::need_text(j, 0, "value"@),
            fields::need_text(j, 1, "description"@),
        ) {
            (Some(value), Some(description)) => Some(
                CompletionView { value, description },
            ),
            _ => None,
        }
    } else {
        None
    }
}

impl CompletionValue {
    /// The JSON of the completion.
    pub fn to_json(&self) -> (r: Json)
        ensures
            r@ == completion_json(self@),
    {
        let mut m: Vec<(String, Json)> = Vec::new();
        fields::put(&mut m, "value", Json::String(self.value.clone()));
        fields::put(&mut m, "description", Json::String(self.description.clone()));
        Json::Object(m)
    }

    /// The completion that a document stands for.
    pub fn from_json(j: &Json) -> (r: Option<CompletionValue>)
        ensures
            match r {
                Some(x) => completion_of(j@) == Some(x@),
                None => completion_of(j@) is None,
            },
    {
        if !fields::has_record(j, 2, 2) {
            return None;
        }
        let value = match fields::get_need_text(j, 0, "value") {
            Some(x) => x,
            None => return None,
        };
        let description = match fields::get_need_text(j, 1, "description") {
            Some(x) => x,
            None => return None,
        };
        Some(CompletionValue { value, description })
    }
}

/// A completion comes back from its JSON.
pub proof fn law_completion_round_trip(v: CompletionView)
    ensures
        completion_of(completion_json(v)) == Some(v),
{
    reveal_strlit("value");
    assert("value"@.len() == 5);
    reveal_strlit("description");
    assert("description"@.len() == 11);
    reveal_with_fuel(keyed::index_from, 3);
}

/// The JSON of an id, where there is one.
pub open spec fn some_id(o: Option<IdView>) -> Option<JsonView> {
    match o {
        Some(id) => Some(wire::id_json(id)),
        None => None,
    }
}

/// An id that may be missing or null.
pub open spec fn may_id(j: JsonView, i: int, key: Seq<char>) -> Option<Option<IdView>> {
    match fields::at(j, i, key) {
        None => Some(None),
        Some(JsonView::Null) => Some(None),
        Some(m) => match wire::id_of(m) {
            Some(id) => Some(Some(id)),
            None => None,
        },
    }
}

fn put_some_id(members: &mut Vec<(String, Json)>, key: &str, o: &Option<ResourceId>)
    ensures
        json::object_view(final(members)@) == fields::with_some(
            json::object_view(old(members)@),
            key@,
            some_id(types::opt_id(*o)),
        ),
{
    if let Some(id) = o {
        fields::put(members, key, wire::id_to_json(id));
    }
}

fn get_may_id(j: &Json, i: usize, key: &str) -> (r: Option<Option<ResourceId>>)
    ensures
        match r {
            Some(o) => may_id(j@, i as int, key@) == Some(types::opt_id(o)),
            None => may_id(j@, i as int, key@) is None,
        },
{
    match fields::get_at(j, i, key) {
        None => Some(None),
        Some(Json::Null) => Some(None),
        Some(m) => match wire::id_from_json(m) {
            Some(id) => Some(Some(id)),
            None => None,
        },
    }
}

proof fn lemma_id_comes_back(o: Option<IdView>)
    ensures
        o matches Some(id) ==> wire::id_of(wire::id_json(id)) == Some(id),
{
    if let Some(id) = o {
        wire::law_id_round_trip(id);
    }
}

/// A status, as a natural number.
pub open spec fn nat_of_u16(o: Option<u16>) -> Option<nat> {
    match o {
        Some(n) => Some(n as nat),
        None => None,
    }
}

/// A status that may be missing or null.
pub open spec fn may_status(j: JsonView, i: int, key: Seq<char>) -> Option<Option<u16>> {
    match fields::may_number(j, i, key, u16::MAX as nat) {
        Some(Some(n)) => Some(Some(n as u16)),
        Some(None) => Some(None),
        None => None,
    }
}

fn widen(o: Option<u16>) -> (r: Option<u64>)
    ensures
        match r {
            Some(n) => nat_of_u16(o) == Some(n as nat),
            None => o is None,
        },
{
    match o {
        Some(n) => Some(n as u64),
        None => None,
    }
}

fn get_may_status(j: &Json, i: usize, key: &str) -> (r: Option<Option<u16>>)
    ensures
        r == may_status(j@, i as int, key@),
{
    match fields::get_may_number(j, i, key, u16::MAX as u64) {
        Some(Some(n)) => Some(Some(n as u16)),
        Some(None) => Some(None),
        None => None,
    }
}

/// The JSON of an error.
pub open spec fn error_json(v: ErrorView) -> JsonView {
    let m = Seq::empty();
    let m = m.push(("kind"@, JsonView::String(error_kind_text(v.kind))));
    let m = m.push(("message"@, JsonView::String(v.message)));
    let m = fields::with_some(m, "resource_id"@, some_id(v.resource_id));
    let m = fields::with_some(m, "cause"@, fields::some_text(v.cause));
    let m = fields::with_some(m, "provider_name"@, fields::some_text(v.provider_name));
    let m = fields::with_some(m, "operation"@, fields::some_text(v.operation));
    let m = fields::with_some(m, "status"@, fields::some_number(nat_of_u16(v.status)));
    let m = fields::with_some(m, "code"@, fields::some_text(v.code));
    let m = fields::with_some(m, "request_id"@, fields::some_text(v.request_id));
    JsonView::Object(m)
}

/// The error that a document stands for, if it stands for one.
pub open spec fn error_of(j: JsonView) -> Option<ErrorView> {
    if fields::is_record(j, 2, 9) {
        match (
            error_kind_at(j, 0, "kind"@),
            fields::need_text(j, 1, "message"@),
            may_id(j, 2, "resource_id"@),
            fields::may_text(j, 3, "cause"@),
            fields::may_text(j, 4, "provider_name"@),
            fields::may_text(j, 5, "operation"@),
            may_status(j, 6, "status"@),
            fields::may_text(j, 7, "code"@),
            fields::may_text(j, 8, "request_id"@),
        ) {
            (Some(kind), Some(message), Some(resource_id), Some(cause), Some(provider_name), Some(operation), Some(status), Some(code), Some(request_id)) => Some(
                ErrorView { kind, message, resource_id, cause, provider_name, operation, status, code, request_id },
            ),
            _ => None,
        }
    } else {
        None
    }
}

impl ProviderError {
    /// The JSON of the error.
    pub fn to_json(&self) -> (r: Json)
        ensures
            r@ == error_json(self@),
    {
        let mut m: Vec<(String, Json)> = Vec::new();
        fields::put(&mut m, "kind", Json::text(error_kind_name(self.kind)));
        fields::put(&mut m, "message", Json::String(self.message.clone()));
        put_some_id(&mut m, "resource_id", &self.resource_id);
        fields::put_some_text(&mut m, "cause", &self.cause);
        fields::put_some_text(&mut m, "provider_name", &self.provider_name);
        fields::put_some_text(&mut m, "operation", &self.operation);
        fields::put_some_number(&mut m, "status", widen(self.status));
        fields::put_some_text(&mut m, "code", &self.code);
        fields::put_some_text(&mut m, "request_id", &self.request_id);
        Json::Object(m)
    }

    /// The error that a document stands for.
    pub fn from_json(j: &Json) -> (r: Option<ProviderError>)
        ensures
            match r {
                Some(x) => error_of(j@) == Some(x@),
                None => error_of(j@) is None,
            },
    {
        if !fields::has_record(j, 2, 9) {
            return None;
        }
        let kind = match get_error_kind(j, 0, "kind") {
            Some(x) => x,
            None => return None,
        };
        let message = match fields::get_need_text(j, 1, "message") {
            Some(x) => x,
            None => return None,
        };
        let resource_id = match get_may_id(j, 2, "resource_id") {
            Some(x) => x,
            None => return None,
        };
        let cause = match fields::get_may_text(j, 3, "cause") {
            Some(x) => x,
            None => return None,
        };
        let provider_name = match fields::get_may_text(j, 4, "provider_name") {
            Some(x) => x,
            None => return None,
        };
        let operation = match fields::get_may_text(j, 5, "operation") {
            Some(x) => x,
            None => return None,
        };
        let status = match get_may_status(j, 6, "status") {
            Some(x) => x,
            None => return None,
        };
        let code = match fields::get_may_text(j, 7, "code") {
            Some(x) => x,
            None => return None,
        };
        let request_id = match fields::get_may_text(j, 8, "request_id") {
            Some(x) => x,
            None => return None,
        };
        Some(ProviderError { kind, message, resource_id, cause, provider_name, operation, status, code, request_id })
    }
}

/// An error comes back from its JSON.
pub proof fn law_error_round_trip(v: ErrorView)
    ensures
        error_of(error_json(v)) == Some(v),
{
    reveal_strlit("kind");
    assert("kind"@.len() == 4);
    reveal_strlit("message");
    assert("message"@.len() == 7);
    reveal_strlit("resource_id");
    assert("resource_id"@.len() == 11);
    reveal_strlit("cause");
    assert("cause"@.len() == 5);
    reveal_strlit("provider_name");
    assert("provider_name"@.len() == 13);
    reveal_strlit("operation");
    assert("operation"@.len() == 9);
    reveal_strlit("status");
    assert("status"@.len() == 6);
    reveal_strlit("code");
    assert("code"@.len() == 4);
    reveal_strlit("request_id");
    assert("request_id"@.len() == 10);
    assert("kind"@[0] != "code"@[0]);
    lemma_error_kind(v.kind);
    lemma_id_comes_back(v.resource_id);
    let m0: Seq<(Seq<char>, JsonView)> = Seq::empty();
    let m1 = m0.push(("kind"@, JsonView::String(error_kind_text(v.kind))));
    fields::lemma_found_after_push(m0, "kind"@, JsonView::String(error_kind_text(v.kind)));
    let m2 = m1.push(("message"@, JsonView::String(v.message)));
    fields::lemma_found_after_push(m1, "message"@, JsonView::String(v.message));
    let m3 = fields::with_some(m2, "resource_id"@, some_id(v.resource_id));
    fields::lemma_found_after(m2, "resource_id"@, some_id(v.resource_id));
    let m4 = fields::with_some(m3, "cause"@, fields::some_text(v.cause));
    fields::lemma_found_after(m3, "cause"@, fields::some_text(v.cause));
    let m5 = fields::with_some(m4, "provider_name"@, fields::some_text(v.provider_name));
    fields::lemma_found_after(m4, "provider_name"@, fields::some_text(v.provider_name));
    let m6 = fields::with_some(m5, "operation"@, fields::some_text(v.operation));
    fields::lemma_found_after(m5, "operation"@, fields::some_text(v.operation));
    let m7 = fields::with_some(m6, "status"@, fields::some_number(nat_of_u16(v.status)));
    fields::lemma_found_after(m6, "status"@, fields::some_number(nat_of_u16(v.status)));
    let m8 = fields::with_some(m7, "code"@, fields::some_text(v.code));
    fields::lemma_found_after(m7, "code"@, fields::some_text(v.code));
    let m9 = fields::with_some(m8, "request_id"@, fields::some_text(v.request_id));
    fields::lemma_found_after(m8, "request_id"@, fields::some_text(v.request_id));
}

} // verus!
