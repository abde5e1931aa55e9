//! The provider that keeps resources in a file: what it does to the contents.
use vstd::prelude::*;
use vstd::string::*;

use crate::json;
use crate::json::{Json, JsonView};
use crate::keyed;
use crate::protocol::types::{ErrorView, ProviderError};
use crate::provider::convert;
use crate::provider::round_trip;
use crate::resource;
use crate::resource::{IdView, PatchOp, Resource, ResourceId, State, StateView};
use crate::text;
use crate::value;
use crate::value::{DslValue, ValueView};

verus! {

/// Which resources are created or updated in part, and what they lack then.
#[derive(Debug)]
pub struct PartialConfig {
    pub resource_id_pattern: String,
    pub missing_attributes: Vec<String>,
}

#[verifier::ext_equal]
pub struct PartialView {
    pub resource_id_pattern: Seq<char>,
    pub missing_attributes: Seq<Seq<char>>,
}

impl View for PartialConfig {
    type V = PartialView;

    open spec fn view(&self) -> PartialView {
        PartialView {
            resource_id_pattern: self.resource_id_pattern@,
            missing_attributes: text::strings(self.missing_attributes@),
        }
    }
}

pub open spec fn opt_partial(o: Option<PartialConfig>) -> Option<PartialView> {
    match o {
        Some(c) => Some(c@),
        None => None,
    }
}

/// The provider that keeps resources in a file.
#[derive(Debug)]
pub struct MockProvider {
    pub state_file: String,
    pub partial_create: Option<PartialConfig>,
    pub partial_update: Option<PartialConfig>,
}

/// The key of a resource in the file.
pub open spec fn key_of(id: IdView) -> Seq<char> {
    id.resource_type + "."@ + id.name
}

/// The key of a resource, behind its provider.
pub open spec fn full_key_of(id: IdView) -> Seq<char> {
    id.provider + "."@ + id.resource_type + "."@ + id.name
}

/// The key of a resource in the file.
pub fn resource_key(id: &ResourceId) -> (r: String)
    ensures
        r@ == key_of(id@),
{
    let mut s = id.resource_type.clone();
    s.append(".");
    s.append(id.name.as_str());
    s
}

/// A pattern is for a resource: it is a star, or the key with or without the
/// provider.
pub open spec fn matches_pattern(pattern: Seq<char>, id: IdView) -> bool {
    pattern == "*"@ || pattern == full_key_of(id) || pattern == key_of(id)
}

/// Whether a pattern is for a resource.
pub fn partial_config_matches(config: &PartialConfig, id: &ResourceId) -> (r: bool)
    ensures
        r == matches_pattern(config@.resource_id_pattern, id@),
{
    let mut full = id.provider.clone();
    full.append(".");
    full.append(id.resource_type.as_str());
    full.append(".");
    full.append(id.name.as_str());
    let short = resource_key(id);
    let pattern = config.resource_id_pattern.as_str();
    text::same(pattern, "*") || text::same(pattern, full.as_str()) || text::same(pattern, short.as_str())
}

/// What a resource lacks if it is made in part.
pub open spec fn missing_for(config: Option<PartialView>, id: IdView) -> Option<Seq<Seq<char>>> {
    match config {
        Some(c) => if matches_pattern(c.resource_id_pattern, id) {
            Some(c.missing_attributes)
        } else {
            None
        },
        None => None,
    }
}

/// The items of a list with commas, trimmed, without the empty ones.
pub open spec fn listed_names(pieces: Seq<Seq<char>>) -> Seq<Seq<char>>
    decreases pieces.len(),
{
    if pieces.len() == 0 {
        Seq::empty()
    } else {
        let before = listed_names(pieces.drop_last());
        let name = text::trimmed(pieces.last());
        if name.len() == 0 {
            before
        } else {
            before.push(name)
        }
    }
}

/// The attributes that a setting names as missing; `computed` where it is not set.
pub open spec fn missing_names(raw: Option<Seq<char>>) -> Seq<Seq<char>> {
    match raw {
        Some(s) => listed_names(text::split(s, ","@)),
        None => Seq::empty().push("computed"@),
    }
}

fn parse_missing(raw: &Option<String>) -> (r: Vec<String>)
    ensures
        text::strings(r@) == missing_names(text::opt_string(*raw)),
{
    let mut out: Vec<String> = Vec::new();
    match raw {
        None => {
            out.push("computed".to_owned());
            assert(text::strings(out@) =~= Seq::empty().push("computed"@));
        },
        Some(s) => {
            proof {
                reveal_strlit(",");
            }
            let pieces = text::split_on(s.as_str(), ",");
            let ghost all = text::strings(pieces@);
            let mut i: usize = 0;
            assert(text::strings(out@) =~= listed_names(all.take(0)));
            while i < pieces.len()
                invariant
                    i <= pieces.len(),
                    all == text::strings(pieces@),
                    text::strings(out@) == listed_names(all.take(i as int)),
                decreases pieces.len() - i,
            {
                let ghost before = text::strings(out@);
                proof {
                    assert(all.take(i + 1).drop_last() =~= all.take(i as int));
                    assert(all.take(i + 1).last() == pieces@[i as int]@);
                }
                let name = text::trim(pieces[i].as_str());
                if name.as_str().unicode_len() > 0 {
                    let ghost view = name@;
                    out.push(name);
                    assert(text::strings(out@) =~= before.push(view));
                }
                i = i + 1;
            }
            assert(all.take(i as int) =~= all);
        },
    }
    out
}

/// What a pair of settings says of resources that are made in part.
pub fn partial_config(pattern: Option<String>, missing: &Option<String>) -> (r: Option<PartialConfig>)
    ensures
        opt_partial(r) == match text::opt_string(pattern) {
            Some(p) => Some(
                PartialView { resource_id_pattern: p, missing_attributes: missing_names(text::opt_string(*missing)) },
            ),
            None => None,
        },
{
    match pattern {
        Some(p) => Some(PartialConfig { resource_id_pattern: p, missing_attributes: parse_missing(missing) }),
        None => None,
    }
}

impl MockProvider {
    /// The provider with its settings: the file, and the patterns and missing
    /// attributes of creates and updates in part.
    pub fn from_settings(
        state_file: Option<String>,
        create_for: Option<String>,
        create_missing: &Option<String>,
        update_for: Option<String>,
        update_missing: &Option<String>,
    ) -> (r: MockProvider)
        ensures
            r.state_file@ == match state_file {
                Some(f) => f@,
                None => ".carina/state.json"@,
            },
            opt_partial(r.partial_create) == match text::opt_string(create_for) {
                Some(p) => Some(
                    PartialView {
                        resource_id_pattern: p,
                        missing_attributes: missing_names(text::opt_string(*create_missing)),
                    },
                ),
                None => None,
            },
            opt_partial(r.partial_update) == match text::opt_string(update_for) {
                Some(p) => Some(
                    PartialView {
                        resource_id_pattern: p,
                        missing_attributes: missing_names(text::opt_string(*update_missing)),
                    },
                ),
                None => None,
            },
    {
        MockProvider {
            state_file: match state_file {
                Some(f) => f,
                None => ".carina/state.json".to_owned(),
            },
            partial_create: partial_config(create_for, create_missing),
            partial_update: partial_config(update_for, update_missing),
        }
    }

    /// The provider, with resources that are created in part.
    pub fn with_partial_create_for(self, resource_id_pattern: String, missing_attributes: Vec<String>) -> (r: MockProvider)
        ensures
            r.state_file@ == self.state_file@,
            r.partial_create == Some(PartialConfig { resource_id_pattern, missing_attributes }),
            r.partial_update == self.partial_update,
    {
        MockProvider {
            state_file: self.state_file,
            partial_create: Some(PartialConfig { resource_id_pattern, missing_attributes }),
            partial_update: self.partial_update,
        }
    }

    /// The provider, with resources that are updated in part.
    pub fn with_partial_update_for(self, resource_id_pattern: String, missing_attributes: Vec<String>) -> (r: MockProvider)
        ensures
            r.state_file@ == self.state_file@,
            r.partial_create == self.partial_create,
            r.partial_update == Some(PartialConfig { resource_id_pattern, missing_attributes }),
    {
        MockProvider {
            state_file: self.state_file,
            partial_create: self.partial_create,
            partial_update: Some(PartialConfig { resource_id_pattern, missing_attributes }),
        }
    }

    pub fn name(&self) -> (r: &'static str)
        ensures
            r@ == "mock"@,
    {
        "mock"
    }

    /// The permissions that an operation needs: none.
    pub fn required_permissions(&self, id: &ResourceId) -> (r: Vec<String>)
        ensures
            r@.len() == 0,
    {
        Vec::new()
    }
}

/// The contents of the file: the attributes of each resource under its key.
pub open spec fn store_view(s: Seq<(String, Vec<(String, Json)>)>) -> Seq<(Seq<char>, Seq<(Seq<char>, JsonView)>)> {
    json::maps_view(s)
}

/// The contents of a file, from what reading its text gave: nothing where it is
/// not a map of maps.
pub open spec fn states_in(read: Result<Seq<(Seq<char>, Seq<(Seq<char>, JsonView)>)>, Seq<char>>) -> Seq<
    (Seq<char>, Seq<(Seq<char>, JsonView)>),
> {
    match read {
        Ok(m) => m,
        Err(_) => Seq::empty(),
    }
}

/// The contents of the file, from what reading its text gave.
pub fn states_of_document(document: Result<Vec<(String, Vec<(String, Json)>)>, String>) -> (r: Vec<
    (String, Vec<(String, Json)>),
>)
    ensures
        store_view(r@) == states_in(
            match document {
                Ok(m) => Ok(store_view(m@)),
                Err(reason) => Err(reason@),
            },
        ),
{
    match document {
        Ok(m) => m,
        Err(_) => {
            let none: Vec<(String, Vec<(String, Json)>)> = Vec::new();
            assert(store_view(none@) =~= Seq::empty());
            none
        },
    }
}

/// The contents of the file, from its text; nothing where there is no file. No
/// resource and no attribute occurs twice.
pub fn states_of_text(content: Option<&str>) -> (r: Vec<(String, Vec<(String, Json)>)>)
    ensures
        store_view(r@) == match content {
            Some(t) => states_in(json::parsed_maps(t@)),
            None => Seq::empty(),
        },
        keyed::distinct_keys(store_view(r@)),
        forall|i: int| 0 <= i < store_view(r@).len() ==> keyed::distinct_keys((#[trigger] store_view(r@)[i]).1),
{
    match content {
        Some(t) => states_of_document(json::parse_maps(t)),
        None => {
            let none: Vec<(String, Vec<(String, Json)>)> = Vec::new();
            assert(store_view(none@) =~= Seq::empty());
            none
        },
    }
}

/// The document that the contents of the file are written as.
pub open spec fn store_json(states: Seq<(Seq<char>, Seq<(Seq<char>, JsonView)>)>) -> JsonView {
    json::maps_json(states)
}

/// Two contents of the file are the same but for the order of resources and of
/// members.
pub open spec fn same_store(
    a: Seq<(Seq<char>, Seq<(Seq<char>, JsonView)>)>,
    b: Seq<(Seq<char>, Seq<(Seq<char>, JsonView)>)>,
) -> bool {
    forall|key: Seq<char>|
        match (#[trigger] keyed::lookup(a, key), keyed::lookup(b, key)) {
            (Some(x), Some(y)) => json::same_json(JsonView::Object(x), JsonView::Object(y)),
            (None, None) => true,
            _ => false,
        }
}

/// The document that the contents of the file are written as.
pub fn document_of_states(states: &Vec<(String, Vec<(String, Json)>)>) -> (r: Json)
    ensures
        r@ == store_json(store_view(states@)),
{
    let ghost goal = store_json(store_view(states@))->Object_0;
    let mut out: Vec<(String, Json)> = Vec::new();
    let mut i: usize = 0;
    assert(goal.take(0) =~= Seq::empty());
    while i < states.len()
        invariant
            i <= states.len(),
            goal == store_json(store_view(states@))->Object_0,
            json::object_view(out@) == goal.take(i as int),
        decreases states.len() - i,
    {
        let e = (states[i].0.clone(), Json::Object(json::copy_members(&states[i].1)));
        proof {
            json::lemma_push_member(out@, e);
            assert(goal.take(i + 1) =~= goal.take(i as int).push(goal[i as int]));
        }
        out.push(e);
        i = i + 1;
    }
    assert(goal.take(i as int) =~= goal);
    Json::Object(out)
}

/// The text of the file, unless its contents hold floats. Reading the text gives
/// the contents again.
pub fn text_of_states(states: &Vec<(String, Vec<(String, Json)>)>) -> (r: Option<String>)
    ensures
        ({
            let j = store_json(store_view(states@));
            match r {
                Some(t) => {
                    &&& json::float_free(j)
                    &&& t@ == json::printed_pretty(j) + "\n"@
                    &&& json::reads_back(j) ==> same_store(store_view(states@), states_in(json::parsed_maps(t@)))
                },
                None => !json::float_free(j),
            }
        }),
{
    let document = document_of_states(states);
    let r = document.to_pretty_text();
    proof {
        if let Some(ref t) = r {
            if json::reads_back(document@) {
                lemma_store_reads_back(store_view(states@), json::parsed_maps(t@)->Ok_0);
            }
        }
    }
    r
}

/// Contents whose documents are the same are the same.
proof fn lemma_store_reads_back(
    states: Seq<(Seq<char>, Seq<(Seq<char>, JsonView)>)>,
    read: Seq<(Seq<char>, Seq<(Seq<char>, JsonView)>)>,
)
    requires
        json::same_json(store_json(states), store_json(read)),
        json::well_keyed(store_json(states)),
        json::well_keyed(store_json(read)),
    ensures
        same_store(states, read),
{
    let x = store_json(states)->Object_0;
    let y = store_json(read)->Object_0;
    assert(keyed::distinct_keys(x) && keyed::distinct_keys(y));
    assert forall|key: Seq<char>|
        match (#[trigger] keyed::lookup(states, key), keyed::lookup(read, key)) {
            (Some(p), Some(q)) => json::same_json(JsonView::Object(p), JsonView::Object(q)),
            (None, None) => true,
            _ => false,
        } by {
        keyed::lemma_index_from(states, key, 0);
        keyed::lemma_index_from(read, key, 0);
        keyed::lemma_index_from(x, key, 0);
        keyed::lemma_index_from(y, key, 0);
        assert(forall|i: int| 0 <= i < states.len() ==> (#[trigger] x[i]).0 == states[i].0);
        assert(forall|i: int| 0 <= i < y.len() ==> (#[trigger] y[i]).0 == read[i].0);
        if let Some(a) = keyed::index_from(states, key, 0) {
            assert(x[a].0 == key);
            let c = keyed::index_from(x, key, 0)->0;
            assert(x[c].0 == x[a].0 && c == a);
            if store_json(states) != store_json(read) {
                assert(keyed::lookup(y, x[a].0) is Some);
            }
            let b = keyed::index_from(y, key, 0)->0;
            assert(y[b].0 == key);
            assert(read[b].0 == key);
            assert(keyed::index_from(read, key, 0) is Some);
            let d = keyed::index_from(read, key, 0)->0;
            assert(read[d].0 == key);
            assert(y[d].0 == read[d].0);
            assert(d == b);
            assert(json::same_json(x[a].1, y[b].1));
        } else if let Some(d) = keyed::index_from(read, key, 0) {
            assert(y[d].0 == key);
            if store_json(states) != store_json(read) {
                assert(keyed::lookup(x, y[d].0) is Some);
            }
            let c = keyed::index_from(x, key, 0)->0;
            assert(x[c].0 == states[c].0);
            assert(false);
        }
    }
}

fn find_entry(states: &Vec<(String, Vec<(String, Json)>)>, key: &str) -> (r: Option<usize>)
    ensures
        match r {
            Some(i) => i < states.len() && keyed::index_from(store_view(states@), key@, 0) == Some(i as int),
            None => keyed::index_from(store_view(states@), key@, 0) is None,
        },
{
    proof {
        let m = store_view(states@);
        assert forall|i: int| 0 <= i < states@.len() implies (#[trigger] states@[i]).0@ == m[i].0 by {};
        keyed::lemma_position(states@, m, key@, 0);
    }
    keyed::position(states, key)
}

fn put_entry(states: &mut Vec<(String, Vec<(String, Json)>)>, key: String, attrs: Vec<(String, Json)>)
    ensures
        store_view(final(states)@) == keyed::set(store_view(old(states)@), key@, json::object_view(attrs@)),
{
    let ghost before = store_view(states@);
    let ghost e = (key@, json::object_view(attrs@));
    match find_entry(states, key.as_str()) {
        Some(i) => {
            states.set(i, (key, attrs));
            assert(store_view(states@) =~= before.update(i as int, e));
        },
        None => {
            states.push((key, attrs));
            assert(store_view(states@) =~= before.push(e));
        },
    }
}

/// The value of the attribute that test resources are known by.
pub open spec fn test_identifier(id: IdView, attributes: Seq<(Seq<char>, ValueView)>) -> Seq<char> {
    (match keyed::lookup(attributes, "name"@) {
        Some(ValueView::String(s)) => s,
        _ => id.name,
    }) + "-id"@
}

/// The attributes with an identifier, where the resource is a test resource,
/// these are enabled, and there is none.
pub open spec fn identified(
    id: IdView,
    attributes: Seq<(Seq<char>, ValueView)>,
    enabled: bool,
) -> Seq<(Seq<char>, ValueView)> {
    if enabled && id.resource_type == "test.resource"@ && keyed::lookup(attributes, "identifier"@) is None {
        keyed::set(attributes, "identifier"@, ValueView::String(test_identifier(id, attributes)))
    } else {
        attributes
    }
}

fn identify(id: &ResourceId, attributes: &mut Vec<(String, DslValue)>, enabled: bool)
    ensures
        value::entries_view(final(attributes)@) == identified(id@, value::entries_view(old(attributes)@), enabled),
{
    if enabled && text::same(id.resource_type.as_str(), "test.resource") && !value::has_key(attributes, "identifier") {
        let mut s = match value::get(attributes, "name") {
            Some(DslValue::String(name)) => name.clone(),
            _ => id.name.clone(),
        };
        s.append("-id");
        value::put(attributes, "identifier".to_owned(), DslValue::String(s));
    }
}

/// The attributes without some.
pub open spec fn stripped(attributes: Seq<(Seq<char>, ValueView)>, names: Seq<Seq<char>>) -> Seq<
    (Seq<char>, ValueView),
>
    decreases names.len(),
{
    if names.len() == 0 {
        attributes
    } else {
        keyed::without(stripped(attributes, names.drop_last()), names.last())
    }
}

fn strip(attributes: &mut Vec<(String, DslValue)>, names: &Vec<String>)
    ensures
        value::entries_view(final(attributes)@) == stripped(
            value::entries_view(old(attributes)@),
            text::strings(names@),
        ),
{
    let ghost start = value::entries_view(attributes@);
    let ghost all = text::strings(names@);
    let mut i: usize = 0;
    while i < names.len()
        invariant
            i <= names.len(),
            all == text::strings(names@),
            value::entries_view(attributes@) == stripped(start, all.take(i as int)),
        decreases names.len() - i,
    {
        proof {
            assert(all.take(i + 1).drop_last() =~= all.take(i as int));
            assert(all.take(i + 1).last() == names@[i as int]@);
        }
        value::take_out(attributes, names[i].as_str());
        i = i + 1;
    }
    assert(all.take(i as int) =~= all);
}

/// Every attribute has JSON throughout.
pub open spec fn all_storable(attributes: Seq<(Seq<char>, ValueView)>) -> bool {
    forall|i: int| 0 <= i < attributes.len() ==> round_trip::all_resolved((#[trigger] attributes[i]).1)
}

/// The name of the first attribute from `i` on that has no JSON.
pub open spec fn first_unstorable(attributes: Seq<(Seq<char>, ValueView)>, i: int) -> Option<Seq<char>>
    decreases attributes.len() - i,
{
    if i < 0 || i >= attributes.len() {
        None
    } else if round_trip::all_resolved(attributes[i].1) {
        first_unstorable(attributes, i + 1)
    } else {
        Some(attributes[i].0)
    }
}

fn is_resolved(v: &DslValue) -> (r: bool)
    ensures
        r == round_trip::all_resolved(v@),
    decreases v,
{
    match v {
        DslValue::Float(f) => f.is_finite(),
        DslValue::List(items) => {
            let r = items_resolved(items);
            proof {
                let all = value::values_view(items@);
                if r {
                    assert(round_trip::all_resolved(ValueView::List(all)));
                } else {
                    let i = choose|i: int| 0 <= i < all.len() && !round_trip::all_resolved(#[trigger] all[i]);
                    let whole = ValueView::List(all);
                    assert(!round_trip::all_resolved(whole->List_0[i]));
                    assert(!round_trip::all_resolved(whole));
                }
            }
            r
        },
        DslValue::Mapping(entries) => {
            let r = entries_resolved(entries);
            proof {
                let all = value::entries_view(entries@);
                if r {
                    assert(round_trip::all_resolved(ValueView::Mapping(all)));
                } else {
                    let i = choose|i: int| 0 <= i < all.len() && !round_trip::all_resolved((#[trigger] all[i]).1);
                    assert(!round_trip::all_resolved(all[i].1));
                    assert(!round_trip::all_resolved(ValueView::Mapping(all)));
                }
            }
            r
        },
        DslValue::UnresolvedIdent(_, _) => false,
        DslValue::ResourceRef(_, _) => false,
        _ => true,
    }
}

fn items_resolved(items: &Vec<DslValue>) -> (r: bool)
    ensures
        r == forall|i: int|
            0 <= i < value::values_view(items@).len() ==> round_trip::all_resolved(
                #[trigger] value::values_view(items@)[i],
            ),
    decreases items@,
{
    let ghost all = value::values_view(items@);
    proof {
        value::lemma_values(items@);
    }
    let mut i: usize = 0;
    while i < items.len()
        invariant
            i <= items.len(),
            all.len() == items.len(),
            all == value::values_view(items@),
            forall|k: int| 0 <= k < all.len() ==> #[trigger] all[k] == value::value_view(items@[k]),
            forall|k: int| 0 <= k < i ==> round_trip::all_resolved(#[trigger] all[k]),
        decreases items.len() - i,
    {
        if !is_resolved(&items[i]) {
            assert(!round_trip::all_resolved(all[i as int]));
            return false;
        }
        i = i + 1;
    }
    true
}

fn entries_resolved(entries: &Vec<(String, DslValue)>) -> (r: bool)
    ensures
        r == all_storable(value::entries_view(entries@)),
    decreases entries@,
{
    let ghost all = value::entries_view(entries@);
    proof {
        value::lemma_entries(entries@);
    }
    let mut i: usize = 0;
    while i < entries.len()
        invariant
            i <= entries.len(),
            all.len() == entries.len(),
            all == value::entries_view(entries@),
            forall|k: int| 0 <= k < all.len() ==> #[trigger] all[k] == (entries@[k].0@, value::value_view(entries@[k].1)),
            forall|k: int| 0 <= k < i ==> round_trip::all_resolved((#[trigger] all[k]).1),
        decreases entries.len() - i,
    {
        if !is_resolved(&entries[i].1) {
            assert(!round_trip::all_resolved(all[i as int].1));
            return false;
        }
        i = i + 1;
    }
    true
}

fn find_unstorable(entries: &Vec<(String, DslValue)>) -> (r: Option<&str>)
    ensures
        text::opt_slice(r) == first_unstorable(value::entries_view(entries@), 0),
        r is None ==> all_storable(value::entries_view(entries@)),
{
    let ghost all = value::entries_view(entries@);
    proof {
        value::lemma_entries(entries@);
    }
    let mut i: usize = 0;
    while i < entries.len()
        invariant
            i <= entries.len(),
            all.len() == entries.len(),
            all == value::entries_view(entries@),
            forall|k: int| 0 <= k < all.len() ==> #[trigger] all[k] == (entries@[k].0@, value::value_view(entries@[k].1)),
            forall|k: int| 0 <= k < i ==> round_trip::all_resolved((#[trigger] all[k]).1),
            first_unstorable(all, 0) == first_unstorable(all, i as int),
        decreases entries.len() - i,
    {
        assert(all[i as int] == (entries@[i as int].0@, entries@[i as int].1@));
        if !is_resolved(&entries[i].1) {
            return Some(entries[i].0.as_str());
        }
        i = i + 1;
    }
    None
}

/// The error for an attribute that has no JSON.
pub open spec fn unstorable(name: Seq<char>) -> ErrorView {
    ErrorView::new("Failed to convert value: "@ + name)
}

/// How a create or an update ended.
#[derive(Debug)]
pub enum Outcome {
    Success { state: State },
    /// The resource lacks some attributes.
    Partial { state: State, reason: String, missing: Vec<String> },
}

#[verifier::ext_equal]
pub enum OutcomeView {
    Success { state: StateView },
    Partial { state: StateView, reason: Seq<char>, missing: Seq<Seq<char>> },
}

impl View for Outcome {
    type V = OutcomeView;

    open spec fn view(&self) -> OutcomeView {
        match *self {
            Outcome::Success { state } => OutcomeView::Success { state: state@ },
            Outcome::Partial { state, reason, missing } => OutcomeView::Partial {
                state: state@,
                reason: reason@,
                missing: text::strings(missing@),
            },
        }
    }
}

/// The attributes that a create or an update leaves.
pub open spec fn left(attributes: Seq<(Seq<char>, ValueView)>, missing: Option<Seq<Seq<char>>>) -> Seq<
    (Seq<char>, ValueView),
> {
    match missing {
        Some(names) => stripped(attributes, names),
        None => attributes,
    }
}

/// What a create or an update that leaves these attributes reports.
pub open spec fn reported(
    id: IdView,
    attributes: Seq<(Seq<char>, ValueView)>,
    missing: Option<Seq<Seq<char>>>,
    reason: Seq<char>,
) -> OutcomeView {
    let state = resource::present(id, left(attributes, missing), Some("mock-id"@));
    match missing {
        Some(names) => OutcomeView::Partial { state, reason, missing: names },
        None => OutcomeView::Success { state },
    }
}

/// The contents of the file after a create or an update that leaves these
/// attributes.
pub open spec fn stored(
    states: Seq<(Seq<char>, Seq<(Seq<char>, JsonView)>)>,
    id: IdView,
    attributes: Seq<(Seq<char>, ValueView)>,
    missing: Option<Seq<Seq<char>>>,
) -> Seq<(Seq<char>, Seq<(Seq<char>, JsonView)>)> {
    keyed::set(states, key_of(id), convert::plain_object(left(attributes, missing)))
}

fn copy_names(names: &Vec<String>) -> (r: Vec<String>)
    ensures
        text::strings(r@) == text::strings(names@),
{
    let mut out: Vec<String> = Vec::new();
    let ghost all = text::strings(names@);
    let mut i: usize = 0;
    assert(text::strings(out@) =~= all.take(0));
    while i < names.len()
        invariant
            i <= names.len(),
            all == text::strings(names@),
            text::strings(out@) == all.take(i as int),
        decreases names.len() - i,
    {
        let ghost before = text::strings(out@);
        out.push(names[i].clone());
        assert(text::strings(out@) =~= before.push(names@[i as int]@));
        assert(all.take(i + 1) =~= all.take(i as int).push(all[i as int]));
        i = i + 1;
    }
    assert(all.take(i as int) =~= all);
    out
}

fn keep(
    states: &mut Vec<(String, Vec<(String, Json)>)>,
    id: &ResourceId,
    attributes: Vec<(String, DslValue)>,
    config: Option<&PartialConfig>,
    reason: &str,
) -> (r: Outcome)
    ensures
        ({
            let missing = missing_for(
                match config {
                    Some(c) => Some(c@),
                    None => None,
                },
                id@,
            );
            &&& store_view(final(states)@) == stored(
                store_view(old(states)@),
                id@,
                value::entries_view(attributes@),
                missing,
            )
            &&& r@ == reported(id@, value::entries_view(attributes@), missing, reason@)
        }),
{
    let mut attributes = attributes;
    let partial = match config {
        Some(c) => if partial_config_matches(c, id) {
            strip(&mut attributes, &c.missing_attributes);
            Some(copy_names(&c.missing_attributes))
        } else {
            None
        },
        None => None,
    };
    put_entry(states, resource_key(id), convert::json_map(&attributes));
    let state = State::existing(id.clone(), attributes).with_identifier("mock-id");
    match partial {
        Some(missing) => Outcome::Partial { state, reason: reason.to_owned(), missing },
        None => Outcome::Success { state },
    }
}

/// The error for a create that is set to fail.
pub open spec fn create_refused(id: IdView) -> ErrorView {
    ErrorView::new("CARINA_MOCK_CREATE_FAIL_FOR requested create failure for "@ + key_of(id))
}

impl MockProvider {
    /// Creates a resource, unless it is the one for which creates are set to
    /// fail or one of its attributes has no JSON.
    pub fn create(
        &self,
        states: &mut Vec<(String, Vec<(String, Json)>)>,
        id: &ResourceId,
        wanted: &Resource,
        fail_for: Option<&str>,
        test_resources: bool,
    ) -> (r: Result<Outcome, ProviderError>)
        ensures
            ({
                let attrs = wanted@.attributes;
                let missing = missing_for(opt_partial(self.partial_create), id@);
                let made = identified(id@, attrs, test_resources);
                if fail_for is Some && fail_for->0@ == key_of(id@) {
                    (r matches Err(e) && e@ == create_refused(id@)) && final(states)@ == old(states)@
                } else {
                    match first_unstorable(attrs, 0) {
                        Some(name) => (r matches Err(e) && e@ == unstorable(name)) && final(states)@ == old(states)@,
                        None => {
                            &&& store_view(final(states)@) == stored(store_view(old(states)@), id@, made, missing)
                            &&& r matches Ok(o) && o@ == reported(id@, made, missing, "mock partial create"@)
                        },
                    }
                }
            }),
    {
        if let Some(target) = fail_for {
            let key = resource_key(id);
            if text::same(target, key.as_str()) {
                let mut message = "CARINA_MOCK_CREATE_FAIL_FOR requested create failure for ".to_owned();
                message.append(key.as_str());
                return Err(ProviderError::new(message.as_str()));
            }
        }
        if let Some(name) = find_unstorable(&wanted.attributes) {
            let mut message = "Failed to convert value: ".to_owned();
            message.append(name);
            return Err(ProviderError::new(message.as_str()));
        }
        let mut attributes = value::copy_entries(&wanted.attributes);
        identify(id, &mut attributes, test_resources);
        Ok(keep(states, id, attributes, self.partial_create.as_ref(), "mock partial create"))
    }
}

/// The state that a read gives.
pub open spec fn read_from(states: Seq<(Seq<char>, Seq<(Seq<char>, JsonView)>)>, id: IdView) -> StateView {
    match keyed::lookup(states, key_of(id)) {
        Some(attrs) => resource::present(id, convert::plain_members(attrs), Some("mock-id"@)),
        None => resource::absent(id),
    }
}

impl MockProvider {
    /// The state of a resource.
    pub fn read(&self, states: &Vec<(String, Vec<(String, Json)>)>, id: &ResourceId) -> (r: State)
        ensures
            r@ == read_from(store_view(states@), id@),
    {
        match find_entry(states, resource_key(id).as_str()) {
            Some(i) => State::existing(id.clone(), convert::plain_map(&states[i].1)).with_identifier("mock-id"),
            None => State::not_found(id.clone()),
        }
    }

    /// Deletes a resource.
    pub fn delete(&self, states: &mut Vec<(String, Vec<(String, Json)>)>, id: &ResourceId)
        ensures
            store_view(final(states)@) == keyed::without(store_view(old(states)@), key_of(id@)),
    {
        let ghost before = store_view(states@);
        if let Some(i) = find_entry(states, resource_key(id).as_str()) {
            states.remove(i);
            assert(store_view(states@) =~= before.remove(i as int));
        }
    }
}

impl MockProvider {
    /// Updates a resource by a patch on its state, unless one of its
    /// attributes then has no JSON.
    pub fn update(
        &self,
        states: &mut Vec<(String, Vec<(String, Json)>)>,
        id: &ResourceId,
        from: &State,
        ops: &Vec<PatchOp>,
    ) -> (r: Result<Outcome, ProviderError>)
        ensures
            ({
                let made = resource::patched(from@.attributes, resource::ops_view(ops@));
                let missing = missing_for(opt_partial(self.partial_update), id@);
                match first_unstorable(made, 0) {
                    Some(name) => (r matches Err(e) && e@ == unstorable(name)) && final(states)@ == old(states)@,
                    None => {
                        &&& store_view(final(states)@) == stored(store_view(old(states)@), id@, made, missing)
                        &&& r matches Ok(o) && o@ == reported(id@, made, missing, "mock partial update"@)
                    },
                }
            }),
    {
        let mut attributes = value::copy_entries(&from.attributes);
        resource::apply_patch(&mut attributes, ops);
        if let Some(name) = find_unstorable(&attributes) {
            let mut message = "Failed to convert value: ".to_owned();
            message.append(name);
            return Err(ProviderError::new(message.as_str()));
        }
        Ok(keep(states, id, attributes, self.partial_update.as_ref(), "mock partial update"))
    }
}

/// The line that the log of operations gets.
pub open spec fn log_line(op: Seq<char>, id: IdView) -> Seq<char> {
    op + " "@ + key_of(id)
}

/// The line that the log of operations gets.
pub fn op_log_line(op: &str, id: &ResourceId) -> (r: String)
    ensures
        r@ == log_line(op@, id@),
{
    let mut s = op.to_owned();
    s.append(" ");
    s.append(resource_key(id).as_str());
    s
}

/// The number of milliseconds that a setting asks for, if it asks for any.
pub open spec fn delay_of(raw: Option<Seq<char>>) -> Option<nat> {
    match raw {
        Some(s) => match text::read_number(s) {
            Some(n) => if 0 < n <= u64::MAX {
                Some(n)
            } else {
                None
            },
            None => None,
        },
        None => None,
    }
}

/// The number of milliseconds that a setting asks for, if it asks for any.
pub fn delay_millis(raw: Option<&str>) -> (r: Option<u64>)
    ensures
        match r {
            Some(n) => delay_of(text::opt_slice(raw)) == Some(n as nat),
            None => delay_of(text::opt_slice(raw)) is None,
        },
{
    match raw {
        Some(s) => match text::parse_u64(s) {
            Some(n) => if n > 0 {
                Some(n)
            } else {
                None
            },
            None => None,
        },
        None => None,
    }
}

/// The pause before a resource is deleted, where a setting names the resource.
pub fn delete_delay_for(id: &ResourceId, target: Option<&str>, raw: Option<&str>) -> (r: Option<u64>)
    ensures
        match r {
            Some(n) => text::opt_slice(target) == Some(key_of(id@)) && delay_of(text::opt_slice(raw)) == Some(n as nat),
            None => text::opt_slice(target) != Some(key_of(id@)) || delay_of(text::opt_slice(raw)) is None,
        },
{
    match target {
        Some(t) => if text::same(t, resource_key(id).as_str()) {
            delay_millis(raw)
        } else {
            None
        },
        None => None,
    }
}

proof fn lemma_stripped_storable(attributes: Seq<(Seq<char>, ValueView)>, names: Seq<Seq<char>>)
    requires
        all_storable(attributes),
    ensures
        all_storable(stripped(attributes, names)),
    decreases names.len(),
{
    if names.len() > 0 {
        lemma_stripped_storable(attributes, names.drop_last());
        let before = stripped(attributes, names.drop_last());
        let after = stripped(attributes, names);
        keyed::lemma_index_from(before, names.last(), 0);
        if let Some(at) = keyed::index_from(before, names.last(), 0) {
            assert forall|i: int| 0 <= i < after.len() implies round_trip::all_resolved((#[trigger] after[i]).1) by {
                if i < at {
                    assert(after[i] == before[i]);
                } else {
                    assert(after[i] == before[i + 1]);
                }
            }
        }
    }
}

/// A read after a create or an update gives the attributes that were left, and
/// other resources stay as they were.
pub proof fn law_read_after_write(
    states: Seq<(Seq<char>, Seq<(Seq<char>, JsonView)>)>,
    id: IdView,
    attributes: Seq<(Seq<char>, ValueView)>,
    missing: Option<Seq<Seq<char>>>,
    other: IdView,
)
    requires
        all_storable(attributes),
    ensures
        read_from(stored(states, id, attributes, missing), id) == resource::present(
            id,
            left(attributes, missing),
            Some("mock-id"@),
        ),
        key_of(other) != key_of(id) ==> read_from(stored(states, id, attributes, missing), other) == read_from(
            states,
            other,
        ),
{
    if let Some(names) = missing {
        lemma_stripped_storable(attributes, names);
    }
    let kept = left(attributes, missing);
    round_trip::lemma_resolved_entries(kept);
    keyed::law_set_then_lookup(states, key_of(id), convert::plain_object(kept), key_of(other));
}

/// A resource that was deleted is not found, and other resources stay as they
/// were.
pub proof fn law_read_after_delete(
    states: Seq<(Seq<char>, Seq<(Seq<char>, JsonView)>)>,
    id: IdView,
    other: IdView,
)
    requires
        keyed::distinct_keys(states),
    ensures
        read_from(keyed::without(states, key_of(id)), id) == resource::absent(id),
        key_of(other) != key_of(id) ==> read_from(keyed::without(states, key_of(id)), other) == read_from(states, other),
{
    keyed::law_without_then_lookup(states, key_of(id), key_of(other));
}

/// No key of the file occurs twice, whatever is created, updated or deleted.
pub proof fn law_keys_stay_distinct(
    states: Seq<(Seq<char>, Seq<(Seq<char>, JsonView)>)>,
    id: IdView,
    attributes: Seq<(Seq<char>, ValueView)>,
    missing: Option<Seq<Seq<char>>>,
)
    requires
        keyed::distinct_keys(states),
    ensures
        keyed::distinct_keys(stored(states, id, attributes, missing)),
        keyed::distinct_keys(keyed::without(states, key_of(id))),
{
    keyed::law_set_then_lookup(states, key_of(id), convert::plain_object(left(attributes, missing)), key_of(id));
    keyed::law_without_then_lookup(states, key_of(id), key_of(id));
}

} // verus!
