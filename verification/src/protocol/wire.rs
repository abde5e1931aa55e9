//! The JSON of the types that cross the boundary.
use vstd::prelude::*;
use vstd::string::*;

use crate::json;
use crate::json::{Json, JsonNumber, JsonView};
use crate::keyed;
use crate::protocol::fields;
use crate::protocol::types::{
    InfoView, OperationConfig, ProviderInfo, ProviderInfoEnvelope, State, WireStateView,
};
use crate::protocol::value;
use crate::resource::{IdView, ResourceId};

verus! {

/// The JSON of an id.
pub open spec fn id_json(id: IdView) -> JsonView {
    JsonView::Object(
        Seq::empty()
            .push(("provider"@, JsonView::String(id.provider)))
            .push(("resource_type"@, JsonView::String(id.resource_type)))
            .push(("name"@, JsonView::String(id.name))),
    )
}

/// The id that a document stands for, if it stands for one.
pub open spec fn id_of(j: JsonView) -> Option<IdView> {
    if fields::is_record(j, 3, 3) {
        match (fields::need_text(j, 0, "provider"@), fields::need_text(j, 1, "resource_type"@), fields::need_text(j, 2, "name"@)) {
            (Some(provider), Some(resource_type), Some(name)) => Some(IdView { provider, resource_type, name }),
            _ => None,
        }
    } else {
        None
    }
}

/// The JSON of an id.
pub fn id_to_json(id: &ResourceId) -> (r: Json)
    ensures
        r@ == id_json(id@),
{
    let mut m: Vec<(String, Json)> = Vec::new();
    fields::put(&mut m, "provider", Json::String(id.provider.clone()));
    fields::put(&mut m, "resource_type", Json::String(id.resource_type.clone()));
    fields::put(&mut m, "name", Json::String(id.name.clone()));
    Json::Object(m)
}

/// The id that a document stands for.
pub fn id_from_json(j: &Json) -> (r: Option<ResourceId>)
    ensures
        match r {
            Some(id) => id_of(j@) == Some(id@),
            None => id_of(j@) is None,
        },
{
    if !fields::has_record(j, 3, 3) {
        return None;
    }
    match (
        fields::get_need_text(j, 0, "provider"),
        fields::get_need_text(j, 1, "resource_type"),
        fields::get_need_text(j, 2, "name"),
    ) {
        (Some(provider), Some(resource_type), Some(name)) => Some(ResourceId { provider, resource_type, name }),
        _ => None,
    }
}

/// The JSON of a state.
pub open spec fn state_json(s: WireStateView) -> JsonView {
    JsonView::Object(
        Seq::empty()
            .push(("id"@, id_json(s.id)))
            .push(("identifier"@, fields::text_or_null(s.identifier)))
            .push(("attributes"@, JsonView::Object(value::object_of(s.attributes))))
            .push(("exists"@, JsonView::Bool(s.exists))),
    )
}

/// The state that a document stands for, if it stands for one.
pub open spec fn state_of(j: JsonView) -> Option<WireStateView> {
    if fields::is_record(j, 4, 4) {
        let id = match fields::at(j, 0, "id"@) {
            Some(m) => id_of(m),
            None => None,
        };
        match (
            id,
            fields::may_text(j, 1, "identifier"@),
            fields::at(j, 2, "attributes"@),
            fields::need_bool(j, 3, "exists"@),
        ) {
            (Some(id), Some(identifier), Some(JsonView::Object(members)), Some(exists)) => Some(
                WireStateView { id, identifier, attributes: value::map_of(members), exists },
            ),
            _ => None,
        }
    } else {
        None
    }
}

impl State {
    /// The JSON of the state.
    pub fn to_json(&self) -> (r: Json)
        ensures
            r@ == state_json(self@),
    {
        let mut m: Vec<(String, Json)> = Vec::new();
        fields::put(&mut m, "id", id_to_json(&self.id));
        fields::put(&mut m, "identifier", fields::make_text_or_null(&self.identifier));
        fields::put(&mut m, "attributes", Json::Object(value::object_of_entries(&self.attributes)));
        fields::put(&mut m, "exists", Json::Bool(self.exists));
        Json::Object(m)
    }

    /// The state that a document stands for.
    pub fn from_json(j: &Json) -> (r: Option<State>)
        ensures
            match r {
                Some(s) => state_of(j@) == Some(s@),
                None => state_of(j@) is None,
            },
    {
        if !fields::has_record(j, 4, 4) {
            return None;
        }
        let id = match fields::get_at(j, 0, "id") {
            Some(m) => match id_from_json(m) {
                Some(id) => id,
                None => return None,
            },
            None => return None,
        };
        let identifier = match fields::get_may_text(j, 1, "identifier") {
            Some(o) => o,
            None => return None,
        };
        let attributes = match fields::get_at(j, 2, "attributes") {
            Some(Json::Object(members)) => value::entries_of_object(members),
            _ => return None,
        };
        let exists = match fields::get_need_bool(j, 3, "exists") {
            Some(b) => b,
            None => return None,
        };
        Some(State { id, identifier, attributes, exists })
    }
}

/// The members of the JSON of what a provider says of itself.
pub open spec fn info_members(i: InfoView) -> Seq<(Seq<char>, JsonView)> {
    Seq::empty()
        .push(("name"@, JsonView::String(i.name)))
        .push(("display_name"@, JsonView::String(i.display_name)))
        .push(("capabilities"@, JsonView::Array(fields::texts_json(i.capabilities))))
        .push(("version"@, JsonView::String(i.version)))
}

/// What a provider says of itself in a document, if it says it.
pub open spec fn info_of(j: JsonView) -> Option<InfoView> {
    if fields::is_record(j, 4, 4) {
        match (
            fields::need_text(j, 0, "name"@),
            fields::need_text(j, 1, "display_name"@),
            fields::texts_or_none(j, 2, "capabilities"@),
            fields::need_text(j, 3, "version"@),
        ) {
            (Some(name), Some(display_name), Some(capabilities), Some(version)) => Some(
                InfoView { name, display_name, capabilities, version },
            ),
            _ => None,
        }
    } else {
        None
    }
}

impl ProviderInfo {
    fn members(&self) -> (m: Vec<(String, Json)>)
        ensures
            json::object_view(m@) == info_members(self@),
    {
        let mut m: Vec<(String, Json)> = Vec::new();
        fields::put(&mut m, "name", Json::String(self.name.clone()));
        fields::put(&mut m, "display_name", Json::String(self.display_name.clone()));
        fields::put(&mut m, "capabilities", Json::Array(fields::make_texts(&self.capabilities)));
        fields::put(&mut m, "version", Json::String(self.version.clone()));
        m
    }

    /// The JSON of what the provider says of itself.
    pub fn to_json(&self) -> (r: Json)
        ensures
            r@ == JsonView::Object(info_members(self@)),
    {
        Json::Object(self.members())
    }

    /// What a provider says of itself in a document.
    pub fn from_json(j: &Json) -> (r: Option<ProviderInfo>)
        ensures
            match r {
                Some(i) => info_of(j@) == Some(i@),
                None => info_of(j@) is None,
            },
    {
        if !fields::has_record(j, 4, 4) {
            return None;
        }
        match (
            fields::get_need_text(j, 0, "name"),
            fields::get_need_text(j, 1, "display_name"),
            fields::get_texts_or_none(j, 2, "capabilities"),
            fields::get_need_text(j, 3, "version"),
        ) {
            (Some(name), Some(display_name), Some(capabilities), Some(version)) => Some(
                ProviderInfo { name, display_name, capabilities, version },
            ),
            _ => None,
        }
    }
}

/// The JSON of an envelope: the members of what it holds, and the version.
pub open spec fn envelope_json(i: InfoView, version: u32) -> JsonView {
    JsonView::Object(info_members(i).push(("protocol_version"@, fields::number_json(version as nat))))
}

/// The version of the protocol that a document names: zero where it names none.
pub open spec fn version_of(j: JsonView) -> Option<nat> {
    match json::view_member(j, "protocol_version"@) {
        None => Some(0),
        Some(_) => fields::need_number(j, 4, "protocol_version"@, u32::MAX as nat),
    }
}

impl ProviderInfoEnvelope {
    /// The JSON of the envelope.
    pub fn to_json(&self) -> (r: Json)
        ensures
            r@ == envelope_json(self.info@, self.protocol_version),
    {
        let mut m = self.info.members();
        fields::put(&mut m, "protocol_version", Json::Number(JsonNumber::PosInt(self.protocol_version as u64)));
        Json::Object(m)
    }

    /// The envelope that a document stands for.
    pub fn from_json(j: &Json) -> (r: Option<ProviderInfoEnvelope>)
        ensures
            match r {
                Some(e) => {
                    &&& j@ is Object
                    &&& info_of(j@) == Some(e.info@)
                    &&& version_of(j@) == Some(e.protocol_version as nat)
                },
                None => !(j@ is Object) || info_of(j@) is None || version_of(j@) is None,
            },
    {
        match j {
            Json::Object(_) => {},
            _ => return None,
        }
        let info = match ProviderInfo::from_json(j) {
            Some(i) => i,
            None => return None,
        };
        let protocol_version: u32 = match j.get("protocol_version") {
            None => 0,
            Some(_) => match fields::get_need_number(j, 4, "protocol_version", u32::MAX as u64) {
                Some(n) => n as u32,
                None => return None,
            },
        };
        Some(ProviderInfoEnvelope { info, protocol_version })
    }
}

/// A number of an operation config, as a natural number.
pub open spec fn nat_of_u32(o: Option<u32>) -> Option<nat> {
    match o {
        Some(n) => Some(n as nat),
        None => None,
    }
}

/// A number of an operation config, as a natural number.
pub open spec fn nat_of_u64(o: Option<u64>) -> Option<nat> {
    match o {
        Some(n) => Some(n as nat),
        None => None,
    }
}

/// The JSON of an operation config.
pub open spec fn operation_json(c: OperationConfig) -> JsonView {
    JsonView::Object(
        fields::with_some(
            fields::with_some(
                fields::with_some(
                    fields::with_some(
                        Seq::empty(),
                        "delete_timeout_secs"@,
                        fields::some_number(nat_of_u64(c.delete_timeout_secs)),
                    ),
                    "delete_max_retries"@,
                    fields::some_number(nat_of_u32(c.delete_max_retries)),
                ),
                "create_timeout_secs"@,
                fields::some_number(nat_of_u64(c.create_timeout_secs)),
            ),
            "create_max_retries"@,
            fields::some_number(nat_of_u32(c.create_max_retries)),
        ),
    )
}

/// A document stands for an operation config.
pub open spec fn is_operation(j: JsonView, c: OperationConfig) -> bool {
    &&& fields::is_record(j, 0, 4)
    &&& fields::may_number(j, 0, "delete_timeout_secs"@, u64::MAX as nat) == Some(nat_of_u64(c.delete_timeout_secs))
    &&& fields::may_number(j, 1, "delete_max_retries"@, u32::MAX as nat) == Some(nat_of_u32(c.delete_max_retries))
    &&& fields::may_number(j, 2, "create_timeout_secs"@, u64::MAX as nat) == Some(nat_of_u64(c.create_timeout_secs))
    &&& fields::may_number(j, 3, "create_max_retries"@, u32::MAX as nat) == Some(nat_of_u32(c.create_max_retries))
}

fn widen(o: Option<u32>) -> (r: Option<u64>)
    ensures
        nat_of_u64(r) == nat_of_u32(o),
{
    match o {
        Some(n) => Some(n as u64),
        None => None,
    }
}

fn read_u32(j: &Json, i: usize, key: &str) -> (r: Option<Option<u32>>)
    ensures
        match r {
            Some(o) => fields::may_number(j@, i as int, key@, u32::MAX as nat) == Some(nat_of_u32(o)),
            None => fields::may_number(j@, i as int, key@, u32::MAX as nat) is None,
        },
{
    match fields::get_may_number(j, i, key, u32::MAX as u64) {
        Some(Some(n)) => Some(Some(n as u32)),
        Some(None) => Some(None),
        None => None,
    }
}

impl OperationConfig {
    /// The JSON of the config.
    pub fn to_json(&self) -> (r: Json)
        ensures
            r@ == operation_json(*self),
    {
        let mut m: Vec<(String, Json)> = Vec::new();
        fields::put_some_number(&mut m, "delete_timeout_secs", self.delete_timeout_secs);
        fields::put_some_number(&mut m, "delete_max_retries", widen(self.delete_max_retries));
        fields::put_some_number(&mut m, "create_timeout_secs", self.create_timeout_secs);
        fields::put_some_number(&mut m, "create_max_retries", widen(self.create_max_retries));
        Json::Object(m)
    }

    /// The config that a document stands for.
    pub fn from_json(j: &Json) -> (r: Option<OperationConfig>)
        ensures
            match r {
                Some(c) => is_operation(j@, c),
                None => forall|c: OperationConfig| !is_operation(j@, c),
            },
    {
        if !fields::has_record(j, 0, 4) {
            return None;
        }
        match (
            fields::get_may_number(j, 0, "delete_timeout_secs", u64::MAX),
            read_u32(j, 1, "delete_max_retries"),
            fields::get_may_number(j, 2, "create_timeout_secs", u64::MAX),
            read_u32(j, 3, "create_max_retries"),
        ) {
            (
                Some(delete_timeout_secs),
                Some(delete_max_retries),
                Some(create_timeout_secs),
                Some(create_max_retries),
            ) => Some(
                OperationConfig { delete_timeout_secs, delete_max_retries, create_timeout_secs, create_max_retries },
            ),
            _ => None,
        }
    }
}

proof fn lemma_id_keys()
    ensures
        "provider"@ != "resource_type"@,
        "provider"@ != "name"@,
        "resource_type"@ != "name"@,
{
    reveal_strlit("provider");
    reveal_strlit("resource_type");
    reveal_strlit("name");
    assert("provider"@.len() == 8 && "resource_type"@.len() == 13 && "name"@.len() == 4);
}

/// An id comes back from its JSON.
pub proof fn law_id_round_trip(id: IdView)
    ensures
        id_of(id_json(id)) == Some(id),
{
    lemma_id_keys();
    reveal_with_fuel(keyed::index_from, 4);
}

proof fn lemma_state_keys()
    ensures
        "id"@ != "identifier"@,
        "id"@ != "attributes"@,
        "id"@ != "exists"@,
        "identifier"@ != "attributes"@,
        "identifier"@ != "exists"@,
        "attributes"@ != "exists"@,
{
    reveal_strlit("id");
    reveal_strlit("identifier");
    reveal_strlit("attributes");
    reveal_strlit("exists");
    assert("id"@.len() == 2 && "identifier"@.len() == 10 && "attributes"@.len() == 10 && "exists"@.len() == 6);
    assert("identifier"@[0] != "attributes"@[0]);
}

/// A state without floats that are not finite comes back from its JSON.
pub proof fn law_state_round_trip(s: WireStateView)
    requires
        forall|i: int| 0 <= i < s.attributes.len() ==> value::all_finite((#[trigger] s.attributes[i]).1),
    ensures
        state_of(state_json(s)) == Some(s),
{
    lemma_state_keys();
    law_id_round_trip(s.id);
    value::law_entries_round_trip(s.attributes);
    reveal_with_fuel(keyed::index_from, 5);
}

proof fn lemma_info_keys()
    ensures
        "name"@ != "display_name"@,
        "name"@ != "capabilities"@,
        "name"@ != "version"@,
        "name"@ != "protocol_version"@,
        "display_name"@ != "capabilities"@,
        "display_name"@ != "version"@,
        "display_name"@ != "protocol_version"@,
        "capabilities"@ != "version"@,
        "capabilities"@ != "protocol_version"@,
        "version"@ != "protocol_version"@,
{
    reveal_strlit("name");
    reveal_strlit("display_name");
    reveal_strlit("capabilities");
    reveal_strlit("version");
    reveal_strlit("protocol_version");
    assert("name"@.len() == 4 && "display_name"@.len() == 12 && "capabilities"@.len() == 12);
    assert("version"@.len() == 7 && "protocol_version"@.len() == 16);
    assert("display_name"@[0] != "capabilities"@[0]);
}

/// What a provider says of itself comes back from its JSON, alone and in an
/// envelope, and an envelope keeps the version of the protocol.
pub proof fn law_info_round_trip(i: InfoView, version: u32)
    ensures
        info_of(JsonView::Object(info_members(i))) == Some(i),
        info_of(envelope_json(i, version)) == Some(i),
        version_of(envelope_json(i, version)) == Some(version as nat),
        version_of(JsonView::Object(info_members(i))) == Some(0nat),
{
    lemma_info_keys();
    fields::lemma_texts_come_back(i.capabilities);
    reveal_with_fuel(keyed::index_from, 6);
}

proof fn lemma_operation_keys()
    ensures
        "delete_timeout_secs"@ != "delete_max_retries"@,
        "delete_timeout_secs"@ != "create_timeout_secs"@,
        "delete_timeout_secs"@ != "create_max_retries"@,
        "delete_max_retries"@ != "create_timeout_secs"@,
        "delete_max_retries"@ != "create_max_retries"@,
        "create_timeout_secs"@ != "create_max_retries"@,
{
    reveal_strlit("delete_timeout_secs");
    reveal_strlit("delete_max_retries");
    reveal_strlit("create_timeout_secs");
    reveal_strlit("create_max_retries");
    assert("delete_timeout_secs"@.len() == 19 && "create_timeout_secs"@.len() == 19);
    assert("delete_max_retries"@.len() == 18 && "create_max_retries"@.len() == 18);
    assert("delete_timeout_secs"@[0] != "create_timeout_secs"@[0]);
    assert("delete_max_retries"@[0] != "create_max_retries"@[0]);
}

/// An operation config comes back from its JSON.
pub proof fn law_operation_round_trip(c: OperationConfig)
    ensures
        is_operation(operation_json(c), c),
{
    lemma_operation_keys();
    reveal_with_fuel(keyed::index_from, 5);
}

} // verus!
