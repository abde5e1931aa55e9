//! Under which names the documents of the protocol have their parts.
use vstd::prelude::*;

use crate::json;
use crate::json::JsonView;
use crate::protocol::exchange;
use crate::protocol::fields;
use crate::protocol::jsonrpc;
use crate::protocol::records;
use crate::protocol::types;
use crate::protocol::value;
use crate::protocol::wire;
use crate::resource;

verus! {

/// A resource id has the members `provider`, `resource_type` and `name`, and
/// nothing else.
pub proof fn law_members_of_id(id: resource::IdView, other: Seq<char>)
    ensures
        json::view_member(wire::id_json(id), "provider"@) == Some(JsonView::String(id.provider)),
        json::view_member(wire::id_json(id), "resource_type"@) == Some(JsonView::String(id.resource_type)),
        json::view_member(wire::id_json(id), "name"@) == Some(JsonView::String(id.name)),
        other != "provider"@ && other != "resource_type"@ && other != "name"@ ==> json::view_member(
            wire::id_json(id),
            other,
        ) is None,
{
    reveal_strlit("provider");
    reveal_strlit("resource_type");
    reveal_strlit("name");
    assert("provider"@.len() != "resource_type"@.len());
    assert("provider"@.len() != "name"@.len());
    assert("resource_type"@.len() != "name"@.len());
    let m: Seq<(Seq<char>, JsonView)> = Seq::empty();
    fields::lemma_found_after_push(m, "provider"@, JsonView::String(id.provider));
    let m = m.push(("provider"@, JsonView::String(id.provider)));
    fields::lemma_found_after_push(m, "resource_type"@, JsonView::String(id.resource_type));
    let m = m.push(("resource_type"@, JsonView::String(id.resource_type)));
    fields::lemma_found_after_push(m, "name"@, JsonView::String(id.name));
    let m = m.push(("name"@, JsonView::String(id.name)));
    assert(wire::id_json(id) == JsonView::Object(m));
}

/// A state has the members `id`, `identifier`, `attributes` and `exists`, and
/// nothing else.
pub proof fn law_members_of_state(s: types::WireStateView, other: Seq<char>)
    ensures
        json::view_member(wire::state_json(s), "id"@) == Some(wire::id_json(s.id)),
        json::view_member(wire::state_json(s), "identifier"@) == Some(fields::text_or_null(s.identifier)),
        json::view_member(wire::state_json(s), "attributes"@) == Some(JsonView::Object(value::object_of(s.attributes))),
        json::view_member(wire::state_json(s), "exists"@) == Some(JsonView::Bool(s.exists)),
        other != "id"@ && other != "identifier"@ && other != "attributes"@ && other != "exists"@ ==> json::view_member(
            wire::state_json(s),
            other,
        ) is None,
{
    reveal_strlit("id");
    reveal_strlit("identifier");
    reveal_strlit("attributes");
    reveal_strlit("exists");
    assert("id"@.len() != "identifier"@.len());
    assert("id"@.len() != "attributes"@.len());
    assert("id"@.len() != "exists"@.len());
    assert("identifier"@[0] != "attributes"@[0]);
    assert("identifier"@.len() != "exists"@.len());
    assert("attributes"@.len() != "exists"@.len());
    let m: Seq<(Seq<char>, JsonView)> = Seq::empty();
    fields::lemma_found_after_push(m, "id"@, wire::id_json(s.id));
    let m = m.push(("id"@, wire::id_json(s.id)));
    fields::lemma_found_after_push(m, "identifier"@, fields::text_or_null(s.identifier));
    let m = m.push(("identifier"@, fields::text_or_null(s.identifier)));
    fields::lemma_found_after_push(m, "attributes"@, JsonView::Object(value::object_of(s.attributes)));
    let m = m.push(("attributes"@, JsonView::Object(value::object_of(s.attributes))));
    fields::lemma_found_after_push(m, "exists"@, JsonView::Bool(s.exists));
    let m = m.push(("exists"@, JsonView::Bool(s.exists)));
    assert(wire::state_json(s) == JsonView::Object(m));
}

/// The settings of operations has the members `delete_timeout_secs`,
/// `delete_max_retries`, `create_timeout_secs` and `create_max_retries`, and
/// nothing else.
pub proof fn law_members_of_operation(c: types::OperationConfig, other: Seq<char>)
    ensures
        json::view_member(wire::operation_json(c), "delete_timeout_secs"@) == fields::some_number(wire::nat_of_u64(c.delete_timeout_secs)),
        json::view_member(wire::operation_json(c), "delete_max_retries"@) == fields::some_number(wire::nat_of_u32(c.delete_max_retries)),
        json::view_member(wire::operation_json(c), "create_timeout_secs"@) == fields::some_number(wire::nat_of_u64(c.create_timeout_secs)),
        json::view_member(wire::operation_json(c), "create_max_retries"@) == fields::some_number(wire::nat_of_u32(c.create_max_retries)),
        other != "delete_timeout_secs"@ && other != "delete_max_retries"@ && other != "create_timeout_secs"@ && other != "create_max_retries"@ ==> json::view_member(
            wire::operation_json(c),
            other,
        ) is None,
{
    reveal_strlit("delete_timeout_secs");
    reveal_strlit("delete_max_retries");
    reveal_strlit("create_timeout_secs");
    reveal_strlit("create_max_retries");
    assert("delete_timeout_secs"@.len() != "delete_max_retries"@.len());
    assert("delete_timeout_secs"@[0] != "create_timeout_secs"@[0]);
    assert("delete_timeout_secs"@.len() != "create_max_retries"@.len());
    assert("delete_max_retries"@.len() != "create_timeout_secs"@.len());
    assert("delete_max_retries"@[0] != "create_max_retries"@[0]);
    assert("create_timeout_secs"@.len() != "create_max_retries"@.len());
    let m: Seq<(Seq<char>, JsonView)> = Seq::empty();
    fields::lemma_found_after(m, "delete_timeout_secs"@, fields::some_number(wire::nat_of_u64(c.delete_timeout_secs)));
    let m = fields::with_some(m, "delete_timeout_secs"@, fields::some_number(wire::nat_of_u64(c.delete_timeout_secs)));
    fields::lemma_found_after(m, "delete_max_retries"@, fields::some_number(wire::nat_of_u32(c.delete_max_retries)));
    let m = fields::with_some(m, "delete_max_retries"@, fields::some_number(wire::nat_of_u32(c.delete_max_retries)));
    fields::lemma_found_after(m, "create_timeout_secs"@, fields::some_number(wire::nat_of_u64(c.create_timeout_secs)));
    let m = fields::with_some(m, "create_timeout_secs"@, fields::some_number(wire::nat_of_u64(c.create_timeout_secs)));
    fields::lemma_found_after(m, "create_max_retries"@, fields::some_number(wire::nat_of_u32(c.create_max_retries)));
    let m = fields::with_some(m, "create_max_retries"@, fields::some_number(wire::nat_of_u32(c.create_max_retries)));
    assert(wire::operation_json(c) == JsonView::Object(m));
}

/// The directives of a resource has the members `force_delete`,
/// `create_before_destroy` and `prevent_destroy`, and nothing else.
pub proof fn law_members_of_directives(v: types::Directives, other: Seq<char>)
    ensures
        json::view_member(records::directives_json(v), "force_delete"@) == Some(JsonView::Bool(v.force_delete)),
        json::view_member(records::directives_json(v), "create_before_destroy"@) == Some(JsonView::Bool(v.create_before_destroy)),
        json::view_member(records::directives_json(v), "prevent_destroy"@) == Some(JsonView::Bool(v.prevent_destroy)),
        other != "force_delete"@ && other != "create_before_destroy"@ && other != "prevent_destroy"@ ==> json::view_member(
            records::directives_json(v),
            other,
        ) is None,
{
    reveal_strlit("force_delete");
    reveal_strlit("create_before_destroy");
    reveal_strlit("prevent_destroy");
    assert("force_delete"@.len() != "create_before_destroy"@.len());
    assert("force_delete"@.len() != "prevent_destroy"@.len());
    assert("create_before_destroy"@.len() != "prevent_destroy"@.len());
    let m: Seq<(Seq<char>, JsonView)> = Seq::empty();
    fields::lemma_found_after_push(m, "force_delete"@, JsonView::Bool(v.force_delete));
    let m = m.push(("force_delete"@, JsonView::Bool(v.force_delete)));
    fields::lemma_found_after_push(m, "create_before_destroy"@, JsonView::Bool(v.create_before_destroy));
    let m = m.push(("create_before_destroy"@, JsonView::Bool(v.create_before_destroy)));
    fields::lemma_found_after_push(m, "prevent_destroy"@, JsonView::Bool(v.prevent_destroy));
    let m = m.push(("prevent_destroy"@, JsonView::Bool(v.prevent_destroy)));
    assert(records::directives_json(v) == JsonView::Object(m));
}

/// A resource has the members `id`, `attributes` and `directives`, and nothing
/// else.
pub proof fn law_members_of_resource(v: types::WireResourceView, other: Seq<char>)
    ensures
        json::view_member(records::resource_json(v), "id"@) == Some(wire::id_json(v.id)),
        json::view_member(records::resource_json(v), "attributes"@) == Some(JsonView::Object(value::object_of(v.attributes))),
        json::view_member(records::resource_json(v), "directives"@) == Some(records::directives_json(v.directives)),
        other != "id"@ && other != "attributes"@ && other != "directives"@ ==> json::view_member(
            records::resource_json(v),
            other,
        ) is None,
{
    reveal_strlit("id");
    reveal_strlit("attributes");
    reveal_strlit("directives");
    assert("id"@.len() != "attributes"@.len());
    assert("id"@.len() != "directives"@.len());
    assert("attributes"@[0] != "directives"@[0]);
    let m: Seq<(Seq<char>, JsonView)> = Seq::empty();
    fields::lemma_found_after_push(m, "id"@, wire::id_json(v.id));
    let m = m.push(("id"@, wire::id_json(v.id)));
    fields::lemma_found_after_push(m, "attributes"@, JsonView::Object(value::object_of(v.attributes)));
    let m = m.push(("attributes"@, JsonView::Object(value::object_of(v.attributes))));
    fields::lemma_found_after_push(m, "directives"@, records::directives_json(v.directives));
    let m = m.push(("directives"@, records::directives_json(v.directives)));
    assert(records::resource_json(v) == JsonView::Object(m));
}

/// An operation of a patch has the members `kind`, `key` and `value`, and nothing
/// else.
pub proof fn law_members_of_op(v: types::WireOpView, other: Seq<char>)
    ensures
        json::view_member(records::op_json(v), "kind"@) == Some(JsonView::String(records::patch_kind_text(v.kind))),
        json::view_member(records::op_json(v), "key"@) == Some(JsonView::String(v.key)),
        json::view_member(records::op_json(v), "value"@) == records::some_value(v.value),
        other != "kind"@ && other != "key"@ && other != "value"@ ==> json::view_member(
            records::op_json(v),
            other,
        ) is None,
{
    reveal_strlit("kind");
    reveal_strlit("key");
    reveal_strlit("value");
    assert("kind"@.len() != "key"@.len());
    assert("kind"@.len() != "value"@.len());
    assert("key"@.len() != "value"@.len());
    let m: Seq<(Seq<char>, JsonView)> = Seq::empty();
    fields::lemma_found_after_push(m, "kind"@, JsonView::String(records::patch_kind_text(v.kind)));
    let m = m.push(("kind"@, JsonView::String(records::patch_kind_text(v.kind))));
    fields::lemma_found_after_push(m, "key"@, JsonView::String(v.key));
    let m = m.push(("key"@, JsonView::String(v.key)));
    fields::lemma_found_after(m, "value"@, records::some_value(v.value));
    let m = fields::with_some(m, "value"@, records::some_value(v.value));
    assert(records::op_json(v) == JsonView::Object(m));
}

/// A patch has one member: `ops`, and nothing else.
pub proof fn law_members_of_patch(v: records::PatchView, other: Seq<char>)
    ensures
        json::view_member(records::patch_json(v), "ops"@) == Some(JsonView::Array(records::ops_json(v.ops))),
        other != "ops"@ ==> json::view_member(
            records::patch_json(v),
            other,
        ) is None,
{
    reveal_strlit("ops");
    let m: Seq<(Seq<char>, JsonView)> = Seq::empty();
    fields::lemma_found_after_push(m, "ops"@, JsonView::Array(records::ops_json(v.ops)));
    let m = m.push(("ops"@, JsonView::Array(records::ops_json(v.ops))));
    assert(records::patch_json(v) == JsonView::Object(m));
}

/// A request to create has one member: `resource`, and nothing else.
pub proof fn law_members_of_create_request(v: records::CreateRequestView, other: Seq<char>)
    ensures
        json::view_member(records::create_request_json(v), "resource"@) == Some(records::resource_json(v.resource)),
        other != "resource"@ ==> json::view_member(
            records::create_request_json(v),
            other,
        ) is None,
{
    reveal_strlit("resource");
    let m: Seq<(Seq<char>, JsonView)> = Seq::empty();
    fields::lemma_found_after_push(m, "resource"@, records::resource_json(v.resource));
    let m = m.push(("resource"@, records::resource_json(v.resource)));
    assert(records::create_request_json(v) == JsonView::Object(m));
}

/// A request to update has the members `from` and `patch`, and nothing else.
pub proof fn law_members_of_update_request(v: records::UpdateRequestView, other: Seq<char>)
    ensures
        json::view_member(records::update_request_json(v), "from"@) == Some(wire::state_json(v.from)),
        json::view_member(records::update_request_json(v), "patch"@) == Some(records::patch_json(v.patch)),
        other != "from"@ && other != "patch"@ ==> json::view_member(
            records::update_request_json(v),
            other,
        ) is None,
{
    reveal_strlit("from");
    reveal_strlit("patch");
    assert("from"@.len() != "patch"@.len());
    let m: Seq<(Seq<char>, JsonView)> = Seq::empty();
    fields::lemma_found_after_push(m, "from"@, wire::state_json(v.from));
    let m = m.push(("from"@, wire::state_json(v.from)));
    fields::lemma_found_after_push(m, "patch"@, records::patch_json(v.patch));
    let m = m.push(("patch"@, records::patch_json(v.patch)));
    assert(records::update_request_json(v) == JsonView::Object(m));
}

/// A request to delete has one member: `directives`, and nothing else.
pub proof fn law_members_of_delete_request(v: records::DeleteRequestView, other: Seq<char>)
    ensures
        json::view_member(records::delete_request_json(v), "directives"@) == Some(records::directives_json(v.directives)),
        other != "directives"@ ==> json::view_member(
            records::delete_request_json(v),
            other,
        ) is None,
{
    reveal_strlit("directives");
    let m: Seq<(Seq<char>, JsonView)> = Seq::empty();
    fields::lemma_found_after_push(m, "directives"@, records::directives_json(v.directives));
    let m = m.push(("directives"@, records::directives_json(v.directives)));
    assert(records::delete_request_json(v) == JsonView::Object(m));
}

/// An identity has the members `provider`, `segments` and `kind`, and nothing else.
pub proof fn law_members_of_identity(v: records::IdentityView, other: Seq<char>)
    ensures
        json::view_member(records::identity_json(v), "provider"@) == Some(JsonView::String(v.provider)),
        json::view_member(records::identity_json(v), "segments"@) == Some(JsonView::Array(fields::texts_json(v.segments))),
        json::view_member(records::identity_json(v), "kind"@) == Some(JsonView::String(v.kind)),
        other != "provider"@ && other != "segments"@ && other != "kind"@ ==> json::view_member(
            records::identity_json(v),
            other,
        ) is None,
{
    reveal_strlit("provider");
    reveal_strlit("segments");
    reveal_strlit("kind");
    assert("provider"@[0] != "segments"@[0]);
    assert("provider"@.len() != "kind"@.len());
    assert("segments"@.len() != "kind"@.len());
    let m: Seq<(Seq<char>, JsonView)> = Seq::empty();
    fields::lemma_found_after_push(m, "provider"@, JsonView::String(v.provider));
    let m = m.push(("provider"@, JsonView::String(v.provider)));
    fields::lemma_found_after_push(m, "segments"@, JsonView::Array(fields::texts_json(v.segments)));
    let m = m.push(("segments"@, JsonView::Array(fields::texts_json(v.segments))));
    fields::lemma_found_after_push(m, "kind"@, JsonView::String(v.kind));
    let m = m.push(("kind"@, JsonView::String(v.kind)));
    assert(records::identity_json(v) == JsonView::Object(m));
}

/// A completion has the members `value` and `description`, and nothing else.
pub proof fn law_members_of_completion(v: records::CompletionView, other: Seq<char>)
    ensures
        json::view_member(records::completion_json(v), "value"@) == Some(JsonView::String(v.value)),
        json::view_member(records::completion_json(v), "description"@) == Some(JsonView::String(v.description)),
        other != "value"@ && other != "description"@ ==> json::view_member(
            records::completion_json(v),
            other,
        ) is None,
{
    reveal_strlit("value");
    reveal_strlit("description");
    assert("value"@.len() != "description"@.len());
    let m: Seq<(Seq<char>, JsonView)> = Seq::empty();
    fields::lemma_found_after_push(m, "value"@, JsonView::String(v.value));
    let m = m.push(("value"@, JsonView::String(v.value)));
    fields::lemma_found_after_push(m, "description"@, JsonView::String(v.description));
    let m = m.push(("description"@, JsonView::String(v.description)));
    assert(records::completion_json(v) == JsonView::Object(m));
}

/// An error of the provider has the members `kind`, `message`, `resource_id`,
/// `cause`, `provider_name`, `operation`, `status`, `code` and `request_id`, and
/// nothing else.
pub proof fn law_members_of_provider_error(v: types::ErrorView, other: Seq<char>)
    ensures
        json::view_member(records::error_json(v), "kind"@) == Some(JsonView::String(records::error_kind_text(v.kind))),
        json::view_member(records::error_json(v), "message"@) == Some(JsonView::String(v.message)),
        json::view_member(records::error_json(v), "resource_id"@) == records::some_id(v.resource_id),
        json::view_member(records::error_json(v), "cause"@) == fields::some_text(v.cause),
        json::view_member(records::error_json(v), "provider_name"@) == fields::some_text(v.provider_name),
        json::view_member(records::error_json(v), "operation"@) == fields::some_text(v.operation),
        json::view_member(records::error_json(v), "status"@) == fields::some_number(records::nat_of_u16(v.status)),
        json::view_member(records::error_json(v), "code"@) == fields::some_text(v.code),
        json::view_member(records::error_json(v), "request_id"@) == fields::some_text(v.request_id),
        other != "kind"@ && other != "message"@ && other != "resource_id"@ && other != "cause"@ && other != "provider_name"@ && other != "operation"@ && other != "status"@ && other != "code"@ && other != "request_id"@ ==> json::view_member(
            records::error_json(v),
            other,
        ) is None,
{
    reveal_strlit("kind");
    reveal_strlit("message");
    reveal_strlit("resource_id");
    reveal_strlit("cause");
    reveal_strlit("provider_name");
    reveal_strlit("operation");
    reveal_strlit("status");
    reveal_strlit("code");
    reveal_strlit("request_id");
    assert("kind"@.len() != "message"@.len());
    assert("kind"@.len() != "resource_id"@.len());
    assert("kind"@.len() != "cause"@.len());
    assert("kind"@.len() != "provider_name"@.len());
    assert("kind"@.len() != "operation"@.len());
    assert("kind"@.len() != "status"@.len());
    assert("kind"@[0] != "code"@[0]);
    assert("kind"@.len() != "request_id"@.len());
    assert("message"@.len() != "resource_id"@.len());
    assert("message"@.len() != "cause"@.len());
    assert("message"@.len() != "provider_name"@.len());
    assert("message"@.len() != "operation"@.len());
    assert("message"@.len() != "status"@.len());
    assert("message"@.len() != "code"@.len());
    assert("message"@.len() != "request_id"@.len());
    assert("resource_id"@.len() != "cause"@.len());
    assert("resource_id"@.len() != "provider_name"@.len());
    assert("resource_id"@.len() != "operation"@.len());
    assert("resource_id"@.len() != "status"@.len());
    assert("resource_id"@.len() != "code"@.len());
    assert("resource_id"@.len() != "request_id"@.len());
    assert("cause"@.len() != "provider_name"@.len());
    assert("cause"@.len() != "operation"@.len());
    assert("cause"@.len() != "status"@.len());
    assert("cause"@.len() != "code"@.len());
    assert("cause"@.len() != "request_id"@.len());
    assert("provider_name"@.len() != "operation"@.len());
    assert("provider_name"@.len() != "status"@.len());
    assert("provider_name"@.len() != "code"@.len());
    assert("provider_name"@.len() != "request_id"@.len());
    assert("operation"@.len() != "status"@.len());
    assert("operation"@.len() != "code"@.len());
    assert("operation"@.len() != "request_id"@.len());
    assert("status"@.len() != "code"@.len());
    assert("status"@.len() != "request_id"@.len());
    assert("code"@.len() != "request_id"@.len());
    let m: Seq<(Seq<char>, JsonView)> = Seq::empty();
    fields::lemma_found_after_push(m, "kind"@, JsonView::String(records::error_kind_text(v.kind)));
    let m = m.push(("kind"@, JsonView::String(records::error_kind_text(v.kind))));
    fields::lemma_found_after_push(m, "message"@, JsonView::String(v.message));
    let m = m.push(("message"@, JsonView::String(v.message)));
    fields::lemma_found_after(m, "resource_id"@, records::some_id(v.resource_id));
    let m = fields::with_some(m, "resource_id"@, records::some_id(v.resource_id));
    fields::lemma_found_after(m, "cause"@, fields::some_text(v.cause));
    let m = fields::with_some(m, "cause"@, fields::some_text(v.cause));
    fields::lemma_found_after(m, "provider_name"@, fields::some_text(v.provider_name));
    let m = fields::with_some(m, "provider_name"@, fields::some_text(v.provider_name));
    fields::lemma_found_after(m, "operation"@, fields::some_text(v.operation));
    let m = fields::with_some(m, "operation"@, fields::some_text(v.operation));
    fields::lemma_found_after(m, "status"@, fields::some_number(records::nat_of_u16(v.status)));
    let m = fields::with_some(m, "status"@, fields::some_number(records::nat_of_u16(v.status)));
    fields::lemma_found_after(m, "code"@, fields::some_text(v.code));
    let m = fields::with_some(m, "code"@, fields::some_text(v.code));
    fields::lemma_found_after(m, "request_id"@, fields::some_text(v.request_id));
    let m = fields::with_some(m, "request_id"@, fields::some_text(v.request_id));
    assert(records::error_json(v) == JsonView::Object(m));
}

/// A request has the members `jsonrpc`, `id`, `method` and `params`, and nothing
/// else.
pub proof fn law_members_of_call_request(r: jsonrpc::RequestView, other: Seq<char>)
    ensures
        json::view_member(jsonrpc::request_json(r), "jsonrpc"@) == Some(JsonView::String(r.jsonrpc)),
        json::view_member(jsonrpc::request_json(r), "id"@) == Some(fields::number_json(r.id as nat)),
        json::view_member(jsonrpc::request_json(r), "method"@) == Some(JsonView::String(r.method)),
        json::view_member(jsonrpc::request_json(r), "params"@) == r.params,
        other != "jsonrpc"@ && other != "id"@ && other != "method"@ && other != "params"@ ==> json::view_member(
            jsonrpc::request_json(r),
            other,
        ) is None,
{
    reveal_strlit("jsonrpc");
    reveal_strlit("id");
    reveal_strlit("method");
    reveal_strlit("params");
    assert("jsonrpc"@.len() != "id"@.len());
    assert("jsonrpc"@.len() != "method"@.len());
    assert("jsonrpc"@.len() != "params"@.len());
    assert("id"@.len() != "method"@.len());
    assert("id"@.len() != "params"@.len());
    assert("method"@[0] != "params"@[0]);
    let m: Seq<(Seq<char>, JsonView)> = Seq::empty();
    fields::lemma_found_after_push(m, "jsonrpc"@, JsonView::String(r.jsonrpc));
    let m = m.push(("jsonrpc"@, JsonView::String(r.jsonrpc)));
    fields::lemma_found_after_push(m, "id"@, fields::number_json(r.id as nat));
    let m = m.push(("id"@, fields::number_json(r.id as nat)));
    fields::lemma_found_after_push(m, "method"@, JsonView::String(r.method));
    let m = m.push(("method"@, JsonView::String(r.method)));
    fields::lemma_found_after(m, "params"@, r.params);
    let m = fields::with_some(m, "params"@, r.params);
    assert(jsonrpc::request_json(r) == JsonView::Object(m));
}

/// An error of a call has the members `code`, `message` and `data`, and nothing
/// else.
pub proof fn law_members_of_call_error(e: jsonrpc::RpcErrorView, other: Seq<char>)
    ensures
        json::view_member(jsonrpc::error_json(e), "code"@) == Some(JsonView::Number(json::number_of_i64(e.code))),
        json::view_member(jsonrpc::error_json(e), "message"@) == Some(JsonView::String(e.message)),
        json::view_member(jsonrpc::error_json(e), "data"@) == e.data,
        other != "code"@ && other != "message"@ && other != "data"@ ==> json::view_member(
            jsonrpc::error_json(e),
            other,
        ) is None,
{
    reveal_strlit("code");
    reveal_strlit("message");
    reveal_strlit("data");
    assert("code"@.len() != "message"@.len());
    assert("code"@[0] != "data"@[0]);
    assert("message"@.len() != "data"@.len());
    let m: Seq<(Seq<char>, JsonView)> = Seq::empty();
    fields::lemma_found_after_push(m, "code"@, JsonView::Number(json::number_of_i64(e.code)));
    let m = m.push(("code"@, JsonView::Number(json::number_of_i64(e.code))));
    fields::lemma_found_after_push(m, "message"@, JsonView::String(e.message));
    let m = m.push(("message"@, JsonView::String(e.message)));
    fields::lemma_found_after(m, "data"@, e.data);
    let m = fields::with_some(m, "data"@, e.data);
    assert(jsonrpc::error_json(e) == JsonView::Object(m));
}

/// A response has the members `jsonrpc`, `id`, `result` and `error`, and nothing
/// else.
pub proof fn law_members_of_call_response(r: jsonrpc::ResponseView, other: Seq<char>)
    ensures
        json::view_member(jsonrpc::response_json(r), "jsonrpc"@) == Some(JsonView::String(r.jsonrpc)),
        json::view_member(jsonrpc::response_json(r), "id"@) == Some(fields::number_json(r.id as nat)),
        json::view_member(jsonrpc::response_json(r), "result"@) == r.result,
        json::view_member(jsonrpc::response_json(r), "error"@) == jsonrpc::opt_error_json(r.error),
        other != "jsonrpc"@ && other != "id"@ && other != "result"@ && other != "error"@ ==> json::view_member(
            jsonrpc::response_json(r),
            other,
        ) is None,
{
    reveal_strlit("jsonrpc");
    reveal_strlit("id");
    reveal_strlit("result");
    reveal_strlit("error");
    assert("jsonrpc"@.len() != "id"@.len());
    assert("jsonrpc"@.len() != "result"@.len());
    assert("jsonrpc"@.len() != "error"@.len());
    assert("id"@.len() != "result"@.len());
    assert("id"@.len() != "error"@.len());
    assert("result"@.len() != "error"@.len());
    let m: Seq<(Seq<char>, JsonView)> = Seq::empty();
    fields::lemma_found_after_push(m, "jsonrpc"@, JsonView::String(r.jsonrpc));
    let m = m.push(("jsonrpc"@, JsonView::String(r.jsonrpc)));
    fields::lemma_found_after_push(m, "id"@, fields::number_json(r.id as nat));
    let m = m.push(("id"@, fields::number_json(r.id as nat)));
    fields::lemma_found_after(m, "result"@, r.result);
    let m = fields::with_some(m, "result"@, r.result);
    fields::lemma_found_after(m, "error"@, jsonrpc::opt_error_json(r.error));
    let m = fields::with_some(m, "error"@, jsonrpc::opt_error_json(r.error));
    assert(jsonrpc::response_json(r) == JsonView::Object(m));
}

/// A notification has the members `jsonrpc`, `method` and `params`, and nothing
/// else.
pub proof fn law_members_of_call_notification(n: jsonrpc::NotificationView, other: Seq<char>)
    ensures
        json::view_member(jsonrpc::notification_json(n), "jsonrpc"@) == Some(JsonView::String(n.jsonrpc)),
        json::view_member(jsonrpc::notification_json(n), "method"@) == Some(JsonView::String(n.method)),
        json::view_member(jsonrpc::notification_json(n), "params"@) == n.params,
        other != "jsonrpc"@ && other != "method"@ && other != "params"@ ==> json::view_member(
            jsonrpc::notification_json(n),
            other,
        ) is None,
{
    reveal_strlit("jsonrpc");
    reveal_strlit("method");
    reveal_strlit("params");
    assert("jsonrpc"@.len() != "method"@.len());
    assert("jsonrpc"@.len() != "params"@.len());
    assert("method"@[0] != "params"@[0]);
    let m: Seq<(Seq<char>, JsonView)> = Seq::empty();
    fields::lemma_found_after_push(m, "jsonrpc"@, JsonView::String(n.jsonrpc));
    let m = m.push(("jsonrpc"@, JsonView::String(n.jsonrpc)));
    fields::lemma_found_after_push(m, "method"@, JsonView::String(n.method));
    let m = m.push(("method"@, JsonView::String(n.method)));
    fields::lemma_found_after(m, "params"@, n.params);
    let m = fields::with_some(m, "params"@, n.params);
    assert(jsonrpc::notification_json(n) == JsonView::Object(m));
}

/// The lifecycle of a resource has the members `force_delete` and
/// `create_before_destroy`, and nothing else.
pub proof fn law_members_of_lifecycle(v: resource::LifecycleConfig, other: Seq<char>)
    ensures
        json::view_member(exchange::lifecycle_json(v), "force_delete"@) == Some(JsonView::Bool(v.force_delete)),
        json::view_member(exchange::lifecycle_json(v), "create_before_destroy"@) == Some(JsonView::Bool(v.create_before_destroy)),
        other != "force_delete"@ && other != "create_before_destroy"@ ==> json::view_member(
            exchange::lifecycle_json(v),
            other,
        ) is None,
{
    reveal_strlit("force_delete");
    reveal_strlit("create_before_destroy");
    assert("force_delete"@.len() != "create_before_destroy"@.len());
    let m: Seq<(Seq<char>, JsonView)> = Seq::empty();
    fields::lemma_found_after_push(m, "force_delete"@, JsonView::Bool(v.force_delete));
    let m = m.push(("force_delete"@, JsonView::Bool(v.force_delete)));
    fields::lemma_found_after_push(m, "create_before_destroy"@, JsonView::Bool(v.create_before_destroy));
    let m = m.push(("create_before_destroy"@, JsonView::Bool(v.create_before_destroy)));
    assert(exchange::lifecycle_json(v) == JsonView::Object(m));
}

/// What the provider says of itself has one member: `info`, and nothing else.
pub proof fn law_members_of_provider_info_result(v: exchange::ProviderInfoResultView, other: Seq<char>)
    ensures
        json::view_member(exchange::provider_info_result_json(v), "info"@) == Some(exchange::info_json(v.info)),
        other != "info"@ ==> json::view_member(
            exchange::provider_info_result_json(v),
            other,
        ) is None,
{
    reveal_strlit("info");
    let m: Seq<(Seq<char>, JsonView)> = Seq::empty();
    fields::lemma_found_after_push(m, "info"@, exchange::info_json(v.info));
    let m = m.push(("info"@, exchange::info_json(v.info)));
    assert(exchange::provider_info_result_json(v) == JsonView::Object(m));
}

/// A configuration to check has one member: `attributes`, and nothing else.
pub proof fn law_members_of_validate_config_params(v: exchange::ValidateConfigParamsView, other: Seq<char>)
    ensures
        json::view_member(exchange::validate_config_params_json(v), "attributes"@) == Some(JsonView::Object(value::object_of(v.attributes))),
        other != "attributes"@ ==> json::view_member(
            exchange::validate_config_params_json(v),
            other,
        ) is None,
{
    reveal_strlit("attributes");
    let m: Seq<(Seq<char>, JsonView)> = Seq::empty();
    fields::lemma_found_after_push(m, "attributes"@, JsonView::Object(value::object_of(v.attributes)));
    let m = m.push(("attributes"@, JsonView::Object(value::object_of(v.attributes))));
    assert(exchange::validate_config_params_json(v) == JsonView::Object(m));
}

/// What a check says has one member: `error`, and nothing else.
pub proof fn law_members_of_validate_config_result(v: exchange::ValidateConfigResultView, other: Seq<char>)
    ensures
        json::view_member(exchange::validate_config_result_json(v), "error"@) == Some(fields::text_or_null(v.error)),
        other != "error"@ ==> json::view_member(
            exchange::validate_config_result_json(v),
            other,
        ) is None,
{
    reveal_strlit("error");
    let m: Seq<(Seq<char>, JsonView)> = Seq::empty();
    fields::lemma_found_after_push(m, "error"@, fields::text_or_null(v.error));
    let m = m.push(("error"@, fields::text_or_null(v.error)));
    assert(exchange::validate_config_result_json(v) == JsonView::Object(m));
}

/// The schemas of the provider has one member: `schemas`, and nothing else.
pub proof fn law_members_of_schemas_result(v: exchange::SchemasResultView, other: Seq<char>)
    ensures
        json::view_member(exchange::schemas_result_json(v), "schemas"@) == Some(JsonView::Array(exchange::schemas_json(v.schemas))),
        other != "schemas"@ ==> json::view_member(
            exchange::schemas_result_json(v),
            other,
        ) is None,
{
    reveal_strlit("schemas");
    let m: Seq<(Seq<char>, JsonView)> = Seq::empty();
    fields::lemma_found_after_push(m, "schemas"@, JsonView::Array(exchange::schemas_json(v.schemas)));
    let m = m.push(("schemas"@, JsonView::Array(exchange::schemas_json(v.schemas))));
    assert(exchange::schemas_result_json(v) == JsonView::Object(m));
}

/// A configuration to start with has one member: `attributes`, and nothing else.
pub proof fn law_members_of_initialize_params(v: exchange::InitializeParamsView, other: Seq<char>)
    ensures
        json::view_member(exchange::initialize_params_json(v), "attributes"@) == Some(JsonView::Object(value::object_of(v.attributes))),
        other != "attributes"@ ==> json::view_member(
            exchange::initialize_params_json(v),
            other,
        ) is None,
{
    reveal_strlit("attributes");
    let m: Seq<(Seq<char>, JsonView)> = Seq::empty();
    fields::lemma_found_after_push(m, "attributes"@, JsonView::Object(value::object_of(v.attributes)));
    let m = m.push(("attributes"@, JsonView::Object(value::object_of(v.attributes))));
    assert(exchange::initialize_params_json(v) == JsonView::Object(m));
}

/// What starting says has one member: `ok`, and nothing else.
pub proof fn law_members_of_initialize_result(v: exchange::InitializeResultView, other: Seq<char>)
    ensures
        json::view_member(exchange::initialize_result_json(v), "ok"@) == Some(JsonView::Bool(v.ok)),
        other != "ok"@ ==> json::view_member(
            exchange::initialize_result_json(v),
            other,
        ) is None,
{
    reveal_strlit("ok");
    let m: Seq<(Seq<char>, JsonView)> = Seq::empty();
    fields::lemma_found_after_push(m, "ok"@, JsonView::Bool(v.ok));
    let m = m.push(("ok"@, JsonView::Bool(v.ok)));
    assert(exchange::initialize_result_json(v) == JsonView::Object(m));
}

/// What is to be read has the members `id` and `identifier`, and nothing else.
pub proof fn law_members_of_read_params(v: exchange::ReadParamsView, other: Seq<char>)
    ensures
        json::view_member(exchange::read_params_json(v), "id"@) == Some(wire::id_json(v.id)),
        json::view_member(exchange::read_params_json(v), "identifier"@) == Some(fields::text_or_null(v.identifier)),
        other != "id"@ && other != "identifier"@ ==> json::view_member(
            exchange::read_params_json(v),
            other,
        ) is None,
{
    reveal_strlit("id");
    reveal_strlit("identifier");
    assert("id"@.len() != "identifier"@.len());
    let m: Seq<(Seq<char>, JsonView)> = Seq::empty();
    fields::lemma_found_after_push(m, "id"@, wire::id_json(v.id));
    let m = m.push(("id"@, wire::id_json(v.id)));
    fields::lemma_found_after_push(m, "identifier"@, fields::text_or_null(v.identifier));
    let m = m.push(("identifier"@, fields::text_or_null(v.identifier)));
    assert(exchange::read_params_json(v) == JsonView::Object(m));
}

/// What was read has one member: `state`, and nothing else.
pub proof fn law_members_of_read_result(v: exchange::ReadResultView, other: Seq<char>)
    ensures
        json::view_member(exchange::read_result_json(v), "state"@) == Some(wire::state_json(v.state)),
        other != "state"@ ==> json::view_member(
            exchange::read_result_json(v),
            other,
        ) is None,
{
    reveal_strlit("state");
    let m: Seq<(Seq<char>, JsonView)> = Seq::empty();
    fields::lemma_found_after_push(m, "state"@, wire::state_json(v.state));
    let m = m.push(("state"@, wire::state_json(v.state)));
    assert(exchange::read_result_json(v) == JsonView::Object(m));
}

/// What is to be created has one member: `resource`, and nothing else.
pub proof fn law_members_of_create_params(v: exchange::CreateParamsView, other: Seq<char>)
    ensures
        json::view_member(exchange::create_params_json(v), "resource"@) == Some(records::resource_json(v.resource)),
        other != "resource"@ ==> json::view_member(
            exchange::create_params_json(v),
            other,
        ) is None,
{
    reveal_strlit("resource");
    let m: Seq<(Seq<char>, JsonView)> = Seq::empty();
    fields::lemma_found_after_push(m, "resource"@, records::resource_json(v.resource));
    let m = m.push(("resource"@, records::resource_json(v.resource)));
    assert(exchange::create_params_json(v) == JsonView::Object(m));
}

/// What was created has one member: `state`, and nothing else.
pub proof fn law_members_of_create_result(v: exchange::CreateResultView, other: Seq<char>)
    ensures
        json::view_member(exchange::create_result_json(v), "state"@) == Some(wire::state_json(v.state)),
        other != "state"@ ==> json::view_member(
            exchange::create_result_json(v),
            other,
        ) is None,
{
    reveal_strlit("state");
    let m: Seq<(Seq<char>, JsonView)> = Seq::empty();
    fields::lemma_found_after_push(m, "state"@, wire::state_json(v.state));
    let m = m.push(("state"@, wire::state_json(v.state)));
    assert(exchange::create_result_json(v) == JsonView::Object(m));
}

/// What is to be updated has the members `id`, `identifier`, `from` and `to`, and
/// nothing else.
pub proof fn law_members_of_update_params(v: exchange::UpdateParamsView, other: Seq<char>)
    ensures
        json::view_member(exchange::update_params_json(v), "id"@) == Some(wire::id_json(v.id)),
        json::view_member(exchange::update_params_json(v), "identifier"@) == Some(JsonView::String(v.identifier)),
        json::view_member(exchange::update_params_json(v), "from"@) == Some(wire::state_json(v.from)),
        json::view_member(exchange::update_params_json(v), "to"@) == Some(records::resource_json(v.to)),
        other != "id"@ && other != "identifier"@ && other != "from"@ && other != "to"@ ==> json::view_member(
            exchange::update_params_json(v),
            other,
        ) is None,
{
    reveal_strlit("id");
    reveal_strlit("identifier");
    reveal_strlit("from");
    reveal_strlit("to");
    assert("id"@.len() != "identifier"@.len());
    assert("id"@.len() != "from"@.len());
    assert("id"@[0] != "to"@[0]);
    assert("identifier"@.len() != "from"@.len());
    assert("identifier"@.len() != "to"@.len());
    assert("from"@.len() != "to"@.len());
    let m: Seq<(Seq<char>, JsonView)> = Seq::empty();
    fields::lemma_found_after_push(m, "id"@, wire::id_json(v.id));
    let m = m.push(("id"@, wire::id_json(v.id)));
    fields::lemma_found_after_push(m, "identifier"@, JsonView::String(v.identifier));
    let m = m.push(("identifier"@, JsonView::String(v.identifier)));
    fields::lemma_found_after_push(m, "from"@, wire::state_json(v.from));
    let m = m.push(("from"@, wire::state_json(v.from)));
    fields::lemma_found_after_push(m, "to"@, records::resource_json(v.to));
    let m = m.push(("to"@, records::resource_json(v.to)));
    assert(exchange::update_params_json(v) == JsonView::Object(m));
}

/// What was updated has one member: `state`, and nothing else.
pub proof fn law_members_of_update_result(v: exchange::UpdateResultView, other: Seq<char>)
    ensures
        json::view_member(exchange::update_result_json(v), "state"@) == Some(wire::state_json(v.state)),
        other != "state"@ ==> json::view_member(
            exchange::update_result_json(v),
            other,
        ) is None,
{
    reveal_strlit("state");
    let m: Seq<(Seq<char>, JsonView)> = Seq::empty();
    fields::lemma_found_after_push(m, "state"@, wire::state_json(v.state));
    let m = m.push(("state"@, wire::state_json(v.state)));
    assert(exchange::update_result_json(v) == JsonView::Object(m));
}

/// What is to be deleted has the members `id`, `identifier` and `lifecycle`, and
/// nothing else.
pub proof fn law_members_of_delete_params(v: exchange::DeleteParamsView, other: Seq<char>)
    ensures
        json::view_member(exchange::delete_params_json(v), "id"@) == Some(wire::id_json(v.id)),
        json::view_member(exchange::delete_params_json(v), "identifier"@) == Some(JsonView::String(v.identifier)),
        json::view_member(exchange::delete_params_json(v), "lifecycle"@) == Some(exchange::lifecycle_json(v.lifecycle)),
        other != "id"@ && other != "identifier"@ && other != "lifecycle"@ ==> json::view_member(
            exchange::delete_params_json(v),
            other,
        ) is None,
{
    reveal_strlit("id");
    reveal_strlit("identifier");
    reveal_strlit("lifecycle");
    assert("id"@.len() != "identifier"@.len());
    assert("id"@.len() != "lifecycle"@.len());
    assert("identifier"@.len() != "lifecycle"@.len());
    let m: Seq<(Seq<char>, JsonView)> = Seq::empty();
    fields::lemma_found_after_push(m, "id"@, wire::id_json(v.id));
    let m = m.push(("id"@, wire::id_json(v.id)));
    fields::lemma_found_after_push(m, "identifier"@, JsonView::String(v.identifier));
    let m = m.push(("identifier"@, JsonView::String(v.identifier)));
    fields::lemma_found_after_push(m, "lifecycle"@, exchange::lifecycle_json(v.lifecycle));
    let m = m.push(("lifecycle"@, exchange::lifecycle_json(v.lifecycle)));
    assert(exchange::delete_params_json(v) == JsonView::Object(m));
}

/// What deleting says has one member: `ok`, and nothing else.
pub proof fn law_members_of_delete_result(v: exchange::DeleteResultView, other: Seq<char>)
    ensures
        json::view_member(exchange::delete_result_json(v), "ok"@) == Some(JsonView::Bool(v.ok)),
        other != "ok"@ ==> json::view_member(
            exchange::delete_result_json(v),
            other,
        ) is None,
{
    reveal_strlit("ok");
    let m: Seq<(Seq<char>, JsonView)> = Seq::empty();
    fields::lemma_found_after_push(m, "ok"@, JsonView::Bool(v.ok));
    let m = m.push(("ok"@, JsonView::Bool(v.ok)));
    assert(exchange::delete_result_json(v) == JsonView::Object(m));
}

/// The resources to normalize has one member: `resources`, and nothing else.
pub proof fn law_members_of_normalize_desired_params(v: exchange::NormalizeDesiredParamsView, other: Seq<char>)
    ensures
        json::view_member(exchange::normalize_desired_params_json(v), "resources"@) == Some(JsonView::Array(records::resources_json(v.resources))),
        other != "resources"@ ==> json::view_member(
            exchange::normalize_desired_params_json(v),
            other,
        ) is None,
{
    reveal_strlit("resources");
    let m: Seq<(Seq<char>, JsonView)> = Seq::empty();
    fields::lemma_found_after_push(m, "resources"@, JsonView::Array(records::resources_json(v.resources)));
    let m = m.push(("resources"@, JsonView::Array(records::resources_json(v.resources))));
    assert(exchange::normalize_desired_params_json(v) == JsonView::Object(m));
}

/// The normalized resources has one member: `resources`, and nothing else.
pub proof fn law_members_of_normalize_desired_result(v: exchange::NormalizeDesiredResultView, other: Seq<char>)
    ensures
        json::view_member(exchange::normalize_desired_result_json(v), "resources"@) == Some(JsonView::Array(records::resources_json(v.resources))),
        other != "resources"@ ==> json::view_member(
            exchange::normalize_desired_result_json(v),
            other,
        ) is None,
{
    reveal_strlit("resources");
    let m: Seq<(Seq<char>, JsonView)> = Seq::empty();
    fields::lemma_found_after_push(m, "resources"@, JsonView::Array(records::resources_json(v.resources)));
    let m = m.push(("resources"@, JsonView::Array(records::resources_json(v.resources))));
    assert(exchange::normalize_desired_result_json(v) == JsonView::Object(m));
}

/// The states to normalize has one member: `states`, and nothing else.
pub proof fn law_members_of_normalize_state_params(v: exchange::NormalizeStateParamsView, other: Seq<char>)
    ensures
        json::view_member(exchange::normalize_state_params_json(v), "states"@) == Some(JsonView::Object(exchange::states_json(v.states))),
        other != "states"@ ==> json::view_member(
            exchange::normalize_state_params_json(v),
            other,
        ) is None,
{
    reveal_strlit("states");
    let m: Seq<(Seq<char>, JsonView)> = Seq::empty();
    fields::lemma_found_after_push(m, "states"@, JsonView::Object(exchange::states_json(v.states)));
    let m = m.push(("states"@, JsonView::Object(exchange::states_json(v.states))));
    assert(exchange::normalize_state_params_json(v) == JsonView::Object(m));
}

/// The normalized states has one member: `states`, and nothing else.
pub proof fn law_members_of_normalize_state_result(v: exchange::NormalizeStateResultView, other: Seq<char>)
    ensures
        json::view_member(exchange::normalize_state_result_json(v), "states"@) == Some(JsonView::Object(exchange::states_json(v.states))),
        other != "states"@ ==> json::view_member(
            exchange::normalize_state_result_json(v),
            other,
        ) is None,
{
    reveal_strlit("states");
    let m: Seq<(Seq<char>, JsonView)> = Seq::empty();
    fields::lemma_found_after_push(m, "states"@, JsonView::Object(exchange::states_json(v.states)));
    let m = m.push(("states"@, JsonView::Object(exchange::states_json(v.states))));
    assert(exchange::normalize_state_result_json(v) == JsonView::Object(m));
}

/// The states to complete has the members `states` and `saved_attrs`, and nothing
/// else.
pub proof fn law_members_of_hydrate_params(v: exchange::HydrateReadStateParamsView, other: Seq<char>)
    ensures
        json::view_member(exchange::hydrate_params_json(v), "states"@) == Some(JsonView::Object(exchange::states_json(v.states))),
        json::view_member(exchange::hydrate_params_json(v), "saved_attrs"@) == Some(JsonView::Object(exchange::saved_json(v.saved_attrs))),
        other != "states"@ && other != "saved_attrs"@ ==> json::view_member(
            exchange::hydrate_params_json(v),
            other,
        ) is None,
{
    reveal_strlit("states");
    reveal_strlit("saved_attrs");
    assert("states"@.len() != "saved_attrs"@.len());
    let m: Seq<(Seq<char>, JsonView)> = Seq::empty();
    fields::lemma_found_after_push(m, "states"@, JsonView::Object(exchange::states_json(v.states)));
    let m = m.push(("states"@, JsonView::Object(exchange::states_json(v.states))));
    fields::lemma_found_after_push(m, "saved_attrs"@, JsonView::Object(exchange::saved_json(v.saved_attrs)));
    let m = m.push(("saved_attrs"@, JsonView::Object(exchange::saved_json(v.saved_attrs))));
    assert(exchange::hydrate_params_json(v) == JsonView::Object(m));
}

/// The completed states has one member: `states`, and nothing else.
pub proof fn law_members_of_hydrate_result(v: exchange::HydrateReadStateResultView, other: Seq<char>)
    ensures
        json::view_member(exchange::hydrate_result_json(v), "states"@) == Some(JsonView::Object(exchange::states_json(v.states))),
        other != "states"@ ==> json::view_member(
            exchange::hydrate_result_json(v),
            other,
        ) is None,
{
    reveal_strlit("states");
    let m: Seq<(Seq<char>, JsonView)> = Seq::empty();
    fields::lemma_found_after_push(m, "states"@, JsonView::Object(exchange::states_json(v.states)));
    let m = m.push(("states"@, JsonView::Object(exchange::states_json(v.states))));
    assert(exchange::hydrate_result_json(v) == JsonView::Object(m));
}

/// The resources and the tags to give them has the members `resources`,
/// `default_tags` and `schemas`, and nothing else.
pub proof fn law_members_of_merge_tags_params(v: exchange::MergeDefaultTagsParamsView, other: Seq<char>)
    ensures
        json::view_member(exchange::merge_tags_params_json(v), "resources"@) == Some(JsonView::Array(records::resources_json(v.resources))),
        json::view_member(exchange::merge_tags_params_json(v), "default_tags"@) == Some(JsonView::Object(value::object_of(v.default_tags))),
        json::view_member(exchange::merge_tags_params_json(v), "schemas"@) == Some(JsonView::Array(exchange::schemas_json(v.schemas))),
        other != "resources"@ && other != "default_tags"@ && other != "schemas"@ ==> json::view_member(
            exchange::merge_tags_params_json(v),
            other,
        ) is None,
{
    reveal_strlit("resources");
    reveal_strlit("default_tags");
    reveal_strlit("schemas");
    assert("resources"@.len() != "default_tags"@.len());
    assert("resources"@.len() != "schemas"@.len());
    assert("default_tags"@.len() != "schemas"@.len());
    let m: Seq<(Seq<char>, JsonView)> = Seq::empty();
    fields::lemma_found_after_push(m, "resources"@, JsonView::Array(records::resources_json(v.resources)));
    let m = m.push(("resources"@, JsonView::Array(records::resources_json(v.resources))));
    fields::lemma_found_after_push(m, "default_tags"@, JsonView::Object(value::object_of(v.default_tags)));
    let m = m.push(("default_tags"@, JsonView::Object(value::object_of(v.default_tags))));
    fields::lemma_found_after_push(m, "schemas"@, JsonView::Array(exchange::schemas_json(v.schemas)));
    let m = m.push(("schemas"@, JsonView::Array(exchange::schemas_json(v.schemas))));
    assert(exchange::merge_tags_params_json(v) == JsonView::Object(m));
}

/// The tagged resources has one member: `resources`, and nothing else.
pub proof fn law_members_of_merge_tags_result(v: exchange::MergeDefaultTagsResultView, other: Seq<char>)
    ensures
        json::view_member(exchange::merge_tags_result_json(v), "resources"@) == Some(JsonView::Array(records::resources_json(v.resources))),
        other != "resources"@ ==> json::view_member(
            exchange::merge_tags_result_json(v),
            other,
        ) is None,
{
    reveal_strlit("resources");
    let m: Seq<(Seq<char>, JsonView)> = Seq::empty();
    fields::lemma_found_after_push(m, "resources"@, JsonView::Array(records::resources_json(v.resources)));
    let m = m.push(("resources"@, JsonView::Array(records::resources_json(v.resources))));
    assert(exchange::merge_tags_result_json(v) == JsonView::Object(m));
}

} // verus!
