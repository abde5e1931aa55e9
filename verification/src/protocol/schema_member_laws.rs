//! Under which names the documents of schemas have their parts.
use vstd::prelude::*;

use crate::json;
use crate::json::JsonView;
use crate::protocol::fields;
use crate::protocol::resource_schema;
use crate::protocol::schema;
use crate::protocol::transform;
use crate::protocol::types;
use crate::protocol::wire;

verus! {

/// An attribute of a schema has the members `name`, `attr_type`, `required`,
/// `default`, `description`, `create_only`, `read_only`, `write_only`,
/// `block_name`, `provider_name`, `removable` and `identity`, and nothing else.
pub proof fn law_members_of_attribute(a: resource_schema::WireAttrView, other: Seq<char>)
    ensures
        json::view_member(resource_schema::attribute_json(a), "name"@) == Some(JsonView::String(a.name)),
        json::view_member(resource_schema::attribute_json(a), "attr_type"@) == Some(schema::type_json(a.attr_type)),
        json::view_member(resource_schema::attribute_json(a), "required"@) == Some(JsonView::Bool(a.required)),
        json::view_member(resource_schema::attribute_json(a), "default"@) == Some(resource_schema::value_or_null(a.default)),
        json::view_member(resource_schema::attribute_json(a), "description"@) == Some(fields::text_or_null(a.description)),
        json::view_member(resource_schema::attribute_json(a), "create_only"@) == Some(JsonView::Bool(a.create_only)),
        json::view_member(resource_schema::attribute_json(a), "read_only"@) == Some(JsonView::Bool(a.read_only)),
        json::view_member(resource_schema::attribute_json(a), "write_only"@) == Some(JsonView::Bool(a.write_only)),
        json::view_member(resource_schema::attribute_json(a), "block_name"@) == fields::some_text(a.block_name),
        json::view_member(resource_schema::attribute_json(a), "provider_name"@) == fields::some_text(a.provider_name),
        json::view_member(resource_schema::attribute_json(a), "removable"@) == resource_schema::some_bool(a.removable),
        json::view_member(resource_schema::attribute_json(a), "identity"@) == Some(JsonView::Bool(a.identity)),
        other != "name"@ && other != "attr_type"@ && other != "required"@ && other != "default"@ && other != "description"@ && other != "create_only"@ && other != "read_only"@ && other != "write_only"@ && other != "block_name"@ && other != "provider_name"@ && other != "removable"@ && other != "identity"@ ==> json::view_member(
            resource_schema::attribute_json(a),
            other,
        ) is None,
{
    reveal_strlit("name");
    reveal_strlit("attr_type");
    reveal_strlit("required");
    reveal_strlit("default");
    reveal_strlit("description");
    reveal_strlit("create_only");
    reveal_strlit("read_only");
    reveal_strlit("write_only");
    reveal_strlit("block_name");
    reveal_strlit("provider_name");
    reveal_strlit("removable");
    reveal_strlit("identity");
    assert("name"@.len() != "attr_type"@.len());
    assert("name"@.len() != "required"@.len());
    assert("name"@.len() != "default"@.len());
    assert("name"@.len() != "description"@.len());
    assert("name"@.len() != "create_only"@.len());
    assert("name"@.len() != "read_only"@.len());
    assert("name"@.len() != "write_only"@.len());
    assert("name"@.len() != "block_name"@.len());
    assert("name"@.len() != "provider_name"@.len());
    assert("name"@.len() != "removable"@.len());
    assert("name"@.len() != "identity"@.len());
    assert("attr_type"@.len() != "required"@.len());
    assert("attr_type"@.len() != "default"@.len());
    assert("attr_type"@.len() != "description"@.len());
    assert("attr_type"@.len() != "create_only"@.len());
    assert("attr_type"@[0] != "read_only"@[0]);
    assert("attr_type"@.len() != "write_only"@.len());
    assert("attr_type"@.len() != "block_name"@.len());
    assert("attr_type"@.len() != "provider_name"@.len());
    assert("attr_type"@[0] != "removable"@[0]);
    assert("attr_type"@.len() != "identity"@.len());
    assert("required"@.len() != "default"@.len());
    assert("required"@.len() != "description"@.len());
    assert("required"@.len() != "create_only"@.len());
    assert("required"@.len() != "read_only"@.len());
    assert("required"@.len() != "write_only"@.len());
    assert("required"@.len() != "block_name"@.len());
    assert("required"@.len() != "provider_name"@.len());
    assert("required"@.len() != "removable"@.len());
    assert("required"@[0] != "identity"@[0]);
    assert("default"@.len() != "description"@.len());
    assert("default"@.len() != "create_only"@.len());
    assert("default"@.len() != "read_only"@.len());
    assert("default"@.len() != "write_only"@.len());
    assert("default"@.len() != "block_name"@.len());
    assert("default"@.len() != "provider_name"@.len());
    assert("default"@.len() != "removable"@.len());
    assert("default"@.len() != "identity"@.len());
    assert("description"@[0] != "create_only"@[0]);
    assert("description"@.len() != "read_only"@.len());
    assert("description"@.len() != "write_only"@.len());
    assert("description"@.len() != "block_name"@.len());
    assert("description"@.len() != "provider_name"@.len());
    assert("description"@.len() != "removable"@.len());
    assert("description"@.len() != "identity"@.len());
    assert("create_only"@.len() != "read_only"@.len());
    assert("create_only"@.len() != "write_only"@.len());
    assert("create_only"@.len() != "block_name"@.len());
    assert("create_only"@.len() != "provider_name"@.len());
    assert("create_only"@.len() != "removable"@.len());
    assert("create_only"@.len() != "identity"@.len());
    assert("read_only"@.len() != "write_only"@.len());
    assert("read_only"@.len() != "block_name"@.len());
    assert("read_only"@.len() != "provider_name"@.len());
    assert("read_only"@[2] != "removable"@[2]);
    assert("read_only"@.len() != "identity"@.len());
    assert("write_only"@[0] != "block_name"@[0]);
    assert("write_only"@.len() != "provider_name"@.len());
    assert("write_only"@.len() != "removable"@.len());
    assert("write_only"@.len() != "identity"@.len());
    assert("block_name"@.len() != "provider_name"@.len());
    assert("block_name"@.len() != "removable"@.len());
    assert("block_name"@.len() != "identity"@.len());
    assert("provider_name"@.len() != "removable"@.len());
    assert("provider_name"@.len() != "identity"@.len());
    assert("removable"@.len() != "identity"@.len());
    let m: Seq<(Seq<char>, JsonView)> = Seq::empty();
    fields::lemma_found_after_push(m, "name"@, JsonView::String(a.name));
    let m = m.push(("name"@, JsonView::String(a.name)));
    fields::lemma_found_after_push(m, "attr_type"@, schema::type_json(a.attr_type));
    let m = m.push(("attr_type"@, schema::type_json(a.attr_type)));
    fields::lemma_found_after_push(m, "required"@, JsonView::Bool(a.required));
    let m = m.push(("required"@, JsonView::Bool(a.required)));
    fields::lemma_found_after_push(m, "default"@, resource_schema::value_or_null(a.default));
    let m = m.push(("default"@, resource_schema::value_or_null(a.default)));
    fields::lemma_found_after_push(m, "description"@, fields::text_or_null(a.description));
    let m = m.push(("description"@, fields::text_or_null(a.description)));
    fields::lemma_found_after_push(m, "create_only"@, JsonView::Bool(a.create_only));
    let m = m.push(("create_only"@, JsonView::Bool(a.create_only)));
    fields::lemma_found_after_push(m, "read_only"@, JsonView::Bool(a.read_only));
    let m = m.push(("read_only"@, JsonView::Bool(a.read_only)));
    fields::lemma_found_after_push(m, "write_only"@, JsonView::Bool(a.write_only));
    let m = m.push(("write_only"@, JsonView::Bool(a.write_only)));
    fields::lemma_found_after(m, "block_name"@, fields::some_text(a.block_name));
    let m = fields::with_some(m, "block_name"@, fields::some_text(a.block_name));
    fields::lemma_found_after(m, "provider_name"@, fields::some_text(a.provider_name));
    let m = fields::with_some(m, "provider_name"@, fields::some_text(a.provider_name));
    fields::lemma_found_after(m, "removable"@, resource_schema::some_bool(a.removable));
    let m = fields::with_some(m, "removable"@, resource_schema::some_bool(a.removable));
    fields::lemma_found_after_push(m, "identity"@, JsonView::Bool(a.identity));
    let m = m.push(("identity"@, JsonView::Bool(a.identity)));
    assert(resource_schema::attribute_json(a) == JsonView::Object(m));
}

/// A schema has the members `resource_type`, `attributes`, `description`, `kind`,
/// `name_attribute`, `force_replace`, `operation_config`, `validators`,
/// `exclusive_required` and `defs`, and nothing else.
pub proof fn law_members_of_schema(s: resource_schema::WireSchemaView, other: Seq<char>)
    ensures
        json::view_member(resource_schema::schema_json(s), "resource_type"@) == Some(JsonView::String(s.resource_type)),
        json::view_member(resource_schema::schema_json(s), "attributes"@) == Some(JsonView::Object(resource_schema::attributes_json(s.attributes))),
        json::view_member(resource_schema::schema_json(s), "description"@) == Some(fields::text_or_null(s.description)),
        json::view_member(resource_schema::schema_json(s), "kind"@) == Some(JsonView::String(resource_schema::kind_text(s.kind))),
        json::view_member(resource_schema::schema_json(s), "name_attribute"@) == Some(fields::text_or_null(s.name_attribute)),
        json::view_member(resource_schema::schema_json(s), "force_replace"@) == Some(JsonView::Bool(s.force_replace)),
        json::view_member(resource_schema::schema_json(s), "operation_config"@) == resource_schema::operation_or_none(s.operation_config),
        json::view_member(resource_schema::schema_json(s), "validators"@) == resource_schema::some_items(resource_schema::validators_json(s.validators)),
        json::view_member(resource_schema::schema_json(s), "exclusive_required"@) == resource_schema::some_items(resource_schema::groups_json(s.exclusive_required)),
        json::view_member(resource_schema::schema_json(s), "defs"@) == resource_schema::some_object(resource_schema::defs_json(s.defs)),
        other != "resource_type"@ && other != "attributes"@ && other != "description"@ && other != "kind"@ && other != "name_attribute"@ && other != "force_replace"@ && other != "operation_config"@ && other != "validators"@ && other != "exclusive_required"@ && other != "defs"@ ==> json::view_member(
            resource_schema::schema_json(s),
            other,
        ) is None,
{
    reveal_strlit("resource_type");
    reveal_strlit("attributes");
    reveal_strlit("description");
    reveal_strlit("kind");
    reveal_strlit("name_attribute");
    reveal_strlit("force_replace");
    reveal_strlit("operation_config");
    reveal_strlit("validators");
    reveal_strlit("exclusive_required");
    reveal_strlit("defs");
    assert("resource_type"@.len() != "attributes"@.len());
    assert("resource_type"@.len() != "description"@.len());
    assert("resource_type"@.len() != "kind"@.len());
    assert("resource_type"@.len() != "name_attribute"@.len());
    assert("resource_type"@[0] != "force_replace"@[0]);
    assert("resource_type"@.len() != "operation_config"@.len());
    assert("resource_type"@.len() != "validators"@.len());
    assert("resource_type"@.len() != "exclusive_required"@.len());
    assert("resource_type"@.len() != "defs"@.len());
    assert("attributes"@.len() != "description"@.len());
    assert("attributes"@.len() != "kind"@.len());
    assert("attributes"@.len() != "name_attribute"@.len());
    assert("attributes"@.len() != "force_replace"@.len());
    assert("attributes"@.len() != "operation_config"@.len());
    assert("attributes"@[0] != "validators"@[0]);
    assert("attributes"@.len() != "exclusive_required"@.len());
    assert("attributes"@.len() != "defs"@.len());
    assert("description"@.len() != "kind"@.len());
    assert("description"@.len() != "name_attribute"@.len());
    assert("description"@.len() != "force_replace"@.len());
    assert("description"@.len() != "operation_config"@.len());
    assert("description"@.len() != "validators"@.len());
    assert("description"@.len() != "exclusive_required"@.len());
    assert("description"@.len() != "defs"@.len());
    assert("kind"@.len() != "name_attribute"@.len());
    assert("kind"@.len() != "force_replace"@.len());
    assert("kind"@.len() != "operation_config"@.len());
    assert("kind"@.len() != "validators"@.len());
    assert("kind"@.len() != "exclusive_required"@.len());
    assert("kind"@[0] != "defs"@[0]);
    assert("name_attribute"@.len() != "force_replace"@.len());
    assert("name_attribute"@.len() != "operation_config"@.len());
    assert("name_attribute"@.len() != "validators"@.len());
    assert("name_attribute"@.len() != "exclusive_required"@.len());
    assert("name_attribute"@.len() != "defs"@.len());
    assert("force_replace"@.len() != "operation_config"@.len());
    assert("force_replace"@.len() != "validators"@.len());
    assert("force_replace"@.len() != "exclusive_required"@.len());
    assert("force_replace"@.len() != "defs"@.len());
    assert("operation_config"@.len() != "validators"@.len());
    assert("operation_config"@.len() != "exclusive_required"@.len());
    assert("operation_config"@.len() != "defs"@.len());
    assert("validators"@.len() != "exclusive_required"@.len());
    assert("validators"@.len() != "defs"@.len());
    assert("exclusive_required"@.len() != "defs"@.len());
    let m: Seq<(Seq<char>, JsonView)> = Seq::empty();
    fields::lemma_found_after_push(m, "resource_type"@, JsonView::String(s.resource_type));
    let m = m.push(("resource_type"@, JsonView::String(s.resource_type)));
    fields::lemma_found_after_push(m, "attributes"@, JsonView::Object(resource_schema::attributes_json(s.attributes)));
    let m = m.push(("attributes"@, JsonView::Object(resource_schema::attributes_json(s.attributes))));
    fields::lemma_found_after_push(m, "description"@, fields::text_or_null(s.description));
    let m = m.push(("description"@, fields::text_or_null(s.description)));
    fields::lemma_found_after_push(m, "kind"@, JsonView::String(resource_schema::kind_text(s.kind)));
    let m = m.push(("kind"@, JsonView::String(resource_schema::kind_text(s.kind))));
    fields::lemma_found_after_push(m, "name_attribute"@, fields::text_or_null(s.name_attribute));
    let m = m.push(("name_attribute"@, fields::text_or_null(s.name_attribute)));
    fields::lemma_found_after_push(m, "force_replace"@, JsonView::Bool(s.force_replace));
    let m = m.push(("force_replace"@, JsonView::Bool(s.force_replace)));
    fields::lemma_found_after(m, "operation_config"@, resource_schema::operation_or_none(s.operation_config));
    let m = fields::with_some(m, "operation_config"@, resource_schema::operation_or_none(s.operation_config));
    fields::lemma_found_after(m, "validators"@, resource_schema::some_items(resource_schema::validators_json(s.validators)));
    let m = fields::with_some(m, "validators"@, resource_schema::some_items(resource_schema::validators_json(s.validators)));
    fields::lemma_found_after(m, "exclusive_required"@, resource_schema::some_items(resource_schema::groups_json(s.exclusive_required)));
    let m = fields::with_some(m, "exclusive_required"@, resource_schema::some_items(resource_schema::groups_json(s.exclusive_required)));
    fields::lemma_found_after(m, "defs"@, resource_schema::some_object(resource_schema::defs_json(s.defs)));
    let m = fields::with_some(m, "defs"@, resource_schema::some_object(resource_schema::defs_json(s.defs)));
    assert(resource_schema::schema_json(s) == JsonView::Object(m));
}

/// A field of a struct has the members `name`, `field_type`, `required`,
/// `description`, `block_name` and `provider_name`, and nothing else.
pub proof fn law_members_of_struct_field(f: schema::WireFieldView, other: Seq<char>)
    ensures
        json::view_member(schema::field_json(f), "name"@) == Some(JsonView::String(f.name)),
        json::view_member(schema::field_json(f), "field_type"@) == Some(schema::type_json(f.field_type)),
        json::view_member(schema::field_json(f), "required"@) == Some(JsonView::Bool(f.required)),
        json::view_member(schema::field_json(f), "description"@) == Some(fields::text_or_null(f.description)),
        json::view_member(schema::field_json(f), "block_name"@) == fields::some_text(f.block_name),
        json::view_member(schema::field_json(f), "provider_name"@) == fields::some_text(f.provider_name),
        other != "name"@ && other != "field_type"@ && other != "required"@ && other != "description"@ && other != "block_name"@ && other != "provider_name"@ ==> json::view_member(
            schema::field_json(f),
            other,
        ) is None,
{
    reveal_strlit("name");
    reveal_strlit("field_type");
    reveal_strlit("required");
    reveal_strlit("description");
    reveal_strlit("block_name");
    reveal_strlit("provider_name");
    assert("name"@.len() != "field_type"@.len());
    assert("name"@.len() != "required"@.len());
    assert("name"@.len() != "description"@.len());
    assert("name"@.len() != "block_name"@.len());
    assert("name"@.len() != "provider_name"@.len());
    assert("field_type"@.len() != "required"@.len());
    assert("field_type"@.len() != "description"@.len());
    assert("field_type"@[0] != "block_name"@[0]);
    assert("field_type"@.len() != "provider_name"@.len());
    assert("required"@.len() != "description"@.len());
    assert("required"@.len() != "block_name"@.len());
    assert("required"@.len() != "provider_name"@.len());
    assert("description"@.len() != "block_name"@.len());
    assert("description"@.len() != "provider_name"@.len());
    assert("block_name"@.len() != "provider_name"@.len());
    let m: Seq<(Seq<char>, JsonView)> = Seq::empty();
    fields::lemma_found_after_push(m, "name"@, JsonView::String(f.name));
    let m = m.push(("name"@, JsonView::String(f.name)));
    fields::lemma_found_after_push(m, "field_type"@, schema::type_json(f.field_type));
    let m = m.push(("field_type"@, schema::type_json(f.field_type)));
    fields::lemma_found_after_push(m, "required"@, JsonView::Bool(f.required));
    let m = m.push(("required"@, JsonView::Bool(f.required)));
    fields::lemma_found_after_push(m, "description"@, fields::text_or_null(f.description));
    let m = m.push(("description"@, fields::text_or_null(f.description)));
    fields::lemma_found_after(m, "block_name"@, fields::some_text(f.block_name));
    let m = fields::with_some(m, "block_name"@, fields::some_text(f.block_name));
    fields::lemma_found_after(m, "provider_name"@, fields::some_text(f.provider_name));
    let m = fields::with_some(m, "provider_name"@, fields::some_text(f.provider_name));
    assert(schema::field_json(f) == JsonView::Object(m));
}

/// What a provider says of itself, with the version of the protocol, has the
/// members `name`, `display_name`, `capabilities`, `version` and
/// `protocol_version`, and nothing else.
pub proof fn law_members_of_info(i: types::InfoView, version: u32, other: Seq<char>)
    ensures
        json::view_member(wire::envelope_json(i, version), "name"@) == Some(JsonView::String(i.name)),
        json::view_member(wire::envelope_json(i, version), "display_name"@) == Some(JsonView::String(i.display_name)),
        json::view_member(wire::envelope_json(i, version), "capabilities"@) == Some(JsonView::Array(fields::texts_json(i.capabilities))),
        json::view_member(wire::envelope_json(i, version), "version"@) == Some(JsonView::String(i.version)),
        json::view_member(wire::envelope_json(i, version), "protocol_version"@) == Some(fields::number_json(version as nat)),
        other != "name"@ && other != "display_name"@ && other != "capabilities"@ && other != "version"@ && other != "protocol_version"@ ==> json::view_member(
            wire::envelope_json(i, version),
            other,
        ) is None,
{
    reveal_strlit("name");
    reveal_strlit("display_name");
    reveal_strlit("capabilities");
    reveal_strlit("version");
    reveal_strlit("protocol_version");
    assert("name"@.len() != "display_name"@.len());
    assert("name"@.len() != "capabilities"@.len());
    assert("name"@.len() != "version"@.len());
    assert("name"@.len() != "protocol_version"@.len());
    assert("display_name"@[0] != "capabilities"@[0]);
    assert("display_name"@.len() != "version"@.len());
    assert("display_name"@.len() != "protocol_version"@.len());
    assert("capabilities"@.len() != "version"@.len());
    assert("capabilities"@.len() != "protocol_version"@.len());
    assert("version"@.len() != "protocol_version"@.len());
    let m: Seq<(Seq<char>, JsonView)> = Seq::empty();
    fields::lemma_found_after_push(m, "name"@, JsonView::String(i.name));
    let m = m.push(("name"@, JsonView::String(i.name)));
    fields::lemma_found_after_push(m, "display_name"@, JsonView::String(i.display_name));
    let m = m.push(("display_name"@, JsonView::String(i.display_name)));
    fields::lemma_found_after_push(m, "capabilities"@, JsonView::Array(fields::texts_json(i.capabilities)));
    let m = m.push(("capabilities"@, JsonView::Array(fields::texts_json(i.capabilities))));
    fields::lemma_found_after_push(m, "version"@, JsonView::String(i.version));
    let m = m.push(("version"@, JsonView::String(i.version)));
    fields::lemma_found_after_push(m, "protocol_version"@, fields::number_json(version as nat));
    let m = m.push(("protocol_version"@, fields::number_json(version as nat)));
    assert(wire::envelope_json(i, version) == JsonView::Object(m));
}

/// The type `string_enum` has the members `type`, `values`, `name`, `namespace` and
/// `dsl_aliases`, and nothing else.
pub proof fn law_members_of_string_enum_type(values: Seq<Seq<char>>, name: Seq<char>, namespace: Option<Seq<char>>, dsl_aliases: Seq<(Seq<char>, Seq<char>)>, other: Seq<char>)
    ensures
        json::view_member(schema::type_json((schema::WireTypeView::StringEnum { values, name, namespace, dsl_aliases })), "type"@) == Some(JsonView::String("string_enum"@)),
        json::view_member(schema::type_json((schema::WireTypeView::StringEnum { values, name, namespace, dsl_aliases })), "values"@) == Some(JsonView::Array(fields::texts_json(values))),
        json::view_member(schema::type_json((schema::WireTypeView::StringEnum { values, name, namespace, dsl_aliases })), "name"@) == Some(JsonView::String(name)),
        json::view_member(schema::type_json((schema::WireTypeView::StringEnum { values, name, namespace, dsl_aliases })), "namespace"@) == fields::some_text(namespace),
        json::view_member(schema::type_json((schema::WireTypeView::StringEnum { values, name, namespace, dsl_aliases })), "dsl_aliases"@) == schema::aliases_json(dsl_aliases),
        other != "type"@ && other != "values"@ && other != "name"@ && other != "namespace"@ && other != "dsl_aliases"@ ==> json::view_member(
            schema::type_json((schema::WireTypeView::StringEnum { values, name, namespace, dsl_aliases })),
            other,
        ) is None,
{
    reveal_strlit("type");
    reveal_strlit("values");
    reveal_strlit("name");
    reveal_strlit("namespace");
    reveal_strlit("dsl_aliases");
    assert("type"@.len() != "values"@.len());
    assert("type"@[0] != "name"@[0]);
    assert("type"@.len() != "namespace"@.len());
    assert("type"@.len() != "dsl_aliases"@.len());
    assert("values"@.len() != "name"@.len());
    assert("values"@.len() != "namespace"@.len());
    assert("values"@.len() != "dsl_aliases"@.len());
    assert("name"@.len() != "namespace"@.len());
    assert("name"@.len() != "dsl_aliases"@.len());
    assert("namespace"@.len() != "dsl_aliases"@.len());
    let m: Seq<(Seq<char>, JsonView)> = Seq::empty();
    fields::lemma_found_after_push(m, "type"@, JsonView::String("string_enum"@));
    let m = m.push(("type"@, JsonView::String("string_enum"@)));
    fields::lemma_found_after_push(m, "values"@, JsonView::Array(fields::texts_json(values)));
    let m = m.push(("values"@, JsonView::Array(fields::texts_json(values))));
    fields::lemma_found_after_push(m, "name"@, JsonView::String(name));
    let m = m.push(("name"@, JsonView::String(name)));
    fields::lemma_found_after(m, "namespace"@, fields::some_text(namespace));
    let m = fields::with_some(m, "namespace"@, fields::some_text(namespace));
    fields::lemma_found_after(m, "dsl_aliases"@, schema::aliases_json(dsl_aliases));
    let m = fields::with_some(m, "dsl_aliases"@, schema::aliases_json(dsl_aliases));
    assert(schema::type_json((schema::WireTypeView::StringEnum { values, name, namespace, dsl_aliases })) == JsonView::Object(m));
}

/// The type `list` has the members `type`, `inner` and `ordered`, and nothing else.
pub proof fn law_members_of_list_type(inner: Box<schema::WireTypeView>, ordered: bool, other: Seq<char>)
    ensures
        json::view_member(schema::type_json((schema::WireTypeView::List { inner, ordered })), "type"@) == Some(JsonView::String("list"@)),
        json::view_member(schema::type_json((schema::WireTypeView::List { inner, ordered })), "inner"@) == Some(schema::type_json(*inner)),
        json::view_member(schema::type_json((schema::WireTypeView::List { inner, ordered })), "ordered"@) == Some(JsonView::Bool(ordered)),
        other != "type"@ && other != "inner"@ && other != "ordered"@ ==> json::view_member(
            schema::type_json((schema::WireTypeView::List { inner, ordered })),
            other,
        ) is None,
{
    reveal_strlit("type");
    reveal_strlit("inner");
    reveal_strlit("ordered");
    assert("type"@.len() != "inner"@.len());
    assert("type"@.len() != "ordered"@.len());
    assert("inner"@.len() != "ordered"@.len());
    let m: Seq<(Seq<char>, JsonView)> = Seq::empty();
    fields::lemma_found_after_push(m, "type"@, JsonView::String("list"@));
    let m = m.push(("type"@, JsonView::String("list"@)));
    fields::lemma_found_after_push(m, "inner"@, schema::type_json(*inner));
    let m = m.push(("inner"@, schema::type_json(*inner)));
    fields::lemma_found_after_push(m, "ordered"@, JsonView::Bool(ordered));
    let m = m.push(("ordered"@, JsonView::Bool(ordered)));
    assert(schema::type_json((schema::WireTypeView::List { inner, ordered })) == JsonView::Object(m));
}

/// The type `map` has the members `type`, `inner` and `key`, and nothing else.
pub proof fn law_members_of_mapping_type(inner: Box<schema::WireTypeView>, key: Box<schema::WireTypeView>, other: Seq<char>)
    ensures
        json::view_member(schema::type_json((schema::WireTypeView::Mapping { inner, key })), "type"@) == Some(JsonView::String("map"@)),
        json::view_member(schema::type_json((schema::WireTypeView::Mapping { inner, key })), "inner"@) == Some(schema::type_json(*inner)),
        json::view_member(schema::type_json((schema::WireTypeView::Mapping { inner, key })), "key"@) == Some(schema::type_json(*key)),
        other != "type"@ && other != "inner"@ && other != "key"@ ==> json::view_member(
            schema::type_json((schema::WireTypeView::Mapping { inner, key })),
            other,
        ) is None,
{
    reveal_strlit("type");
    reveal_strlit("inner");
    reveal_strlit("key");
    assert("type"@.len() != "inner"@.len());
    assert("type"@.len() != "key"@.len());
    assert("inner"@.len() != "key"@.len());
    let m: Seq<(Seq<char>, JsonView)> = Seq::empty();
    fields::lemma_found_after_push(m, "type"@, JsonView::String("map"@));
    let m = m.push(("type"@, JsonView::String("map"@)));
    fields::lemma_found_after_push(m, "inner"@, schema::type_json(*inner));
    let m = m.push(("inner"@, schema::type_json(*inner)));
    fields::lemma_found_after_push(m, "key"@, schema::type_json(*key));
    let m = m.push(("key"@, schema::type_json(*key)));
    assert(schema::type_json((schema::WireTypeView::Mapping { inner, key })) == JsonView::Object(m));
}

/// The type `struct` has the members `type`, `name` and `fields`, and nothing else.
pub proof fn law_members_of_struct_type(name: Seq<char>, list: Seq<schema::WireFieldView>, other: Seq<char>)
    ensures
        json::view_member(schema::type_json((schema::WireTypeView::Struct { name, fields: list })), "type"@) == Some(JsonView::String("struct"@)),
        json::view_member(schema::type_json((schema::WireTypeView::Struct { name, fields: list })), "name"@) == Some(JsonView::String(name)),
        json::view_member(schema::type_json((schema::WireTypeView::Struct { name, fields: list })), "fields"@) == Some(JsonView::Array(schema::fields_json(list))),
        other != "type"@ && other != "name"@ && other != "fields"@ ==> json::view_member(
            schema::type_json((schema::WireTypeView::Struct { name, fields: list })),
            other,
        ) is None,
{
    reveal_strlit("type");
    reveal_strlit("name");
    reveal_strlit("fields");
    assert("type"@[0] != "name"@[0]);
    assert("type"@.len() != "fields"@.len());
    assert("name"@.len() != "fields"@.len());
    let m: Seq<(Seq<char>, JsonView)> = Seq::empty();
    fields::lemma_found_after_push(m, "type"@, JsonView::String("struct"@));
    let m = m.push(("type"@, JsonView::String("struct"@)));
    fields::lemma_found_after_push(m, "name"@, JsonView::String(name));
    let m = m.push(("name"@, JsonView::String(name)));
    fields::lemma_found_after_push(m, "fields"@, JsonView::Array(schema::fields_json(list)));
    let m = m.push(("fields"@, JsonView::Array(schema::fields_json(list))));
    assert(schema::type_json((schema::WireTypeView::Struct { name, fields: list })) == JsonView::Object(m));
}

/// The type `union` has the members `type` and `members`, and nothing else.
pub proof fn law_members_of_union_type(members: Seq<schema::WireTypeView>, other: Seq<char>)
    ensures
        json::view_member(schema::type_json((schema::WireTypeView::Union { members })), "type"@) == Some(JsonView::String("union"@)),
        json::view_member(schema::type_json((schema::WireTypeView::Union { members })), "members"@) == Some(JsonView::Array(schema::types_json(members))),
        other != "type"@ && other != "members"@ ==> json::view_member(
            schema::type_json((schema::WireTypeView::Union { members })),
            other,
        ) is None,
{
    reveal_strlit("type");
    reveal_strlit("members");
    assert("type"@.len() != "members"@.len());
    let m: Seq<(Seq<char>, JsonView)> = Seq::empty();
    fields::lemma_found_after_push(m, "type"@, JsonView::String("union"@));
    let m = m.push(("type"@, JsonView::String("union"@)));
    fields::lemma_found_after_push(m, "members"@, JsonView::Array(schema::types_json(members)));
    let m = m.push(("members"@, JsonView::Array(schema::types_json(members))));
    assert(schema::type_json((schema::WireTypeView::Union { members })) == JsonView::Object(m));
}

/// The type `custom` has the members `type`, `name`, `base`, `pattern` and
/// `length`, and nothing else.
pub proof fn law_members_of_custom_type(name: Seq<char>, base: Box<schema::WireTypeView>, pattern: Option<Seq<char>>, length: Option<(Option<u64>, Option<u64>)>, other: Seq<char>)
    ensures
        json::view_member(schema::type_json((schema::WireTypeView::Custom { name, base, pattern, length })), "type"@) == Some(JsonView::String("custom"@)),
        json::view_member(schema::type_json((schema::WireTypeView::Custom { name, base, pattern, length })), "name"@) == Some(JsonView::String(name)),
        json::view_member(schema::type_json((schema::WireTypeView::Custom { name, base, pattern, length })), "base"@) == Some(schema::type_json(*base)),
        json::view_member(schema::type_json((schema::WireTypeView::Custom { name, base, pattern, length })), "pattern"@) == fields::some_text(pattern),
        json::view_member(schema::type_json((schema::WireTypeView::Custom { name, base, pattern, length })), "length"@) == schema::length_json(length),
        other != "type"@ && other != "name"@ && other != "base"@ && other != "pattern"@ && other != "length"@ ==> json::view_member(
            schema::type_json((schema::WireTypeView::Custom { name, base, pattern, length })),
            other,
        ) is None,
{
    reveal_strlit("type");
    reveal_strlit("name");
    reveal_strlit("base");
    reveal_strlit("pattern");
    reveal_strlit("length");
    assert("type"@[0] != "name"@[0]);
    assert("type"@[0] != "base"@[0]);
    assert("type"@.len() != "pattern"@.len());
    assert("type"@.len() != "length"@.len());
    assert("name"@[0] != "base"@[0]);
    assert("name"@.len() != "pattern"@.len());
    assert("name"@.len() != "length"@.len());
    assert("base"@.len() != "pattern"@.len());
    assert("base"@.len() != "length"@.len());
    assert("pattern"@.len() != "length"@.len());
    let m: Seq<(Seq<char>, JsonView)> = Seq::empty();
    fields::lemma_found_after_push(m, "type"@, JsonView::String("custom"@));
    let m = m.push(("type"@, JsonView::String("custom"@)));
    fields::lemma_found_after_push(m, "name"@, JsonView::String(name));
    let m = m.push(("name"@, JsonView::String(name)));
    fields::lemma_found_after_push(m, "base"@, schema::type_json(*base));
    let m = m.push(("base"@, schema::type_json(*base)));
    fields::lemma_found_after(m, "pattern"@, fields::some_text(pattern));
    let m = fields::with_some(m, "pattern"@, fields::some_text(pattern));
    fields::lemma_found_after(m, "length"@, schema::length_json(length));
    let m = fields::with_some(m, "length"@, schema::length_json(length));
    assert(schema::type_json((schema::WireTypeView::Custom { name, base, pattern, length })) == JsonView::Object(m));
}

/// The type `custom_enum` has the members `type`, `name`, `base`, `namespace` and
/// `dsl_transform`, and nothing else.
pub proof fn law_members_of_custom_enum_type(name: Seq<char>, base: Box<schema::WireTypeView>, namespace: Seq<char>, dsl_transform: Option<transform::TransformView>, other: Seq<char>)
    ensures
        json::view_member(schema::type_json((schema::WireTypeView::CustomEnum { name, base, namespace, dsl_transform })), "type"@) == Some(JsonView::String("custom_enum"@)),
        json::view_member(schema::type_json((schema::WireTypeView::CustomEnum { name, base, namespace, dsl_transform })), "name"@) == Some(JsonView::String(name)),
        json::view_member(schema::type_json((schema::WireTypeView::CustomEnum { name, base, namespace, dsl_transform })), "base"@) == Some(schema::type_json(*base)),
        json::view_member(schema::type_json((schema::WireTypeView::CustomEnum { name, base, namespace, dsl_transform })), "namespace"@) == Some(JsonView::String(namespace)),
        json::view_member(schema::type_json((schema::WireTypeView::CustomEnum { name, base, namespace, dsl_transform })), "dsl_transform"@) == schema::opt_transform_json(dsl_transform),
        other != "type"@ && other != "name"@ && other != "base"@ && other != "namespace"@ && other != "dsl_transform"@ ==> json::view_member(
            schema::type_json((schema::WireTypeView::CustomEnum { name, base, namespace, dsl_transform })),
            other,
        ) is None,
{
    reveal_strlit("type");
    reveal_strlit("name");
    reveal_strlit("base");
    reveal_strlit("namespace");
    reveal_strlit("dsl_transform");
    assert("type"@[0] != "name"@[0]);
    assert("type"@[0] != "base"@[0]);
    assert("type"@.len() != "namespace"@.len());
    assert("type"@.len() != "dsl_transform"@.len());
    assert("name"@[0] != "base"@[0]);
    assert("name"@.len() != "namespace"@.len());
    assert("name"@.len() != "dsl_transform"@.len());
    assert("base"@.len() != "namespace"@.len());
    assert("base"@.len() != "dsl_transform"@.len());
    assert("namespace"@.len() != "dsl_transform"@.len());
    let m: Seq<(Seq<char>, JsonView)> = Seq::empty();
    fields::lemma_found_after_push(m, "type"@, JsonView::String("custom_enum"@));
    let m = m.push(("type"@, JsonView::String("custom_enum"@)));
    fields::lemma_found_after_push(m, "name"@, JsonView::String(name));
    let m = m.push(("name"@, JsonView::String(name)));
    fields::lemma_found_after_push(m, "base"@, schema::type_json(*base));
    let m = m.push(("base"@, schema::type_json(*base)));
    fields::lemma_found_after_push(m, "namespace"@, JsonView::String(namespace));
    let m = m.push(("namespace"@, JsonView::String(namespace)));
    fields::lemma_found_after(m, "dsl_transform"@, schema::opt_transform_json(dsl_transform));
    let m = fields::with_some(m, "dsl_transform"@, schema::opt_transform_json(dsl_transform));
    assert(schema::type_json((schema::WireTypeView::CustomEnum { name, base, namespace, dsl_transform })) == JsonView::Object(m));
}

/// The type `ref` has the members `type` and `name`, and nothing else.
pub proof fn law_members_of_ref_type(name: Seq<char>, other: Seq<char>)
    ensures
        json::view_member(schema::type_json((schema::WireTypeView::Ref { name })), "type"@) == Some(JsonView::String("ref"@)),
        json::view_member(schema::type_json((schema::WireTypeView::Ref { name })), "name"@) == Some(JsonView::String(name)),
        other != "type"@ && other != "name"@ ==> json::view_member(
            schema::type_json((schema::WireTypeView::Ref { name })),
            other,
        ) is None,
{
    reveal_strlit("type");
    reveal_strlit("name");
    assert("type"@[0] != "name"@[0]);
    let m: Seq<(Seq<char>, JsonView)> = Seq::empty();
    fields::lemma_found_after_push(m, "type"@, JsonView::String("ref"@));
    let m = m.push(("type"@, JsonView::String("ref"@)));
    fields::lemma_found_after_push(m, "name"@, JsonView::String(name));
    let m = m.push(("name"@, JsonView::String(name)));
    assert(schema::type_json((schema::WireTypeView::Ref { name })) == JsonView::Object(m));
}

/// The types without parts have a name only.
pub proof fn law_types_without_parts()
    ensures
        schema::type_json(schema::WireTypeView::String) == JsonView::Object(seq![("type"@, JsonView::String("String"@))]),
        schema::type_json(schema::WireTypeView::Int) == JsonView::Object(seq![("type"@, JsonView::String("Int"@))]),
        schema::type_json(schema::WireTypeView::Float) == JsonView::Object(seq![("type"@, JsonView::String("Float"@))]),
        schema::type_json(schema::WireTypeView::Bool) == JsonView::Object(seq![("type"@, JsonView::String("Bool"@))]),
        schema::type_json(schema::WireTypeView::Duration) == JsonView::Object(seq![("type"@, JsonView::String("Duration"@))]),
{
    assert(transform::tagged("String"@) =~= seq![("type"@, JsonView::String("String"@))]);
    assert(transform::tagged("Int"@) =~= seq![("type"@, JsonView::String("Int"@))]);
    assert(transform::tagged("Float"@) =~= seq![("type"@, JsonView::String("Float"@))]);
    assert(transform::tagged("Bool"@) =~= seq![("type"@, JsonView::String("Bool"@))]);
    assert(transform::tagged("Duration"@) =~= seq![("type"@, JsonView::String("Duration"@))]);
}

} // verus!
