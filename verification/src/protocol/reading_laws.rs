//! How documents of the protocol are read, and what they stand for.
use vstd::prelude::*;

use crate::json;
use crate::json::{JsonNumber, JsonView};
use crate::keyed;
use crate::protocol;
use crate::protocol::fields;
use crate::protocol::jsonrpc;
use crate::protocol::records;
use crate::protocol::resource_schema;
use crate::protocol::transform;
use crate::protocol::transform::TransformView;
use crate::protocol::types::{ErrorView, PatchOpKind, ProviderErrorKind, SchemaKind};
use crate::protocol::value;
use crate::protocol::value::WireView;
use crate::protocol::wire;
use crate::resource::IdView;
use crate::text;
use crate::value as dsl_value;
use crate::value::Float;

verus! {

/// The parts of a record stand under their names in an object, or at their places
/// in a list.
pub proof fn law_parts_stand_under_names_or_at_places(
    members: Seq<(Seq<char>, JsonView)>,
    items: Seq<JsonView>,
    i: int,
    key: Seq<char>,
)
    ensures
        fields::at(JsonView::Object(members), i, key) == keyed::lookup(members, key),
        0 <= i < items.len() ==> fields::at(JsonView::Array(items), i, key) == Some(items[i]),
        i >= items.len() ==> fields::at(JsonView::Array(items), i, key) is None,
{
}

/// A text that is needed must be there and be a text. One that may be missing may
/// also be null. The same holds of numbers, which must not be too large, and a truth
/// value that is missing has the value that it has by default.
pub proof fn law_parts_are_read(j: JsonView, i: int, key: Seq<char>, s: Seq<char>, n: u64, most: nat, b: bool, other: bool)
    ensures
        fields::need_text(j, i, key) == Some(s) <==> fields::at(j, i, key) == Some(JsonView::String(s)),
        fields::at(j, i, key) is None ==> fields::need_text(j, i, key) is None,
        fields::at(j, i, key) is None ==> fields::may_text(j, i, key) == Some(None::<Seq<char>>),
        fields::at(j, i, key) == Some(JsonView::Null) ==> fields::may_text(j, i, key) == Some(None::<Seq<char>>),
        fields::at(j, i, key) == Some(JsonView::String(s)) ==> fields::may_text(j, i, key) == Some(Some(s)),
        fields::at(j, i, key) == Some(JsonView::Bool(b)) ==> fields::may_text(j, i, key) is None,
        fields::at(j, i, key) == Some(JsonView::Bool(b)) ==> fields::bool_or(j, i, key, other) == Some(b),
        fields::at(j, i, key) is None ==> fields::bool_or(j, i, key, other) == Some(other),
        fields::at(j, i, key) == Some(JsonView::Null) ==> fields::bool_or(j, i, key, other) is None,
        fields::need_bool(j, i, key) == Some(b) <==> fields::at(j, i, key) == Some(JsonView::Bool(b)),
        fields::at(j, i, key) == Some(JsonView::Number(JsonNumber::PosInt(n))) ==> fields::need_number(j, i, key, most)
            == if n <= most {
            Some(n as nat)
        } else {
            None
        },
        fields::at(j, i, key) == Some(JsonView::Number(JsonNumber::PosInt(n))) && n <= most ==> fields::may_number(
            j,
            i,
            key,
            most,
        ) == Some(Some(n as nat)),
        fields::at(j, i, key) is None ==> fields::may_number(j, i, key, most) == Some(None::<nat>) && fields::need_number(
            j,
            i,
            key,
            most,
        ) is None,
        fields::text_or_null(None) == JsonView::Null,
        fields::text_or_null(Some(s)) == JsonView::String(s),
        fields::number_json(n as nat) == JsonView::Number(JsonNumber::PosInt(n)),
{
}

/// A list of texts is read text by text, and not at all where one of its items is no
/// text. Where it may be missing, it is then empty.
pub proof fn law_texts_are_read(items: Seq<JsonView>, s: Seq<char>, item: JsonView, j: JsonView, i: int, key: Seq<char>)
    ensures
        fields::texts_of(seq![]) == Some(Seq::<Seq<char>>::empty()),
        fields::texts_of(items.push(JsonView::String(s))) == match fields::texts_of(items) {
            Some(before) => Some(before.push(s)),
            None => None,
        },
        !(item is String) ==> fields::texts_of(items.push(item)) is None,
        fields::at(j, i, key) is None ==> fields::texts_or_none(j, i, key) == Some(Seq::<Seq<char>>::empty())
            && fields::need_texts(j, i, key) is None,
        fields::at(j, i, key) == Some(JsonView::Array(items)) ==> fields::texts_or_none(j, i, key) == fields::texts_of(items)
            && fields::need_texts(j, i, key) == fields::texts_of(items),
{
    assert(items.push(JsonView::String(s)).drop_last() =~= items);
    assert(items.push(item).drop_last() =~= items);
}

/// A state needs its id, its attributes and whether it exists; it may have no
/// identifier.
pub proof fn law_states_are_read(
    m: Seq<(Seq<char>, JsonView)>,
    id: IdView,
    attributes: Seq<(Seq<char>, JsonView)>,
    exists: bool,
)
    requires
        keyed::lookup(m, "id"@) == Some(wire::id_json(id)),
        keyed::lookup(m, "attributes"@) == Some(JsonView::Object(attributes)),
        keyed::lookup(m, "exists"@) == Some(JsonView::Bool(exists)),
    ensures
        ({
            let s = wire::state_of(JsonView::Object(m));
            &&& keyed::lookup(m, "identifier"@) is None ==> s is Some && s->0.identifier is None
            &&& s is Some ==> s->0.id == id && s->0.exists == exists && s->0.attributes == value::map_of(attributes)
            &&& keyed::lookup(m, "identifier"@) matches Some(JsonView::String(t)) ==> s is Some && s->0.identifier == Some(t)
        }),
        wire::state_of(JsonView::Object(seq![])) is None,
{
    wire::law_id_round_trip(id);
}

/// Directives that are missing are not given.
pub proof fn law_missing_directives_are_not_given(m: Seq<(Seq<char>, JsonView)>)
    ensures
        records::directives_of(JsonView::Object(seq![])) matches Some(d) && !d.force_delete && !d.create_before_destroy
            && !d.prevent_destroy,
        records::directives_of(JsonView::Object(m)) matches Some(d) ==> {
            &&& keyed::lookup(m, "force_delete"@) is None ==> !d.force_delete
            &&& keyed::lookup(m, "create_before_destroy"@) is None ==> !d.create_before_destroy
            &&& keyed::lookup(m, "prevent_destroy"@) is None ==> !d.prevent_destroy
            &&& keyed::lookup(m, "force_delete"@) == Some(JsonView::Bool(true)) ==> d.force_delete
            &&& keyed::lookup(m, "create_before_destroy"@) == Some(JsonView::Bool(true)) ==> d.create_before_destroy
            &&& keyed::lookup(m, "prevent_destroy"@) == Some(JsonView::Bool(true)) ==> d.prevent_destroy
        },
{
}

/// An attribute needs a name, a type and whether it is required. All else is off or
/// absent where it is missing.
pub proof fn law_attributes_are_read(m: Seq<(Seq<char>, JsonView)>)
    ensures
        keyed::lookup(m, "name"@) is None || keyed::lookup(m, "attr_type"@) is None || keyed::lookup(m, "required"@) is None
            ==> resource_schema::attribute_of(JsonView::Object(m)) is None,
        resource_schema::attribute_of(JsonView::Object(m)) matches Some(a) ==> {
            &&& keyed::lookup(m, "name"@) == Some(JsonView::String(a.name))
            &&& keyed::lookup(m, "required"@) == Some(JsonView::Bool(a.required))
            &&& keyed::lookup(m, "create_only"@) is None ==> !a.create_only
            &&& keyed::lookup(m, "read_only"@) is None ==> !a.read_only
            &&& keyed::lookup(m, "write_only"@) is None ==> !a.write_only
            &&& keyed::lookup(m, "identity"@) is None ==> !a.identity
            &&& keyed::lookup(m, "removable"@) is None ==> a.removable is None
            &&& keyed::lookup(m, "default"@) is None ==> a.default is None
            &&& keyed::lookup(m, "create_only"@) == Some(JsonView::Bool(true)) ==> a.create_only
            &&& keyed::lookup(m, "read_only"@) == Some(JsonView::Bool(true)) ==> a.read_only
            &&& keyed::lookup(m, "write_only"@) == Some(JsonView::Bool(true)) ==> a.write_only
            &&& keyed::lookup(m, "identity"@) == Some(JsonView::Bool(true)) ==> a.identity
        },
{
}

/// Each kind of operation, of error and of schema has its own name, and no other
/// name stands for one. A schema without a kind is managed.
pub proof fn law_kinds_have_names(s: Seq<char>, m: Seq<(Seq<char>, JsonView)>)
    ensures
        records::patch_kind_of(JsonView::String("add"@)) == Some(PatchOpKind::Add),
        records::patch_kind_of(JsonView::String("replace"@)) == Some(PatchOpKind::Replace),
        records::patch_kind_of(JsonView::String("remove"@)) == Some(PatchOpKind::Remove),
        s != "add"@ && s != "replace"@ && s != "remove"@ ==> records::patch_kind_of(JsonView::String(s)) is None,
        records::error_kind_of(JsonView::String("invalid_input"@)) == Some(ProviderErrorKind::InvalidInput),
        records::error_kind_of(JsonView::String("api_error"@)) == Some(ProviderErrorKind::ApiError),
        records::error_kind_of(JsonView::String("not_found"@)) == Some(ProviderErrorKind::NotFound),
        records::error_kind_of(JsonView::String("timeout"@)) == Some(ProviderErrorKind::Timeout),
        records::error_kind_of(JsonView::String("internal"@)) == Some(ProviderErrorKind::Internal),
        keyed::lookup(m, "kind"@) is None ==> resource_schema::kind_at(JsonView::Object(m)) == Some(SchemaKind::Managed),
        keyed::lookup(m, "kind"@) == Some(JsonView::String("managed"@)) ==> resource_schema::kind_at(JsonView::Object(m))
            == Some(SchemaKind::Managed),
        keyed::lookup(m, "kind"@) == Some(JsonView::String("data_source"@)) ==> resource_schema::kind_at(JsonView::Object(m))
            == Some(SchemaKind::DataSource),
{
    reveal_strlit("add");
    reveal_strlit("replace");
    reveal_strlit("remove");
    reveal_strlit("invalid_input");
    reveal_strlit("api_error");
    reveal_strlit("not_found");
    reveal_strlit("timeout");
    reveal_strlit("internal");
    reveal_strlit("managed");
    reveal_strlit("data_source");
    assert("add"@.len() == 3 && "replace"@.len() == 7 && "remove"@.len() == 6);
    assert("invalid_input"@.len() == 13 && "api_error"@.len() == 9 && "not_found"@.len() == 9);
    assert("timeout"@.len() == 7 && "internal"@.len() == 8);
    assert("api_error"@[0] != "not_found"@[0]);
    assert("managed"@.len() != "data_source"@.len());
}

/// Values are written and read one by one: texts, truth values and whole numbers as
/// they are, lists item by item and maps entry by entry.
pub proof fn law_values_are_written_and_read(
    items: Seq<WireView>,
    entries: Seq<(Seq<char>, WireView)>,
    documents: Seq<JsonView>,
    members: Seq<(Seq<char>, JsonView)>,
    i: int,
    s: Seq<char>,
    b: bool,
    n: i64,
)
    ensures
        value::json_of(WireView::String(s)) == JsonView::String(s),
        value::json_of(WireView::Bool(b)) == JsonView::Bool(b),
        value::json_of(WireView::Int(n)) == JsonView::Number(json::number_of_i64(n)),
        value::json_of(WireView::List(items)) matches JsonView::Array(a) && a.len() == items.len() && (0 <= i < items.len()
            ==> a[i] == value::json_of(items[i])),
        value::json_of(WireView::Mapping(entries)) matches JsonView::Object(o) && o.len() == entries.len() && (0 <= i
            < entries.len() ==> o[i] == (entries[i].0, value::json_of(entries[i].1))),
        value::value_of(JsonView::String(s)) == WireView::String(s),
        value::value_of(JsonView::Bool(b)) == WireView::Bool(b),
        value::value_of(JsonView::Null) == WireView::String(seq![]),
        value::value_of(JsonView::Array(documents)) matches WireView::List(a) && a.len() == documents.len() && (0 <= i
            < documents.len() ==> a[i] == value::value_of(documents[i])),
        value::value_of(JsonView::Object(members)) matches WireView::Mapping(o) && o.len() == members.len() && (0 <= i
            < members.len() ==> o[i] == (members[i].0, value::value_of(members[i].1))),
{
    lemma_written(items, i);
    lemma_entries_written(entries, i);
    lemma_read(documents, i);
    lemma_members_read(members, i);
}

proof fn lemma_written(items: Seq<WireView>, i: int)
    ensures
        value::array_of(items).len() == items.len(),
        0 <= i < items.len() ==> value::array_of(items)[i] == value::json_of(items[i]),
    decreases items.len(),
{
    if items.len() > 0 {
        lemma_written(items.subrange(0, items.len() - 1), i);
    }
}

proof fn lemma_entries_written(entries: Seq<(Seq<char>, WireView)>, i: int)
    ensures
        value::object_of(entries).len() == entries.len(),
        0 <= i < entries.len() ==> value::object_of(entries)[i] == (entries[i].0, value::json_of(entries[i].1)),
    decreases entries.len(),
{
    if entries.len() > 0 {
        lemma_entries_written(entries.subrange(0, entries.len() - 1), i);
    }
}

proof fn lemma_read(items: Seq<JsonView>, i: int)
    ensures
        value::list_of(items).len() == items.len(),
        0 <= i < items.len() ==> value::list_of(items)[i] == value::value_of(items[i]),
    decreases items.len(),
{
    if items.len() > 0 {
        lemma_read(items.subrange(0, items.len() - 1), i);
    }
}

proof fn lemma_members_read(members: Seq<(Seq<char>, JsonView)>, i: int)
    ensures
        value::map_of(members).len() == members.len(),
        0 <= i < members.len() ==> value::map_of(members)[i] == (members[i].0, value::value_of(members[i].1)),
    decreases members.len(),
{
    if members.len() > 0 {
        lemma_members_read(members.subrange(0, members.len() - 1), i);
    }
}

/// A number with a fraction is written as it is where it is finite, and as null
/// else. A whole number that fits is read as one, and one that is too large as the
/// nearest number with a fraction.
pub proof fn law_numbers_are_written_and_read(f: Float, n: u64, i: i64)
    ensures
        dsl_value::float_finite(f) ==> value::json_of(WireView::Float(f)) == JsonView::Number(JsonNumber::Float(f)),
        !dsl_value::float_finite(f) ==> value::json_of(WireView::Float(f)) == JsonView::Null,
        value::value_of(JsonView::Number(JsonNumber::Float(f))) == WireView::Float(f),
        n <= i64::MAX ==> value::value_of(JsonView::Number(JsonNumber::PosInt(n))) == WireView::Int(n as i64),
        n > i64::MAX ==> value::value_of(JsonView::Number(JsonNumber::PosInt(n))) == WireView::Float(
            dsl_value::nearest_float(n),
        ),
        value::value_of(JsonView::Number(JsonNumber::NegInt(i))) == WireView::Int(i),
{
}

/// What the spellings of enums do to a value: nothing, underscores for hyphens, a
/// suffix less, or another spelling from a table. What a spelling does not speak of
/// stays, and so does everything under one that is not known.
pub proof fn law_spellings_change_values(
    s: Seq<char>,
    suffix: Seq<char>,
    table: Seq<(Seq<char>, Seq<char>)>,
    j: JsonView,
)
    ensures
        transform::transformed(TransformView::Identity, s) == s,
        transform::transformed(TransformView::Unknown(j), s) == s,
        transform::transformed(TransformView::HyphenToUnderscore, s) == text::swapped(s, '-', '_'),
        transform::transformed(TransformView::StripSuffix(suffix), s + suffix) == s,
        !text::finishes_with(s, suffix) ==> transform::transformed(TransformView::StripSuffix(suffix), s) == s,
        keyed::lookup(table, s) is None ==> transform::transformed(TransformView::ReplaceTable(table), s) == s,
        keyed::lookup(table, s) matches Some(other) ==> transform::transformed(TransformView::ReplaceTable(table), s)
            == other,
{
    let whole = s + suffix;
    assert(whole.subrange(whole.len() - suffix.len(), whole.len() as int) =~= suffix);
    assert(text::finishes_with(whole, suffix));
    assert(whole.take(whole.len() - suffix.len()) =~= s);
}

/// An error is internal and says no more than its message, until more is said of it.
pub proof fn law_errors_are_built_step_by_step(message: Seq<char>, e: ErrorView, cause: Seq<char>, id: IdView)
    ensures
        ErrorView::new(message).kind == ProviderErrorKind::Internal,
        ErrorView::new(message).message == message,
        ErrorView::new(message).resource_id is None && ErrorView::new(message).cause is None,
        e.with_cause(cause).cause == Some(cause) && (ErrorView { cause: e.cause, ..e.with_cause(cause) }) == e,
        e.for_resource(id).resource_id == Some(id) && (ErrorView { resource_id: e.resource_id, ..e.for_resource(id) }) == e,
        e.timeout().kind == ProviderErrorKind::Timeout && (ErrorView { kind: e.kind, ..e.timeout() }) == e,
{
}

/// A provider that does not name a version of the protocol speaks the one before
/// the first, and one that lists no capabilities has none.
pub proof fn law_versions_are_read(m: Seq<(Seq<char>, JsonView)>, n: u32)
    ensures
        keyed::lookup(m, "protocol_version"@) is None ==> wire::version_of(JsonView::Object(m)) == Some(0nat),
        keyed::lookup(m, "protocol_version"@) == Some(JsonView::Number(JsonNumber::PosInt(n as u64))) ==> wire::version_of(
            JsonView::Object(m),
        ) == Some(n as nat),
        keyed::lookup(m, "capabilities"@) is None ==> (wire::info_of(JsonView::Object(m)) matches Some(i) ==> i.capabilities
            == Seq::<Seq<char>>::empty()),
{
}

/// A provider that is ready says so with the version of the protocol that it speaks.
pub proof fn law_ready_names_the_version()
    ensures
        json::view_member(jsonrpc::ready_params(), "protocol_version"@) == Some(
            fields::number_json(protocol::PROTOCOL_VERSION as nat),
        ),
{
    reveal_with_fuel(keyed::index_from, 2);
}

} // verus!
