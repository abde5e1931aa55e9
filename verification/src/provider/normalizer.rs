//! What happens to resources before a plan is made: enum identifiers get their
//! full form, and attributes that a read did not return are restored.
use vstd::prelude::*;
use vstd::string::*;

use crate::enums;
use crate::keyed;
use crate::resource::{Resource, ResourceId, ResourceView, State, StateView, IdView};
use crate::resource;
use crate::schema;
use crate::schema::{AttrView, AttributeSchema, AttributeType, FieldView, SchemaView, StructField, ToDsl, ToDslView, TypeView};
use crate::schemas::registry;
use crate::text;
use crate::value;
use crate::value::{DslValue, ValueView};

verus! {

/// The full form of a value of an enum: a bare identifier, one behind the name
/// of the enum and a string without dots get the namespace; all else stays.
pub open spec fn resolved_enum(
    v: ValueView,
    name: Seq<char>,
    namespace: Seq<char>,
    form: Option<ToDslView>,
) -> ValueView {
    match v {
        ValueView::UnresolvedIdent(ident, None) => ValueView::String(
            enums::qualified(namespace, name, schema::spelled(form, ident)),
        ),
        ValueView::UnresolvedIdent(ident, Some(member)) => if ident == name {
            ValueView::String(enums::qualified(namespace, name, schema::spelled(form, member)))
        } else {
            v
        },
        ValueView::String(s) => if text::holds(s, "."@) {
            v
        } else {
            ValueView::String(enums::qualified(namespace, name, schema::spelled(form, s)))
        },
        _ => v,
    }
}

/// The first field from `i` on with a name.
pub open spec fn field_from(fields: Seq<FieldView>, name: Seq<char>, i: int) -> Option<FieldView>
    decreases fields.len() - i,
{
    if i < 0 || i >= fields.len() {
        None
    } else if fields[i].name == name {
        Some(fields[i])
    } else {
        field_from(fields, name, i + 1)
    }
}

/// The value of a field, in full form where the field is an enum with a namespace.
pub open spec fn resolved_field(fields: Seq<FieldView>, key: Seq<char>, v: ValueView) -> ValueView {
    match field_from(fields, key, 0) {
        Some(f) => match schema::namespaced(f.field_type) {
            Some((name, ns, form)) => resolved_enum(v, name, ns, form),
            None => v,
        },
        None => v,
    }
}

/// A struct, or a list of structs, with the enum fields in full form.
pub open spec fn resolved_struct(v: ValueView, fields: Seq<FieldView>) -> ValueView
    decreases v,
{
    match v {
        ValueView::List(items) => ValueView::List(resolved_items(items, fields)),
        ValueView::Mapping(entries) => ValueView::Mapping(
            Seq::new(entries.len(), |i: int| (entries[i].0, resolved_field(fields, entries[i].0, entries[i].1))),
        ),
        _ => v,
    }
}

/// Each item with the enum fields in full form.
pub open spec fn resolved_items(items: Seq<ValueView>, fields: Seq<FieldView>) -> Seq<ValueView>
    decreases items,
{
    if items.len() == 0 {
        Seq::empty()
    } else {
        resolved_items(items.subrange(0, items.len() - 1), fields).push(
            resolved_struct(items[items.len() - 1], fields),
        )
    }
}

/// The fields of a struct type or of a list of structs.
pub open spec fn struct_fields(t: TypeView) -> Option<Seq<FieldView>> {
    match t {
        TypeView::List { inner, ordered } => own_fields(*inner),
        _ => own_fields(t),
    }
}

/// The fields of a struct type.
pub open spec fn own_fields(t: TypeView) -> Option<Seq<FieldView>> {
    match t {
        TypeView::Struct { name, fields } => Some(fields),
        _ => None,
    }
}

/// The value of an attribute with every enum value in full form.
pub open spec fn resolved_attribute(s: SchemaView, key: Seq<char>, v: ValueView) -> ValueView {
    match keyed::lookup(s.attributes, key) {
        Some(a) => match schema::namespaced(a.attr_type) {
            Some((name, ns, form)) => resolved_enum(v, name, ns, form),
            None => match struct_fields(a.attr_type) {
                Some(fields) => resolved_struct(v, fields),
                None => v,
            },
        },
        None => v,
    }
}

/// The attributes with every enum value in full form.
pub open spec fn resolved_attributes(s: SchemaView, attributes: Seq<(Seq<char>, ValueView)>) -> Seq<
    (Seq<char>, ValueView),
> {
    Seq::new(attributes.len(), |i: int| (attributes[i].0, resolved_attribute(s, attributes[i].0, attributes[i].1)))
}

/// A resource with every enum value in full form, where its type is known.
pub open spec fn resolved_resource(r: ResourceView) -> ResourceView {
    match registry::config_of(r.id.resource_type) {
        Some(c) => ResourceView { attributes: resolved_attributes(c.schema, r.attributes), ..r },
        None => r,
    }
}

fn full_form(name: &str, namespace: &str, form: &Option<ToDsl>, raw: &str) -> (r: DslValue)
    ensures
        r@ == ValueView::String(enums::qualified(namespace@, name@, schema::spelled(schema::opt_form(*form), raw@))),
{
    let dsl = schema::spell(form, raw);
    DslValue::String(enums::qualify(namespace, name, dsl.as_str()))
}

fn resolve_enum(v: &DslValue, name: &str, namespace: &str, form: &Option<ToDsl>) -> (r: DslValue)
    ensures
        r@ == resolved_enum(v@, name@, namespace@, schema::opt_form(*form)),
{
    match v {
        DslValue::UnresolvedIdent(ident, None) => full_form(name, namespace, form, ident.as_str()),
        DslValue::UnresolvedIdent(ident, Some(member)) => if text::same(ident.as_str(), name) {
            full_form(name, namespace, form, member.as_str())
        } else {
            v.clone()
        },
        DslValue::String(s) => if text::contains(s.as_str(), ".") {
            v.clone()
        } else {
            full_form(name, namespace, form, s.as_str())
        },
        _ => v.clone(),
    }
}

fn resolve_field(fields: &Vec<StructField>, key: &str, v: &DslValue) -> (r: DslValue)
    ensures
        r@ == resolved_field(schema::fields_view(fields@), key@, v@),
{
    let ghost all = schema::fields_view(fields@);
    proof {
        schema::lemma_fields(fields@);
    }
    let mut i: usize = 0;
    while i < fields.len()
        invariant
            i <= fields.len(),
            all.len() == fields.len(),
            all == schema::fields_view(fields@),
            forall|k: int| 0 <= k < all.len() ==> #[trigger] all[k] == schema::field_view(fields@[k]),
            field_from(all, key@, 0) == field_from(all, key@, i as int),
        decreases fields.len() - i,
    {
        assert(all[i as int] == fields@[i as int]@);
        if text::same(fields[i].name.as_str(), key) {
            return match fields[i].field_type.namespaced_enum_parts() {
                Some((name, ns, form)) => resolve_enum(v, name, ns, form),
                None => v.clone(),
            };
        }
        i = i + 1;
    }
    v.clone()
}

/// A struct, or a list of structs, with the enum fields in full form.
pub fn resolve_struct_enum_values(v: &DslValue, fields: &Vec<StructField>) -> (r: DslValue)
    ensures
        r@ == resolved_struct(v@, schema::fields_view(fields@)),
    decreases v,
{
    match v {
        DslValue::List(items) => DslValue::List(resolve_items(items, fields)),
        DslValue::Mapping(entries) => DslValue::Mapping(resolve_entries(entries, fields)),
        _ => v.clone(),
    }
}

fn resolve_items(items: &Vec<DslValue>, fields: &Vec<StructField>) -> (r: Vec<DslValue>)
    ensures
        value::values_view(r@) == resolved_items(value::values_view(items@), schema::fields_view(fields@)),
    decreases items@,
{
    let mut out: Vec<DslValue> = Vec::new();
    let mut i: usize = 0;
    let ghost fs = schema::fields_view(fields@);
    while i < items.len()
        invariant
            i <= items.len(),
            fs == schema::fields_view(fields@),
            value::values_view(out@) == resolved_items(value::values_view(items@.take(i as int)), fs),
        decreases items.len() - i,
    {
        proof {
            value::lemma_next_value(items@, i as int);
            let all = value::values_view(items@.take(i + 1));
            assert(all.subrange(0, all.len() - 1) =~= value::values_view(items@.take(i as int)));
        }
        let v = resolve_struct_enum_values(&items[i], fields);
        proof {
            value::lemma_push_value(out@, v);
        }
        out.push(v);
        i = i + 1;
    }
    assert(items@.take(i as int) =~= items@);
    out
}

fn resolve_entries(entries: &Vec<(String, DslValue)>, fields: &Vec<StructField>) -> (r: Vec<(String, DslValue)>)
    ensures
        ({
            let m = value::entries_view(entries@);
            let fs = schema::fields_view(fields@);
            value::entries_view(r@) == Seq::new(m.len(), |i: int| (m[i].0, resolved_field(fs, m[i].0, m[i].1)))
        }),
{
    let mut out: Vec<(String, DslValue)> = Vec::new();
    let mut i: usize = 0;
    let ghost m = value::entries_view(entries@);
    let ghost fs = schema::fields_view(fields@);
    let ghost goal = Seq::new(m.len(), |i: int| (m[i].0, resolved_field(fs, m[i].0, m[i].1)));
    proof {
        value::lemma_entries(entries@);
    }
    assert(goal.take(0) =~= Seq::empty());
    while i < entries.len()
        invariant
            i <= entries.len(),
            m.len() == entries.len(),
            fs == schema::fields_view(fields@),
            goal == Seq::new(m.len(), |i: int| (m[i].0, resolved_field(fs, m[i].0, m[i].1))),
            forall|k: int| 0 <= k < m.len() ==> #[trigger] m[k] == (entries@[k].0@, value::value_view(entries@[k].1)),
            value::entries_view(out@) == goal.take(i as int),
        decreases entries.len() - i,
    {
        let e = (entries[i].0.clone(), resolve_field(fields, entries[i].0.as_str(), &entries[i].1));
        proof {
            assert(m[i as int] == (entries@[i as int].0@, entries@[i as int].1@));
            value::lemma_push_entry(out@, e);
            assert(goal.take(i + 1) =~= goal.take(i as int).push(goal[i as int]));
        }
        out.push(e);
        i = i + 1;
    }
    assert(goal.take(i as int) =~= goal);
    out
}

fn fields_of(t: &AttributeType) -> (r: Option<&Vec<StructField>>)
    ensures
        match r {
            Some(fields) => struct_fields(t@) == Some(schema::fields_view(fields@)),
            None => struct_fields(t@) is None,
        },
{
    match t {
        AttributeType::List { inner, ordered: _ } => own_fields_of(inner),
        _ => own_fields_of(t),
    }
}

fn own_fields_of(t: &AttributeType) -> (r: Option<&Vec<StructField>>)
    ensures
        match r {
            Some(fields) => own_fields(t@) == Some(schema::fields_view(fields@)),
            None => own_fields(t@) is None,
        },
{
    match t {
        AttributeType::Struct { name: _, fields } => Some(fields),
        _ => None,
    }
}

fn resolve_attribute(a: &AttributeSchema, v: &DslValue) -> (r: DslValue)
    ensures
        r@ == match schema::namespaced(a@.attr_type) {
            Some((name, ns, form)) => resolved_enum(v@, name, ns, form),
            None => match struct_fields(a@.attr_type) {
                Some(fields) => resolved_struct(v@, fields),
                None => v@,
            },
        },
{
    if let Some((name, ns, form)) = a.attr_type.namespaced_enum_parts() {
        return resolve_enum(v, name, ns, form);
    }
    match fields_of(&a.attr_type) {
        Some(fields) => resolve_struct_enum_values(v, fields),
        None => v.clone(),
    }
}

fn resolve_attributes(s: &schema::ResourceSchema, attributes: &Vec<(String, DslValue)>) -> (r: Vec<(String, DslValue)>)
    ensures
        value::entries_view(r@) == resolved_attributes(s@, value::entries_view(attributes@)),
{
    let mut out: Vec<(String, DslValue)> = Vec::new();
    let mut i: usize = 0;
    let ghost m = value::entries_view(attributes@);
    let ghost goal = resolved_attributes(s@, m);
    proof {
        value::lemma_entries(attributes@);
    }
    assert(goal.take(0) =~= Seq::empty());
    while i < attributes.len()
        invariant
            i <= attributes.len(),
            m.len() == attributes.len(),
            goal == resolved_attributes(s@, m),
            forall|k: int| 0 <= k < m.len() ==> #[trigger] m[k] == (attributes@[k].0@, value::value_view(attributes@[k].1)),
            value::entries_view(out@) == goal.take(i as int),
        decreases attributes.len() - i,
    {
        let key = attributes[i].0.as_str();
        let v = match s.get(key) {
            Some(a) => resolve_attribute(a, &attributes[i].1),
            None => attributes[i].1.clone(),
        };
        let e = (attributes[i].0.clone(), v);
        proof {
            assert(m[i as int] == (attributes@[i as int].0@, attributes@[i as int].1@));
            value::lemma_push_entry(out@, e);
            assert(goal.take(i + 1) =~= goal.take(i as int).push(goal[i as int]));
        }
        out.push(e);
        i = i + 1;
    }
    assert(goal.take(i as int) =~= goal);
    out
}

/// Every enum value of a resource in full form, where its type is known.
pub fn resolve_resource(list: &Vec<schema::AwsccSchemaConfig>, r: &mut Resource)
    requires
        registry::configs_view(list@) == registry::all_configs(),
    ensures
        final(r)@ == resolved_resource(old(r)@),
{
    if let Some(c) = registry::find_config(list, r.id.resource_type.as_str()) {
        let attributes = resolve_attributes(&c.schema, &r.attributes);
        r.attributes = attributes;
    }
}

/// The resources of this provider with every enum value in full form, by the
/// provider that their ids name.
pub open spec fn resolved_by_id(r: ResourceView) -> ResourceView {
    if r.id.provider == "awscc"@ {
        resolved_resource(r)
    } else {
        r
    }
}

/// Brings the enum values of the resources of this provider into full form, by
/// the provider that their ids name.
pub fn resolve_enum_identifiers_impl(resources: &mut Vec<Resource>)
    ensures
        resource::resources_view(final(resources)@) == resource::resources_view(old(resources)@).map_values(
            |r: ResourceView| resolved_by_id(r),
        ),
{
    let list = registry::configs();
    let ghost before = resource::resources_view(resources@);
    let n: usize = resources.len();
    let mut i: usize = 0;
    while i < n
        invariant
            i <= n,
            n == before.len(),
            resources.len() == n,
            registry::configs_view(list@) == registry::all_configs(),
            forall|k: int| 0 <= k < i ==> (#[trigger] resources@[k])@ == resolved_by_id(before[k]),
            forall|k: int| i <= k < n ==> (#[trigger] resources@[k])@ == before[k],
        decreases n - i,
    {
        if text::same(resources[i].id.provider.as_str(), "awscc") {
            resolve_resource(&list, &mut resources[i]);
        }
        i = i + 1;
    }
    assert(resource::resources_view(resources@) =~= before.map_values(|r: ResourceView| resolved_by_id(r)));
}

/// The attributes with those of the schema that they lack taken from elsewhere.
pub open spec fn carried(
    attributes: Seq<(Seq<char>, ValueView)>,
    from: Seq<(Seq<char>, ValueView)>,
    names: Seq<(Seq<char>, AttrView)>,
) -> Seq<(Seq<char>, ValueView)>
    decreases names.len(),
{
    if names.len() == 0 {
        attributes
    } else {
        let before = carried(attributes, from, names.drop_last());
        let name = names.last().0;
        match keyed::lookup(before, name) {
            Some(_) => before,
            None => match keyed::lookup(from, name) {
                Some(v) => keyed::set(before, name, v),
                None => before,
            },
        }
    }
}

/// Takes the attributes of the schema that are lacking from elsewhere.
pub fn carry_forward(
    attributes: &mut Vec<(String, DslValue)>,
    from: &Vec<(String, DslValue)>,
    s: &schema::ResourceSchema,
)
    ensures
        value::entries_view(final(attributes)@) == carried(
            value::entries_view(old(attributes)@),
            value::entries_view(from@),
            s@.attributes,
        ),
{
    let ghost start = value::entries_view(attributes@);
    let ghost source = value::entries_view(from@);
    let ghost names = s@.attributes;
    let mut i: usize = 0;
    while i < s.attributes.len()
        invariant
            i <= s.attributes.len(),
            names == schema::attributes_view(s.attributes@),
            source == value::entries_view(from@),
            value::entries_view(attributes@) == carried(start, source, names.take(i as int)),
        decreases s.attributes.len() - i,
    {
        proof {
            assert(names.take(i + 1).drop_last() =~= names.take(i as int));
            assert(names.take(i + 1).last() == names[i as int]);
        }
        let name = s.attributes[i].0.as_str();
        if !value::has_key(attributes, name) {
            if let Some(v) = value::get(from, name) {
                value::put(attributes, s.attributes[i].0.clone(), v.clone());
            }
        }
        i = i + 1;
    }
    assert(names.take(i as int) =~= names);
}

/// Attributes are carried exactly where they are lacking and the schema has them.
pub proof fn law_carried(
    attributes: Seq<(Seq<char>, ValueView)>,
    from: Seq<(Seq<char>, ValueView)>,
    names: Seq<(Seq<char>, AttrView)>,
    key: Seq<char>,
)
    ensures
        keyed::lookup(carried(attributes, from, names), key) == match keyed::lookup(attributes, key) {
            Some(v) => Some(v),
            None => if keyed::lookup(names, key) is Some {
                keyed::lookup(from, key)
            } else {
                None
            },
        },
    decreases names.len(),
{
    keyed::lemma_index_from(names, key, 0);
    if names.len() > 0 {
        let rest = names.drop_last();
        let name = names.last().0;
        law_carried(attributes, from, rest, key);
        keyed::lemma_index_from(rest, key, 0);
        if let Some(v) = keyed::lookup(from, name) {
            keyed::law_set_then_lookup(carried(attributes, from, rest), name, v, key);
        }
        if let Some(i) = keyed::index_from(rest, key, 0) {
            assert(names[i] == rest[i]);
        }
        if let Some(i) = keyed::index_from(names, key, 0) {
            if i < rest.len() {
                assert(names[i] == rest[i]);
            }
        }
    }
}

/// An attribute that is in full form stays as it is.
pub proof fn law_resolving_is_stable(s: SchemaView, key: Seq<char>, v: ValueView)
    ensures
        resolved_attribute(s, key, resolved_attribute(s, key, v)) == resolved_attribute(s, key, v),
{
    if let Some(a) = keyed::lookup(s.attributes, key) {
        match schema::namespaced(a.attr_type) {
            Some((name, ns, form)) => {
                lemma_full_form_stays(v, name, ns, form);
            },
            None => {
                if let Some(fields) = struct_fields(a.attr_type) {
                    lemma_struct_stays(v, fields);
                }
            },
        }
    }
}

proof fn lemma_full_form_stays(v: ValueView, name: Seq<char>, ns: Seq<char>, form: Option<ToDslView>)
    ensures
        resolved_enum(resolved_enum(v, name, ns, form), name, ns, form) == resolved_enum(v, name, ns, form),
{
    let r = resolved_enum(v, name, ns, form);
    if r != v {
        let q = r->String_0;
        reveal_strlit(".");
        assert(q.subrange(ns.len() as int, ns.len() as int + 1) =~= "."@);
        assert(text::stands_at(q, "."@, ns.len() as int));
    }
}

proof fn lemma_struct_stays(v: ValueView, fields: Seq<FieldView>)
    ensures
        resolved_struct(resolved_struct(v, fields), fields) == resolved_struct(v, fields),
    decreases v, 1nat,
{
    match v {
        ValueView::List(items) => {
            lemma_items_stay(items, fields);
        },
        ValueView::Mapping(entries) => {
            let once = resolved_struct(v, fields)->Mapping_0;
            let twice = resolved_struct(resolved_struct(v, fields), fields)->Mapping_0;
            assert forall|i: int| 0 <= i < entries.len() implies #[trigger] twice[i] == once[i] by {
                if let Some(f) = field_from(fields, entries[i].0, 0) {
                    if let Some((name, ns, form)) = schema::namespaced(f.field_type) {
                        lemma_full_form_stays(entries[i].1, name, ns, form);
                    }
                }
            }
            assert(twice =~= once);
        },
        _ => {},
    }
}

proof fn lemma_items_stay(items: Seq<ValueView>, fields: Seq<FieldView>)
    ensures
        resolved_items(resolved_items(items, fields), fields) == resolved_items(items, fields),
    decreases items, 0nat,
{
    if items.len() > 0 {
        let before = items.subrange(0, items.len() - 1);
        lemma_items_stay(before, fields);
        lemma_struct_stays(items[items.len() - 1], fields);
        let once = resolved_items(items, fields);
        assert(once.subrange(0, once.len() - 1) =~= resolved_items(before, fields));
    }
}

/// The first saved entry from `i` on of a resource.
pub open spec fn saved_from(saved: Seq<(ResourceId, Vec<(String, DslValue)>)>, id: IdView, i: int) -> Option<
    Seq<(Seq<char>, ValueView)>,
>
    decreases saved.len() - i,
{
    if i < 0 || i >= saved.len() {
        None
    } else if saved[i].0@ == id {
        Some(value::entries_view(saved[i].1@))
    } else {
        saved_from(saved, id, i + 1)
    }
}

/// A state of a resource of this provider that exists has the attributes that
/// the read did not return from those that were saved. Others stay.
pub open spec fn restored(
    id: IdView,
    state: StateView,
    saved: Option<Seq<(Seq<char>, ValueView)>>,
) -> StateView {
    if !state.exists || id.provider != "awscc"@ {
        state
    } else {
        match (registry::config_named(id.resource_type), saved) {
            (Some(c), Some(attrs)) => StateView {
                attributes: carried(state.attributes, attrs, c.schema.attributes),
                ..state
            },
            _ => state,
        }
    }
}

fn find_saved<'a>(saved: &'a Vec<(ResourceId, Vec<(String, DslValue)>)>, id: &ResourceId) -> (r: Option<
    &'a Vec<(String, DslValue)>,
>)
    ensures
        match r {
            Some(attrs) => saved_from(saved@, id@, 0) == Some(value::entries_view(attrs@)),
            None => saved_from(saved@, id@, 0) is None,
        },
{
    let mut i: usize = 0;
    while i < saved.len()
        invariant
            i <= saved.len(),
            saved_from(saved@, id@, 0) == saved_from(saved@, id@, i as int),
        decreases saved.len() - i,
    {
        if saved[i].0.same(id) {
            return Some(&saved[i].1);
        }
        i = i + 1;
    }
    None
}

/// Restores the attributes of one state that the read did not return.
pub fn restore_state(
    list: &Vec<schema::AwsccSchemaConfig>,
    id: &ResourceId,
    state: &mut State,
    saved: &Vec<(ResourceId, Vec<(String, DslValue)>)>,
)
    requires
        registry::configs_view(list@) == registry::all_configs(),
    ensures
        final(state)@ == restored(id@, old(state)@, saved_from(saved@, id@, 0)),
{
    if !state.exists || !text::same(id.provider.as_str(), "awscc") {
        return ;
    }
    if let Some(c) = registry::find_named(list, id.resource_type.as_str()) {
        if let Some(attrs) = find_saved(saved, id) {
            carry_forward(&mut state.attributes, attrs, &c.schema);
        }
    }
}

/// Restores the attributes of the states of this provider that the reads did
/// not return from those that were saved.
pub fn restore_unreturned_attrs_impl(
    current_states: &mut Vec<(ResourceId, State)>,
    saved_attrs: &Vec<(ResourceId, Vec<(String, DslValue)>)>,
)
    ensures
        final(current_states)@.len() == old(current_states)@.len(),
        forall|i: int|
            0 <= i < old(current_states)@.len() ==> {
                let was = #[trigger] old(current_states)@[i];
                let is = final(current_states)@[i];
                &&& is.0@ == was.0@
                &&& is.1@ == restored(was.0@, was.1@, saved_from(saved_attrs@, was.0@, 0))
            },
{
    let list = registry::configs();
    let ghost before = current_states@;
    let n: usize = current_states.len();
    let mut i: usize = 0;
    while i < n
        invariant
            i <= n,
            n == before.len(),
            current_states.len() == n,
            registry::configs_view(list@) == registry::all_configs(),
            forall|k: int|
                0 <= k < i ==> {
                    let was = #[trigger] before[k];
                    let is = current_states@[k];
                    &&& is.0@ == was.0@
                    &&& is.1@ == restored(was.0@, was.1@, saved_from(saved_attrs@, was.0@, 0))
                },
            forall|k: int| i <= k < n ==> #[trigger] current_states@[k] == before[k],
        decreases n - i,
    {
        let id = current_states[i].0.clone();
        assert(id@ == before[i as int].0@);
        restore_state(&list, &id, &mut current_states[i].1, saved_attrs);
        i = i + 1;
    }
}

} // verus!
