//! Schemas of resource types as they cross the boundary, and their JSON.
use vstd::prelude::*;
use vstd::string::*;

use crate::json;
use crate::json::{Json, JsonNumber, JsonView};
use crate::keyed;
use crate::protocol::fields;
use crate::protocol::transform;
use crate::protocol::transform::{DslTransform, TransformView};
use crate::text;

verus! {

/// The type of an attribute.
#[derive(Debug, PartialEq)]
#[allow(inconsistent_fields)]
pub enum AttributeType {
    String,
    Int,
    Float,
    Bool,
    /// A span of time, which a provider gets as seconds.
    Duration,
    StringEnum {
        values: Vec<String>,
        name: String,
        namespace: Option<String>,
        /// The provider's spelling of a value and that of the configuration
        /// language, for every value for which they differ.
        dsl_aliases: Vec<(String, String)>,
    },
    List { inner: Box<AttributeType>, ordered: bool },
    Mapping { inner: Box<AttributeType>, key: Box<AttributeType> },
    Struct { name: String, fields: Vec<StructField> },
    Union { members: Vec<AttributeType> },
    /// A string of a form of its own.
    Custom {
        name: String,
        base: Box<AttributeType>,
        pattern: Option<String>,
        length: Option<(Option<u64>, Option<u64>)>,
    },
    /// A value that is written with a namespace.
    CustomEnum {
        name: String,
        base: Box<AttributeType>,
        namespace: String,
        dsl_transform: Option<DslTransform>,
    },
    /// One of the definitions of the resource type, by its name.
    Ref { name: String },
}

/// A field of a struct.
#[derive(Debug, PartialEq)]
pub struct StructField {
    pub name: String,
    pub field_type: AttributeType,
    pub required: bool,
    pub description: Option<String>,
    pub block_name: Option<String>,
    pub provider_name: Option<String>,
}

#[allow(inconsistent_fields)]
pub enum WireTypeView {
    String,
    Int,
    Float,
    Bool,
    Duration,
    StringEnum {
        values: Seq<Seq<char>>,
        name: Seq<char>,
        namespace: Option<Seq<char>>,
        dsl_aliases: Seq<(Seq<char>, Seq<char>)>,
    },
    List { inner: Box<WireTypeView>, ordered: bool },
    Mapping { inner: Box<WireTypeView>, key: Box<WireTypeView> },
    Struct { name: Seq<char>, fields: Seq<WireFieldView> },
    Union { members: Seq<WireTypeView> },
    Custom {
        name: Seq<char>,
        base: Box<WireTypeView>,
        pattern: Option<Seq<char>>,
        length: Option<(Option<u64>, Option<u64>)>,
    },
    CustomEnum {
        name: Seq<char>,
        base: Box<WireTypeView>,
        namespace: Seq<char>,
        dsl_transform: Option<TransformView>,
    },
    Ref { name: Seq<char> },
}

pub struct WireFieldView {
    pub name: Seq<char>,
    pub field_type: WireTypeView,
    pub required: bool,
    pub description: Option<Seq<char>>,
    pub block_name: Option<Seq<char>>,
    pub provider_name: Option<Seq<char>>,
}

pub open spec fn opt_transform(o: Option<DslTransform>) -> Option<TransformView> {
    match o {
        Some(t) => Some(t@),
        None => None,
    }
}

pub open spec fn type_view(t: AttributeType) -> WireTypeView
    decreases t,
{
    match t {
        AttributeType::String => WireTypeView::String,
        AttributeType::Int => WireTypeView::Int,
        AttributeType::Float => WireTypeView::Float,
        AttributeType::Bool => WireTypeView::Bool,
        AttributeType::Duration => WireTypeView::Duration,
        AttributeType::StringEnum { values, name, namespace, dsl_aliases } => WireTypeView::StringEnum {
            values: text::strings(values@),
            name: name@,
            namespace: text::opt_string(namespace),
            dsl_aliases: transform::pairs_view(dsl_aliases@),
        },
        AttributeType::List { inner, ordered } => WireTypeView::List { inner: Box::new(type_view(*inner)), ordered },
        AttributeType::Mapping { inner, key } => WireTypeView::Mapping {
            inner: Box::new(type_view(*inner)),
            key: Box::new(type_view(*key)),
        },
        AttributeType::Struct { name, fields } => WireTypeView::Struct { name: name@, fields: fields_view(fields@) },
        AttributeType::Union { members } => WireTypeView::Union { members: types_view(members@) },
        AttributeType::Custom { name, base, pattern, length } => WireTypeView::Custom {
            name: name@,
            base: Box::new(type_view(*base)),
            pattern: text::opt_string(pattern),
            length,
        },
        AttributeType::CustomEnum { name, base, namespace, dsl_transform } => WireTypeView::CustomEnum {
            name: name@,
            base: Box::new(type_view(*base)),
            namespace: namespace@,
            dsl_transform: opt_transform(dsl_transform),
        },
        AttributeType::Ref { name } => WireTypeView::Ref { name: name@ },
    }
}

pub open spec fn types_view(s: Seq<AttributeType>) -> Seq<WireTypeView>
    decreases s,
{
    if s.len() == 0 {
        Seq::empty()
    } else {
        types_view(s.subrange(0, s.len() - 1)).push(type_view(s[s.len() - 1]))
    }
}

pub open spec fn field_view(f: StructField) -> WireFieldView
    decreases f,
{
    WireFieldView {
        name: f.name@,
        field_type: type_view(f.field_type),
        required: f.required,
        description: text::opt_string(f.description),
        block_name: text::opt_string(f.block_name),
        provider_name: text::opt_string(f.provider_name),
    }
}

pub open spec fn fields_view(s: Seq<StructField>) -> Seq<WireFieldView>
    decreases s,
{
    if s.len() == 0 {
        Seq::empty()
    } else {
        fields_view(s.subrange(0, s.len() - 1)).push(field_view(s[s.len() - 1]))
    }
}

impl View for AttributeType {
    type V = WireTypeView;

    open spec fn view(&self) -> WireTypeView {
        type_view(*self)
    }
}

impl View for StructField {
    type V = WireFieldView;

    open spec fn view(&self) -> WireFieldView {
        field_view(*self)
    }
}

proof fn lemma_push_type(s: Seq<AttributeType>, t: AttributeType)
    ensures
        types_view(s.push(t)) == types_view(s).push(type_view(t)),
{
    assert(s.push(t).subrange(0, s.len() as int) =~= s);
}

proof fn lemma_push_field(s: Seq<StructField>, f: StructField)
    ensures
        fields_view(s.push(f)) == fields_view(s).push(field_view(f)),
{
    assert(s.push(f).subrange(0, s.len() as int) =~= s);
}

/// The JSON of a bound: null where there is none.
pub open spec fn bound_json(o: Option<u64>) -> JsonView {
    match o {
        Some(n) => fields::number_json(n as nat),
        None => JsonView::Null,
    }
}

/// The JSON of bounds on a length, where there are any.
pub open spec fn length_json(o: Option<(Option<u64>, Option<u64>)>) -> Option<JsonView> {
    match o {
        Some((low, high)) => Some(JsonView::Array(Seq::empty().push(bound_json(low)).push(bound_json(high)))),
        None => None,
    }
}

/// The JSON of a transform, where there is one.
pub open spec fn opt_transform_json(o: Option<TransformView>) -> Option<JsonView> {
    match o {
        Some(t) => Some(transform::json_of(t)),
        None => None,
    }
}

/// The JSON of a table, where it is not empty.
pub open spec fn aliases_json(table: Seq<(Seq<char>, Seq<char>)>) -> Option<JsonView> {
    if table.len() == 0 {
        None
    } else {
        Some(JsonView::Array(transform::table_json(table)))
    }
}

/// The JSON of a type: an object with a tag.
pub open spec fn type_json(t: WireTypeView) -> JsonView
    decreases t,
{
    match t {
        WireTypeView::String => JsonView::Object(transform::tagged("String"@)),
        WireTypeView::Int => JsonView::Object(transform::tagged("Int"@)),
        WireTypeView::Float => JsonView::Object(transform::tagged("Float"@)),
        WireTypeView::Bool => JsonView::Object(transform::tagged("Bool"@)),
        WireTypeView::Duration => JsonView::Object(transform::tagged("Duration"@)),
        WireTypeView::StringEnum { values, name, namespace, dsl_aliases } => JsonView::Object(
            fields::with_some(
                fields::with_some(
                    transform::tagged("string_enum"@)
                        .push(("values"@, JsonView::Array(fields::texts_json(values))))
                        .push(("name"@, JsonView::String(name))),
                    "namespace"@,
                    fields::some_text(namespace),
                ),
                "dsl_aliases"@,
                aliases_json(dsl_aliases),
            ),
        ),
        WireTypeView::List { inner, ordered } => JsonView::Object(
            transform::tagged("list"@).push(("inner"@, type_json(*inner))).push(("ordered"@, JsonView::Bool(ordered))),
        ),
        WireTypeView::Mapping { inner, key } => JsonView::Object(
            transform::tagged("map"@).push(("inner"@, type_json(*inner))).push(("key"@, type_json(*key))),
        ),
        WireTypeView::Struct { name, fields } => JsonView::Object(
            transform::tagged("struct"@)
                .push(("name"@, JsonView::String(name)))
                .push(("fields"@, JsonView::Array(fields_json(fields)))),
        ),
        WireTypeView::Union { members } => JsonView::Object(
            transform::tagged("union"@).push(("members"@, JsonView::Array(types_json(members)))),
        ),
        WireTypeView::Custom { name, base, pattern, length } => JsonView::Object(
            fields::with_some(
                fields::with_some(
                    transform::tagged("custom"@)
                        .push(("name"@, JsonView::String(name)))
                        .push(("base"@, type_json(*base))),
                    "pattern"@,
                    fields::some_text(pattern),
                ),
                "length"@,
                length_json(length),
            ),
        ),
        WireTypeView::CustomEnum { name, base, namespace, dsl_transform } => JsonView::Object(
            fields::with_some(
                transform::tagged("custom_enum"@)
                    .push(("name"@, JsonView::String(name)))
                    .push(("base"@, type_json(*base)))
                    .push(("namespace"@, JsonView::String(namespace))),
                "dsl_transform"@,
                opt_transform_json(dsl_transform),
            ),
        ),
        WireTypeView::Ref { name } => JsonView::Object(
            transform::tagged("ref"@).push(("name"@, JsonView::String(name))),
        ),
    }
}

pub open spec fn types_json(s: Seq<WireTypeView>) -> Seq<JsonView>
    decreases s,
{
    if s.len() == 0 {
        Seq::empty()
    } else {
        types_json(s.subrange(0, s.len() - 1)).push(type_json(s[s.len() - 1]))
    }
}

/// The JSON of a field.
pub open spec fn field_json(f: WireFieldView) -> JsonView
    decreases f,
{
    JsonView::Object(
        fields::with_some(
            fields::with_some(
                Seq::empty()
                    .push(("name"@, JsonView::String(f.name)))
                    .push(("field_type"@, type_json(f.field_type)))
                    .push(("required"@, JsonView::Bool(f.required)))
                    .push(("description"@, fields::text_or_null(f.description))),
                "block_name"@,
                fields::some_text(f.block_name),
            ),
            "provider_name"@,
            fields::some_text(f.provider_name),
        ),
    )
}

pub open spec fn fields_json(s: Seq<WireFieldView>) -> Seq<JsonView>
    decreases s,
{
    if s.len() == 0 {
        Seq::empty()
    } else {
        fields_json(s.subrange(0, s.len() - 1)).push(field_json(s[s.len() - 1]))
    }
}

fn make_bound(o: Option<u64>) -> (r: Json)
    ensures
        r@ == bound_json(o),
{
    match o {
        Some(n) => Json::Number(JsonNumber::PosInt(n)),
        None => Json::Null,
    }
}

fn put_length(members: &mut Vec<(String, Json)>, o: &Option<(Option<u64>, Option<u64>)>)
    ensures
        json::object_view(final(members)@) == fields::with_some(
            json::object_view(old(members)@),
            "length"@,
            length_json(*o),
        ),
{
    if let Some((low, high)) = o {
        let mut items: Vec<Json> = Vec::new();
        let a = make_bound(*low);
        let b = make_bound(*high);
        proof {
            json::lemma_push_item(items@, a);
            json::lemma_push_item(items@.push(a), b);
        }
        items.push(a);
        items.push(b);
        fields::put(members, "length", Json::Array(items));
    }
}

fn put_aliases(members: &mut Vec<(String, Json)>, table: &Vec<(String, String)>)
    ensures
        json::object_view(final(members)@) == fields::with_some(
            json::object_view(old(members)@),
            "dsl_aliases"@,
            aliases_json(transform::pairs_view(table@)),
        ),
{
    if table.len() > 0 {
        fields::put(members, "dsl_aliases", Json::Array(transform::make_table(table)));
    }
}

impl AttributeType {
    /// The JSON of the type.
    pub fn to_json(&self) -> (r: Json)
        ensures
            r@ == type_json(self@),
    {
        type_to_json(self)
    }
}

fn type_to_json(t: &AttributeType) -> (r: Json)
    ensures
        r@ == type_json(t@),
    decreases t,
{
    match t {
        AttributeType::String => Json::Object(transform::make_tagged("String")),
        AttributeType::Int => Json::Object(transform::make_tagged("Int")),
        AttributeType::Float => Json::Object(transform::make_tagged("Float")),
        AttributeType::Bool => Json::Object(transform::make_tagged("Bool")),
        AttributeType::Duration => Json::Object(transform::make_tagged("Duration")),
        AttributeType::StringEnum { values, name, namespace, dsl_aliases } => {
            let mut m = transform::make_tagged("string_enum");
            fields::put(&mut m, "values", Json::Array(fields::make_texts(values)));
            fields::put(&mut m, "name", Json::String(name.clone()));
            fields::put_some_text(&mut m, "namespace", namespace);
            put_aliases(&mut m, dsl_aliases);
            Json::Object(m)
        },
        AttributeType::List { inner, ordered } => {
            let mut m = transform::make_tagged("list");
            fields::put(&mut m, "inner", type_to_json(inner));
            fields::put(&mut m, "ordered", Json::Bool(*ordered));
            Json::Object(m)
        },
        AttributeType::Mapping { inner, key } => {
            let mut m = transform::make_tagged("map");
            fields::put(&mut m, "inner", type_to_json(inner));
            fields::put(&mut m, "key", type_to_json(key));
            Json::Object(m)
        },
        AttributeType::Struct { name, fields: list } => {
            let mut m = transform::make_tagged("struct");
            fields::put(&mut m, "name", Json::String(name.clone()));
            fields::put(&mut m, "fields", Json::Array(fields_to_json(list)));
            Json::Object(m)
        },
        AttributeType::Union { members } => {
            let mut m = transform::make_tagged("union");
            fields::put(&mut m, "members", Json::Array(types_to_json(members)));
            Json::Object(m)
        },
        AttributeType::Custom { name, base, pattern, length } => {
            let mut m = transform::make_tagged("custom");
            fields::put(&mut m, "name", Json::String(name.clone()));
            fields::put(&mut m, "base", type_to_json(base));
            fields::put_some_text(&mut m, "pattern", pattern);
            put_length(&mut m, length);
            Json::Object(m)
        },
        AttributeType::CustomEnum { name, base, namespace, dsl_transform } => {
            let mut m = transform::make_tagged("custom_enum");
            fields::put(&mut m, "name", Json::String(name.clone()));
            fields::put(&mut m, "base", type_to_json(base));
            fields::put(&mut m, "namespace", Json::String(namespace.clone()));
            if let Some(f) = dsl_transform {
                fields::put(&mut m, "dsl_transform", f.to_json());
            }
            Json::Object(m)
        },
        AttributeType::Ref { name } => {
            let mut m = transform::make_tagged("ref");
            fields::put(&mut m, "name", Json::String(name.clone()));
            Json::Object(m)
        },
    }
}

fn types_to_json(list: &Vec<AttributeType>) -> (r: Vec<Json>)
    ensures
        json::array_view(r@) == types_json(types_view(list@)),
    decreases list@,
{
    let mut out: Vec<Json> = Vec::new();
    let mut i: usize = 0;
    while i < list.len()
        invariant
            i <= list.len(),
            json::array_view(out@) == types_json(types_view(list@.take(i as int))),
        decreases list.len() - i,
    {
        proof {
            assert(list@.take(i + 1) =~= list@.take(i as int).push(list@[i as int]));
            lemma_push_type(list@.take(i as int), list@[i as int]);
            let all = types_view(list@.take(i + 1));
            assert(all.subrange(0, all.len() - 1) =~= types_view(list@.take(i as int)));
        }
        let j = type_to_json(&list[i]);
        proof {
            json::lemma_push_item(out@, j);
        }
        out.push(j);
        i = i + 1;
    }
    assert(list@.take(i as int) =~= list@);
    out
}

fn field_to_json(f: &StructField) -> (r: Json)
    ensures
        r@ == field_json(f@),
    decreases f,
{
    let mut m: Vec<(String, Json)> = Vec::new();
    fields::put(&mut m, "name", Json::String(f.name.clone()));
    fields::put(&mut m, "field_type", type_to_json(&f.field_type));
    fields::put(&mut m, "required", Json::Bool(f.required));
    fields::put(&mut m, "description", fields::make_text_or_null(&f.description));
    fields::put_some_text(&mut m, "block_name", &f.block_name);
    fields::put_some_text(&mut m, "provider_name", &f.provider_name);
    Json::Object(m)
}

fn fields_to_json(list: &Vec<StructField>) -> (r: Vec<Json>)
    ensures
        json::array_view(r@) == fields_json(fields_view(list@)),
    decreases list@,
{
    let mut out: Vec<Json> = Vec::new();
    let mut i: usize = 0;
    while i < list.len()
        invariant
            i <= list.len(),
            json::array_view(out@) == fields_json(fields_view(list@.take(i as int))),
        decreases list.len() - i,
    {
        proof {
            assert(list@.take(i + 1) =~= list@.take(i as int).push(list@[i as int]));
            lemma_push_field(list@.take(i as int), list@[i as int]);
            let all = fields_view(list@.take(i + 1));
            assert(all.subrange(0, all.len() - 1) =~= fields_view(list@.take(i as int)));
        }
        let j = field_to_json(&list[i]);
        proof {
            json::lemma_push_item(out@, j);
        }
        out.push(j);
        i = i + 1;
    }
    assert(list@.take(i as int) =~= list@);
    out
}

/// A bound that a document stands for.
pub open spec fn bound_of(j: JsonView) -> Option<Option<u64>> {
    match j {
        JsonView::Null => Some(None),
        JsonView::Number(JsonNumber::PosInt(n)) => Some(Some(n)),
        _ => None,
    }
}

/// The bounds on a length, where they are there and not null.
pub open spec fn length_of(j: JsonView) -> Option<Option<(Option<u64>, Option<u64>)>> {
    match fields::at(j, 4, "length"@) {
        None => Some(None),
        Some(JsonView::Null) => Some(None),
        Some(JsonView::Array(items)) => if items.len() == 2 {
            match (bound_of(items[0]), bound_of(items[1])) {
                (Some(low), Some(high)) => Some(Some((low, high))),
                _ => None,
            }
        } else {
            None
        },
        Some(_) => None,
    }
}

/// The aliases, none where they are missing.
pub open spec fn aliases_of(j: JsonView) -> Option<Seq<(Seq<char>, Seq<char>)>> {
    match fields::at(j, 4, "dsl_aliases"@) {
        None => Some(Seq::empty()),
        Some(JsonView::Array(items)) => transform::pairs_of(items),
        Some(_) => None,
    }
}

/// The transform, where it is there and not null.
pub open spec fn transform_at(j: JsonView) -> Option<Option<TransformView>> {
    match fields::at(j, 4, "dsl_transform"@) {
        None => Some(None),
        Some(JsonView::Null) => Some(None),
        Some(m) => match transform::transform_of(m) {
            Ok(t) => Some(Some(t)),
            Err(_) => None,
        },
    }
}

/// A text, empty where it is missing.
pub open spec fn text_or_empty(j: JsonView, i: int, key: Seq<char>) -> Option<Seq<char>> {
    match fields::at(j, i, key) {
        None => Some(Seq::empty()),
        Some(JsonView::String(s)) => Some(s),
        Some(_) => None,
    }
}

/// A field of a document is smaller than the document.
pub proof fn lemma_member_is_smaller(j: JsonView, i: int, key: Seq<char>)
    ensures
        fields::at(j, i, key) matches Some(m) ==> decreases_to!(j => m),
{
    if let JsonView::Object(members) = j {
        keyed::lemma_index_from(members, key, 0);
    }
}

/// The tags of the types, in their order.
pub open spec fn tag_at(n: int) -> Option<Seq<char>> {
    let tags = Seq::empty()
        .push("String"@)
        .push("Int"@)
        .push("Float"@)
        .push("Bool"@)
        .push("Duration"@)
        .push("string_enum"@)
        .push("list"@)
        .push("map"@)
        .push("struct"@)
        .push("union"@)
        .push("custom"@)
        .push("custom_enum"@)
        .push("ref"@);
    if 0 <= n < tags.len() {
        Some(tags[n])
    } else {
        None
    }
}

/// The tag of a type: a text or, in a type that stands within another, also the
/// number of the tag.
pub open spec fn tag_of(j: JsonView, within: bool) -> Option<Seq<char>> {
    match fields::at(j, 0, "type"@) {
        Some(JsonView::String(s)) => Some(s),
        Some(JsonView::Number(JsonNumber::PosInt(n))) => if within {
            tag_at(n as int)
        } else {
            None
        },
        _ => None,
    }
}

/// The type that a field of a document stands for.
pub open spec fn type_at(j: JsonView, i: int, key: Seq<char>, within: bool) -> Option<WireTypeView>
    decreases j, 0nat,
{
    proof {
        lemma_member_is_smaller(j, i, key);
    }
    match fields::at(j, i, key) {
        Some(m) => type_of(m, within),
        None => None,
    }
}

/// The type that a document stands for, if it stands for one. Whether it stands
/// within another type says how its tag may be written.
pub open spec fn type_of(j: JsonView, within: bool) -> Option<WireTypeView>
    decreases j, 1nat,
{
    proof {
        lemma_member_is_smaller(j, 2, "fields"@);
        lemma_member_is_smaller(j, 1, "members"@);
    }
    let name = fields::need_text(j, 1, "name"@);
    match tag_of(j, within) {
        None => None,
        Some(tag) => if tag == "String"@ {
            unit_type(j, WireTypeView::String)
        } else if tag == "Int"@ {
            unit_type(j, WireTypeView::Int)
        } else if tag == "Float"@ {
            unit_type(j, WireTypeView::Float)
        } else if tag == "Bool"@ {
            unit_type(j, WireTypeView::Bool)
        } else if tag == "Duration"@ {
            unit_type(j, WireTypeView::Duration)
        } else if tag == "string_enum"@ {
            if fields::is_record(j, 2, 5) {
                match (
                    fields::need_texts(j, 1, "values"@),
                    text_or_empty(j, 2, "name"@),
                    fields::may_text(j, 3, "namespace"@),
                    aliases_of(j),
                ) {
                    (Some(values), Some(name), Some(namespace), Some(dsl_aliases)) => Some(
                        WireTypeView::StringEnum { values, name, namespace, dsl_aliases },
                    ),
                    _ => None,
                }
            } else {
                None
            }
        } else if tag == "list"@ {
            if fields::is_record(j, 2, 3) {
                match (type_at(j, 1, "inner"@, true), fields::bool_or(j, 2, "ordered"@, true)) {
                    (Some(inner), Some(ordered)) => Some(WireTypeView::List { inner: Box::new(inner), ordered }),
                    _ => None,
                }
            } else {
                None
            }
        } else if tag == "map"@ {
            if fields::is_record(j, 3, 3) {
                match (type_at(j, 1, "inner"@, true), type_at(j, 2, "key"@, true)) {
                    (Some(inner), Some(key)) => Some(
                        WireTypeView::Mapping { inner: Box::new(inner), key: Box::new(key) },
                    ),
                    _ => None,
                }
            } else {
                None
            }
        } else if tag == "struct"@ {
            if fields::is_record(j, 3, 3) {
                match (name, fields::at(j, 2, "fields"@)) {
                    (Some(name), Some(JsonView::Array(items))) => match fields_of(items) {
                        Some(fields) => Some(WireTypeView::Struct { name, fields }),
                        None => None,
                    },
                    _ => None,
                }
            } else {
                None
            }
        } else if tag == "union"@ {
            if fields::is_record(j, 2, 2) {
                match fields::at(j, 1, "members"@) {
                    Some(JsonView::Array(items)) => match types_of(items) {
                        Some(members) => Some(WireTypeView::Union { members }),
                        None => None,
                    },
                    _ => None,
                }
            } else {
                None
            }
        } else if tag == "custom"@ {
            if fields::is_record(j, 3, 5) {
                match (name, type_at(j, 2, "base"@, true), fields::may_text(j, 3, "pattern"@), length_of(j)) {
                    (Some(name), Some(base), Some(pattern), Some(length)) => Some(
                        WireTypeView::Custom { name, base: Box::new(base), pattern, length },
                    ),
                    _ => None,
                }
            } else {
                None
            }
        } else if tag == "custom_enum"@ {
            if fields::is_record(j, 4, 5) {
                match (name, type_at(j, 2, "base"@, true), fields::need_text(j, 3, "namespace"@), transform_at(j)) {
                    (Some(name), Some(base), Some(namespace), Some(dsl_transform)) => Some(
                        WireTypeView::CustomEnum { name, base: Box::new(base), namespace, dsl_transform },
                    ),
                    _ => None,
                }
            } else {
                None
            }
        } else if tag == "ref"@ {
            match name {
                Some(name) => if fields::is_record(j, 2, 2) {
                    Some(WireTypeView::Ref { name })
                } else {
                    None
                },
                None => None,
            }
        } else {
            None
        },
    }
}

/// A type without fields, where a document has the form of one.
pub open spec fn unit_type(j: JsonView, t: WireTypeView) -> Option<WireTypeView> {
    if fields::is_record(j, 1, 1) {
        Some(t)
    } else {
        None
    }
}

/// The types that documents stand for, where each stands for one.
pub open spec fn types_of(items: Seq<JsonView>) -> Option<Seq<WireTypeView>>
    decreases items, 0nat,
{
    if items.len() == 0 {
        Some(Seq::empty())
    } else {
        match (types_of(items.subrange(0, items.len() - 1)), type_of(items[items.len() - 1], true)) {
            (Some(before), Some(t)) => Some(before.push(t)),
            _ => None,
        }
    }
}

/// The field that a document stands for, if it stands for one.
pub open spec fn field_of(j: JsonView) -> Option<WireFieldView>
    decreases j, 1nat,
{
    if fields::is_record(j, 3, 6) {
        match (
            fields::need_text(j, 0, "name"@),
            type_at(j, 1, "field_type"@, true),
            fields::need_bool(j, 2, "required"@),
            fields::may_text(j, 3, "description"@),
            fields::may_text(j, 4, "block_name"@),
            fields::may_text(j, 5, "provider_name"@),
        ) {
            (Some(name), Some(field_type), Some(required), Some(description), Some(block_name), Some(provider_name)) => Some(
                WireFieldView { name, field_type, required, description, block_name, provider_name },
            ),
            _ => None,
        }
    } else {
        None
    }
}

/// The fields that documents stand for, where each stands for one.
pub open spec fn fields_of(items: Seq<JsonView>) -> Option<Seq<WireFieldView>>
    decreases items, 0nat,
{
    if items.len() == 0 {
        Some(Seq::empty())
    } else {
        match (fields_of(items.subrange(0, items.len() - 1)), field_of(items[items.len() - 1])) {
            (Some(before), Some(f)) => Some(before.push(f)),
            _ => None,
        }
    }
}

fn read_bound(j: &Json) -> (r: Option<Option<u64>>)
    ensures
        r == bound_of(j@),
{
    match j {
        Json::Null => Some(None),
        Json::Number(JsonNumber::PosInt(n)) => Some(Some(*n)),
        _ => None,
    }
}

fn read_length(j: &Json) -> (r: Option<Option<(Option<u64>, Option<u64>)>>)
    ensures
        r == length_of(j@),
{
    match fields::get_at(j, 4, "length") {
        None => Some(None),
        Some(Json::Null) => Some(None),
        Some(Json::Array(items)) => {
            proof {
                json::lemma_array(items@);
            }
            if items.len() == 2 {
                match (read_bound(&items[0]), read_bound(&items[1])) {
                    (Some(low), Some(high)) => Some(Some((low, high))),
                    _ => None,
                }
            } else {
                None
            }
        },
        Some(_) => None,
    }
}

fn read_aliases(j: &Json) -> (r: Option<Vec<(String, String)>>)
    ensures
        match r {
            Some(t) => aliases_of(j@) == Some(transform::pairs_view(t@)),
            None => aliases_of(j@) is None,
        },
{
    match fields::get_at(j, 4, "dsl_aliases") {
        None => {
            let out: Vec<(String, String)> = Vec::new();
            assert(transform::pairs_view(out@) =~= Seq::empty());
            Some(out)
        },
        Some(Json::Array(items)) => transform::read_table(items),
        Some(_) => None,
    }
}

fn read_transform(j: &Json) -> (r: Option<Option<DslTransform>>)
    ensures
        match r {
            Some(o) => transform_at(j@) == Some(opt_transform(o)),
            None => transform_at(j@) is None,
        },
{
    match fields::get_at(j, 4, "dsl_transform") {
        None => Some(None),
        Some(Json::Null) => Some(None),
        Some(m) => match DslTransform::from_json(m) {
            Ok(t) => Some(Some(t)),
            Err(_) => None,
        },
    }
}

fn read_text_or_empty(j: &Json, i: usize, key: &str) -> (r: Option<String>)
    ensures
        text::opt_string(r) == text_or_empty(j@, i as int, key@),
{
    match fields::get_at(j, i, key) {
        None => {
            proof {
                reveal_strlit("");
            }
            assert(""@ =~= Seq::<char>::empty());
            Some("".to_owned())
        },
        Some(Json::String(s)) => Some(s.clone()),
        Some(_) => None,
    }
}

/// The type that a field of a document stands for.
pub fn read_type_at(j: &Json, i: usize, key: &str, within: bool) -> (r: Option<AttributeType>)
    ensures
        match r {
            Some(t) => type_at(j@, i as int, key@, within) == Some(t@),
            None => type_at(j@, i as int, key@, within) is None,
        },
    decreases j@, 0nat,
{
    proof {
        lemma_member_is_smaller(j@, i as int, key@);
    }
    match fields::get_at(j, i, key) {
        Some(m) => type_from_json(m, within),
        None => None,
    }
}

fn number_tag(n: u64) -> (r: Option<&'static str>)
    ensures
        text::opt_slice(r) == tag_at(n as int),
{
    match n {
        0 => Some("String"),
        1 => Some("Int"),
        2 => Some("Float"),
        3 => Some("Bool"),
        4 => Some("Duration"),
        5 => Some("string_enum"),
        6 => Some("list"),
        7 => Some("map"),
        8 => Some("struct"),
        9 => Some("union"),
        10 => Some("custom"),
        11 => Some("custom_enum"),
        12 => Some("ref"),
        _ => None,
    }
}

fn read_tag(j: &Json, within: bool) -> (r: Option<&str>)
    ensures
        text::opt_slice(r) == tag_of(j@, within),
{
    match fields::get_at(j, 0, "type") {
        Some(Json::String(s)) => Some(s.as_str()),
        Some(Json::Number(JsonNumber::PosInt(n))) => if within {
            number_tag(*n)
        } else {
            None
        },
        _ => None,
    }
}

fn read_unit(j: &Json, t: AttributeType) -> (r: Option<AttributeType>)
    ensures
        match r {
            Some(u) => unit_type(j@, t@) == Some(u@),
            None => unit_type(j@, t@) is None,
        },
{
    if fields::has_record(j, 1, 1) {
        Some(t)
    } else {
        None
    }
}

fn type_from_json(j: &Json, within: bool) -> (r: Option<AttributeType>)
    ensures
        match r {
            Some(t) => type_of(j@, within) == Some(t@),
            None => type_of(j@, within) is None,
        },
    decreases j@, 1nat,
{
    let tag = match read_tag(j, within) {
        Some(s) => s,
        None => return None,
    };
    if text::same(tag, "String") {
        read_unit(j, AttributeType::String)
    } else if text::same(tag, "Int") {
        read_unit(j, AttributeType::Int)
    } else if text::same(tag, "Float") {
        read_unit(j, AttributeType::Float)
    } else if text::same(tag, "Bool") {
        read_unit(j, AttributeType::Bool)
    } else if text::same(tag, "Duration") {
        read_unit(j, AttributeType::Duration)
    } else if text::same(tag, "string_enum") {
        if !fields::has_record(j, 2, 5) {
            return None;
        }
        match (
            fields::get_need_texts(j, 1, "values"),
            read_text_or_empty(j, 2, "name"),
            fields::get_may_text(j, 3, "namespace"),
            read_aliases(j),
        ) {
            (Some(values), Some(name), Some(namespace), Some(dsl_aliases)) => Some(
                AttributeType::StringEnum { values, name, namespace, dsl_aliases },
            ),
            _ => None,
        }
    } else if text::same(tag, "list") {
        if !fields::has_record(j, 2, 3) {
            return None;
        }
        match (read_type_at(j, 1, "inner", true), fields::get_bool_or(j, 2, "ordered", true)) {
            (Some(inner), Some(ordered)) => Some(AttributeType::List { inner: Box::new(inner), ordered }),
            _ => None,
        }
    } else if text::same(tag, "map") {
        if !fields::has_record(j, 3, 3) {
            return None;
        }
        match (read_type_at(j, 1, "inner", true), read_type_at(j, 2, "key", true)) {
            (Some(inner), Some(key)) => Some(AttributeType::Mapping { inner: Box::new(inner), key: Box::new(key) }),
            _ => None,
        }
    } else if text::same(tag, "struct") {
        if !fields::has_record(j, 3, 3) {
            return None;
        }
        proof {
            lemma_member_is_smaller(j@, 2, "fields"@);
        }
        match (fields::get_need_text(j, 1, "name"), fields::get_at(j, 2, "fields")) {
            (Some(name), Some(Json::Array(items))) => match fields_from_json(items) {
                Some(fields) => Some(AttributeType::Struct { name, fields }),
                None => None,
            },
            _ => None,
        }
    } else if text::same(tag, "union") {
        if !fields::has_record(j, 2, 2) {
            return None;
        }
        proof {
            lemma_member_is_smaller(j@, 1, "members"@);
        }
        match fields::get_at(j, 1, "members") {
            Some(Json::Array(items)) => match types_from_json(items) {
                Some(members) => Some(AttributeType::Union { members }),
                None => None,
            },
            _ => None,
        }
    } else if text::same(tag, "custom") {
        if !fields::has_record(j, 3, 5) {
            return None;
        }
        match (
            fields::get_need_text(j, 1, "name"),
            read_type_at(j, 2, "base", true),
            fields::get_may_text(j, 3, "pattern"),
            read_length(j),
        ) {
            (Some(name), Some(base), Some(pattern), Some(length)) => Some(
                AttributeType::Custom { name, base: Box::new(base), pattern, length },
            ),
            _ => None,
        }
    } else if text::same(tag, "custom_enum") {
        if !fields::has_record(j, 4, 5) {
            return None;
        }
        match (
            fields::get_need_text(j, 1, "name"),
            read_type_at(j, 2, "base", true),
            fields::get_need_text(j, 3, "namespace"),
            read_transform(j),
        ) {
            (Some(name), Some(base), Some(namespace), Some(dsl_transform)) => Some(
                AttributeType::CustomEnum { name, base: Box::new(base), namespace, dsl_transform },
            ),
            _ => None,
        }
    } else if text::same(tag, "ref") {
        if !fields::has_record(j, 2, 2) {
            return None;
        }
        match fields::get_need_text(j, 1, "name") {
            Some(name) => Some(AttributeType::Ref { name }),
            None => None,
        }
    } else {
        None
    }
}

proof fn lemma_types_prefix(items: Seq<JsonView>, i: int)
    requires
        0 <= i <= items.len(),
    ensures
        types_of(items) is Some ==> types_of(items.subrange(0, i)) is Some,
        fields_of(items) is Some ==> fields_of(items.subrange(0, i)) is Some,
    decreases items.len() - i,
{
    if i < items.len() {
        lemma_types_prefix(items, i + 1);
        assert(items.subrange(0, i + 1).subrange(0, i) =~= items.subrange(0, i));
    } else {
        assert(items.subrange(0, i) =~= items);
    }
}

fn types_from_json(items: &Vec<Json>) -> (r: Option<Vec<AttributeType>>)
    ensures
        match r {
            Some(list) => types_of(json::array_view(items@)) == Some(types_view(list@)),
            None => types_of(json::array_view(items@)) is None,
        },
    decreases json::array_view(items@), 0nat,
{
    let ghost all = json::array_view(items@);
    let mut out: Vec<AttributeType> = Vec::new();
    let mut i: usize = 0;
    proof {
        json::lemma_array(items@);
    }
    assert(all.subrange(0, 0).len() == 0);
    while i < items.len()
        invariant
            i <= items.len(),
            all.len() == items.len(),
            all == json::array_view(items@),
            forall|k: int| 0 <= k < all.len() ==> #[trigger] all[k] == json::json_view(items@[k]),
            types_of(all.subrange(0, i as int)) == Some(types_view(out@)),
        decreases items.len() - i,
    {
        proof {
            let upto = all.subrange(0, i + 1);
            assert(upto.subrange(0, upto.len() - 1) =~= all.subrange(0, i as int));
            assert(upto[upto.len() - 1] == items@[i as int]@);
            assert(all[i as int] == items@[i as int]@);
            lemma_types_prefix(all, i + 1);
        }
        match type_from_json(&items[i], true) {
            Some(t) => {
                proof {
                    lemma_push_type(out@, t);
                }
                out.push(t);
            },
            None => return None,
        }
        i = i + 1;
    }
    assert(all.subrange(0, i as int) =~= all);
    Some(out)
}

fn field_from_json(j: &Json) -> (r: Option<StructField>)
    ensures
        match r {
            Some(f) => field_of(j@) == Some(f@),
            None => field_of(j@) is None,
        },
    decreases j@, 1nat,
{
    if !fields::has_record(j, 3, 6) {
        return None;
    }
    match (
        fields::get_need_text(j, 0, "name"),
        read_type_at(j, 1, "field_type", true),
        fields::get_need_bool(j, 2, "required"),
        fields::get_may_text(j, 3, "description"),
        fields::get_may_text(j, 4, "block_name"),
        fields::get_may_text(j, 5, "provider_name"),
    ) {
        (Some(name), Some(field_type), Some(required), Some(description), Some(block_name), Some(provider_name)) => Some(
            StructField { name, field_type, required, description, block_name, provider_name },
        ),
        _ => None,
    }
}

fn fields_from_json(items: &Vec<Json>) -> (r: Option<Vec<StructField>>)
    ensures
        match r {
            Some(list) => fields_of(json::array_view(items@)) == Some(fields_view(list@)),
            None => fields_of(json::array_view(items@)) is None,
        },
    decreases json::array_view(items@), 0nat,
{
    let ghost all = json::array_view(items@);
    let mut out: Vec<StructField> = Vec::new();
    let mut i: usize = 0;
    proof {
        json::lemma_array(items@);
    }
    assert(all.subrange(0, 0).len() == 0);
    while i < items.len()
        invariant
            i <= items.len(),
            all.len() == items.len(),
            all == json::array_view(items@),
            forall|k: int| 0 <= k < all.len() ==> #[trigger] all[k] == json::json_view(items@[k]),
            fields_of(all.subrange(0, i as int)) == Some(fields_view(out@)),
        decreases items.len() - i,
    {
        proof {
            let upto = all.subrange(0, i + 1);
            assert(upto.subrange(0, upto.len() - 1) =~= all.subrange(0, i as int));
            assert(upto[upto.len() - 1] == items@[i as int]@);
            assert(all[i as int] == items@[i as int]@);
            lemma_types_prefix(all, i + 1);
        }
        match field_from_json(&items[i]) {
            Some(f) => {
                proof {
                    lemma_push_field(out@, f);
                }
                out.push(f);
            },
            None => return None,
        }
        i = i + 1;
    }
    assert(all.subrange(0, i as int) =~= all);
    Some(out)
}

impl AttributeType {
    /// The type that a document stands for.
    pub fn from_json(j: &Json) -> (r: Option<AttributeType>)
        ensures
            match r {
                Some(t) => type_of(j@, false) == Some(t@),
                None => type_of(j@, false) is None,
            },
    {
        type_from_json(j, false)
    }
}

/// Every transform of a later version in a type is one that is kept as it came.
pub open spec fn type_keeps(t: WireTypeView) -> bool
    decreases t,
{
    match t {
        WireTypeView::List { inner, ordered } => type_keeps(*inner),
        WireTypeView::Mapping { inner, key } => type_keeps(*inner) && type_keeps(*key),
        WireTypeView::Struct { name, fields } => forall|i: int|
            0 <= i < fields.len() ==> type_keeps((#[trigger] fields[i]).field_type),
        WireTypeView::Union { members } => forall|i: int| 0 <= i < members.len() ==> type_keeps(#[trigger] members[i]),
        WireTypeView::Custom { name, base, pattern, length } => type_keeps(*base),
        WireTypeView::CustomEnum { name, base, namespace, dsl_transform } => type_keeps(*base) && (dsl_transform
            matches Some(TransformView::Unknown(j)) ==> transform::foreign(j)),
        _ => true,
    }
}

proof fn lemma_short_tags()
    ensures
        "Int"@.len() == 3 && "map"@.len() == 3 && "ref"@.len() == 3,
        "Bool"@.len() == 4 && "list"@.len() == 4,
        "Float"@.len() == 5 && "union"@.len() == 5,
        "Int"@ != "map"@,
        "Int"@ != "ref"@,
        "map"@ != "ref"@,
        "Bool"@ != "list"@,
        "Float"@ != "union"@,
{
    reveal_strlit("Int");
    reveal_strlit("map");
    reveal_strlit("ref");
    reveal_strlit("Bool");
    reveal_strlit("list");
    reveal_strlit("Float");
    reveal_strlit("union");
    assert("Int"@[0] == 'I' && "map"@[0] == 'm' && "ref"@[0] == 'r');
    assert("Bool"@[0] != "list"@[0]);
    assert("Float"@[0] != "union"@[0]);
}

proof fn lemma_long_tags()
    ensures
        "String"@.len() == 6 && "struct"@.len() == 6 && "custom"@.len() == 6,
        "Duration"@.len() == 8,
        "string_enum"@.len() == 11 && "custom_enum"@.len() == 11,
        "String"@ != "struct"@,
        "String"@ != "custom"@,
        "struct"@ != "custom"@,
        "string_enum"@ != "custom_enum"@,
{
    reveal_strlit("String");
    reveal_strlit("struct");
    reveal_strlit("custom");
    reveal_strlit("Duration");
    reveal_strlit("string_enum");
    reveal_strlit("custom_enum");
    assert("String"@[0] == 'S' && "struct"@[0] == 's' && "custom"@[0] == 'c');
    assert("string_enum"@[0] != "custom_enum"@[0]);
}

proof fn lemma_keys()
    ensures
        "key"@.len() == 3,
        "type"@.len() == 4 && "name"@.len() == 4 && "base"@.len() == 4,
        "inner"@.len() == 5,
        "values"@.len() == 6 && "fields"@.len() == 6 && "length"@.len() == 6,
        "ordered"@.len() == 7 && "members"@.len() == 7 && "pattern"@.len() == 7,
        "namespace"@.len() == 9,
        "dsl_aliases"@.len() == 11,
        "dsl_transform"@.len() == 13,
        "type"@ != "name"@,
        "type"@ != "base"@,
        "name"@ != "base"@,
{
    reveal_strlit("key");
    reveal_strlit("type");
    reveal_strlit("name");
    reveal_strlit("base");
    reveal_strlit("inner");
    reveal_strlit("values");
    reveal_strlit("fields");
    reveal_strlit("length");
    reveal_strlit("ordered");
    reveal_strlit("members");
    reveal_strlit("pattern");
    reveal_strlit("namespace");
    reveal_strlit("dsl_aliases");
    reveal_strlit("dsl_transform");
    assert("type"@[0] == 't' && "name"@[0] == 'n' && "base"@[0] == 'b');
}

proof fn lemma_field_keys()
    ensures
        "name"@.len() == 4,
        "required"@.len() == 8,
        "field_type"@.len() == 10 && "block_name"@.len() == 10,
        "description"@.len() == 11,
        "provider_name"@.len() == 13,
        "field_type"@ != "block_name"@,
{
    reveal_strlit("name");
    reveal_strlit("required");
    reveal_strlit("field_type");
    reveal_strlit("block_name");
    reveal_strlit("description");
    reveal_strlit("provider_name");
    assert("field_type"@[0] != "block_name"@[0]);
}

/// A type comes back from its JSON.
pub proof fn law_type_round_trip(t: WireTypeView, within: bool)
    requires
        type_keeps(t),
    ensures
        type_of(type_json(t), within) == Some(t),
    decreases t, 1nat,
{
    lemma_short_tags();
    lemma_long_tags();
    lemma_keys();
    reveal_with_fuel(keyed::index_from, 6);
    match t {
        WireTypeView::StringEnum { values, name, namespace, dsl_aliases } => {
            fields::lemma_texts_come_back(values);
            transform::lemma_pairs_come_back(dsl_aliases);
            if dsl_aliases.len() == 0 {
                assert(dsl_aliases =~= Seq::empty());
            }
        },
        WireTypeView::List { inner, ordered } => {
            law_type_round_trip(*inner, true);
        },
        WireTypeView::Mapping { inner, key } => {
            law_type_round_trip(*inner, true);
            law_type_round_trip(*key, true);
        },
        WireTypeView::Struct { name, fields } => {
            lemma_fields_come_back(fields);
        },
        WireTypeView::Union { members } => {
            lemma_types_come_back(members);
        },
        WireTypeView::Custom { name, base, pattern, length } => {
            law_type_round_trip(*base, true);
        },
        WireTypeView::CustomEnum { name, base, namespace, dsl_transform } => {
            law_type_round_trip(*base, true);
            if let Some(f) = dsl_transform {
                transform::law_transform_round_trip(f);
            }
        },
        _ => {},
    }
}

proof fn lemma_types_come_back(s: Seq<WireTypeView>)
    requires
        forall|i: int| 0 <= i < s.len() ==> type_keeps(#[trigger] s[i]),
    ensures
        types_of(types_json(s)) == Some(s),
    decreases s, 0nat,
{
    if s.len() > 0 {
        let before = s.subrange(0, s.len() - 1);
        assert forall|i: int| 0 <= i < before.len() implies type_keeps(#[trigger] before[i]) by {
            assert(before[i] == s[i]);
        }
        lemma_types_come_back(before);
        law_type_round_trip(s[s.len() - 1], true);
        let out = types_json(s);
        assert(out.subrange(0, out.len() - 1) =~= types_json(before));
        assert(before.push(s[s.len() - 1]) =~= s);
    } else {
        assert(s =~= Seq::empty());
    }
}

proof fn lemma_field_comes_back(f: WireFieldView)
    requires
        type_keeps(f.field_type),
    ensures
        field_of(field_json(f)) == Some(f),
    decreases f, 1nat,
{
    lemma_field_keys();
    law_type_round_trip(f.field_type, true);
    reveal_with_fuel(keyed::index_from, 7);
}

proof fn lemma_fields_come_back(s: Seq<WireFieldView>)
    requires
        forall|i: int| 0 <= i < s.len() ==> type_keeps((#[trigger] s[i]).field_type),
    ensures
        fields_of(fields_json(s)) == Some(s),
    decreases s, 0nat,
{
    if s.len() > 0 {
        let before = s.subrange(0, s.len() - 1);
        assert forall|i: int| 0 <= i < before.len() implies type_keeps((#[trigger] before[i]).field_type) by {
            assert(before[i] == s[i]);
        }
        lemma_fields_come_back(before);
        lemma_field_comes_back(s[s.len() - 1]);
        let out = fields_json(s);
        assert(out.subrange(0, out.len() - 1) =~= fields_json(before));
        assert(before.push(s[s.len() - 1]) =~= s);
    } else {
        assert(s =~= Seq::empty());
    }
}

} // verus!
