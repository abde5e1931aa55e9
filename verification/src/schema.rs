//! Resource schemas: the attributes of a resource type and their types.
use vstd::prelude::*;
use vstd::string::*;

use crate::keyed;
use crate::text;

verus! {

/// How a provider spells a value in the configuration language: by a table of
/// aliases, and else with hyphens as underscores where `underscores` is set.
#[derive(Debug, PartialEq)]
pub struct ToDsl {
    pub aliases: Vec<(String, String)>,
    pub underscores: bool,
}

#[verifier::ext_equal]
pub struct ToDslView {
    pub aliases: Seq<(Seq<char>, Seq<char>)>,
    pub underscores: bool,
}

impl View for ToDsl {
    type V = ToDslView;

    open spec fn view(&self) -> ToDslView {
        ToDslView {
            aliases: Seq::new(self.aliases@.len(), |i: int| (self.aliases@[i].0@, self.aliases@[i].1@)),
            underscores: self.underscores,
        }
    }
}

/// The spelling of a value in the configuration language.
pub open spec fn dsl_spelling(form: ToDslView, s: Seq<char>) -> Seq<char> {
    match keyed::lookup(form.aliases, s) {
        Some(alias) => alias,
        None => if form.underscores {
            text::swapped(s, '-', '_')
        } else {
            s
        },
    }
}

/// The spelling of a value where a form is given, and else the value itself.
pub open spec fn spelled(form: Option<ToDslView>, s: Seq<char>) -> Seq<char> {
    match form {
        Some(f) => dsl_spelling(f, s),
        None => s,
    }
}

impl ToDsl {
    /// Hyphens as underscores.
    pub fn hyphens() -> (r: ToDsl)
        ensures
            r@ == ToDslView::hyphens(),
    {
        let r = ToDsl { aliases: Vec::new(), underscores: true };
        assert(r@ =~= ToDslView::hyphens());
        r
    }

    /// One alias before the rest.
    pub fn alias(value: &str, dsl: &str, underscores: bool) -> (r: ToDsl)
        ensures
            r@ == ToDslView::alias(value@, dsl@, underscores),
    {
        let r = ToDsl { aliases: vec![(value.to_owned(), dsl.to_owned())], underscores };
        assert(r@.aliases =~= seq![(value@, dsl@)]);
        r
    }

    /// The spelling of a value in the configuration language.
    pub fn apply(&self, s: &str) -> (r: String)
        ensures
            r@ == dsl_spelling(self@, s@),
    {
        proof {
            assert forall|i: int| 0 <= i < self.aliases@.len() implies (#[trigger] self.aliases@[i]).0@
                == self@.aliases[i].0 by {};
            keyed::lemma_position(self.aliases@, self@.aliases, s@, 0);
        }
        match keyed::position(&self.aliases, s) {
            Some(i) => self.aliases[i].1.clone(),
            None => if self.underscores {
                text::swap_char(s, '-', '_')
            } else {
                s.to_owned()
            },
        }
    }
}

impl ToDslView {
    pub open spec fn hyphens() -> ToDslView {
        ToDslView { aliases: Seq::empty(), underscores: true }
    }

    pub open spec fn alias(value: Seq<char>, dsl: Seq<char>, underscores: bool) -> ToDslView {
        ToDslView { aliases: seq![(value, dsl)], underscores }
    }
}

/// What a custom type asks of a value beyond its base type.
#[derive(Debug, PartialEq)]
pub enum Check {
    /// An integer not less than the first bound and not greater than the second.
    IntRange(Option<i64>, Option<i64>),
    /// A string whose number of characters lies between the bounds.
    StringLength(u64, u64),
    /// A list whose number of items lies between the bounds.
    ListItems(u64, u64),
    /// One of the values, in the namespace of the type or without one.
    NamespacedEnum(Vec<String>),
    /// A region.
    Region,
    /// An availability zone.
    Zone,
    /// The format that goes by the name of the type.
    Format,
}

pub enum CheckView {
    IntRange(Option<i64>, Option<i64>),
    StringLength(u64, u64),
    ListItems(u64, u64),
    NamespacedEnum(Seq<Seq<char>>),
    Region,
    Zone,
    Format,
}

impl View for Check {
    type V = CheckView;

    open spec fn view(&self) -> CheckView {
        match *self {
            Check::IntRange(min, max) => CheckView::IntRange(min, max),
            Check::StringLength(min, max) => CheckView::StringLength(min, max),
            Check::ListItems(min, max) => CheckView::ListItems(min, max),
            Check::NamespacedEnum(values) => CheckView::NamespacedEnum(text::strings(values@)),
            Check::Region => CheckView::Region,
            Check::Zone => CheckView::Zone,
            Check::Format => CheckView::Format,
        }
    }
}

/// The type of an attribute.
#[derive(Debug, PartialEq)]
pub enum AttributeType {
    String,
    Int,
    Float,
    Bool,
    /// One of the values, without a namespace.
    Enum(Vec<String>),
    /// One of the values, in a namespace.
    StringEnum { name: String, values: Vec<String>, namespace: Option<String>, to_dsl: Option<ToDsl> },
    List { inner: Box<AttributeType>, ordered: bool },
    Mapping(Box<AttributeType>),
    Struct { name: String, fields: Vec<StructField> },
    Union(Vec<AttributeType>),
    Custom {
        name: String,
        base: Box<AttributeType>,
        check: Check,
        namespace: Option<String>,
        to_dsl: Option<ToDsl>,
    },
}

/// A field of a struct.
#[derive(Debug, PartialEq)]
pub struct StructField {
    pub name: String,
    pub field_type: AttributeType,
    pub required: bool,
    pub description: Option<String>,
    pub block_name: Option<String>,
    pub provider_name: Option<String>,
}

/// An attribute of a resource type.
#[derive(Debug, PartialEq)]
pub struct AttributeSchema {
    pub name: String,
    pub attr_type: AttributeType,
    pub required: bool,
    pub create_only: bool,
    pub read_only: bool,
    pub description: Option<String>,
    pub block_name: Option<String>,
    pub provider_name: Option<String>,
}

/// The schema of a resource type. The attributes stand under their names.
#[derive(Debug, PartialEq)]
pub struct ResourceSchema {
    pub resource_type: String,
    pub description: Option<String>,
    pub attributes: Vec<(String, AttributeSchema)>,
    pub force_replace: bool,
}

/// The schema of a resource type with what Cloud Control calls it.
#[derive(Debug, PartialEq)]
pub struct AwsccSchemaConfig {
    /// The CloudFormation type, such as `AWS::EC2::VPC`.
    pub aws_type_name: &'static str,
    /// The resource type in the configuration language, such as `ec2.vpc`.
    pub resource_type_name: &'static str,
    pub has_tags: bool,
    pub schema: ResourceSchema,
}

pub enum TypeView {
    String,
    Int,
    Float,
    Bool,
    Enum(Seq<Seq<char>>),
    StringEnum { name: Seq<char>, values: Seq<Seq<char>>, namespace: Option<Seq<char>>, to_dsl: Option<ToDslView> },
    List { inner: Box<TypeView>, ordered: bool },
    Mapping(Box<TypeView>),
    Struct { name: Seq<char>, fields: Seq<FieldView> },
    Union(Seq<TypeView>),
    Custom {
        name: Seq<char>,
        base: Box<TypeView>,
        check: CheckView,
        namespace: Option<Seq<char>>,
        to_dsl: Option<ToDslView>,
    },
}

pub struct FieldView {
    pub name: Seq<char>,
    pub field_type: TypeView,
    pub required: bool,
    pub description: Option<Seq<char>>,
    pub block_name: Option<Seq<char>>,
    pub provider_name: Option<Seq<char>>,
}

pub struct AttrView {
    pub name: Seq<char>,
    pub attr_type: TypeView,
    pub required: bool,
    pub create_only: bool,
    pub read_only: bool,
    pub description: Option<Seq<char>>,
    pub block_name: Option<Seq<char>>,
    pub provider_name: Option<Seq<char>>,
}

pub struct SchemaView {
    pub resource_type: Seq<char>,
    pub description: Option<Seq<char>>,
    pub attributes: Seq<(Seq<char>, AttrView)>,
    pub force_replace: bool,
}

pub struct ConfigView {
    pub aws_type_name: Seq<char>,
    pub resource_type_name: Seq<char>,
    pub has_tags: bool,
    pub schema: SchemaView,
}

pub open spec fn opt_form(o: Option<ToDsl>) -> Option<ToDslView> {
    match o {
        Some(f) => Some(f@),
        None => None,
    }
}

pub open spec fn type_view(t: AttributeType) -> TypeView
    decreases t,
{
    match t {
        AttributeType::String => TypeView::String,
        AttributeType::Int => TypeView::Int,
        AttributeType::Float => TypeView::Float,
        AttributeType::Bool => TypeView::Bool,
        AttributeType::Enum(values) => TypeView::Enum(text::strings(values@)),
        AttributeType::StringEnum { name, values, namespace, to_dsl } => TypeView::StringEnum {
            name: name@,
            values: text::strings(values@),
            namespace: text::opt_string(namespace),
            to_dsl: opt_form(to_dsl),
        },
        AttributeType::List { inner, ordered } => TypeView::List { inner: Box::new(type_view(*inner)), ordered },
        AttributeType::Mapping(inner) => TypeView::Mapping(Box::new(type_view(*inner))),
        AttributeType::Struct { name, fields } => TypeView::Struct { name: name@, fields: fields_view(fields@) },
        AttributeType::Union(members) => TypeView::Union(types_view(members@)),
        AttributeType::Custom { name, base, check, namespace, to_dsl } => TypeView::Custom {
            name: name@,
            base: Box::new(type_view(*base)),
            check: check@,
            namespace: text::opt_string(namespace),
            to_dsl: opt_form(to_dsl),
        },
    }
}

pub open spec fn types_view(s: Seq<AttributeType>) -> Seq<TypeView>
    decreases s,
{
    if s.len() == 0 {
        Seq::empty()
    } else {
        types_view(s.subrange(0, s.len() - 1)).push(type_view(s[s.len() - 1]))
    }
}

pub open spec fn field_view(f: StructField) -> FieldView
    decreases f,
{
    FieldView {
        name: f.name@,
        field_type: type_view(f.field_type),
        required: f.required,
        description: text::opt_string(f.description),
        block_name: text::opt_string(f.block_name),
        provider_name: text::opt_string(f.provider_name),
    }
}

pub open spec fn fields_view(s: Seq<StructField>) -> Seq<FieldView>
    decreases s,
{
    if s.len() == 0 {
        Seq::empty()
    } else {
        fields_view(s.subrange(0, s.len() - 1)).push(field_view(s[s.len() - 1]))
    }
}

impl View for AttributeType {
    type V = TypeView;

    open spec fn view(&self) -> TypeView {
        type_view(*self)
    }
}

impl View for StructField {
    type V = FieldView;

    open spec fn view(&self) -> FieldView {
        field_view(*self)
    }
}

impl View for AttributeSchema {
    type V = AttrView;

    open spec fn view(&self) -> AttrView {
        AttrView {
            name: self.name@,
            attr_type: type_view(self.attr_type),
            required: self.required,
            create_only: self.create_only,
            read_only: self.read_only,
            description: text::opt_string(self.description),
            block_name: text::opt_string(self.block_name),
            provider_name: text::opt_string(self.provider_name),
        }
    }
}

pub open spec fn attributes_view(s: Seq<(String, AttributeSchema)>) -> Seq<(Seq<char>, AttrView)> {
    Seq::new(s.len(), |i: int| (s[i].0@, s[i].1@))
}

impl View for ResourceSchema {
    type V = SchemaView;

    open spec fn view(&self) -> SchemaView {
        SchemaView {
            resource_type: self.resource_type@,
            description: text::opt_string(self.description),
            attributes: attributes_view(self.attributes@),
            force_replace: self.force_replace,
        }
    }
}

impl View for AwsccSchemaConfig {
    type V = ConfigView;

    open spec fn view(&self) -> ConfigView {
        ConfigView {
            aws_type_name: self.aws_type_name@,
            resource_type_name: self.resource_type_name@,
            has_tags: self.has_tags,
            schema: self.schema@,
        }
    }
}

pub proof fn lemma_types(s: Seq<AttributeType>)
    ensures
        types_view(s).len() == s.len(),
        forall|i: int| 0 <= i < s.len() ==> #[trigger] types_view(s)[i] == type_view(s[i]),
    decreases s.len(),
{
    if s.len() > 0 {
        lemma_types(s.subrange(0, s.len() - 1));
    }
}

pub proof fn lemma_fields(s: Seq<StructField>)
    ensures
        fields_view(s).len() == s.len(),
        forall|i: int| 0 <= i < s.len() ==> #[trigger] fields_view(s)[i] == field_view(s[i]),
    decreases s.len(),
{
    if s.len() > 0 {
        lemma_fields(s.subrange(0, s.len() - 1));
    }
}

proof fn lemma_push_type(s: Seq<AttributeType>, t: AttributeType)
    ensures
        types_view(s.push(t)) == types_view(s).push(type_view(t)),
{
    assert(s.push(t).subrange(0, s.len() as int) =~= s);
}

proof fn lemma_push_field(s: Seq<StructField>, f: StructField)
    ensures
        fields_view(s.push(f)) == fields_view(s).push(field_view(f)),
{
    assert(s.push(f).subrange(0, s.len() as int) =~= s);
}

/// A list of words, built word by word.
pub struct Words {
    pub list: Vec<String>,
}

impl Words {
    pub fn of(word: &str) -> (r: Words)
        ensures
            text::strings(r.list@) == seq![word@],
    {
        let r = Words { list: vec![word.to_owned()] };
        assert(text::strings(r.list@) =~= seq![word@]);
        r
    }

    pub fn and(self, word: &str) -> (r: Words)
        ensures
            text::strings(r.list@) == text::strings(self.list@).push(word@),
    {
        let ghost before = text::strings(self.list@);
        let mut list = self.list;
        list.push(word.to_owned());
        assert(text::strings(list@) =~= before.push(word@));
        Words { list }
    }
}

impl TypeView {
    pub open spec fn list(inner: TypeView) -> TypeView {
        TypeView::List { inner: Box::new(inner), ordered: true }
    }

    pub open spec fn unordered_list(inner: TypeView) -> TypeView {
        TypeView::List { inner: Box::new(inner), ordered: false }
    }

    pub open spec fn map_of(inner: TypeView) -> TypeView {
        TypeView::Mapping(Box::new(inner))
    }

    pub open spec fn string_enum(name: Seq<char>, values: Seq<Seq<char>>, namespace: Seq<char>, to_dsl: Option<ToDslView>) -> TypeView {
        TypeView::StringEnum { name, values, namespace: Some(namespace), to_dsl }
    }

    pub open spec fn structure(name: Seq<char>) -> TypeView {
        TypeView::Struct { name, fields: Seq::empty() }
    }

    pub open spec fn field(self, f: FieldView) -> TypeView {
        match self {
            TypeView::Struct { name, fields } => TypeView::Struct { name, fields: fields.push(f) },
            _ => self,
        }
    }

    pub open spec fn union() -> TypeView {
        TypeView::Union(Seq::empty())
    }

    pub open spec fn or(self, t: TypeView) -> TypeView {
        match self {
            TypeView::Union(members) => TypeView::Union(members.push(t)),
            _ => self,
        }
    }

    pub open spec fn custom(
        name: Seq<char>,
        base: TypeView,
        check: CheckView,
        namespace: Option<Seq<char>>,
        to_dsl: Option<ToDslView>,
    ) -> TypeView {
        TypeView::Custom { name, base: Box::new(base), check, namespace, to_dsl }
    }

    /// A string in the format that goes by a name.
    pub open spec fn format(name: Seq<char>) -> TypeView {
        TypeView::custom(name, TypeView::String, CheckView::Format, None, None)
    }

    /// An integer with bounds.
    pub open spec fn int_range(name: Seq<char>, min: Option<i64>, max: Option<i64>) -> TypeView {
        TypeView::custom(name, TypeView::Int, CheckView::IntRange(min, max), None, None)
    }

    /// An enum whose values are checked with their namespace.
    pub open spec fn custom_enum(name: Seq<char>, values: Seq<Seq<char>>, namespace: Seq<char>, to_dsl: Option<ToDslView>) -> TypeView {
        TypeView::custom(name, TypeView::String, CheckView::NamespacedEnum(values), Some(namespace), to_dsl)
    }
}

impl AttributeType {
    /// A list whose order counts.
    pub fn list(inner: AttributeType) -> (r: AttributeType)
        ensures
            r@ == TypeView::list(inner@),
    {
        AttributeType::List { inner: Box::new(inner), ordered: true }
    }

    /// A list whose order does not count.
    pub fn unordered_list(inner: AttributeType) -> (r: AttributeType)
        ensures
            r@ == TypeView::unordered_list(inner@),
    {
        AttributeType::List { inner: Box::new(inner), ordered: false }
    }

    /// A map with the keys that a user gives.
    pub fn map_of(inner: AttributeType) -> (r: AttributeType)
        ensures
            r@ == TypeView::map_of(inner@),
    {
        AttributeType::Mapping(Box::new(inner))
    }

    /// One of the words.
    pub fn one_of(words: Words) -> (r: AttributeType)
        ensures
            r@ == TypeView::Enum(text::strings(words.list@)),
    {
        AttributeType::Enum(words.list)
    }

    /// One of the words, in a namespace.
    pub fn string_enum(name: &str, words: Words, namespace: &str, to_dsl: Option<ToDsl>) -> (r: AttributeType)
        ensures
            r@ == TypeView::string_enum(name@, text::strings(words.list@), namespace@, opt_form(to_dsl)),
    {
        AttributeType::StringEnum {
            name: name.to_owned(),
            values: words.list,
            namespace: Some(namespace.to_owned()),
            to_dsl,
        }
    }

    /// A struct without fields.
    pub fn structure(name: &str) -> (r: AttributeType)
        ensures
            r@ == TypeView::structure(name@),
    {
        let fields: Vec<StructField> = Vec::new();
        assert(fields_view(fields@) == Seq::<FieldView>::empty());
        AttributeType::Struct { name: name.to_owned(), fields }
    }

    /// The struct with one more field.
    pub fn field(self, f: StructField) -> (r: AttributeType)
        ensures
            r@ == self@.field(f@),
    {
        match self {
            AttributeType::Struct { name, fields } => {
                let mut fields = fields;
                proof {
                    lemma_push_field(fields@, f);
                }
                fields.push(f);
                AttributeType::Struct { name, fields }
            },
            other => other,
        }
    }

    /// A union without members.
    pub fn union() -> (r: AttributeType)
        ensures
            r@ == TypeView::union(),
    {
        let members: Vec<AttributeType> = Vec::new();
        assert(types_view(members@) == Seq::<TypeView>::empty());
        AttributeType::Union(members)
    }

    /// The union with one more member.
    pub fn or(self, t: AttributeType) -> (r: AttributeType)
        ensures
            r@ == self@.or(t@),
    {
        match self {
            AttributeType::Union(members) => {
                let mut members = members;
                proof {
                    lemma_push_type(members@, t);
                }
                members.push(t);
                AttributeType::Union(members)
            },
            other => other,
        }
    }

    /// A type with a check of its own.
    pub fn custom(
        name: &str,
        base: AttributeType,
        check: Check,
        namespace: Option<&str>,
        to_dsl: Option<ToDsl>,
    ) -> (r: AttributeType)
        ensures
            r@ == TypeView::custom(name@, base@, check@, text::opt_slice(namespace), opt_form(to_dsl)),
    {
        AttributeType::Custom {
            name: name.to_owned(),
            base: Box::new(base),
            check,
            namespace: match namespace {
                Some(ns) => Some(ns.to_owned()),
                None => None,
            },
            to_dsl,
        }
    }

    /// A string in the format that goes by a name.
    pub fn format(name: &str) -> (r: AttributeType)
        ensures
            r@ == TypeView::format(name@),
    {
        AttributeType::custom(name, AttributeType::String, Check::Format, None, None)
    }

    /// An integer with bounds.
    pub fn int_range(name: &str, min: Option<i64>, max: Option<i64>) -> (r: AttributeType)
        ensures
            r@ == TypeView::int_range(name@, min, max),
    {
        AttributeType::custom(name, AttributeType::Int, Check::IntRange(min, max), None, None)
    }

    /// An enum whose values are checked with their namespace.
    pub fn custom_enum(name: &str, words: Words, namespace: &str, to_dsl: Option<ToDsl>) -> (r: AttributeType)
        ensures
            r@ == TypeView::custom_enum(name@, text::strings(words.list@), namespace@, opt_form(to_dsl)),
    {
        AttributeType::custom(
            name,
            AttributeType::String,
            Check::NamespacedEnum(words.list),
            Some(namespace),
            to_dsl,
        )
    }
}

impl FieldView {
    pub open spec fn new(name: Seq<char>, field_type: TypeView) -> FieldView {
        FieldView { name, field_type, required: false, description: None, block_name: None, provider_name: None }
    }

    pub open spec fn required(self) -> FieldView {
        FieldView { required: true, ..self }
    }

    pub open spec fn with_description(self, d: Seq<char>) -> FieldView {
        FieldView { description: Some(d), ..self }
    }

    pub open spec fn with_block_name(self, n: Seq<char>) -> FieldView {
        FieldView { block_name: Some(n), ..self }
    }

    pub open spec fn with_provider_name(self, n: Seq<char>) -> FieldView {
        FieldView { provider_name: Some(n), ..self }
    }
}

impl StructField {
    pub fn new(name: &str, field_type: AttributeType) -> (r: StructField)
        ensures
            r@ == FieldView::new(name@, field_type@),
    {
        StructField {
            name: name.to_owned(),
            field_type,
            required: false,
            description: None,
            block_name: None,
            provider_name: None,
        }
    }

    pub fn required(self) -> (r: StructField)
        ensures
            r@ == self@.required(),
    {
        StructField { required: true, ..self }
    }

    pub fn with_description(self, description: &str) -> (r: StructField)
        ensures
            r@ == self@.with_description(description@),
    {
        StructField { description: Some(description.to_owned()), ..self }
    }

    pub fn with_block_name(self, name: &str) -> (r: StructField)
        ensures
            r@ == self@.with_block_name(name@),
    {
        StructField { block_name: Some(name.to_owned()), ..self }
    }

    pub fn with_provider_name(self, name: &str) -> (r: StructField)
        ensures
            r@ == self@.with_provider_name(name@),
    {
        StructField { provider_name: Some(name.to_owned()), ..self }
    }
}

impl AttrView {
    pub open spec fn new(name: Seq<char>, attr_type: TypeView) -> AttrView {
        AttrView {
            name,
            attr_type,
            required: false,
            create_only: false,
            read_only: false,
            description: None,
            block_name: None,
            provider_name: None,
        }
    }

    pub open spec fn required(self) -> AttrView {
        AttrView { required: true, ..self }
    }

    pub open spec fn create_only(self) -> AttrView {
        AttrView { create_only: true, ..self }
    }

    pub open spec fn read_only(self) -> AttrView {
        AttrView { read_only: true, ..self }
    }

    pub open spec fn with_description(self, d: Seq<char>) -> AttrView {
        AttrView { description: Some(d), ..self }
    }

    pub open spec fn with_block_name(self, n: Seq<char>) -> AttrView {
        AttrView { block_name: Some(n), ..self }
    }

    pub open spec fn with_provider_name(self, n: Seq<char>) -> AttrView {
        AttrView { provider_name: Some(n), ..self }
    }
}

impl AttributeSchema {
    pub fn new(name: &str, attr_type: AttributeType) -> (r: AttributeSchema)
        ensures
            r@ == AttrView::new(name@, attr_type@),
    {
        AttributeSchema {
            name: name.to_owned(),
            attr_type,
            required: false,
            create_only: false,
            read_only: false,
            description: None,
            block_name: None,
            provider_name: None,
        }
    }

    pub fn required(self) -> (r: AttributeSchema)
        ensures
            r@ == self@.required(),
    {
        AttributeSchema { required: true, ..self }
    }

    pub fn create_only(self) -> (r: AttributeSchema)
        ensures
            r@ == self@.create_only(),
    {
        AttributeSchema { create_only: true, ..self }
    }

    pub fn read_only(self) -> (r: AttributeSchema)
        ensures
            r@ == self@.read_only(),
    {
        AttributeSchema { read_only: true, ..self }
    }

    pub fn with_description(self, description: &str) -> (r: AttributeSchema)
        ensures
            r@ == self@.with_description(description@),
    {
        AttributeSchema { description: Some(description.to_owned()), ..self }
    }

    pub fn with_block_name(self, name: &str) -> (r: AttributeSchema)
        ensures
            r@ == self@.with_block_name(name@),
    {
        AttributeSchema { block_name: Some(name.to_owned()), ..self }
    }

    pub fn with_provider_name(self, name: &str) -> (r: AttributeSchema)
        ensures
            r@ == self@.with_provider_name(name@),
    {
        AttributeSchema { provider_name: Some(name.to_owned()), ..self }
    }
}

impl SchemaView {
    pub open spec fn new(resource_type: Seq<char>) -> SchemaView {
        SchemaView { resource_type, description: None, attributes: Seq::empty(), force_replace: false }
    }

    pub open spec fn with_description(self, d: Seq<char>) -> SchemaView {
        SchemaView { description: Some(d), ..self }
    }

    pub open spec fn attribute(self, a: AttrView) -> SchemaView {
        SchemaView { attributes: keyed::set(self.attributes, a.name, a), ..self }
    }
}

impl ResourceSchema {
    pub fn new(resource_type: &str) -> (r: ResourceSchema)
        ensures
            r@ == SchemaView::new(resource_type@),
    {
        let r = ResourceSchema {
            resource_type: resource_type.to_owned(),
            description: None,
            attributes: Vec::new(),
            force_replace: false,
        };
        assert(r@.attributes =~= Seq::empty());
        r
    }

    pub fn with_description(self, description: &str) -> (r: ResourceSchema)
        ensures
            r@ == self@.with_description(description@),
    {
        ResourceSchema { description: Some(description.to_owned()), ..self }
    }

    /// The schema with an attribute under its name, in the place of one that
    /// has that name.
    pub fn attribute(self, a: AttributeSchema) -> (r: ResourceSchema)
        ensures
            r@ == self@.attribute(a@),
    {
        let key = a.name.clone();
        let ghost view = a@;
        let ghost before = attributes_view(self.attributes@);
        proof {
            assert forall|i: int| 0 <= i < self.attributes@.len() implies (#[trigger] self.attributes@[i]).0@
                == before[i].0 by {};
            keyed::lemma_position(self.attributes@, before, key@, 0);
        }
        let mut attributes = self.attributes;
        match keyed::position(&attributes, key.as_str()) {
            Some(i) => {
                attributes.set(i, (key, a));
                assert(attributes_view(attributes@) =~= before.update(i as int, (view.name, view)));
            },
            None => {
                attributes.push((key, a));
                assert(attributes_view(attributes@) =~= before.push((view.name, view)));
            },
        }
        ResourceSchema { attributes, ..self }
    }

    /// The attribute of a name.
    pub fn get(&self, name: &str) -> (r: Option<&AttributeSchema>)
        ensures
            match r {
                Some(a) => keyed::lookup(self@.attributes, name@) == Some(a@),
                None => keyed::lookup(self@.attributes, name@) is None,
            },
    {
        proof {
            let m = attributes_view(self.attributes@);
            assert forall|i: int| 0 <= i < self.attributes@.len() implies (#[trigger] self.attributes@[i]).0@ == m[i].0 by {};
            keyed::lemma_position(self.attributes@, m, name@, 0);
        }
        match keyed::position(&self.attributes, name) {
            Some(i) => Some(&self.attributes[i].1),
            None => None,
        }
    }
}

/// The name, the namespace and the spelling of an enum that has a namespace.
pub open spec fn namespaced(t: TypeView) -> Option<(Seq<char>, Seq<char>, Option<ToDslView>)> {
    match t {
        TypeView::StringEnum { name, values, namespace: Some(ns), to_dsl } => Some((name, ns, to_dsl)),
        TypeView::Custom { name, base, check, namespace: Some(ns), to_dsl } => Some((name, ns, to_dsl)),
        _ => None,
    }
}

/// The values of a string enum.
pub open spec fn enum_values(t: TypeView) -> Option<Seq<Seq<char>>> {
    match t {
        TypeView::StringEnum { name, values, namespace, to_dsl } => Some(values),
        _ => None,
    }
}

impl AttributeType {
    /// The name, the namespace and the spelling of an enum that has a namespace.
    pub fn namespaced_enum_parts(&self) -> (r: Option<(&str, &str, &Option<ToDsl>)>)
        ensures
            match r {
                Some((name, ns, form)) => namespaced(self@) == Some((name@, ns@, opt_form(*form))),
                None => namespaced(self@) is None,
            },
    {
        match self {
            AttributeType::StringEnum { name, values: _, namespace: Some(ns), to_dsl } => Some(
                (name.as_str(), ns.as_str(), to_dsl),
            ),
            AttributeType::Custom { name, base: _, check: _, namespace: Some(ns), to_dsl } => Some(
                (name.as_str(), ns.as_str(), to_dsl),
            ),
            _ => None,
        }
    }

    /// The values of a string enum.
    pub fn string_enum_values(&self) -> (r: Option<&Vec<String>>)
        ensures
            match r {
                Some(v) => enum_values(self@) == Some(text::strings(v@)),
                None => enum_values(self@) is None,
            },
    {
        match self {
            AttributeType::StringEnum { name: _, values, namespace: _, to_dsl: _ } => Some(values),
            _ => None,
        }
    }
}

/// The spelling of a value where a form is given, and else the value itself.
pub fn spell(form: &Option<ToDsl>, s: &str) -> (r: String)
    ensures
        r@ == spelled(opt_form(*form), s@),
{
    match form {
        Some(f) => f.apply(s),
        None => s.to_owned(),
    }
}

/// No two attributes have the same name, no two the same property, and none but
/// `tags` the property of the tags.
pub open spec fn distinct_properties(attributes: Seq<(Seq<char>, AttrView)>) -> bool {
    &&& keyed::distinct_keys(attributes)
    &&& forall|i: int, j: int|
        0 <= i < attributes.len() && 0 <= j < attributes.len() && i != j && (#[trigger] attributes[i]).1.provider_name is Some
            ==> attributes[i].1.provider_name != (#[trigger] attributes[j]).1.provider_name
    &&& forall|i: int|
        0 <= i < attributes.len() && (#[trigger] attributes[i]).0 != "tags"@ ==> attributes[i].1.provider_name != Some(
            "Tags"@,
        )
}

/// A list of structs.
pub open spec fn is_struct_list(t: TypeView) -> bool {
    t matches TypeView::List { inner, ordered } && *inner is Struct
}

/// A field has a name for the blocks that it is written as, if it is a list of
/// structs.
pub open spec fn field_has_block_name(f: FieldView) -> bool {
    is_struct_list(f.field_type) ==> f.block_name is Some
}

/// Every field within a type that is a list of structs has a name for the blocks
/// that it is written as.
pub open spec fn has_block_names(t: TypeView) -> bool
    decreases t,
{
    match t {
        TypeView::Struct { name, fields } => forall|i: int|
            0 <= i < fields.len() ==> field_has_block_name(#[trigger] fields[i]) && has_block_names(fields[i].field_type),
        TypeView::List { inner, ordered } => has_block_names(*inner),
        TypeView::Mapping(inner) => has_block_names(*inner),
        _ => true,
    }
}

/// Every list of structs in an attribute has a name for the blocks that it is
/// written as.
pub open spec fn attribute_has_block_names(a: AttrView) -> bool {
    (is_struct_list(a.attr_type) ==> a.block_name is Some) && has_block_names(a.attr_type)
}

/// Every list of structs in the attributes has a name for the blocks that it is
/// written as.
pub open spec fn all_block_names(attributes: Seq<(Seq<char>, AttrView)>) -> bool {
    forall|i: int| 0 <= i < attributes.len() ==> attribute_has_block_names((#[trigger] attributes[i]).1)
}

} // verus!
