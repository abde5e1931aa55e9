//! CloudFormation resource schemas, as far as generation reads them.
use vstd::prelude::*;
use vstd::string::*;

use crate::keyed;
use crate::text;

verus! {

/// The `type` of a property: one name or several.
#[derive(Debug)]
pub enum TypeValue {
    Single(String),
    Multiple(Vec<String>),
}

/// The name of a type: the only one or the first one.
pub open spec fn first_type(t: TypeValue) -> Option<Seq<char>> {
    match t {
        TypeValue::Single(s) => Some(s@),
        TypeValue::Multiple(v) => if v@.len() > 0 {
            Some(v@[0]@)
        } else {
            None
        },
    }
}

impl TypeValue {
    /// The only name or the first one.
    pub fn as_str(&self) -> (r: Option<&str>)
        ensures
            text::opt_slice(r) == first_type(*self),
    {
        match self {
            TypeValue::Single(s) => Some(s.as_str()),
            TypeValue::Multiple(v) => if v.len() > 0 {
                Some(v[0].as_str())
            } else {
                None
            },
        }
    }
}

/// A value of an explicit enum.
#[derive(Debug)]
pub enum EnumValue {
    Str(String),
    Int(i64),
}

/// An enum value as text.
pub open spec fn enum_value_text(v: EnumValue) -> Seq<char> {
    match v {
        EnumValue::Str(s) => s@,
        EnumValue::Int(i) => text::decimal(i as int),
    }
}

impl EnumValue {
    /// The value as text, integers in decimal.
    pub fn to_string_value(&self) -> (r: String)
        ensures
            r@ == enum_value_text(*self),
    {
        match self {
            EnumValue::Str(s) => s.clone(),
            EnumValue::Int(i) => text::print_i64(*i),
        }
    }
}

/// A property of a resource, of a definition or of an inline object.
#[derive(Debug)]
pub struct CfnProperty {
    pub prop_type: Option<TypeValue>,
    pub description: Option<String>,
    pub enum_values: Option<Vec<EnumValue>>,
    pub items: Option<Box<CfnProperty>>,
    pub ref_path: Option<String>,
    pub insertion_order: Option<bool>,
    /// The properties of an inline object, by ascending name.
    pub properties: Option<Vec<(String, CfnProperty)>>,
    /// The names that an inline object requires.
    pub required: Vec<String>,
    pub minimum: Option<i64>,
    pub maximum: Option<i64>,
}

/// A definition that properties refer to.
#[derive(Debug)]
pub struct CfnDefinition {
    pub def_type: Option<String>,
    /// The properties, by ascending name.
    pub properties: Option<Vec<(String, CfnProperty)>>,
    pub required: Vec<String>,
}

/// What a resource says of tags.
#[derive(Debug)]
pub struct CfnTagging {
    pub taggable: bool,
}

/// The schema of a resource type.
#[derive(Debug)]
pub struct CfnSchema {
    pub typename: String,
    pub description: Option<String>,
    /// The properties, by ascending name.
    pub properties: Vec<(String, CfnProperty)>,
    pub required: Vec<String>,
    pub read_only_properties: Vec<String>,
    pub create_only_properties: Vec<String>,
    pub write_only_properties: Vec<String>,
    pub primary_identifier: Option<Vec<String>>,
    /// The definitions, by ascending name.
    pub definitions: Option<Vec<(String, CfnDefinition)>>,
    pub tagging: Option<CfnTagging>,
}

/// An enum that a property was found to be.
#[derive(Debug)]
pub struct EnumInfo {
    pub typename: String,
    pub values: Vec<String>,
}

/// An enum as plain values.
#[verifier::ext_equal]
pub struct EnumView {
    pub typename: Seq<char>,
    pub values: Seq<Seq<char>>,
}

impl View for EnumInfo {
    type V = EnumView;

    open spec fn view(&self) -> EnumView {
        EnumView { typename: self.typename@, values: text::strings(self.values@) }
    }
}

/// The name of the type of a property.
pub open spec fn kind_name(prop: CfnProperty) -> Option<Seq<char>> {
    match prop.prop_type {
        Some(t) => first_type(t),
        None => None,
    }
}

/// The name of the type of a property.
pub fn kind_name_of(prop: &CfnProperty) -> (r: Option<&str>)
    ensures
        text::opt_slice(r) == kind_name(*prop),
{
    match &prop.prop_type {
        Some(t) => t.as_str(),
        None => None,
    }
}

/// Whether the type of a property has the given name.
pub fn has_kind(prop: &CfnProperty, name: &str) -> (r: bool)
    ensures
        r == (kind_name(*prop) == Some(name@)),
{
    match kind_name_of(prop) {
        Some(k) => text::same(k, name),
        None => false,
    }
}

/// Whether a property is an integer or a number.
pub open spec fn is_numeric(prop: CfnProperty) -> bool {
    kind_name(prop) == Some("integer"@) || kind_name(prop) == Some("number"@)
}

/// Whether a property is an integer or a number.
pub fn has_numeric_kind(prop: &CfnProperty) -> (r: bool)
    ensures
        r == is_numeric(*prop),
{
    has_kind(prop, "integer") || has_kind(prop, "number")
}

/// The name of the definition that a reference points to.
pub open spec fn ref_name(ref_path: Seq<char>) -> Option<Seq<char>> {
    text::after_prefix(ref_path, "#/definitions/"@)
}

/// The name of the definition that a reference points to.
pub fn ref_def_name(ref_path: &str) -> (r: Option<&str>)
    ensures
        text::opt_slice(r) == ref_name(ref_path@),
{
    text::strip_prefix(ref_path, "#/definitions/")
}

/// The definition that a reference points to.
pub open spec fn resolved(schema: CfnSchema, ref_path: Seq<char>) -> Option<CfnDefinition> {
    match (ref_name(ref_path), schema.definitions) {
        (Some(name), Some(defs)) => match keyed::position_from(defs@, name, 0) {
            Some(i) => Some(defs@[i].1),
            None => None,
        },
        _ => None,
    }
}

/// The definition that a reference points to, such as `#/definitions/Ingress`.
pub fn resolve_ref<'a>(schema: &'a CfnSchema, ref_path: &str) -> (r: Option<&'a CfnDefinition>)
    ensures
        match r {
            Some(d) => resolved(*schema, ref_path@) == Some(*d),
            None => resolved(*schema, ref_path@) is None,
        },
{
    let name = match ref_def_name(ref_path) {
        Some(name) => name,
        None => {
            return None;
        },
    };
    let defs = match &schema.definitions {
        Some(defs) => defs,
        None => {
            return None;
        },
    };
    match keyed::position(defs, name) {
        Some(i) => Some(&defs[i].1),
        None => None,
    }
}

/// A definition with at least one property.
pub open spec fn is_struct(def: Option<CfnDefinition>) -> bool {
    def is Some && def->0.properties is Some && def->0.properties->0@.len() > 0
}

/// The properties of a definition, if it has any.
pub fn struct_properties<'a>(schema: &'a CfnSchema, ref_path: &str) -> (r: Option<(&'a Vec<(String, CfnProperty)>, &'a Vec<String>)>)
    ensures
        match r {
            Some((props, required)) => {
                &&& is_struct(resolved(*schema, ref_path@))
                &&& resolved(*schema, ref_path@)->0.properties == Some(*props)
                &&& resolved(*schema, ref_path@)->0.required == *required
            },
            None => !is_struct(resolved(*schema, ref_path@)),
        },
{
    match resolve_ref(schema, ref_path) {
        Some(def) => match &def.properties {
            Some(props) => if props.len() > 0 {
                Some((props, &def.required))
            } else {
                None
            },
            None => None,
        },
        None => None,
    }
}

} // verus!
