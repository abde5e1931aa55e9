//! Reference pages in Markdown.
use vstd::prelude::*;
use vstd::string::*;

use crate::codegen::casing;
use crate::codegen::model;
use crate::codegen::model::{CfnProperty, CfnSchema, EnumInfo, EnumView};
use crate::codegen::names;
use crate::codegen::tables;
use crate::codegen::types;
use crate::keyed;
use crate::text;

verus! {

/// The message for a type name that does not have three parts.
pub open spec fn bad_name(typename: Seq<char>) -> Seq<char> {
    "Invalid type name format: "@ + typename
}

/// The module name of a resource type: its last part.
pub open spec fn module_name(parts: Seq<Seq<char>>) -> Seq<char> {
    casing::snake_case(parts[2])
}

/// The full name of a resource type: its service and its last part.
pub open spec fn full_name(parts: Seq<Seq<char>>) -> Seq<char> {
    text::lowercase(parts[1]) + "_"@ + casing::snake_case(parts[2])
}

fn name_parts(typename: &str) -> (r: Result<Vec<String>, String>)
    ensures
        ({
            let parts = text::split(typename@, "::"@);
            match r {
                Ok(v) => parts.len() == 3 && text::strings(v@) == parts,
                Err(e) => parts.len() != 3 && e@ == bad_name(typename@),
            }
        }),
{
    proof {
        reveal_strlit("::");
    }
    let parts = text::split_on(typename, "::");
    assert(text::strings(parts@).len() == parts@.len());
    if parts.len() != 3 {
        let mut e = "Invalid type name format: ".to_owned();
        e.append(typename);
        return Err(e);
    }
    Ok(parts)
}

/// The module name of a resource type, such as `security_group_egress` for
/// `AWS::EC2::SecurityGroupEgress`.
pub fn module_name_from_type(typename: &str) -> (r: Result<String, String>)
    ensures
        ({
            let parts = text::split(typename@, "::"@);
            match r {
                Ok(name) => parts.len() == 3 && name@ == module_name(parts),
                Err(e) => parts.len() != 3 && e@ == bad_name(typename@),
            }
        }),
{
    match name_parts(typename) {
        Ok(parts) => {
            assert(text::strings(parts@)[2] == parts@[2]@);
            Ok(casing::to_snake(parts[2].as_str()))
        },
        Err(e) => Err(e),
    }
}

/// The full name of a resource type, such as `ec2_security_group_egress` for
/// `AWS::EC2::SecurityGroupEgress`.
pub fn full_resource_name_from_type(typename: &str) -> (r: Result<String, String>)
    ensures
        ({
            let parts = text::split(typename@, "::"@);
            match r {
                Ok(name) => parts.len() == 3 && name@ == full_name(parts),
                Err(e) => parts.len() != 3 && e@ == bad_name(typename@),
            }
        }),
{
    match name_parts(typename) {
        Ok(parts) => {
            assert(text::strings(parts@)[1] == parts@[1]@);
            assert(text::strings(parts@)[2] == parts@[2]@);
            let mut s = text::to_lower(parts[1].as_str());
            s.append("_");
            s.append(casing::to_snake(parts[2].as_str()).as_str());
            Ok(s)
        },
        Err(e) => Err(e),
    }
}

/// A struct that a page documents.
pub struct StructDefInfo<'a> {
    pub def_name: String,
    pub properties: &'a Vec<(String, CfnProperty)>,
    pub required: &'a Vec<String>,
}

/// A struct that a page documents, as plain values.
#[verifier::ext_equal]
pub struct StructDefView {
    pub def_name: Seq<char>,
    pub properties: Seq<(String, CfnProperty)>,
    pub required: Seq<Seq<char>>,
}

impl<'a> View for StructDefInfo<'a> {
    type V = StructDefView;

    open spec fn view(&self) -> StructDefView {
        StructDefView {
            def_name: self.def_name@,
            properties: self.properties@,
            required: text::strings(self.required@),
        }
    }
}

/// The structs of a page, by name.
pub open spec fn defs_view(defs: Seq<(String, StructDefInfo<'_>)>) -> Seq<(Seq<char>, StructDefView)> {
    Seq::new(defs.len(), |i: int| (defs[i].0@, defs[i].1@))
}

/// The enums of a page, by property.
pub open spec fn enums_view(enums: Seq<(String, EnumInfo)>) -> Seq<(Seq<char>, EnumView)> {
    Seq::new(enums.len(), |i: int| (enums[i].0@, enums[i].1@))
}

/// What the pages call the type of the elements of a list.
pub open spec fn list_display(items: CfnProperty, name: Seq<char>) -> Seq<char> {
    if model::kind_name(items) == Some("string"@) {
        "`List<"@ + names::string_display(name) + ">`"@
    } else if model::is_numeric(items) {
        "`List<Int>`"@
    } else if model::kind_name(items) == Some("boolean"@) {
        "`List<Bool>`"@
    } else {
        "`List<String>`"@
    }
}

/// What the pages call the type of a list with these items, by the type of the
/// items and the name of the property.
pub fn list_element_type_display(items: &CfnProperty, prop_name: &str) -> (r: String)
    ensures
        r@ == list_display(*items, prop_name@),
{
    if model::has_kind(items, "string") {
        let mut s = "`List<".to_owned();
        s.append(names::infer_string_type_display(prop_name).as_str());
        s.append(">`");
        s
    } else if model::has_numeric_kind(items) {
        "`List<Int>`".to_owned()
    } else if model::has_kind(items, "boolean") {
        "`List<Bool>`".to_owned()
    } else {
        "`List<String>`".to_owned()
    }
}

/// What the pages call the type of an integer property.
pub open spec fn int_display(prop: CfnProperty, name: Seq<char>) -> Seq<char> {
    match types::int_range(prop, name) {
        Some(range) => "Int("@ + text::decimal(range.0 as int) + "..="@ + text::decimal(range.1 as int) + ")"@,
        None => "Int"@,
    }
}

fn display_int(prop: &CfnProperty, prop_name: &str) -> (r: String)
    ensures
        r@ == int_display(*prop, prop_name@),
{
    match types::range_of(prop, prop_name) {
        Some((min, max)) => {
            let mut s = "Int(".to_owned();
            s.append(text::print_i64(min).as_str());
            s.append("..=");
            s.append(text::print_i64(max).as_str());
            s.append(")");
            s
        },
        None => "Int".to_owned(),
    }
}

pub open spec fn struct_link(name: Seq<char>) -> Seq<char> {
    "[Struct("@ + name + ")](#"@ + text::lowercase(name) + ")"@
}

pub open spec fn struct_list_link(name: Seq<char>) -> Seq<char> {
    "[List\\<"@ + name + "\\>](#"@ + text::lowercase(name) + ")"@
}

pub open spec fn enum_link(name: Seq<char>, e: EnumView) -> Seq<char> {
    "[Enum ("@ + e.typename + ")](#"@ + casing::snake_case(name) + "-"@ + text::lowercase(e.typename) + ")"@
}

/// What the pages call the type of a string property.
pub open spec fn string_or_policy(name: Seq<char>) -> Seq<char> {
    if text::finishes_with(name, "PolicyDocument"@) {
        "IamPolicyDocument"@
    } else {
        names::string_display(name)
    }
}

/// What the pages call the type of a property, with links to enums and structs.
pub open spec fn type_display(
    name: Seq<char>,
    prop: CfnProperty,
    schema: CfnSchema,
    enums: Seq<(Seq<char>, EnumView)>,
) -> Seq<char> {
    if keyed::lookup(enums, name) is Some {
        enum_link(name, keyed::lookup(enums, name)->0)
    } else if name == "Tags"@ {
        "Map"@
    } else if prop.ref_path is Some {
        let path = prop.ref_path->0@;
        if text::holds(path, "/Tag"@) {
            "Map"@
        } else if model::is_struct(model::resolved(schema, path)) {
            struct_link(model::ref_name(path)->0)
        } else {
            names::string_display(name)
        }
    } else if model::kind_name(prop) == Some("string"@) {
        string_or_policy(name)
    } else if model::kind_name(prop) == Some("boolean"@) {
        "Bool"@
    } else if model::is_numeric(prop) {
        int_display(prop, name)
    } else if model::kind_name(prop) == Some("array"@) {
        match prop.items {
            Some(items) => match items.ref_path {
                Some(path) => if text::holds(path@, "/Tag"@) {
                    "`List<Map>`"@
                } else if model::is_struct(model::resolved(schema, path@)) {
                    struct_list_link(model::ref_name(path@)->0)
                } else {
                    "`List<String>`"@
                },
                None => list_display(*items, name),
            },
            None => "`List<String>`"@,
        }
    } else if model::kind_name(prop) == Some("object"@) {
        if prop.properties is Some && prop.properties->0@.len() > 0 {
            struct_link(name)
        } else if text::finishes_with(name, "PolicyDocument"@) {
            "IamPolicyDocument"@
        } else {
            "Map"@
        }
    } else {
        "String"@
    }
}

fn link_struct(name: &str) -> (r: String)
    ensures
        r@ == struct_link(name@),
{
    let mut s = "[Struct(".to_owned();
    s.append(name);
    s.append(")](#");
    s.append(text::to_lower(name).as_str());
    s.append(")");
    s
}

fn link_struct_list(name: &str) -> (r: String)
    ensures
        r@ == struct_list_link(name@),
{
    let mut s = "[List\\<".to_owned();
    s.append(name);
    s.append("\\>](#");
    s.append(text::to_lower(name).as_str());
    s.append(")");
    s
}

pub(crate) fn find_enum<'a>(enums: &'a Vec<(String, EnumInfo)>, name: &str) -> (r: Option<&'a EnumInfo>)
    ensures
        match r {
            Some(e) => keyed::lookup(enums_view(enums@), name@) == Some(e@),
            None => keyed::lookup(enums_view(enums@), name@) is None,
        },
{
    let mut i: usize = 0;
    let ghost all = enums_view(enums@);
    while i < enums.len()
        invariant
            i <= enums.len(),
            all == enums_view(enums@),
            keyed::index_from(all, name@, 0) == keyed::index_from(all, name@, i as int),
        decreases enums.len() - i,
    {
        assert(all[i as int].0 == enums@[i as int].0@);
        if text::same(enums[i].0.as_str(), name) {
            return Some(&enums[i].1);
        }
        i = i + 1;
    }
    None
}

fn display_string_or_policy(name: &str) -> (r: String)
    ensures
        r@ == string_or_policy(name@),
{
    if text::ends_with(name, "PolicyDocument") {
        "IamPolicyDocument".to_owned()
    } else {
        names::infer_string_type_display(name)
    }
}

/// What the pages call the type of a property, with links to enums and structs.
pub fn type_display_string(
    prop_name: &str,
    prop: &CfnProperty,
    schema: &CfnSchema,
    enums: &Vec<(String, EnumInfo)>,
) -> (r: String)
    ensures
        r@ == type_display(prop_name@, *prop, *schema, enums_view(enums@)),
{
    if let Some(e) = find_enum(enums, prop_name) {
        let mut s = "[Enum (".to_owned();
        s.append(e.typename.as_str());
        s.append(")](#");
        s.append(casing::to_snake(prop_name).as_str());
        s.append("-");
        s.append(text::to_lower(e.typename.as_str()).as_str());
        s.append(")");
        return s;
    }
    if text::same(prop_name, "Tags") {
        return "Map".to_owned();
    }
    if let Some(path) = &prop.ref_path {
        if text::contains(path.as_str(), "/Tag") {
            return "Map".to_owned();
        }
        if model::struct_properties(schema, path.as_str()).is_some() {
            if let Some(def_name) = model::ref_def_name(path.as_str()) {
                return link_struct(def_name);
            }
        }
        return names::infer_string_type_display(prop_name);
    }
    if model::has_kind(prop, "string") {
        return display_string_or_policy(prop_name);
    }
    if model::has_kind(prop, "boolean") {
        return "Bool".to_owned();
    }
    if model::has_numeric_kind(prop) {
        return display_int(prop, prop_name);
    }
    if model::has_kind(prop, "array") {
        return match &prop.items {
            Some(items) => match &items.ref_path {
                Some(path) => {
                    if text::contains(path.as_str(), "/Tag") {
                        return "`List<Map>`".to_owned();
                    }
                    if model::struct_properties(schema, path.as_str()).is_some() {
                        if let Some(def_name) = model::ref_def_name(path.as_str()) {
                            return link_struct_list(def_name);
                        }
                    }
                    "`List<String>`".to_owned()
                },
                None => list_element_type_display(items, prop_name),
            },
            None => "`List<String>`".to_owned(),
        };
    }
    if model::has_kind(prop, "object") {
        if let Some(props) = &prop.properties {
            if props.len() > 0 {
                return link_struct(prop_name);
            }
        }
        if text::ends_with(prop_name, "PolicyDocument") {
            return "IamPolicyDocument".to_owned();
        }
        return "Map".to_owned();
    }
    "String".to_owned()
}

/// The struct that a reference points to, for a page.
pub open spec fn referenced_struct(schema: CfnSchema, path: Seq<char>) -> Option<StructDefView> {
    let def = model::resolved(schema, path);
    if !text::holds(path, "/Tag"@) && model::is_struct(def) {
        Some(
            StructDefView {
                def_name: model::ref_name(path)->0,
                properties: def->0.properties->0@,
                required: text::strings(def->0.required@),
            },
        )
    } else {
        None
    }
}

/// The structs of a page with one more, unless its name is taken.
pub open spec fn with_struct(m: Seq<(Seq<char>, StructDefView)>, d: Option<StructDefView>) -> Seq<(Seq<char>, StructDefView)> {
    match d {
        Some(d) => keyed::put_absent(m, d.def_name, d),
        None => m,
    }
}

/// The structs that a property refers to: its own reference, that of its
/// items, and an inline object.
pub open spec fn property_structs(prop: CfnProperty, name: Seq<char>, schema: CfnSchema) -> (
    Option<StructDefView>,
    Option<StructDefView>,
    Option<StructDefView>,
) {
    (
        match prop.ref_path {
            Some(path) => referenced_struct(schema, path@),
            None => None,
        },
        match prop.items {
            Some(items) => match items.ref_path {
                Some(path) => referenced_struct(schema, path@),
                None => None,
            },
            None => None,
        },
        if model::kind_name(prop) == Some("object"@) && prop.properties is Some && prop.properties->0@.len() > 0 {
            Some(
                StructDefView {
                    def_name: name,
                    properties: prop.properties->0@,
                    required: text::strings(prop.required@),
                },
            )
        } else {
            None
        },
    )
}

/// The structs of a page with those that a property refers to.
pub open spec fn collected(
    m: Seq<(Seq<char>, StructDefView)>,
    prop: CfnProperty,
    name: Seq<char>,
    schema: CfnSchema,
) -> Seq<(Seq<char>, StructDefView)> {
    let found = property_structs(prop, name, schema);
    with_struct(with_struct(with_struct(m, found.0), found.1), found.2)
}

fn add_struct<'a>(defs: &mut Vec<(String, StructDefInfo<'a>)>, info: StructDefInfo<'a>)
    ensures
        defs_view(final(defs)@) == with_struct(defs_view(old(defs)@), Some(info@)),
{
    let key = info.def_name.clone();
    let ghost view = info@;
    let (i, found) = keyed::slot(defs, key.as_str());
    assert(keyed::entry_keys(defs@) =~= keyed::keys(defs_view(defs@)));
    if !found {
        defs.insert(i, (key, info));
        assert(defs_view(defs@) =~= defs_view(old(defs)@).insert(i as int, (view.def_name, view)));
    }
}

fn add_referenced<'a>(defs: &mut Vec<(String, StructDefInfo<'a>)>, schema: &'a CfnSchema, path: &str)
    ensures
        defs_view(final(defs)@) == with_struct(defs_view(old(defs)@), referenced_struct(*schema, path@)),
{
    if text::contains(path, "/Tag") {
        return;
    }
    if let Some((properties, required)) = model::struct_properties(schema, path) {
        if let Some(def_name) = model::ref_def_name(path) {
            add_struct(defs, StructDefInfo { def_name: def_name.to_owned(), properties, required });
        }
    }
}

/// Adds the structs that a property refers to; a name that is there already
/// keeps its struct.
pub fn collect_struct_defs<'a>(
    prop: &'a CfnProperty,
    prop_name: &str,
    schema: &'a CfnSchema,
    struct_defs: &mut Vec<(String, StructDefInfo<'a>)>,
)
    ensures
        defs_view(final(struct_defs)@) == collected(
            defs_view(old(struct_defs)@),
            *prop,
            prop_name@,
            *schema,
        ),
{
    if let Some(path) = &prop.ref_path {
        add_referenced(struct_defs, schema, path.as_str());
    }
    if let Some(items) = &prop.items {
        if let Some(path) = &items.ref_path {
            add_referenced(struct_defs, schema, path.as_str());
        }
    }
    if model::has_kind(prop, "object") {
        if let Some(properties) = &prop.properties {
            if properties.len() > 0 {
                add_struct(
                    struct_defs,
                    StructDefInfo { def_name: prop_name.to_owned(), properties, required: &prop.required },
                );
            }
        }
    }
}


/// A list of property paths names a property.
pub open spec fn lists_path(paths: Seq<Seq<char>>, name: Seq<char>) -> bool {
    paths.map_values(|p: Seq<char>| text::without_leading(p, "/properties/"@)).contains(name)
}

/// Whether a list of property paths names a property.
pub fn has_path(paths: &Vec<String>, name: &str) -> (r: bool)
    ensures
        r == lists_path(text::strings(paths@), name@),
{
    proof {
        reveal_strlit("/properties/");
    }
    let mut i: usize = 0;
    let ghost bare = text::strings(paths@).map_values(|p: Seq<char>| text::without_leading(p, "/properties/"@));
    while i < paths.len()
        invariant
            i <= paths.len(),
            "/properties/"@.len() > 0,
            bare == text::strings(paths@).map_values(|p: Seq<char>| text::without_leading(p, "/properties/"@)),
            forall|j: int| 0 <= j < i ==> bare[j] != name@,
        decreases paths.len() - i,
    {
        let path = text::trim_leading(paths[i].as_str(), "/properties/");
        assert(bare[i as int] == path@);
        if text::same(path, name) {
            return true;
        }
        i = i + 1;
    }
    false
}

/// The enums among the first properties of a schema, in order.
pub open spec fn schema_enums(props: Seq<(String, CfnProperty)>, schema: CfnSchema) -> Seq<(Seq<char>, EnumView)>
    decreases props.len(),
{
    if props.len() == 0 {
        Seq::empty()
    } else {
        let before = schema_enums(props.drop_last(), schema);
        let last = props.last();
        match types::type_code(last.1, last.0@, schema).1 {
            Some(e) => before.push((last.0@, e)),
            None => before,
        }
    }
}

/// The structs that the first properties of a schema refer to.
pub open spec fn schema_structs(props: Seq<(String, CfnProperty)>, schema: CfnSchema) -> Seq<(Seq<char>, StructDefView)>
    decreases props.len(),
{
    if props.len() == 0 {
        Seq::empty()
    } else {
        let last = props.last();
        collected(schema_structs(props.drop_last(), schema), last.1, last.0@, schema)
    }
}

/// Every property of a schema has a type.
pub open spec fn all_typed(props: Seq<(String, CfnProperty)>, schema: CfnSchema) -> bool {
    forall|i: int| 0 <= i < props.len() ==> types::has_type((#[trigger] props[i]).1, props[i].0@, schema)
}

/// The enums of a schema, in the order of its properties.
pub fn find_enums(schema: &CfnSchema) -> (r: Vec<(String, EnumInfo)>)
    requires
        all_typed(schema.properties@, *schema),
    ensures
        enums_view(r@) == schema_enums(schema.properties@, *schema),
{
    let props = &schema.properties;
    let mut out: Vec<(String, EnumInfo)> = Vec::new();
    let mut i: usize = 0;
    assert(enums_view(out@) =~= schema_enums(props@.take(0), *schema));
    while i < props.len()
        invariant
            i <= props.len(),
            all_typed(props@, *schema),
            enums_view(out@) == schema_enums(props@.take(i as int), *schema),
        decreases props.len() - i,
    {
        proof {
            assert(props@.take(i + 1).drop_last() =~= props@.take(i as int));
            assert(props@.take(i + 1).last() == props@[i as int]);
        }
        let name = &props[i].0;
        let t = types::cfn_type_to_carina_type_with_enum(&props[i].1, name.as_str(), schema);
        if let Some(info) = t.1 {
            let ghost before = enums_view(out@);
            let ghost view = info@;
            out.push((name.clone(), info));
            assert(enums_view(out@) =~= before.push((name@, view)));
        }
        i = i + 1;
    }
    assert(props@.take(i as int) =~= props@);
    out
}

fn find_structs<'a>(schema: &'a CfnSchema) -> (r: Vec<(String, StructDefInfo<'a>)>)
    ensures
        defs_view(r@) == schema_structs(schema.properties@, *schema),
{
    let props = &schema.properties;
    let mut out: Vec<(String, StructDefInfo<'a>)> = Vec::new();
    let mut i: usize = 0;
    assert(defs_view(out@) =~= schema_structs(props@.take(0), *schema));
    while i < props.len()
        invariant
            i <= props.len(),
            props@ == schema.properties@,
            defs_view(out@) == schema_structs(props@.take(i as int), *schema),
        decreases props.len() - i,
    {
        proof {
            assert(props@.take(i + 1).drop_last() =~= props@.take(i as int));
            assert(props@.take(i + 1).last() == props@[i as int]);
        }
        collect_struct_defs(&props[i].1, props[i].0.as_str(), schema, &mut out);
        i = i + 1;
    }
    assert(props@.take(i as int) =~= props@);
    out
}

/// A description on one line with double spaces single.
pub open spec fn one_line(d: Seq<char>) -> Seq<char> {
    text::replaced(text::swapped(d, '\n', ' '), "  "@, " "@)
}

fn on_one_line(d: &str) -> (r: String)
    ensures
        r@ == one_line(d@),
{
    proof {
        reveal_strlit("  ");
    }
    let lined = text::swap_char(d, '\n', ' ');
    text::replace(lined.as_str(), "  ", " ")
}

/// What a page says of a property that can be written.
pub open spec fn argument_section(
    name: Seq<char>,
    prop: CfnProperty,
    schema: CfnSchema,
    enums: Seq<(Seq<char>, EnumView)>,
    required: bool,
) -> Seq<char> {
    let head = "### `"@ + casing::snake_case(name) + "`\n\n"@ + "- **Type:** "@ + type_display(
        name,
        prop,
        schema,
        enums,
    ) + "\n"@ + (if required {
        "- **Required:** Yes\n"@
    } else {
        "- **Required:** No\n"@
    }) + "\n"@;
    match prop.description {
        Some(d) => head + one_line(d@) + "\n\n"@,
        None => head,
    }
}

/// What a page says of the first properties, as far as they can be written.
pub open spec fn argument_sections(
    props: Seq<(String, CfnProperty)>,
    schema: CfnSchema,
    enums: Seq<(Seq<char>, EnumView)>,
) -> Seq<Seq<char>>
    decreases props.len(),
{
    if props.len() == 0 {
        Seq::empty()
    } else {
        let before = argument_sections(props.drop_last(), schema, enums);
        let last = props.last();
        if lists_path(text::strings(schema.read_only_properties@), last.0@) {
            before
        } else {
            before.push(
                argument_section(
                    last.0@,
                    last.1,
                    schema,
                    enums,
                    text::strings(schema.required@).contains(last.0@),
                ),
            )
        }
    }
}

fn write_arguments(schema: &CfnSchema, enums: &Vec<(String, EnumInfo)>) -> (r: Vec<String>)
    ensures
        text::strings(r@) == argument_sections(schema.properties@, *schema, enums_view(enums@)),
{
    let props = &schema.properties;
    let mut out: Vec<String> = Vec::new();
    let mut i: usize = 0;
    assert(text::strings(out@) =~= argument_sections(props@.take(0), *schema, enums_view(enums@)));
    while i < props.len()
        invariant
            i <= props.len(),
            text::strings(out@) == argument_sections(props@.take(i as int), *schema, enums_view(enums@)),
        decreases props.len() - i,
    {
        proof {
            assert(props@.take(i + 1).drop_last() =~= props@.take(i as int));
            assert(props@.take(i + 1).last() == props@[i as int]);
        }
        let name = props[i].0.as_str();
        let prop = &props[i].1;
        if !has_path(&schema.read_only_properties, name) {
            let mut s = "### `".to_owned();
            s.append(casing::to_snake(name).as_str());
            s.append("`\n\n");
            s.append("- **Type:** ");
            s.append(type_display_string(name, prop, schema, enums).as_str());
            s.append("\n");
            if text::listed(&schema.required, name) {
                s.append("- **Required:** Yes\n");
            } else {
                s.append("- **Required:** No\n");
            }
            s.append("\n");
            if let Some(d) = &prop.description {
                s.append(on_one_line(d.as_str()).as_str());
                s.append("\n\n");
            }
            let ghost before = text::strings(out@);
            let ghost view = s@;
            out.push(s);
            assert(text::strings(out@) =~= before.push(view));
        }
        i = i + 1;
    }
    assert(props@.take(i as int) =~= props@);
    out
}

/// The row of an enum value.
pub open spec fn value_row(value: Seq<char>, namespace: Seq<char>, e_name: Seq<char>) -> Seq<char> {
    "| `"@ + value + "` | `"@ + namespace + "."@ + e_name + "."@ + value + "` |\n"@
}

/// What a page says of an enum.
pub open spec fn enum_section(name: Seq<char>, e: EnumView, namespace: Seq<char>) -> Seq<char> {
    let first = if e.values.len() > 0 {
        e.values[0]
    } else {
        Seq::empty()
    };
    text::cat(
        "### "@ + casing::snake_case(name) + " ("@ + e.typename + ")\n\n"@ + "| Value | DSL Identifier |\n"@
            + "|-------|----------------|\n"@,
        e.values.map_values(|v: Seq<char>| value_row(v, namespace, e.typename)),
    ) + "\n"@ + "Shorthand formats: `"@ + first + "` or `"@ + e.typename + "."@ + first + "`\n\n"@
}

fn write_enum(name: &str, e: &EnumInfo, namespace: &str) -> (r: String)
    ensures
        r@ == enum_section(name@, e@, namespace@),
{
    let mut s = "### ".to_owned();
    s.append(casing::to_snake(name).as_str());
    s.append(" (");
    s.append(e.typename.as_str());
    s.append(")\n\n");
    s.append("| Value | DSL Identifier |\n");
    s.append("|-------|----------------|\n");
    let mut rows: Vec<String> = Vec::new();
    let mut i: usize = 0;
    let ghost all = text::strings(e.values@);
    let ghost row = |v: Seq<char>| value_row(v, namespace@, e.typename@);
    while i < e.values.len()
        invariant
            i <= e.values.len(),
            all == text::strings(e.values@),
            row == (|v: Seq<char>| value_row(v, namespace@, e.typename@)),
            text::strings(rows@) == all.take(i as int).map_values(row),
        decreases e.values.len() - i,
    {
        let mut line = "| `".to_owned();
        line.append(e.values[i].as_str());
        line.append("` | `");
        line.append(namespace);
        line.append(".");
        line.append(e.typename.as_str());
        line.append(".");
        line.append(e.values[i].as_str());
        line.append("` |\n");
        let ghost before = text::strings(rows@);
        let ghost view = line@;
        rows.push(line);
        proof {
            assert(text::strings(rows@) =~= before.push(view));
            assert(all.take(i + 1).map_values(row) =~= all.take(i as int).map_values(row).push(view));
        }
        i = i + 1;
    }
    assert(all.take(i as int) =~= all);
    text::append_all(&mut s, &rows);
    s.append("\n");
    s.append("Shorthand formats: `");
    let empty = String::new();
    let first = if e.values.len() > 0 {
        e.values[0].as_str()
    } else {
        empty.as_str()
    };
    s.append(first);
    s.append("` or `");
    s.append(e.typename.as_str());
    s.append(".");
    s.append(first);
    s.append("`\n\n");
    s
}

/// What a page says of enums.
pub open spec fn enum_sections(enums: Seq<(Seq<char>, EnumView)>, namespace: Seq<char>) -> Seq<Seq<char>> {
    enums.map_values(|e: (Seq<char>, EnumView)| enum_section(e.0, e.1, namespace))
}

fn write_enums(enums: &Vec<(String, EnumInfo)>, namespace: &str) -> (r: Vec<String>)
    ensures
        text::strings(r@) == enum_sections(enums_view(enums@), namespace@),
{
    let mut out: Vec<String> = Vec::new();
    let mut i: usize = 0;
    let ghost all = enums_view(enums@);
    while i < enums.len()
        invariant
            i <= enums.len(),
            all == enums_view(enums@),
            text::strings(out@) == enum_sections(all.take(i as int), namespace@),
        decreases enums.len() - i,
    {
        let s = write_enum(enums[i].0.as_str(), &enums[i].1, namespace);
        let ghost before = text::strings(out@);
        let ghost view = s@;
        out.push(s);
        proof {
            assert(text::strings(out@) =~= before.push(view));
            assert(all[i as int] == (enums@[i as int].0@, enums@[i as int].1@));
            assert(enum_sections(all.take(i + 1), namespace@) =~= enum_sections(
                all.take(i as int),
                namespace@,
            ).push(view));
        }
        i = i + 1;
    }
    assert(all.take(i as int) =~= all);
    out
}

/// What the page calls the type of a field of a struct.
pub open spec fn field_display(name: Seq<char>, prop: CfnProperty) -> Seq<char> {
    if keyed::lookup(tables::enum_table(), name) is Some {
        "Enum"@
    } else if model::kind_name(prop) == Some("string"@) {
        string_or_policy(name)
    } else if model::kind_name(prop) == Some("boolean"@) {
        "Bool"@
    } else if model::is_numeric(prop) {
        int_display(prop, name)
    } else if model::kind_name(prop) == Some("array"@) {
        match prop.items {
            Some(items) => list_display(*items, name),
            None => "`List<String>`"@,
        }
    } else if model::kind_name(prop) == Some("object"@) {
        "Map"@
    } else {
        names::string_display(name)
    }
}

fn display_field(name: &str, prop: &CfnProperty) -> (r: String)
    ensures
        r@ == field_display(name@, *prop),
{
    if tables::enum_override(name).is_some() {
        "Enum".to_owned()
    } else if model::has_kind(prop, "string") {
        display_string_or_policy(name)
    } else if model::has_kind(prop, "boolean") {
        "Bool".to_owned()
    } else if model::has_numeric_kind(prop) {
        display_int(prop, name)
    } else if model::has_kind(prop, "array") {
        match &prop.items {
            Some(items) => list_element_type_display(items, name),
            None => "`List<String>`".to_owned(),
        }
    } else if model::has_kind(prop, "object") {
        "Map".to_owned()
    } else {
        names::infer_string_type_display(name)
    }
}

/// The description of a field on one line; empty where there is none.
pub open spec fn field_line(prop: CfnProperty) -> Seq<char> {
    match prop.description {
        Some(d) => one_line(d@),
        None => one_line(""@),
    }
}

fn line_of_field(prop: &CfnProperty) -> (r: String)
    ensures
        r@ == field_line(*prop),
{
    match &prop.description {
        Some(d) => on_one_line(d.as_str()),
        None => on_one_line(""),
    }
}

/// The row of a field.
pub open spec fn field_row(name: Seq<char>, prop: CfnProperty, required: bool) -> Seq<char> {
    "| `"@ + casing::snake_case(name) + "` | "@ + field_display(name, prop) + " | "@ + (if required {
        "Yes"@
    } else {
        "No"@
    }) + " | "@ + text::clipped(field_line(prop), 100) + " |\n"@
}

/// The rows of the fields of a struct.
pub open spec fn field_rows(d: StructDefView) -> Seq<Seq<char>> {
    d.properties.map_values(
        |f: (String, CfnProperty)| field_row(f.0@, f.1, d.required.contains(f.0@)),
    )
}

/// What a page says of a struct.
pub open spec fn struct_section(d: StructDefView) -> Seq<char> {
    text::cat(
        "### "@ + d.def_name + "\n\n"@ + "| Field | Type | Required | Description |\n"@
            + "|-------|------|----------|-------------|\n"@,
        field_rows(d),
    ) + "\n"@
}

/// The descriptions of the fields of a struct can be cut to length.
pub open spec fn fields_fit(d: StructDefView) -> bool {
    forall|j: int| 0 <= j < d.properties.len() ==> text::cuts_cleanly(field_line((#[trigger] d.properties[j]).1), 100)
}

fn write_struct(d: &StructDefInfo<'_>) -> (r: String)
    requires
        fields_fit(d@),
    ensures
        r@ == struct_section(d@),
{
    let mut s = "### ".to_owned();
    s.append(d.def_name.as_str());
    s.append("\n\n");
    s.append("| Field | Type | Required | Description |\n");
    s.append("|-------|------|----------|-------------|\n");
    let mut rows: Vec<String> = Vec::new();
    let mut i: usize = 0;
    let props = d.properties;
    let ghost row = |f: (String, CfnProperty)| field_row(f.0@, f.1, d@.required.contains(f.0@));
    while i < props.len()
        invariant
            i <= props.len(),
            fields_fit(d@),
            props@ == d@.properties,
            row == (|f: (String, CfnProperty)| field_row(f.0@, f.1, d@.required.contains(f.0@))),
            text::strings(rows@) == props@.take(i as int).map_values(row),
        decreases props.len() - i,
    {
        let name = props[i].0.as_str();
        let prop = &props[i].1;
        assert(text::cuts_cleanly(field_line(d@.properties[i as int].1), 100));
        let mut line = "| `".to_owned();
        line.append(casing::to_snake(name).as_str());
        line.append("` | ");
        line.append(display_field(name, prop).as_str());
        line.append(" | ");
        if text::listed(d.required, name) {
            line.append("Yes");
        } else {
            line.append("No");
        }
        line.append(" | ");
        line.append(text::clip(line_of_field(prop), 100).as_str());
        line.append(" |\n");
        let ghost before = text::strings(rows@);
        let ghost view = line@;
        rows.push(line);
        proof {
            assert(text::strings(rows@) =~= before.push(view));
            assert(view == row(props@[i as int]));
            assert(props@.take(i + 1).map_values(row) =~= props@.take(i as int).map_values(row).push(view));
        }
        i = i + 1;
    }
    assert(props@.take(i as int) =~= props@);
    text::append_all(&mut s, &rows);
    s.append("\n");
    s
}

/// What a page says of structs.
pub open spec fn struct_sections(defs: Seq<(Seq<char>, StructDefView)>) -> Seq<Seq<char>> {
    defs.map_values(|d: (Seq<char>, StructDefView)| struct_section(d.1))
}

/// The descriptions of the fields of all structs can be cut to length.
pub open spec fn all_fields_fit(defs: Seq<(Seq<char>, StructDefView)>) -> bool {
    forall|i: int| 0 <= i < defs.len() ==> fields_fit((#[trigger] defs[i]).1)
}

fn write_structs(defs: &Vec<(String, StructDefInfo<'_>)>) -> (r: Vec<String>)
    requires
        all_fields_fit(defs_view(defs@)),
    ensures
        text::strings(r@) == struct_sections(defs_view(defs@)),
{
    let mut out: Vec<String> = Vec::new();
    let mut i: usize = 0;
    let ghost all = defs_view(defs@);
    while i < defs.len()
        invariant
            i <= defs.len(),
            all == defs_view(defs@),
            all_fields_fit(all),
            text::strings(out@) == struct_sections(all.take(i as int)),
        decreases defs.len() - i,
    {
        assert(fields_fit(all[i as int].1));
        let s = write_struct(&defs[i].1);
        let ghost before = text::strings(out@);
        let ghost view = s@;
        out.push(s);
        proof {
            assert(text::strings(out@) =~= before.push(view));
            assert(struct_sections(all.take(i + 1)) =~= struct_sections(all.take(i as int)).push(view));
        }
        i = i + 1;
    }
    assert(all.take(i as int) =~= all);
    out
}

/// What a page says of a read-only property.
pub open spec fn attribute_section(
    name: Seq<char>,
    prop: CfnProperty,
    schema: CfnSchema,
    enums: Seq<(Seq<char>, EnumView)>,
) -> Seq<char> {
    "### `"@ + casing::snake_case(name) + "`\n\n"@ + "- **Type:** "@ + type_display(name, prop, schema, enums)
        + "\n\n"@
}

/// What a page says of the first properties, as far as they are read-only.
pub open spec fn attribute_sections(
    props: Seq<(String, CfnProperty)>,
    schema: CfnSchema,
    enums: Seq<(Seq<char>, EnumView)>,
) -> Seq<Seq<char>>
    decreases props.len(),
{
    if props.len() == 0 {
        Seq::empty()
    } else {
        let before = attribute_sections(props.drop_last(), schema, enums);
        let last = props.last();
        if lists_path(text::strings(schema.read_only_properties@), last.0@) {
            before.push(attribute_section(last.0@, last.1, schema, enums))
        } else {
            before
        }
    }
}

fn write_attributes(schema: &CfnSchema, enums: &Vec<(String, EnumInfo)>) -> (r: Vec<String>)
    ensures
        text::strings(r@) == attribute_sections(schema.properties@, *schema, enums_view(enums@)),
{
    let props = &schema.properties;
    let mut out: Vec<String> = Vec::new();
    let mut i: usize = 0;
    assert(text::strings(out@) =~= attribute_sections(props@.take(0), *schema, enums_view(enums@)));
    while i < props.len()
        invariant
            i <= props.len(),
            text::strings(out@) == attribute_sections(props@.take(i as int), *schema, enums_view(enums@)),
        decreases props.len() - i,
    {
        proof {
            assert(props@.take(i + 1).drop_last() =~= props@.take(i as int));
            assert(props@.take(i + 1).last() == props@[i as int]);
        }
        let name = props[i].0.as_str();
        if has_path(&schema.read_only_properties, name) {
            let mut s = "### `".to_owned();
            s.append(casing::to_snake(name).as_str());
            s.append("`\n\n");
            s.append("- **Type:** ");
            s.append(type_display_string(name, &props[i].1, schema, enums).as_str());
            s.append("\n\n");
            let ghost before = text::strings(out@);
            let ghost view = s@;
            out.push(s);
            assert(text::strings(out@) =~= before.push(view));
        }
        i = i + 1;
    }
    assert(props@.take(i as int) =~= props@);
    out
}

/// The page of a resource type whose name has the given parts.
pub open spec fn page_text(schema: CfnSchema, typename: Seq<char>) -> Seq<char> {
    let full = full_name(text::split(typename, "::"@));
    let namespace = "awscc."@ + full;
    let props = schema.properties@;
    let enums = schema_enums(props, schema);
    let defs = schema_structs(props, schema);
    let title = "# awscc."@ + full + "\n\n"@ + "CloudFormation Type: `"@ + typename + "`\n\n"@;
    let described = match schema.description {
        Some(d) => title + d@ + "\n\n"@,
        None => title,
    };
    let arguments = text::cat(
        described + "## Argument Reference\n\n"@,
        argument_sections(props, schema, enums),
    );
    let listed = if enums.len() > 0 {
        text::cat(arguments + "## Enum Values\n\n"@, enum_sections(enums, namespace))
    } else {
        arguments
    };
    let structured = if defs.len() > 0 {
        text::cat(listed + "## Struct Definitions\n\n"@, struct_sections(defs))
    } else {
        listed
    };
    let attributes = attribute_sections(props, schema, enums);
    if attributes.len() > 0 {
        text::cat(structured + "## Attribute Reference\n\n"@, attributes)
    } else {
        structured
    }
}

/// A schema of which a page can be written: the types of its properties can be
/// generated and the descriptions of struct fields can be cut to length.
pub open spec fn has_page(schema: CfnSchema) -> bool {
    &&& all_typed(schema.properties@, schema)
    &&& all_fields_fit(schema_structs(schema.properties@, schema))
}

/// The reference page of a resource type in Markdown.
pub fn generate_markdown(schema: &CfnSchema, typename: &str) -> (r: Result<String, String>)
    requires
        text::split(typename@, "::"@).len() == 3 ==> has_page(*schema),
    ensures
        match r {
            Ok(page) => text::split(typename@, "::"@).len() == 3 && page@ == page_text(*schema, typename@),
            Err(e) => text::split(typename@, "::"@).len() != 3 && e@ == bad_name(typename@),
        },
{
    let full = match full_resource_name_from_type(typename) {
        Ok(name) => name,
        Err(e) => {
            return Err(e);
        },
    };
    let mut namespace = "awscc.".to_owned();
    namespace.append(full.as_str());
    let enums = find_enums(schema);
    let defs = find_structs(schema);
    let mut md = "# awscc.".to_owned();
    md.append(full.as_str());
    md.append("\n\n");
    md.append("CloudFormation Type: `");
    md.append(typename);
    md.append("`\n\n");
    if let Some(d) = &schema.description {
        md.append(d.as_str());
        md.append("\n\n");
    }
    md.append("## Argument Reference\n\n");
    text::append_all(&mut md, &write_arguments(schema, &enums));
    assert(enums_view(enums@).len() == enums@.len());
    if enums.len() > 0 {
        md.append("## Enum Values\n\n");
        text::append_all(&mut md, &write_enums(&enums, namespace.as_str()));
    }
    assert(defs_view(defs@).len() == defs@.len());
    if defs.len() > 0 {
        md.append("## Struct Definitions\n\n");
        text::append_all(&mut md, &write_structs(&defs));
    }
    let attributes = write_attributes(schema, &enums);
    assert(text::strings(attributes@).len() == attributes@.len());
    if attributes.len() > 0 {
        md.append("## Attribute Reference\n\n");
        text::append_all(&mut md, &attributes);
    }
    Ok(md)
}

/// Every property of a schema is renderable with the given depth of references.
pub open spec fn renderable_within(props: Seq<(String, CfnProperty)>, schema: CfnSchema, depth: nat) -> bool {
    forall|i: int| 0 <= i < props.len() ==> types::renderable((#[trigger] props[i]).1, props[i].0@, schema, depth)
}

/// Whether every property of a schema is renderable with the given depth of
/// references.
pub fn is_schema_renderable(schema: &CfnSchema, depth: u32) -> (r: bool)
    ensures
        r == renderable_within(schema.properties@, *schema, depth as nat),
        r ==> all_typed(schema.properties@, *schema),
{
    let props = &schema.properties;
    let mut i: usize = 0;
    while i < props.len()
        invariant
            i <= props.len(),
            props@ == schema.properties@,
            forall|j: int| 0 <= j < i ==> types::renderable((#[trigger] props@[j]).1, props@[j].0@, *schema, depth as nat),
        decreases props.len() - i,
    {
        if !types::is_renderable(&props[i].1, props[i].0.as_str(), schema, depth) {
            return false;
        }
        i = i + 1;
    }
    true
}

/// Whether the descriptions of the struct fields of a schema can be cut to the
/// length that a page gives them.
pub fn do_fields_fit(schema: &CfnSchema) -> (r: bool)
    ensures
        r == all_fields_fit(schema_structs(schema.properties@, *schema)),
{
    let defs = find_structs(schema);
    let ghost all = defs_view(defs@);
    let mut i: usize = 0;
    while i < defs.len()
        invariant
            i <= defs.len(),
            all == defs_view(defs@),
            all == schema_structs(schema.properties@, *schema),
            forall|k: int| 0 <= k < i ==> fields_fit((#[trigger] all[k]).1),
        decreases defs.len() - i,
    {
        let props = defs[i].1.properties;
        assert(all[i as int].1.properties == props@);
        let mut j: usize = 0;
        while j < props.len()
            invariant
                i < defs.len(),
                all == defs_view(defs@),
                all == schema_structs(schema.properties@, *schema),
                all[i as int].1.properties == props@,
                j <= props.len(),
                forall|k: int| 0 <= k < j ==> text::cuts_cleanly(field_line((#[trigger] props@[k]).1), 100),
            decreases props.len() - j,
        {
            if !text::can_clip(line_of_field(&props[j].1).as_str(), 100) {
                assert(!text::cuts_cleanly(field_line(all[i as int].1.properties[j as int].1), 100));
                assert(!fields_fit(all[i as int].1));
                return false;
            }
            j = j + 1;
        }
        assert(fields_fit(all[i as int].1));
        i = i + 1;
    }
    true
}

/// The structs of a page stand in the order of their names.
pub proof fn lemma_structs_ascend(props: Seq<(String, CfnProperty)>, schema: CfnSchema)
    ensures
        keyed::ascending(schema_structs(props, schema)),
    decreases props.len(),
{
    if props.len() > 0 {
        let m = schema_structs(props.drop_last(), schema);
        lemma_structs_ascend(props.drop_last(), schema);
        let found = property_structs(props.last().1, props.last().0@, schema);
        lemma_with_struct_ascends(m, found.0);
        lemma_with_struct_ascends(with_struct(m, found.0), found.1);
        lemma_with_struct_ascends(with_struct(with_struct(m, found.0), found.1), found.2);
    }
}

proof fn lemma_with_struct_ascends(m: Seq<(Seq<char>, StructDefView)>, d: Option<StructDefView>)
    requires
        keyed::ascending(m),
    ensures
        keyed::ascending(with_struct(m, d)),
{
    if d is Some {
        keyed::law_put_absent(m, d->0.def_name, d->0);
    }
}

/// A page lists every struct once, in ascending order of the names.
pub proof fn law_page_structs_ascend(schema: CfnSchema)
    ensures
        keyed::ascending(schema_structs(schema.properties@, schema)),
{
    lemma_structs_ascend(schema.properties@, schema);
}

/// The pages call no list type simply `List`: the type of the elements is
/// always there.
pub proof fn law_list_display_has_element_type(items: CfnProperty, name: Seq<char>)
    ensures
        text::begins_with(list_display(items, name), "`List<"@),
        text::finishes_with(list_display(items, name), ">`"@),
{
    reveal_strlit("`List<");
    reveal_strlit(">`");
    reveal_strlit("`List<Int>`");
    reveal_strlit("`List<Bool>`");
    reveal_strlit("`List<String>`");
    let d = list_display(items, name);
    assert(d.subrange(0, 6) =~= "`List<"@);
    assert(d.subrange(d.len() - 2, d.len() as int) =~= ">`"@);
}

/// What the pages call an integer with a range.
pub open spec fn ranged_display(low: i64, high: i64) -> Seq<char> {
    "Int("@ + text::decimal(low as int) + "..="@ + text::decimal(high as int) + ")"@
}

/// What the code names the type of an integer with a range.
pub open spec fn ranged_name(low: i64, high: i64) -> Seq<char> {
    "name: \""@ + ranged_display(low, high) + "\""@
}

/// No double quote occurs.
pub open spec fn quote_free(s: Seq<char>) -> bool {
    forall|i: int| 0 <= i < s.len() ==> #[trigger] s[i] != '"'
}

/// The page and the code agree on the range of a number: the page names a range
/// exactly when the code does, and none exactly when the code has none.
pub proof fn law_page_and_code_agree_on_ranges(
    name: Seq<char>,
    prop: CfnProperty,
    schema: CfnSchema,
    low: i64,
    high: i64,
)
    requires
        model::is_numeric(prop),
        prop.ref_path is None,
        prop.enum_values is None,
        name != "Tags"@,
        keyed::lookup(tables::enum_table(), name) is None,
    ensures
        ({
            let page = type_display(name, prop, schema, Seq::empty());
            let code = types::type_code(prop, name, schema).0;
            &&& page == ranged_display(low, high) <==> text::holds(code, ranged_name(low, high))
            &&& page == "Int"@ <==> code == "AttributeType::Int"@
        }),
{
    let page = type_display(name, prop, schema, Seq::empty());
    let code = types::type_code(prop, name, schema).0;
    lemma_number_kinds();
    assert(page == int_display(prop, name));
    assert(code == types::int_type(prop, name));
    reveal_strlit("AttributeType::Int");
    reveal_strlit("Int");
    reveal_strlit("Int(");
    match types::int_range(prop, name) {
        Some((a, b)) => {
            lemma_code_of_range(name, prop);
            let r = ranged_display(a, b);
            let tail = code_tail(name);
            assert(code == code_head() + r + tail);
            assert(page == r);
            assert(page[3] == '(');
            assert(code[15] == 'C') by {
                reveal_strlit("AttributeType::Custom {\n                name: \"");
            }
            lemma_quotes(name, a, b);
            if page == ranged_display(low, high) {
                lemma_range_is_named(r, tail);
                assert(ranged_name(low, high) == ranged_name(a, b));
            }
            if text::holds(code, ranged_name(low, high)) {
                let i = choose|i: int| text::stands_at(code, ranged_name(low, high), i);
                lemma_quotes(name, low, high);
                lemma_only_range(r, tail, ranged_display(low, high), i);
            }
        },
        None => {
            if text::holds(code, ranged_name(low, high)) {
                let i = choose|i: int| text::stands_at(code, ranged_name(low, high), i);
                reveal_strlit("name: \"");
                let pattern = ranged_name(low, high);
                assert(pattern[6] == '"');
                assert(code.subrange(i, i + pattern.len())[6] == code[i + 6]);
                assert(false);
            }
            if page == ranged_display(low, high) {
                assert(page[3] == '(');
                assert(false);
            }
        },
    }
}

/// A number is none of the kinds that are asked about before.
proof fn lemma_number_kinds()
    ensures
        "integer"@ != "string"@,
        "integer"@ != "boolean"@,
        "number"@ != "string"@,
        "number"@ != "boolean"@,
{
    reveal_strlit("integer");
    reveal_strlit("number");
    reveal_strlit("string");
    reveal_strlit("boolean");
    assert("integer"@[0] == 'i' && "number"@[0] == 'n' && "string"@[0] == 's' && "boolean"@[0] == 'b');
}

/// What stands before the range in the code of a type.
spec fn code_head() -> Seq<char> {
    "AttributeType::Custom {\n                name: \""@
}

/// What stands behind the range in the code of a type.
spec fn code_tail(name: Seq<char>) -> Seq<char> {
    "\".to_string(),\n                base: Box::new(AttributeType::Int),\n                validate: validate_"@
        + casing::snake_case(name) + "_range,\n                namespace: None,\n                to_dsl: None,\n            }"@
}

proof fn lemma_code_of_range(name: Seq<char>, prop: CfnProperty)
    requires
        types::int_range(prop, name) is Some,
    ensures
        ({
            let range = types::int_range(prop, name)->0;
            types::int_type(prop, name) == code_head() + ranged_display(range.0, range.1) + code_tail(name)
        }),
{
    let (a, b) = types::int_range(prop, name)->0;
    let x = text::decimal(a as int);
    let y = text::decimal(b as int);
    let first = "AttributeType::Custom {\n                name: \"Int("@;
    let middle
        = ")\".to_string(),\n                base: Box::new(AttributeType::Int),\n                validate: validate_"@;
    let rest
        = "\".to_string(),\n                base: Box::new(AttributeType::Int),\n                validate: validate_"@;
    assert(first =~= code_head() + "Int("@) by {
        reveal_strlit("AttributeType::Custom {\n                name: \"Int(");
        reveal_strlit("AttributeType::Custom {\n                name: \"");
        reveal_strlit("Int(");
    }
    assert(middle =~= ")"@ + rest) by {
        reveal_strlit(
            ")\".to_string(),\n                base: Box::new(AttributeType::Int),\n                validate: validate_",
        );
        reveal_strlit(
            "\".to_string(),\n                base: Box::new(AttributeType::Int),\n                validate: validate_",
        );
        reveal_strlit(")");
    }
    let last = "_range,\n                namespace: None,\n                to_dsl: None,\n            }"@;
    let snake = casing::snake_case(name);
    assert(first + x + "..="@ + y + middle + snake + last =~= code_head() + ("Int("@ + x + "..="@ + y + ")"@) + (rest
        + snake + last));
}

/// The code of a range holds the name of the range.
proof fn lemma_range_is_named(r: Seq<char>, tail: Seq<char>)
    requires
        tail.len() > 0,
        tail[0] == '"',
    ensures
        text::holds(code_head() + r + tail, "name: \""@ + r + "\""@),
{
    let code = code_head() + r + tail;
    let pattern = "name: \""@ + r + "\""@;
    reveal_strlit("AttributeType::Custom {\n                name: \"");
    reveal_strlit("name: \"");
    reveal_strlit("\"");
    let i = code_head().len() - 7;
    assert(code.subrange(i, i + pattern.len()) =~= pattern);
    assert(text::stands_at(code, pattern, i));
}

proof fn lemma_quotes(name: Seq<char>, low: i64, high: i64)
    ensures
        quote_free(ranged_display(low, high)),
        code_tail(name).len() > 0,
        code_tail(name)[0] == '"',
        quote_free(code_tail(name).skip(1)),
{
    let snake = casing::snake_case(name);
    assert forall|i: int| 0 <= i < snake.len() implies #[trigger] snake[i] != '"' by {
        casing::law_snake_case_is_plain(name, i);
    }
    reveal_strlit("Int(");
    reveal_strlit("..=");
    reveal_strlit(")");
    lemma_decimal_quotes(low as int);
    lemma_decimal_quotes(high as int);
    reveal_strlit(
        "\".to_string(),\n                base: Box::new(AttributeType::Int),\n                validate: validate_",
    );
    reveal_strlit("_range,\n                namespace: None,\n                to_dsl: None,\n            }");
}

proof fn lemma_decimal_quotes(n: int)
    ensures
        quote_free(text::decimal(n)),
{
    if n < 0 {
        lemma_digits_quotes((-n) as nat);
    } else {
        lemma_digits_quotes(n as nat);
    }
}

proof fn lemma_digits_quotes(n: nat)
    ensures
        quote_free(text::digits(n)),
    decreases n,
{
    if n >= 10 {
        lemma_digits_quotes(n / 10);
    }
}

/// Text between quotes that stands in the code of a range is that range.
proof fn lemma_only_range(r: Seq<char>, tail: Seq<char>, other: Seq<char>, i: int)
    requires
        quote_free(r),
        quote_free(other),
        tail.len() > 0,
        tail[0] == '"',
        quote_free(tail.skip(1)),
        text::stands_at(code_head() + r + tail, "name: \""@ + other + "\""@, i),
    ensures
        other == r,
{
    let head = code_head();
    let code = head + r + tail;
    let pattern = "name: \""@ + other + "\""@;
    reveal_strlit("AttributeType::Custom {\n                name: \"");
    reveal_strlit("name: \"");
    reveal_strlit("\"");
    let n = head.len() as int;
    let first = i + 6;
    let second = i + 7 + other.len();
    let part = code.subrange(i, i + pattern.len());
    assert(part == pattern);
    assert(part[6] == code[first] && pattern[6] == '"');
    let last = 7 + other.len() as int;
    assert(part[last] == code[second] && pattern[last] == '"');
    assert forall|k: int| 0 <= k < code.len() && code[k] == '"' implies k == n - 1 || k == n + r.len() by {
        if k >= n && k < n + r.len() {
            assert(code[k] == r[k - n]);
        } else if k > n + r.len() {
            assert(code[k] == tail.skip(1)[k - n - r.len() - 1]);
        }
    }
    assert(first == n - 1 && second == n + r.len());
    assert forall|k: int| 0 <= k < r.len() implies r[k] == other[k] by {
        assert(part[7 + k] == code[n + k]);
        assert(pattern[7 + k] == other[k]);
    }
    assert(other =~= r);
}

} // verus!
