//! How the provider is named, configured and hooked into a host.
use vstd::prelude::*;
use vstd::string::*;

use crate::keyed;
use crate::provider;
use crate::provider::normalizer;
use crate::resource;
use crate::resource::{Resource, ResourceId, ResourceView, State};
use crate::schema::ResourceSchema;
use crate::schemas::registry;
use crate::schemas::types;
use crate::text;
use crate::value;
use crate::value::{DslValue, ValueView};

verus! {

/// What the provider does to resources and states when a plan is made.
pub struct AwsccSchemaExt;

impl AwsccSchemaExt {
    /// Brings the enum values of the resources that are marked for this
    /// provider into full form.
    pub fn normalize_desired(&self, resources: &mut Vec<Resource>)
        ensures
            resource::resources_view(final(resources)@) == resource::resources_view(old(resources)@).map_values(
                |r: ResourceView| provider::resolved_by_mark(r),
            ),
    {
        provider::resolve_enum_identifiers_impl(resources);
    }

    /// Restores the attributes of the states of this provider that the reads
    /// did not return.
    pub fn hydrate_read_state(
        &self,
        current_states: &mut Vec<(ResourceId, State)>,
        saved_attrs: &Vec<(ResourceId, Vec<(String, DslValue)>)>,
    )
        ensures
            final(current_states)@.len() == old(current_states)@.len(),
            forall|i: int|
                0 <= i < old(current_states)@.len() ==> {
                    let was = #[trigger] old(current_states)@[i];
                    let is = final(current_states)@[i];
                    &&& is.0@ == was.0@
                    &&& is.1@ == normalizer::restored(
                        was.0@,
                        was.1@,
                        normalizer::saved_from(saved_attrs@, was.0@, 0),
                    )
                },
    {
        normalizer::restore_unreturned_attrs_impl(current_states, saved_attrs);
    }
}

/// The region of a configuration: behind `awscc.Region.` or `aws.Region.` with
/// hyphens for underscores, or as it is written, or Tokyo where none is given.
pub open spec fn region_of(attributes: Seq<(Seq<char>, ValueView)>) -> Seq<char> {
    match keyed::lookup(attributes, "region"@) {
        Some(ValueView::String(s)) => match text::after_prefix(s, "awscc.Region."@) {
            Some(rest) => text::swapped(rest, '_', '-'),
            None => match text::after_prefix(s, "aws.Region."@) {
                Some(rest) => text::swapped(rest, '_', '-'),
                None => s,
            },
        },
        _ => "ap-northeast-1"@,
    }
}

/// Makes and configures providers.
pub struct AwsccProviderFactory;

impl AwsccProviderFactory {
    pub fn name(&self) -> (r: &'static str)
        ensures
            r@ == "awscc"@,
    {
        "awscc"
    }

    pub fn display_name(&self) -> (r: &'static str)
        ensures
            r@ == "AWS Cloud Control provider"@,
    {
        "AWS Cloud Control provider"
    }

    /// Whether the region of a configuration, where one is given, is one of the
    /// regions.
    pub fn validate_config(&self, attributes: &Vec<(String, DslValue)>, regions: &Vec<String>) -> (r: Result<
        (),
        String,
    >)
        ensures
            types::outcome(r) == match keyed::lookup(value::entries_view(attributes@), "region"@) {
                Some(v) => types::region_fault(v, text::strings(regions@)),
                None => None,
            },
    {
        match value::get(attributes, "region") {
            Some(v) => types::validate_region(v, regions),
            None => Ok(()),
        }
    }

    /// The region of a configuration.
    pub fn extract_region(&self, attributes: &Vec<(String, DslValue)>) -> (r: String)
        ensures
            r@ == region_of(value::entries_view(attributes@)),
    {
        match value::get(attributes, "region") {
            Some(DslValue::String(s)) => {
                if let Some(rest) = text::strip_prefix(s.as_str(), "awscc.Region.") {
                    return text::swap_char(rest, '_', '-');
                }
                if let Some(rest) = text::strip_prefix(s.as_str(), "aws.Region.") {
                    return text::swap_char(rest, '_', '-');
                }
                s.clone()
            },
            _ => "ap-northeast-1".to_owned(),
        }
    }

    /// The schemas of all resource types.
    pub fn schemas(&self) -> (r: Vec<ResourceSchema>)
        ensures
            registry::schemas_view(r@) == registry::all_schemas(),
    {
        registry::schemas()
    }

    /// The attributes of the configuration that tell one provider from another.
    pub fn identity_attributes(&self) -> (r: Vec<&'static str>)
        ensures
            r@ == seq!["region"],
    {
        vec!["region"]
    }
}

} // verus!
