//! What the provider computes around its calls of the Cloud Control API.
use vstd::prelude::*;

use crate::keyed;
use crate::resource;
use crate::resource::{Resource, ResourceView};
use crate::schemas::registry;
use crate::text;
use crate::value;
use crate::value::{DslValue, ValueView};

pub mod cloud_control;
pub mod conversion_laws;
pub mod convert;
pub mod drop_laws;
pub mod dropped;
pub mod normalizer;
pub mod operation_laws;
pub mod operations;
pub mod patch_laws;
pub mod resolution_laws;
pub mod retry_laws;
pub mod round_trip;
pub mod update;

verus! {

/// The attribute `_provider` names this provider.
pub open spec fn marked(r: ResourceView) -> bool {
    keyed::lookup(r.attributes, "_provider"@) == Some(ValueView::String("awscc"@))
}

/// A resource that is marked for this provider, with every enum value in full form.
pub open spec fn resolved_by_mark(r: ResourceView) -> ResourceView {
    if marked(r) {
        normalizer::resolved_resource(r)
    } else {
        r
    }
}

fn is_marked(r: &Resource) -> (b: bool)
    ensures
        b == marked(r@),
{
    match value::get(&r.attributes, "_provider") {
        Some(DslValue::String(p)) => text::same(p.as_str(), "awscc"),
        _ => false,
    }
}

/// Brings the enum values of the resources that are marked for this provider
/// into full form.
pub fn resolve_enum_identifiers_impl(resources: &mut Vec<Resource>)
    ensures
        resource::resources_view(final(resources)@) == resource::resources_view(old(resources)@).map_values(
            |r: ResourceView| resolved_by_mark(r),
        ),
{
    let list = registry::configs();
    let ghost before = resource::resources_view(resources@);
    let n: usize = resources.len();
    let mut i: usize = 0;
    while i < n
        invariant
            i <= n,
            n == before.len(),
            resources.len() == n,
            registry::configs_view(list@) == registry::all_configs(),
            forall|k: int| 0 <= k < i ==> (#[trigger] resources@[k])@ == resolved_by_mark(before[k]),
            forall|k: int| i <= k < n ==> (#[trigger] resources@[k])@ == before[k],
        decreases n - i,
    {
        if is_marked(&resources[i]) {
            normalizer::resolve_resource(&list, &mut resources[i]);
        }
        i = i + 1;
    }
    assert(resource::resources_view(resources@) =~= before.map_values(|r: ResourceView| resolved_by_mark(r)));
}

} // verus!
