//! What each method of the protocol takes and gives.
use vstd::prelude::*;

use crate::protocol::resource_schema::ResourceSchema;
use crate::protocol::types::{ProviderInfo, Resource, State};
use crate::protocol::value::WireValue;
use crate::resource::{LifecycleConfig, ResourceId};

verus! {

#[derive(Debug)]
pub struct ProviderInfoResult {
    pub info: ProviderInfo,
}

#[derive(Debug)]
pub struct ValidateConfigParams {
    pub attributes: Vec<(String, WireValue)>,
}

#[derive(Debug)]
pub struct ValidateConfigResult {
    pub error: Option<String>,
}

#[derive(Debug)]
pub struct SchemasResult {
    pub schemas: Vec<ResourceSchema>,
}

#[derive(Debug)]
pub struct InitializeParams {
    pub attributes: Vec<(String, WireValue)>,
}

#[derive(Debug)]
pub struct InitializeResult {
    pub ok: bool,
}

#[derive(Debug)]
pub struct ReadParams {
    pub id: ResourceId,
    pub identifier: Option<String>,
}

#[derive(Debug)]
pub struct ReadResult {
    pub state: State,
}

#[derive(Debug)]
pub struct CreateParams {
    pub resource: Resource,
}

#[derive(Debug)]
pub struct CreateResult {
    pub state: State,
}

#[derive(Debug)]
pub struct UpdateParams {
    pub id: ResourceId,
    pub identifier: String,
    pub from: State,
    pub to: Resource,
}

#[derive(Debug)]
pub struct UpdateResult {
    pub state: State,
}

#[derive(Debug)]
pub struct DeleteParams {
    pub id: ResourceId,
    pub identifier: String,
    pub lifecycle: LifecycleConfig,
}

#[derive(Debug)]
pub struct DeleteResult {
    pub ok: bool,
}

#[derive(Debug)]
pub struct NormalizeDesiredParams {
    pub resources: Vec<Resource>,
}

#[derive(Debug)]
pub struct NormalizeDesiredResult {
    pub resources: Vec<Resource>,
}

#[derive(Debug)]
pub struct NormalizeStateParams {
    pub states: Vec<(String, State)>,
}

#[derive(Debug)]
pub struct NormalizeStateResult {
    pub states: Vec<(String, State)>,
}

#[derive(Debug)]
pub struct HydrateReadStateParams {
    pub states: Vec<(String, State)>,
    pub saved_attrs: Vec<(String, Vec<(String, WireValue)>)>,
}

#[derive(Debug)]
pub struct HydrateReadStateResult {
    pub states: Vec<(String, State)>,
}

#[derive(Debug)]
pub struct MergeDefaultTagsParams {
    pub resources: Vec<Resource>,
    pub default_tags: Vec<(String, WireValue)>,
    pub schemas: Vec<ResourceSchema>,
}

#[derive(Debug)]
pub struct MergeDefaultTagsResult {
    pub resources: Vec<Resource>,
}

} // verus!
