//! The types that cross the boundary between a host and a provider.
use vstd::prelude::*;

use crate::resource::{IdView, ResourceId};
use crate::protocol::value;
use crate::protocol::value::{WireValue, WireView};
use crate::text;

verus! {

/// What an operation of a patch does.
#[derive(Debug, Clone, Copy, PartialEq, Eq, Structural)]
pub enum PatchOpKind {
    Add,
    Replace,
    Remove,
}

/// What kind of error a provider reports.
#[derive(Debug, Clone, Copy, PartialEq, Eq, Structural)]
pub enum ProviderErrorKind {
    InvalidInput,
    ApiError,
    NotFound,
    Timeout,
    Internal,
}

impl Default for ProviderErrorKind {
    fn default() -> (r: Self)
        ensures
            r == ProviderErrorKind::Internal,
    {
        ProviderErrorKind::Internal
    }
}

/// An error that a provider reports.
#[derive(Debug)]
pub struct ProviderError {
    pub kind: ProviderErrorKind,
    pub message: String,
    pub resource_id: Option<ResourceId>,
    /// What lies behind the error.
    pub cause: Option<String>,
    pub provider_name: Option<String>,
    /// The operation of the cloud API that failed, such as `iam.ListRoles`.
    pub operation: Option<String>,
    /// The HTTP status of the reply.
    pub status: Option<u16>,
    /// The error code of the cloud API, such as `AccessDenied`.
    pub code: Option<String>,
    pub request_id: Option<String>,
}

#[verifier::ext_equal]
pub struct ErrorView {
    pub kind: ProviderErrorKind,
    pub message: Seq<char>,
    pub resource_id: Option<IdView>,
    pub cause: Option<Seq<char>>,
    pub provider_name: Option<Seq<char>>,
    pub operation: Option<Seq<char>>,
    pub status: Option<u16>,
    pub code: Option<Seq<char>>,
    pub request_id: Option<Seq<char>>,
}

pub open spec fn opt_id(o: Option<ResourceId>) -> Option<IdView> {
    match o {
        Some(id) => Some(id@),
        None => None,
    }
}

impl View for ProviderError {
    type V = ErrorView;

    open spec fn view(&self) -> ErrorView {
        ErrorView {
            kind: self.kind,
            message: self.message@,
            resource_id: opt_id(self.resource_id),
            cause: text::opt_string(self.cause),
            provider_name: text::opt_string(self.provider_name),
            operation: text::opt_string(self.operation),
            status: self.status,
            code: text::opt_string(self.code),
            request_id: text::opt_string(self.request_id),
        }
    }
}

impl ErrorView {
    pub open spec fn new(message: Seq<char>) -> ErrorView {
        ErrorView {
            kind: ProviderErrorKind::Internal,
            message,
            resource_id: None,
            cause: None,
            provider_name: None,
            operation: None,
            status: None,
            code: None,
            request_id: None,
        }
    }

    pub open spec fn with_cause(self, cause: Seq<char>) -> ErrorView {
        ErrorView { cause: Some(cause), ..self }
    }

    pub open spec fn for_resource(self, id: IdView) -> ErrorView {
        ErrorView { resource_id: Some(id), ..self }
    }

    pub open spec fn timeout(self) -> ErrorView {
        ErrorView { kind: ProviderErrorKind::Timeout, ..self }
    }
}

impl ProviderError {
    /// An error with a message and nothing else.
    pub fn new(message: &str) -> (r: ProviderError)
        ensures
            r@ == ErrorView::new(message@),
    {
        ProviderError {
            kind: ProviderErrorKind::Internal,
            message: message.to_owned(),
            resource_id: None,
            cause: None,
            provider_name: None,
            operation: None,
            status: None,
            code: None,
            request_id: None,
        }
    }

    /// The error with what lies behind it.
    pub fn with_cause(self, cause: &str) -> (r: ProviderError)
        ensures
            r@ == self@.with_cause(cause@),
    {
        ProviderError { cause: Some(cause.to_owned()), ..self }
    }

    /// The error with the resource it is about.
    pub fn for_resource(self, id: ResourceId) -> (r: ProviderError)
        ensures
            r@ == self@.for_resource(id@),
    {
        ProviderError { resource_id: Some(id), ..self }
    }

    /// The error as one of a time limit.
    pub fn timeout(self) -> (r: ProviderError)
        ensures
            r@ == self@.timeout(),
    {
        ProviderError { kind: ProviderErrorKind::Timeout, ..self }
    }
}

/// What tells one custom type from another. A type without a provider has an
/// empty one.
#[derive(Debug)]
pub struct TypeIdentity {
    pub provider: String,
    pub segments: Vec<String>,
    pub kind: String,
}

/// A resource as it is. No attribute occurs twice.
#[derive(Debug)]
pub struct State {
    pub id: ResourceId,
    pub identifier: Option<String>,
    pub attributes: Vec<(String, WireValue)>,
    pub exists: bool,
}

#[verifier::ext_equal]
pub struct WireStateView {
    pub id: IdView,
    pub identifier: Option<Seq<char>>,
    pub attributes: Seq<(Seq<char>, WireView)>,
    pub exists: bool,
}

impl View for State {
    type V = WireStateView;

    open spec fn view(&self) -> WireStateView {
        WireStateView {
            id: self.id@,
            identifier: text::opt_string(self.identifier),
            attributes: value::entries_view(self.attributes@),
            exists: self.exists,
        }
    }
}

/// How a resource is to be treated.
#[derive(Debug, Clone, Copy, PartialEq, Eq, Structural)]
pub struct Directives {
    pub force_delete: bool,
    pub create_before_destroy: bool,
    pub prevent_destroy: bool,
}

impl Default for Directives {
    fn default() -> (r: Self)
        ensures
            r == (Directives { force_delete: false, create_before_destroy: false, prevent_destroy: false }),
    {
        Directives { force_delete: false, create_before_destroy: false, prevent_destroy: false }
    }
}

/// A resource that is wanted. No attribute occurs twice.
#[derive(Debug)]
pub struct Resource {
    pub id: ResourceId,
    pub attributes: Vec<(String, WireValue)>,
    pub directives: Directives,
}

#[verifier::ext_equal]
pub struct WireResourceView {
    pub id: IdView,
    pub attributes: Seq<(Seq<char>, WireView)>,
    pub directives: Directives,
}

impl View for Resource {
    type V = WireResourceView;

    open spec fn view(&self) -> WireResourceView {
        WireResourceView {
            id: self.id@,
            attributes: value::entries_view(self.attributes@),
            directives: self.directives,
        }
    }
}

/// The views of a list of resources.
pub open spec fn resources_view(s: Seq<Resource>) -> Seq<WireResourceView> {
    Seq::new(s.len(), |i: int| s[i]@)
}

/// An operation of a patch.
#[derive(Debug)]
pub struct PatchOp {
    pub kind: PatchOpKind,
    pub key: String,
    /// The value that an `Add` or a `Replace` puts there.
    pub value: Option<WireValue>,
}

#[verifier::ext_equal]
pub struct WireOpView {
    pub kind: PatchOpKind,
    pub key: Seq<char>,
    pub value: Option<WireView>,
}

impl View for PatchOp {
    type V = WireOpView;

    open spec fn view(&self) -> WireOpView {
        WireOpView { kind: self.kind, key: self.key@, value: value::opt_value(self.value) }
    }
}

/// The views of a list of operations.
pub open spec fn ops_view(s: Seq<PatchOp>) -> Seq<WireOpView> {
    Seq::new(s.len(), |i: int| s[i]@)
}

/// The change that a user wants.
#[derive(Debug)]
pub struct UpdatePatch {
    pub ops: Vec<PatchOp>,
}

/// What a read is asked with.
#[derive(Debug)]
pub struct ReadRequest;

/// What a create is asked with.
#[derive(Debug)]
pub struct CreateRequest {
    pub resource: Resource,
}

/// What an update is asked with.
#[derive(Debug)]
pub struct UpdateRequest {
    pub from: State,
    pub patch: UpdatePatch,
}

/// What a delete is asked with.
#[derive(Debug)]
pub struct DeleteRequest {
    pub directives: Directives,
}

impl Default for DeleteRequest {
    fn default() -> (r: Self)
        ensures
            r.directives == (Directives {
                force_delete: false,
                create_before_destroy: false,
                prevent_destroy: false,
            }),
    {
        DeleteRequest { directives: Directives::default() }
    }
}

/// What a provider says of itself.
#[derive(Debug)]
pub struct ProviderInfo {
    pub name: String,
    pub display_name: String,
    pub capabilities: Vec<String>,
    pub version: String,
}

#[verifier::ext_equal]
pub struct InfoView {
    pub name: Seq<char>,
    pub display_name: Seq<char>,
    pub capabilities: Seq<Seq<char>>,
    pub version: Seq<char>,
}

impl View for ProviderInfo {
    type V = InfoView;

    open spec fn view(&self) -> InfoView {
        InfoView {
            name: self.name@,
            display_name: self.display_name@,
            capabilities: text::strings(self.capabilities@),
            version: self.version@,
        }
    }
}

/// What a provider says of itself, with the version of the protocol that it
/// speaks.
#[derive(Debug)]
pub struct ProviderInfoEnvelope {
    pub info: ProviderInfo,
    /// Zero for a provider that does not say.
    pub protocol_version: u32,
}

/// A value that an editor can offer.
#[derive(Debug)]
pub struct CompletionValue {
    pub value: String,
    pub description: String,
}

/// A check of a resource that is named and not sent as code.
#[derive(Debug, Clone, Copy, PartialEq, Eq, Structural)]
pub enum ValidatorType {
    /// A map of tags is not a list of pairs of keys and values.
    TagsKeyValueCheck,
}

/// Whether resources of a type are managed or only looked up.
#[derive(Debug, Clone, Copy, PartialEq, Eq, Structural)]
pub enum SchemaKind {
    Managed,
    DataSource,
}

impl Default for SchemaKind {
    fn default() -> (r: Self)
        ensures
            r == SchemaKind::Managed,
    {
        SchemaKind::Managed
    }
}

/// Time limits and numbers of tries of a resource type.
#[derive(Debug, Clone, Copy, PartialEq, Eq)]
pub struct OperationConfig {
    pub delete_timeout_secs: Option<u64>,
    pub delete_max_retries: Option<u32>,
    pub create_timeout_secs: Option<u64>,
    pub create_max_retries: Option<u32>,
}

} // verus!
