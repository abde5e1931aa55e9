//! How the calls of the Cloud Control API go on: which errors are tried again
//! and after how long, when an operation has ended, and which page comes next.
use vstd::prelude::*;
use vstd::string::*;

use crate::json;
use crate::json::Json;
use crate::protocol::types::{ErrorView, ProviderError};
use crate::text;

verus! {

/// How often a create that failed is tried again.
pub const CREATE_RETRY_MAX_ATTEMPTS: u32 = 12;

/// How many seconds pass before a create is tried again for the first time.
pub const CREATE_RETRY_INITIAL_DELAY_SECS: u64 = 10;

/// How many seconds pass at most before a create is tried again.
pub const CREATE_RETRY_MAX_DELAY_SECS: u64 = 120;

/// How often a delete that failed is tried again.
pub const DELETE_RETRY_MAX_ATTEMPTS: u32 = 12;

/// How many seconds pass before a delete is tried again for the first time.
pub const DELETE_RETRY_INITIAL_DELAY_SECS: u64 = 10;

/// How many seconds pass at most before a delete is tried again.
pub const DELETE_RETRY_MAX_DELAY_SECS: u64 = 120;

/// How many seconds pass between two questions for the status of an operation.
pub const POLL_DELAY_SECS: u64 = 5;

/// What kind of failure a call reports.
#[derive(Debug)]
pub enum SdkErrorKind {
    /// The call took too long.
    Timeout,
    /// The request could not be sent.
    Dispatch,
    /// The service refused the request, with an error code or without one.
    Service(Option<String>),
    Other,
}

pub enum SdkKindView {
    Timeout,
    Dispatch,
    Service(Option<Seq<char>>),
    Other,
}

impl View for SdkErrorKind {
    type V = SdkKindView;

    open spec fn view(&self) -> SdkKindView {
        match *self {
            SdkErrorKind::Timeout => SdkKindView::Timeout,
            SdkErrorKind::Dispatch => SdkKindView::Dispatch,
            SdkErrorKind::Service(code) => SdkKindView::Service(text::opt_string(code)),
            SdkErrorKind::Other => SdkKindView::Other,
        }
    }
}

/// A call that failed.
#[derive(Debug)]
pub struct SdkFailure {
    pub kind: SdkErrorKind,
    /// What the failure says of itself.
    pub text: String,
}

/// An error code that says that something does not exist.
pub open spec fn not_found_code(code: Seq<char>) -> bool {
    code == "ResourceNotFoundException"@ || code == "HandlerNotFoundException"@
}

/// An error code of a condition that may pass.
pub open spec fn passing_code(code: Seq<char>) -> bool {
    ||| code == "ThrottlingException"@
    ||| code == "ServiceInternalErrorException"@
    ||| code == "HandlerFailureException"@
    ||| code == "HandlerInternalFailureException"@
    ||| code == "NetworkFailureException"@
    ||| code == "ConcurrentOperationException"@
    ||| code == "NotStabilizedException"@
}

/// A failure that says that something does not exist.
pub open spec fn not_found(kind: SdkKindView) -> bool {
    match kind {
        SdkKindView::Service(Some(code)) => not_found_code(code),
        _ => false,
    }
}

/// A failure of a condition that may pass.
pub open spec fn retryable(kind: SdkKindView) -> bool {
    match kind {
        SdkKindView::Timeout => true,
        SdkKindView::Dispatch => true,
        SdkKindView::Service(Some(code)) => passing_code(code),
        _ => false,
    }
}

/// A status message of a condition that may pass.
pub open spec fn retryable_message(message: Seq<char>) -> bool {
    ||| text::holds(message, "missing a source resource"@)
    ||| text::holds(message, "Throttling"@)
    ||| text::holds(message, "Rate exceeded"@)
    ||| text::holds(message, "RequestLimitExceeded"@)
    ||| text::holds(message, "ServiceUnavailable"@)
    ||| text::holds(message, "InternalError"@)
}

/// Whether a failure says that something does not exist.
pub fn is_not_found_error(error: &SdkErrorKind) -> (r: bool)
    ensures
        r == not_found(error@),
{
    match error {
        SdkErrorKind::Service(Some(code)) => text::same(code.as_str(), "ResourceNotFoundException") || text::same(
            code.as_str(),
            "HandlerNotFoundException",
        ),
        _ => false,
    }
}

/// Whether a failure is of a condition that may pass.
pub fn is_retryable_sdk_error(error: &SdkErrorKind) -> (r: bool)
    ensures
        r == retryable(error@),
{
    match error {
        SdkErrorKind::Timeout => true,
        SdkErrorKind::Dispatch => true,
        SdkErrorKind::Service(Some(code)) => {
            let c = code.as_str();
            text::same(c, "ThrottlingException") || text::same(c, "ServiceInternalErrorException") || text::same(
                c,
                "HandlerFailureException",
            ) || text::same(c, "HandlerInternalFailureException") || text::same(c, "NetworkFailureException")
                || text::same(c, "ConcurrentOperationException") || text::same(c, "NotStabilizedException")
        },
        _ => false,
    }
}

/// Whether a status message is of a condition that may pass. Status messages
/// have no codes, so their wording decides.
pub fn is_retryable_status_message(status_message: &str) -> (r: bool)
    ensures
        r == retryable_message(status_message@),
{
    text::contains(status_message, "missing a source resource") || text::contains(status_message, "Throttling")
        || text::contains(status_message, "Rate exceeded") || text::contains(status_message, "RequestLimitExceeded")
        || text::contains(status_message, "ServiceUnavailable") || text::contains(status_message, "InternalError")
}

/// How many seconds pass before the next try after `n` tries that failed.
pub open spec fn delay_after(n: nat, first: int, most: int) -> int
    decreases n,
{
    if n == 0 {
        first
    } else if delay_after((n - 1) as nat, first, most) * 2 <= most {
        delay_after((n - 1) as nat, first, most) * 2
    } else {
        most
    }
}

/// How often a call was tried again, and how long the next pause is.
#[derive(Debug, Clone, Copy, PartialEq, Eq, Structural)]
pub struct Backoff {
    pub attempt: u32,
    pub delay_secs: u64,
    pub first_delay_secs: u64,
    pub max_delay_secs: u64,
    pub max_attempts: u32,
}

impl Backoff {
    /// The pause is the one that belongs to the number of tries.
    pub open spec fn wf(self) -> bool {
        &&& self.attempt <= self.max_attempts
        &&& self.first_delay_secs <= self.max_delay_secs
        &&& self.max_delay_secs <= 0x7fff_ffff_ffff_ffff
        &&& self.delay_secs as int == delay_after(
            self.attempt as nat,
            self.first_delay_secs as int,
            self.max_delay_secs as int,
        )
        &&& self.delay_secs <= self.max_delay_secs
    }

    /// A call that was tried once more.
    pub open spec fn advanced(self) -> Backoff {
        Backoff {
            attempt: (self.attempt + 1) as u32,
            delay_secs: delay_after(
                (self.attempt + 1) as nat,
                self.first_delay_secs as int,
                self.max_delay_secs as int,
            ) as u64,
            ..self
        }
    }

    /// A create that has not been tried again yet.
    pub fn for_create() -> (r: Backoff)
        ensures
            r.wf(),
            r == (Backoff {
                attempt: 0,
                delay_secs: CREATE_RETRY_INITIAL_DELAY_SECS,
                first_delay_secs: CREATE_RETRY_INITIAL_DELAY_SECS,
                max_delay_secs: CREATE_RETRY_MAX_DELAY_SECS,
                max_attempts: CREATE_RETRY_MAX_ATTEMPTS,
            }),
    {
        Backoff {
            attempt: 0,
            delay_secs: CREATE_RETRY_INITIAL_DELAY_SECS,
            first_delay_secs: CREATE_RETRY_INITIAL_DELAY_SECS,
            max_delay_secs: CREATE_RETRY_MAX_DELAY_SECS,
            max_attempts: CREATE_RETRY_MAX_ATTEMPTS,
        }
    }

    /// A delete that has not been tried again yet.
    pub fn for_delete() -> (r: Backoff)
        ensures
            r.wf(),
            r == (Backoff {
                attempt: 0,
                delay_secs: DELETE_RETRY_INITIAL_DELAY_SECS,
                first_delay_secs: DELETE_RETRY_INITIAL_DELAY_SECS,
                max_delay_secs: DELETE_RETRY_MAX_DELAY_SECS,
                max_attempts: DELETE_RETRY_MAX_ATTEMPTS,
            }),
    {
        Backoff {
            attempt: 0,
            delay_secs: DELETE_RETRY_INITIAL_DELAY_SECS,
            first_delay_secs: DELETE_RETRY_INITIAL_DELAY_SECS,
            max_delay_secs: DELETE_RETRY_MAX_DELAY_SECS,
            max_attempts: DELETE_RETRY_MAX_ATTEMPTS,
        }
    }

    /// The pause before the next try, unless there were as many as there may be.
    pub fn retry(&mut self) -> (r: Option<u64>)
        requires
            old(self).wf(),
        ensures
            final(self).wf(),
            match r {
                Some(secs) => {
                    &&& old(self).attempt < old(self).max_attempts
                    &&& secs == old(self).delay_secs
                    &&& *final(self) == old(self).advanced()
                },
                None => old(self).attempt == old(self).max_attempts && *final(self) == *old(self),
            },
    {
        if self.attempt >= self.max_attempts {
            return None;
        }
        let secs: u64 = self.delay_secs;
        self.attempt = self.attempt + 1;
        self.delay_secs = if secs * 2 <= self.max_delay_secs {
            secs * 2
        } else {
            self.max_delay_secs
        };
        Some(secs)
    }
}

/// The pauses double until they are as long as they may be, and are never
/// longer.
pub proof fn law_delays_double(n: nat, first: int, most: int)
    requires
        0 < first <= most,
    ensures
        first <= delay_after(n, first, most) <= most,
        delay_after(n + 1, first, most) == if delay_after(n, first, most) * 2 <= most {
            delay_after(n, first, most) * 2
        } else {
            most
        },
        delay_after(n, first, most) <= delay_after(n + 1, first, most),
    decreases n,
{
    if n > 0 {
        law_delays_double((n - 1) as nat, first, most);
    }
}

/// The seconds that pass in the pauses before the first `n` further tries.
pub open spec fn total_delay(n: nat, first: int, most: int) -> int
    decreases n,
{
    if n == 0 {
        0
    } else {
        total_delay((n - 1) as nat, first, most) + delay_after((n - 1) as nat, first, most)
    }
}

/// However often a call fails, no more time passes in pauses than the longest
/// pause for every further try.
pub proof fn law_total_delay(n: nat, first: int, most: int)
    requires
        0 < first <= most,
    ensures
        0 <= total_delay(n, first, most) <= n * most,
    decreases n,
{
    if n > 0 {
        law_total_delay((n - 1) as nat, first, most);
        law_delays_double((n - 1) as nat, first, most);
        assert((n - 1) * most + most == n * most) by (nonlinear_arith)
            requires
                n > 0,
        ;
    }
}

/// Creates and deletes are tried again equally often, after equal pauses.
pub proof fn law_create_and_delete_alike()
    ensures
        CREATE_RETRY_MAX_ATTEMPTS == DELETE_RETRY_MAX_ATTEMPTS,
        CREATE_RETRY_INITIAL_DELAY_SECS == DELETE_RETRY_INITIAL_DELAY_SECS,
        CREATE_RETRY_MAX_DELAY_SECS == DELETE_RETRY_MAX_DELAY_SECS,
{
}

/// A call after `n` further tries.
pub open spec fn after_tries(b: Backoff, n: nat) -> Backoff
    decreases n,
{
    if n == 0 {
        b
    } else {
        after_tries(b, (n - 1) as nat).advanced()
    }
}

/// A call that keeps failing is tried again as often as it may be and then no
/// more, each time after the pause that belongs to the number of tries.
pub proof fn law_tries_are_bounded(b: Backoff, n: nat, step: CallStep, after: Backoff, error: ErrorView)
    requires
        b.wf(),
        b.first_delay_secs > 0,
        b.attempt + n <= b.max_attempts,
        retried_or_failed(after_tries(b, n), after, true, error, step),
    ensures
        after_tries(b, n).wf(),
        after_tries(b, n).attempt == b.attempt + n,
        b.attempt + n < b.max_attempts ==> step == CallStep::Retry(
            delay_after((b.attempt + n) as nat, b.first_delay_secs as int, b.max_delay_secs as int) as u64,
        ) && after == after_tries(b, n + 1),
        b.attempt + n == b.max_attempts ==> step is Fail && after == after_tries(b, n),
{
    lemma_tries(b, n);
}

proof fn lemma_tries(b: Backoff, n: nat)
    requires
        b.wf(),
        b.first_delay_secs > 0,
        b.attempt + n <= b.max_attempts,
    ensures
        after_tries(b, n).wf(),
        after_tries(b, n).attempt == b.attempt + n,
        after_tries(b, n).max_attempts == b.max_attempts,
        after_tries(b, n).first_delay_secs == b.first_delay_secs,
        after_tries(b, n).max_delay_secs == b.max_delay_secs,
    decreases n,
{
    if n > 0 {
        lemma_tries(b, (n - 1) as nat);
        law_delays_double((b.attempt + n - 1) as nat, b.first_delay_secs as int, b.max_delay_secs as int);
    }
}

/// How a create or a delete goes on.
#[derive(Debug)]
pub enum CallStep {
    /// Wait for the operation with this token.
    Wait(String),
    /// Pause for so many seconds, then make the call again.
    Retry(u64),
    /// The operation has ended; the resource has this identifier.
    Done(String),
    Fail(ProviderError),
}

/// A call that failed is tried again after the pause that is due, if the
/// condition may pass and there were not too many tries; otherwise it fails.
pub open spec fn retried_or_failed(
    before: Backoff,
    after: Backoff,
    may_pass: bool,
    error: ErrorView,
    step: CallStep,
) -> bool {
    if may_pass && before.attempt < before.max_attempts {
        step == CallStep::Retry(before.delay_secs) && after == before.advanced()
    } else {
        (step matches CallStep::Fail(e) && e@ == error) && after == before
    }
}

fn retry_or_fail(state: &mut Backoff, may_pass: bool, error: ProviderError) -> (r: CallStep)
    requires
        old(state).wf(),
    ensures
        final(state).wf(),
        retried_or_failed(*old(state), *final(state), may_pass, error@, r),
{
    if may_pass {
        if let Some(secs) = state.retry() {
            return CallStep::Retry(secs);
        }
    }
    CallStep::Fail(error)
}

/// How a create goes on after the reply to the call: a token to wait for, or
/// the lack of one, or a failure.
pub fn on_create_reply(state: &mut Backoff, reply: Result<Option<String>, SdkFailure>) -> (r: CallStep)
    requires
        old(state).wf(),
    ensures
        final(state).wf(),
        match reply {
            Ok(Some(token)) => r == CallStep::Wait(token) && *final(state) == *old(state),
            Ok(None) => (r matches CallStep::Fail(e) && e@ == ErrorView::new("No request token returned"@))
                && *final(state) == *old(state),
            Err(e) => retried_or_failed(
                *old(state),
                *final(state),
                retryable(e.kind@),
                ErrorView::new("Failed to create resource"@).with_cause(e.text@),
                r,
            ),
        },
{
    match reply {
        Ok(Some(token)) => CallStep::Wait(token),
        Ok(None) => CallStep::Fail(ProviderError::new("No request token returned")),
        Err(e) => retry_or_fail(
            state,
            is_retryable_sdk_error(&e.kind),
            ProviderError::new("Failed to create resource").with_cause(e.text.as_str()),
        ),
    }
}

/// How a delete goes on after the reply to the call: without a token the
/// resource is gone.
pub fn on_delete_reply(state: &mut Backoff, reply: Result<Option<String>, SdkFailure>) -> (r: CallStep)
    requires
        old(state).wf(),
    ensures
        final(state).wf(),
        match reply {
            Ok(Some(token)) => r == CallStep::Wait(token) && *final(state) == *old(state),
            Ok(None) => (r matches CallStep::Done(id) && id@ == ""@) && *final(state) == *old(state),
            Err(e) => retried_or_failed(
                *old(state),
                *final(state),
                retryable(e.kind@),
                ErrorView::new("Failed to delete resource"@).with_cause(e.text@),
                r,
            ),
        },
{
    match reply {
        Ok(Some(token)) => CallStep::Wait(token),
        Ok(None) => CallStep::Done("".to_owned()),
        Err(e) => retry_or_fail(
            state,
            is_retryable_sdk_error(&e.kind),
            ProviderError::new("Failed to delete resource").with_cause(e.text.as_str()),
        ),
    }
}

/// How a create or a delete goes on after its operation has ended.
pub fn on_operation_end(state: &mut Backoff, outcome: Result<String, ProviderError>) -> (r: CallStep)
    requires
        old(state).wf(),
    ensures
        final(state).wf(),
        match outcome {
            Ok(identifier) => r == CallStep::Done(identifier) && *final(state) == *old(state),
            Err(e) => retried_or_failed(*old(state), *final(state), retryable_message(e@.message), e@, r),
        },
{
    match outcome {
        Ok(identifier) => CallStep::Done(identifier),
        Err(e) => {
            let may_pass = is_retryable_status_message(e.message.as_str());
            retry_or_fail(state, may_pass, e)
        },
    }
}

/// How often the status of an operation on a type is asked for at most.
pub open spec fn polling_limit(typename: Seq<char>, operation: Seq<char>) -> u32 {
    if operation == "delete"@ && text::holds(typename, "IPAM"@) {
        360
    } else {
        120
    }
}

/// The name of a pool holds that of its manager.
proof fn lemma_pools_of_managers(typename: Seq<char>)
    ensures
        text::holds(typename, "IPAMPool"@) ==> text::holds(typename, "IPAM"@),
{
    if text::holds(typename, "IPAMPool"@) {
        reveal_strlit("IPAMPool");
        reveal_strlit("IPAM");
        let i = choose|i: int| text::stands_at(typename, "IPAMPool"@, i);
        let whole = typename.subrange(i, i + 8);
        assert(typename.subrange(i, i + 4) =~= whole.subrange(0, 4));
        assert(whole.subrange(0, 4) =~= "IPAM"@);
        assert(text::stands_at(typename, "IPAM"@, i));
    }
}

/// How often the status of an operation is asked for at most. Deleting an
/// address manager or one of its pools can take half an hour.
pub fn max_polling_attempts(typename: &str, operation: &str) -> (r: u32)
    ensures
        r == polling_limit(typename@, operation@),
        r == if operation@ == "delete"@ && (text::holds(typename@, "IPAMPool"@) || text::holds(typename@, "IPAM"@)) {
            360u32
        } else {
            120u32
        },
{
    proof {
        lemma_pools_of_managers(typename@);
    }
    if text::same(operation, "delete") && (text::contains(typename, "IPAMPool") || text::contains(typename, "IPAM")) {
        return 360;
    }
    120
}

/// How far an operation is.
#[derive(Debug, Clone, Copy, PartialEq, Eq, Structural)]
pub enum OperationStatus {
    Success,
    Failed,
    CancelComplete,
    /// Any other status: the operation has not ended.
    Running,
}

/// What is reported of an operation.
#[derive(Debug)]
pub struct Progress {
    pub status: Option<OperationStatus>,
    pub identifier: Option<String>,
    pub status_message: Option<String>,
}

/// How waiting for an operation goes on.
#[derive(Debug)]
pub enum PollStep {
    /// Ask again at once.
    Again,
    /// Ask again after so many seconds.
    Pause(u64),
    /// The operation has ended; the resource has this identifier.
    Finished(String),
    Fail(ProviderError),
}

/// A text, or another where there is none.
pub open spec fn text_or(o: Option<Seq<char>>, other: Seq<char>) -> Seq<char> {
    match o {
        Some(s) => s,
        None => other,
    }
}

/// How often the status of an operation may still be asked for.
#[derive(Debug, Clone, Copy, PartialEq, Eq, Structural)]
pub struct Polling {
    pub remaining: u32,
}

impl Polling {
    /// Counts one question, or fails where there were as many as there may be.
    pub fn ask(&mut self) -> (r: Result<(), ProviderError>)
        ensures
            match r {
                Ok(_) => old(self).remaining > 0 && final(self).remaining == old(self).remaining - 1,
                Err(e) => old(self).remaining == 0 && final(self).remaining == 0 && e@ == ErrorView::new(
                    "Operation timed out"@,
                ).timeout(),
            },
    {
        if self.remaining == 0 {
            return Err(ProviderError::new("Operation timed out").timeout());
        }
        self.remaining = self.remaining - 1;
        Ok(())
    }
}

/// How waiting goes on after the reply to a question for the status.
pub fn on_status(reply: Result<Option<Progress>, SdkFailure>) -> (r: PollStep)
    ensures
        match reply {
            Err(e) => r matches PollStep::Fail(f) && f@ == ErrorView::new("Failed to get operation status"@).with_cause(
                e.text@,
            ),
            Ok(None) => r is Again,
            Ok(Some(p)) => match p.status {
                Some(OperationStatus::Success) => r matches PollStep::Finished(id) && id@ == text_or(
                    text::opt_string(p.identifier),
                    ""@,
                ),
                Some(OperationStatus::Failed) => r matches PollStep::Fail(f) && f@ == ErrorView::new(
                    "Operation failed: "@ + text_or(text::opt_string(p.status_message), "Unknown error"@),
                ),
                Some(OperationStatus::CancelComplete) => r matches PollStep::Fail(f) && f@ == ErrorView::new(
                    "Operation was cancelled"@,
                ),
                _ => r == PollStep::Pause(POLL_DELAY_SECS),
            },
        },
{
    match reply {
        Err(e) => PollStep::Fail(ProviderError::new("Failed to get operation status").with_cause(e.text.as_str())),
        Ok(None) => PollStep::Again,
        Ok(Some(p)) => match p.status {
            Some(OperationStatus::Success) => match p.identifier {
                Some(id) => PollStep::Finished(id),
                None => PollStep::Finished("".to_owned()),
            },
            Some(OperationStatus::Failed) => {
                let mut message = "Operation failed: ".to_owned();
                match p.status_message {
                    Some(m) => message.append(m.as_str()),
                    None => message.append("Unknown error"),
                }
                PollStep::Fail(ProviderError::new(message.as_str()))
            },
            Some(OperationStatus::CancelComplete) => PollStep::Fail(ProviderError::new("Operation was cancelled")),
            _ => PollStep::Pause(POLL_DELAY_SECS),
        },
    }
}

/// What is said of properties that are no JSON.
pub open spec fn no_properties(reason: Seq<char>) -> ErrorView {
    ErrorView::new("Failed to parse resource properties"@).with_cause(reason)
}

/// The properties of a resource, from their text.
pub fn parse_resource_properties(props_str: &str) -> (r: Result<Json, ProviderError>)
    ensures
        match json::parsed(props_str@) {
            Ok(j) => r matches Ok(props) && props@ == j,
            Err(reason) => r matches Err(e) && e@ == no_properties(reason),
        },
{
    parsed_properties(json::parse(props_str))
}

/// The properties of a resource, from what reading their text gave.
pub fn parsed_properties(document: Result<Json, String>) -> (r: Result<Json, ProviderError>)
    ensures
        match document {
            Ok(j) => r == Ok::<Json, ProviderError>(j),
            Err(reason) => r matches Err(e) && e@ == no_properties(reason@),
        },
{
    match document {
        Ok(j) => Ok(j),
        Err(reason) => Err(ProviderError::new("Failed to parse resource properties").with_cause(reason.as_str())),
    }
}

/// What fetching the properties of a resource gives: none where the reply holds
/// none or says that there is no such resource.
pub fn fetched_properties(reply: Result<Option<String>, SdkFailure>) -> (r: Result<Option<Json>, ProviderError>)
    ensures
        match reply {
            Ok(Some(props)) => match json::parsed(props@) {
                Ok(j) => (r matches Ok(Some(doc)) && doc@ == j),
                Err(reason) => (r matches Err(e) && e@ == no_properties(reason)),
            },
            Ok(None) => r == Ok::<Option<Json>, ProviderError>(None),
            Err(e) => if not_found(e.kind@) {
                r == Ok::<Option<Json>, ProviderError>(None)
            } else {
                r matches Err(f) && f@ == ErrorView::new("Failed to get resource"@).with_cause(e.text@)
            },
        },
{
    match reply {
        Ok(Some(props)) => match parse_resource_properties(props.as_str()) {
            Ok(j) => Ok(Some(j)),
            Err(e) => Err(e),
        },
        Ok(None) => Ok(None),
        Err(e) => if is_not_found_error(&e.kind) {
            Ok(None)
        } else {
            Err(ProviderError::new("Failed to get resource").with_cause(e.text.as_str()))
        },
    }
}

/// A version of an object of a bucket, or a marker of a deleted one.
#[derive(Debug)]
pub struct VersionEntry {
    pub key: Option<String>,
    pub version_id: Option<String>,
}

/// A page of the versions of the objects of a bucket.
#[derive(Debug)]
pub struct VersionsPage {
    pub versions: Vec<VersionEntry>,
    pub delete_markers: Vec<VersionEntry>,
    pub is_truncated: Option<bool>,
    pub next_key_marker: Option<String>,
    pub next_version_id_marker: Option<String>,
}

/// The entries that have a key, each with its version.
pub open spec fn keyed_versions(entries: Seq<VersionEntry>) -> Seq<(Seq<char>, Option<Seq<char>>)>
    decreases entries.len(),
{
    if entries.len() == 0 {
        Seq::empty()
    } else {
        let before = keyed_versions(entries.drop_last());
        match entries.last().key {
            Some(k) => before.push((k@, text::opt_string(entries.last().version_id))),
            None => before,
        }
    }
}

/// The views of what is to be deleted.
pub open spec fn deletions_view(s: Seq<(String, Option<String>)>) -> Seq<(Seq<char>, Option<Seq<char>>)> {
    Seq::new(s.len(), |i: int| (s[i].0@, text::opt_string(s[i].1)))
}

fn clone_opt(o: &Option<String>) -> (r: Option<String>)
    ensures
        text::opt_string(r) == text::opt_string(*o),
{
    match o {
        Some(s) => Some(s.clone()),
        None => None,
    }
}

fn add_versions(out: &mut Vec<(String, Option<String>)>, entries: &Vec<VersionEntry>)
    ensures
        deletions_view(final(out)@) == deletions_view(old(out)@) + keyed_versions(entries@),
{
    let ghost start = deletions_view(out@);
    let mut i: usize = 0;
    assert(start + keyed_versions(entries@.take(0)) =~= start);
    while i < entries.len()
        invariant
            i <= entries.len(),
            deletions_view(out@) == start + keyed_versions(entries@.take(i as int)),
        decreases entries.len() - i,
    {
        let ghost before = deletions_view(out@);
        proof {
            assert(entries@.take(i + 1).drop_last() =~= entries@.take(i as int));
            assert(entries@.take(i + 1).last() == entries@[i as int]);
        }
        if let Some(k) = &entries[i].key {
            let item = (k.clone(), clone_opt(&entries[i].version_id));
            let ghost view = (item.0@, text::opt_string(item.1));
            out.push(item);
            assert(deletions_view(out@) =~= before.push(view));
            assert(deletions_view(out@) =~= start + keyed_versions(entries@.take(i + 1)));
        }
        i = i + 1;
    }
    assert(entries@.take(i as int) =~= entries@);
}

impl VersionsPage {
    /// What is to be deleted to empty the bucket of this page.
    pub open spec fn all_deletions(self) -> Seq<(Seq<char>, Option<Seq<char>>)> {
        keyed_versions(self.versions@) + keyed_versions(self.delete_markers@)
    }

    /// What is to be deleted to empty the bucket of this page: the versions and
    /// then the markers, without those that have no key.
    pub fn deletions(&self) -> (r: Vec<(String, Option<String>)>)
        ensures
            deletions_view(r@) == self.all_deletions(),
            deletions_view(r@) == keyed_versions(self.versions@) + keyed_versions(self.delete_markers@),
    {
        let mut out: Vec<(String, Option<String>)> = Vec::new();
        assert(deletions_view(out@) =~= Seq::empty());
        add_versions(&mut out, &self.versions);
        assert(deletions_view(out@) =~= keyed_versions(self.versions@));
        add_versions(&mut out, &self.delete_markers);
        out
    }

    /// Where the next page begins, if there is one.
    pub fn next_page(&self) -> (r: Option<(Option<String>, Option<String>)>)
        ensures
            match r {
                Some((key, version)) => {
                    &&& self.is_truncated == Some(true)
                    &&& text::opt_string(key) == text::opt_string(self.next_key_marker)
                    &&& text::opt_string(version) == text::opt_string(self.next_version_id_marker)
                },
                None => self.is_truncated != Some(true),
            },
    {
        match self.is_truncated {
            Some(true) => Some((clone_opt(&self.next_key_marker), clone_opt(&self.next_version_id_marker))),
            _ => None,
        }
    }
}

} // verus!
